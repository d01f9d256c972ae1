use vstd::prelude::*;
use vstd::string::StringExecFns;

use crate::errors::Error;
use crate::ledger::{sum_of, Ledger};
use crate::metadata::Metadata;

verus! {

/// The ledger contract: the balance map plus the immutable token
/// description. Both transfer protocols live here.
pub struct Contract {
    pub token: Ledger,
    pub metadata: Metadata,
}

/// The resumption token of a transfer-with-call: phase one has committed,
/// the receiver has been notified, and these values are everything phase two
/// needs when the platform delivers the outcome.
pub struct PendingTransfer {
    pub sender: String,
    pub receiver: String,
    pub amount: u128,
    pub message: String,
}

impl PendingTransfer {
    /// Phase one only ever commits a positive transfer between two distinct
    /// accounts.
    pub open spec fn wf(self) -> bool {
        &&& self.sender@ != self.receiver@
        &&& self.amount > 0
    }
}

/// What the platform reports when the receiver's notification entrypoint
/// finishes: either the amount the receiver declares unused, or the failure
/// of the remote call (a panic, an exhausted compute budget, a missing
/// account).
pub enum CallbackOutcome {
    Declared(u128),
    Failed,
}

/// The outcome of phase two: how much went back to the sender, and how much
/// the receiver declared unused but keeps because the sender's record was
/// gone at resolution time.
pub struct Resolution {
    pub refunded: u128,
    pub forfeited: u128,
}

/// The amount treated as unused at resolution: what the receiver declared,
/// clamped to the transferred amount; a failed or malformed callback counts
/// as the full amount.
pub open spec fn spec_unused(amount: u128, outcome: CallbackOutcome) -> u128 {
    match outcome {
        CallbackOutcome::Declared(u) => if u <= amount {
            u
        } else {
            amount
        },
        CallbackOutcome::Failed => amount,
    }
}

/// The amount phase two may move back: the unused amount, clamped to the
/// receiver's balance at resolution time (the receiver may have spent tokens
/// while the call was in flight).
pub open spec fn spec_refundable(l: Ledger, p: PendingTransfer, outcome: CallbackOutcome) -> u128 {
    let u = spec_unused(p.amount, outcome);
    if u <= l.spec_balance(p.receiver@) {
        u
    } else {
        l.spec_balance(p.receiver@)
    }
}

/// Everything a committed transfer changes and preserves: the amount moves
/// from sender to receiver, the supply and the metadata stand still, and no
/// other account is touched.
pub open spec fn transfer_effect(
    pre: Contract,
    post: Contract,
    sender: Seq<char>,
    receiver: Seq<char>,
    amount: u128,
) -> bool {
    &&& post.token.spec_balance(sender) == pre.token.spec_balance(sender) - amount
    &&& post.token.spec_balance(receiver) == pre.token.spec_balance(receiver) + amount
    &&& post.token.total_supply == pre.token.total_supply
    &&& post.metadata == pre.metadata
    &&& forall|a: Seq<char>| #[trigger]
        post.token.spec_registered(a) == pre.token.spec_registered(a)
    &&& forall|a: Seq<char>|
        a != sender && a != receiver ==> #[trigger] post.token.spec_balance(a)
            == pre.token.spec_balance(a)
}

/// The full contract of a synchronous transfer: which error comes on which
/// inputs — each if and only if — and the state the call leaves.
pub open spec fn transfer_rel(
    pre: Contract,
    post: Contract,
    sender: Seq<char>,
    receiver: Seq<char>,
    amount: u128,
    r: Result<(), Error>,
) -> bool {
    &&& amount == 0 ==> r == Err::<(), Error>(Error::ZeroAmount) && post == pre
    &&& amount != 0 && sender == receiver ==> r == Err::<(), Error>(Error::SelfTransfer) && post
        == pre
    &&& amount != 0 && sender != receiver && pre.token.spec_balance(sender) < amount ==> r
        == Err::<(), Error>(Error::InsufficientBalance) && post == pre
    &&& amount != 0 && sender != receiver && pre.token.spec_balance(sender) >= amount
        && !pre.token.spec_registered(receiver) ==> r == Err::<(), Error>(
        Error::ReceiverNotRegistered,
    ) && post == pre
    &&& amount != 0 && sender != receiver && pre.token.spec_balance(sender) >= amount
        && pre.token.spec_registered(receiver) ==> r == Ok::<(), Error>(()) && transfer_effect(
        pre,
        post,
        sender,
        receiver,
        amount,
    )
}

/// The full contract of phase one of a transfer-with-call: the same cases as
/// a synchronous transfer, and on success a well-formed resumption token
/// carrying the call's parameters.
pub open spec fn transfer_call_rel(
    pre: Contract,
    post: Contract,
    sender: Seq<char>,
    receiver: Seq<char>,
    amount: u128,
    message: Seq<char>,
    r: Result<PendingTransfer, Error>,
) -> bool {
    &&& amount == 0 ==> r == Err::<PendingTransfer, Error>(Error::ZeroAmount) && post == pre
    &&& amount != 0 && sender == receiver ==> r == Err::<PendingTransfer, Error>(
        Error::SelfTransfer,
    ) && post == pre
    &&& amount != 0 && sender != receiver && pre.token.spec_balance(sender) < amount ==> r
        == Err::<PendingTransfer, Error>(Error::InsufficientBalance) && post == pre
    &&& amount != 0 && sender != receiver && pre.token.spec_balance(sender) >= amount
        && !pre.token.spec_registered(receiver) ==> r == Err::<PendingTransfer, Error>(
        Error::ReceiverNotRegistered,
    ) && post == pre
    &&& amount != 0 && sender != receiver && pre.token.spec_balance(sender) >= amount
        && pre.token.spec_registered(receiver) ==> (r matches Ok(p) && p.sender@ == sender
        && p.receiver@ == receiver && p.amount == amount && p.message@ == message && p.wf()
        && transfer_effect(pre, post, sender, receiver, amount))
}

/// The full contract of phase two. Whatever happened while the call was in
/// flight: the supply never moves; the refundable part goes back to the
/// sender when its record still exists, and otherwise stays with the
/// receiver, reported as forfeited.
pub open spec fn resolve_rel(
    pre: Contract,
    post: Contract,
    p: PendingTransfer,
    outcome: CallbackOutcome,
    res: Resolution,
) -> bool {
    let refundable = spec_refundable(pre.token, p, outcome);
    &&& post.token.total_supply == pre.token.total_supply
    &&& post.metadata == pre.metadata
    &&& forall|a: Seq<char>| #[trigger]
        post.token.spec_registered(a) == pre.token.spec_registered(a)
    &&& pre.token.spec_registered(p.sender@) ==> res.refunded == refundable && res.forfeited == 0
        && post.token.spec_balance(p.receiver@) == pre.token.spec_balance(p.receiver@)
            - refundable && post.token.spec_balance(p.sender@) == pre.token.spec_balance(p.sender@)
        + refundable
    &&& !pre.token.spec_registered(p.sender@) ==> res.refunded == 0 && res.forfeited == refundable
        && post == pre
    &&& forall|a: Seq<char>|
        a != p.sender@ && a != p.receiver@ ==> #[trigger] post.token.spec_balance(a)
            == pre.token.spec_balance(a)
}

impl Contract {
    /// Both standing invariants: the conservation law on the ledger and the
    /// validity of the immutable metadata.
    pub open spec fn wf(self) -> bool {
        &&& self.token.wf()
        &&& self.metadata.valid()
    }

    /// Initializes the ledger: the owner is implicitly registered and the
    /// whole supply is minted onto its record. The only moment tokens are
    /// ever created.
    pub fn new(owner_id: String, total_supply: u128, metadata: Metadata) -> (c: Contract)
        requires
            metadata.valid(),
        ensures
            c.wf(),
            c.metadata == metadata,
            c.token.total_supply == total_supply,
            c.token.spec_registered(owner_id@),
            c.token.spec_balance(owner_id@) == total_supply,
            forall|a: Seq<char>| a != owner_id@ ==> !#[trigger] c.token.spec_registered(a),
    {
        let mut token = Ledger::new();
        token.create_record(&owner_id);
        token.mint(&owner_id, total_supply);
        Contract { token, metadata }
    }

    /// Initializes the ledger with the default metadata record built from a
    /// name, a symbol and a decimal precision.
    pub fn new_default_metadata(
        owner_id: String,
        total_supply: u128,
        name: String,
        symbol: String,
        decimals: u8,
    ) -> (c: Contract)
        ensures
            c.wf(),
            c.token.total_supply == total_supply,
            c.token.spec_registered(owner_id@),
            c.token.spec_balance(owner_id@) == total_supply,
            forall|a: Seq<char>| a != owner_id@ ==> !#[trigger] c.token.spec_registered(a),
            c.metadata.name == name,
            c.metadata.symbol == symbol,
            c.metadata.decimals == decimals,
            c.metadata.icon is None,
            c.metadata.reference is None,
    {
        Contract::new(owner_id, total_supply, Metadata::new_default(name, symbol, decimals))
    }

    /// The immutable token description.
    pub fn metadata(&self) -> (m: &Metadata)
        ensures
            m == &self.metadata,
    {
        &self.metadata
    }

    /// Balance of `account`; 0 when it holds no record.
    pub fn balance_of(&self, account: &String) -> (r: u128)
        requires
            self.wf(),
        ensures
            r == self.token.spec_balance(account@),
    {
        self.token.balance_of(account)
    }

    /// The conserved total supply.
    pub fn total_supply(&self) -> (r: u128)
        ensures
            r == self.token.total_supply,
    {
        self.token.total_supply()
    }

    /// Moves `amount` from `sender` to `receiver` in one atomic step: both
    /// the debit and the credit commit, or neither does. The memo is for the
    /// caller's records and does not influence the outcome.
    #[allow(unused_variables)]
    pub fn transfer(
        &mut self,
        sender: &String,
        receiver: &String,
        amount: u128,
        memo: Option<String>,
    ) -> (r: Result<(), Error>)
        requires
            old(self).wf(),
        ensures
            final(self).wf(),
            transfer_rel(*old(self), *final(self), sender@, receiver@, amount, r),
    {
        if amount == 0 {
            return Err(Error::ZeroAmount);
        }
        if *sender == *receiver {
            return Err(Error::SelfTransfer);
        }
        let sbal = self.token.balance_of(sender);
        if sbal < amount {
            return Err(Error::InsufficientBalance);
        }
        if !self.token.is_registered(receiver) {
            return Err(Error::ReceiverNotRegistered);
        }
        match self.token.debit(sender, amount) {
            Ok(()) => {},
            Err(e) => {
                proof {
                    assert(false);
                }
                return Err(e);
            },
        }
        proof {
            assert(sum_of(self.token.accounts@) + amount <= u128::MAX);
        }
        match self.token.credit(receiver, amount) {
            Ok(()) => {},
            Err(e) => {
                proof {
                    assert(false);
                }
                return Err(e);
            },
        }
        Ok(())
    }

    /// Phase one of a transfer-with-call: commits exactly like `transfer`,
    /// then hands back the resumption token that the dispatch of the
    /// receiver's notification and the later resolution are built on. Once
    /// this returns, the transfer is visible to every subsequent call and
    /// can never be rolled back — only compensated by `resolve_transfer`.
    #[allow(unused_variables)]
    pub fn transfer_and_call(
        &mut self,
        sender: &String,
        receiver: &String,
        amount: u128,
        memo: Option<String>,
        message: String,
    ) -> (r: Result<PendingTransfer, Error>)
        requires
            old(self).wf(),
        ensures
            final(self).wf(),
            transfer_call_rel(
                *old(self),
                *final(self),
                sender@,
                receiver@,
                amount,
                message@,
                r,
            ),
    {
        match self.transfer(sender, receiver, amount, memo) {
            Ok(()) => Ok(
                PendingTransfer {
                    sender: sender.clone(),
                    receiver: receiver.clone(),
                    amount,
                    message,
                },
            ),
            Err(e) => Err(e),
        }
    }

    /// Phase two of a transfer-with-call, run when the platform delivers the
    /// outcome of the receiver's notification. The unused amount — the full
    /// amount on a failed callback — is clamped to the receiver's balance of
    /// this moment and moved back to the sender; a sender whose record is
    /// gone forfeits it to the receiver instead. Every branch leaves the
    /// supply untouched.
    pub fn resolve_transfer(&mut self, pending: &PendingTransfer, outcome: CallbackOutcome) -> (r:
        Resolution)
        requires
            old(self).wf(),
            pending.wf(),
        ensures
            final(self).wf(),
            resolve_rel(*old(self), *final(self), *pending, outcome, r),
    {
        let unused = match outcome {
            CallbackOutcome::Declared(u) => if u <= pending.amount {
                u
            } else {
                pending.amount
            },
            CallbackOutcome::Failed => pending.amount,
        };
        let rbal = self.token.balance_of(&pending.receiver);
        let refundable = if unused <= rbal {
            unused
        } else {
            rbal
        };
        if self.token.is_registered(&pending.sender) {
            if refundable > 0 {
                match self.token.debit(&pending.receiver, refundable) {
                    Ok(()) => {},
                    Err(_) => {
                        proof {
                            assert(false);
                        }
                    },
                }
                proof {
                    assert(sum_of(self.token.accounts@) + refundable <= u128::MAX);
                }
                match self.token.credit(&pending.sender, refundable) {
                    Ok(()) => {},
                    Err(_) => {
                        proof {
                            assert(false);
                        }
                    },
                }
            }
            Resolution { refunded: refundable, forfeited: 0 }
        } else {
            // The sender's record is gone: re-crediting would create an
            // account out of thin air, so the unused amount stays with the
            // receiver and the supply is unaffected.
            Resolution { refunded: 0, forfeited: refundable }
        }
    }
}

/// A transfer-with-call followed by its resolution, with no other call
/// touching the two accounts in between, gives the receiver exactly the
/// accepted part and the sender exactly the unused part back — unless the
/// sender's record disappeared, in which case the unused part stays with the
/// receiver. The supply never moves across the whole round trip.
pub proof fn lemma_transfer_call_round_trip(
    pre: Contract,
    mid: Contract,
    post: Contract,
    p: PendingTransfer,
    outcome: CallbackOutcome,
    res: Resolution,
)
    requires
        pre.wf(),
        p.wf(),
        transfer_effect(pre, mid, p.sender@, p.receiver@, p.amount),
        resolve_rel(mid, post, p, outcome, res),
    ensures
        post.token.total_supply == pre.token.total_supply,
        spec_refundable(mid.token, p, outcome) == spec_unused(p.amount, outcome),
        mid.token.spec_registered(p.sender@) ==> post.token.spec_balance(p.receiver@)
            == pre.token.spec_balance(p.receiver@) + p.amount - spec_unused(p.amount, outcome)
            && post.token.spec_balance(p.sender@) == pre.token.spec_balance(p.sender@) - p.amount
            + spec_unused(p.amount, outcome) && res.refunded == spec_unused(p.amount, outcome),
        !mid.token.spec_registered(p.sender@) ==> post.token.spec_balance(p.receiver@)
            == pre.token.spec_balance(p.receiver@) + p.amount && res.forfeited == spec_unused(
            p.amount,
            outcome,
        ),
{
    let u = spec_unused(p.amount, outcome);
    assert(u <= p.amount);
    assert(mid.token.spec_balance(p.receiver@) == pre.token.spec_balance(p.receiver@) + p.amount);
    assert(spec_refundable(mid.token, p, outcome) == u);
}

} // verus!
