use vstd::prelude::*;

use crate::errors::Error;
use crate::ledger::{register_rel, unregister_rel};
use crate::metadata::Metadata;
use crate::token::{
    resolve_rel, transfer_call_rel, transfer_rel, CallbackOutcome, Contract, PendingTransfer,
    Resolution,
};

verus! {

/// The root aggregate: a contract instance that may not have been
/// constructed yet. Every entrypoint except initialization reports
/// `NotInitialized` while the instance is absent, and initialization
/// reports `AlreadyInitialized` once it is present.
pub struct ContractRoot {
    pub state: Option<Contract>,
}

impl ContractRoot {
    /// The standing invariant: whenever the instance exists, it is
    /// well-formed.
    pub open spec fn wf(self) -> bool {
        self.state is Some ==> self.state.unwrap().wf()
    }

    /// The not-yet-constructed state every deployment starts in.
    pub fn new() -> (r: ContractRoot)
        ensures
            r.wf(),
            r.state is None,
    {
        ContractRoot { state: Option::None }
    }

    /// Whether initialization has run.
    pub fn is_initialized(&self) -> (r: bool)
        ensures
            r == (self.state is Some),
    {
        self.state.is_some()
    }

    /// Constructs the instance, minting the whole supply to the owner.
    /// Running it a second time fails and changes nothing.
    pub fn init(&mut self, owner_id: String, total_supply: u128, metadata: Metadata) -> (r: Result<
        (),
        Error,
    >)
        requires
            old(self).wf(),
            metadata.valid(),
        ensures
            final(self).wf(),
            old(self).state is Some ==> r == Err::<(), Error>(Error::AlreadyInitialized) && *final(self) == *old(self),
            old(self).state is None ==> r == Ok::<(), Error>(()) && final(self).state is Some
                && final(self).state.unwrap().metadata == metadata
                && final(self).state.unwrap().token.total_supply == total_supply
                && final(self).state.unwrap().token.spec_registered(owner_id@)
                && final(self).state.unwrap().token.spec_balance(owner_id@) == total_supply,
    {
        if self.is_initialized() {
            Err(Error::AlreadyInitialized)
        } else {
            self.state = Option::Some(Contract::new(owner_id, total_supply, metadata));
            Ok(())
        }
    }

    /// Pays the storage cost for `account`; see `ledger::register_rel`.
    pub fn register(&mut self, account: &String, deposit: u128) -> (r: Result<u128, Error>)
        requires
            old(self).wf(),
        ensures
            final(self).wf(),
            old(self).state is None ==> r == Err::<u128, Error>(Error::NotInitialized) && *final(self) == *old(self),
            old(self).state is Some ==> final(self).state is Some && register_rel(
                old(self).state.unwrap().token,
                final(self).state.unwrap().token,
                account@,
                deposit,
                r,
            ) && final(self).state.unwrap().metadata == old(self).state.unwrap().metadata,
    {
        match &mut self.state {
            Option::Some(c) => c.token.register(account, deposit),
            Option::None => Err(Error::NotInitialized),
        }
    }

    /// Removes the record of `account`; see `ledger::unregister_rel`.
    pub fn unregister(&mut self, account: &String, force: bool) -> (r: Result<
        (bool, u128),
        Error,
    >)
        requires
            old(self).wf(),
        ensures
            final(self).wf(),
            old(self).state is None ==> r == Err::<(bool, u128), Error>(Error::NotInitialized)
                && *final(self) == *old(self),
            old(self).state is Some ==> final(self).state is Some && unregister_rel(
                old(self).state.unwrap().token,
                final(self).state.unwrap().token,
                account@,
                force,
                r,
            ) && final(self).state.unwrap().metadata == old(self).state.unwrap().metadata,
    {
        match &mut self.state {
            Option::Some(c) => c.token.unregister(account, force),
            Option::None => Err(Error::NotInitialized),
        }
    }

    /// Synchronous transfer; see `token::transfer_rel`.
    pub fn transfer(
        &mut self,
        sender: &String,
        receiver: &String,
        amount: u128,
        memo: Option<String>,
    ) -> (r: Result<(), Error>)
        requires
            old(self).wf(),
        ensures
            final(self).wf(),
            old(self).state is None ==> r == Err::<(), Error>(Error::NotInitialized) && *final(self) == *old(self),
            old(self).state is Some ==> final(self).state is Some && transfer_rel(
                old(self).state.unwrap(),
                final(self).state.unwrap(),
                sender@,
                receiver@,
                amount,
                r,
            ),
    {
        match &mut self.state {
            Option::Some(c) => c.transfer(sender, receiver, amount, memo),
            Option::None => Err(Error::NotInitialized),
        }
    }

    /// Phase one of a transfer-with-call; see `token::transfer_call_rel`.
    pub fn transfer_and_call(
        &mut self,
        sender: &String,
        receiver: &String,
        amount: u128,
        memo: Option<String>,
        message: String,
    ) -> (r: Result<PendingTransfer, Error>)
        requires
            old(self).wf(),
        ensures
            final(self).wf(),
            old(self).state is None ==> r == Err::<PendingTransfer, Error>(Error::NotInitialized)
                && *final(self) == *old(self),
            old(self).state is Some ==> final(self).state is Some && transfer_call_rel(
                old(self).state.unwrap(),
                final(self).state.unwrap(),
                sender@,
                receiver@,
                amount,
                message@,
                r,
            ),
    {
        match &mut self.state {
            Option::Some(c) => c.transfer_and_call(sender, receiver, amount, memo, message),
            Option::None => Err(Error::NotInitialized),
        }
    }

    /// Phase two of a transfer-with-call, invoked by the platform with the
    /// remote outcome; see `token::resolve_rel`.
    pub fn resolve_transfer(&mut self, pending: &PendingTransfer, outcome: CallbackOutcome) -> (r:
        Result<Resolution, Error>)
        requires
            old(self).wf(),
            pending.wf(),
        ensures
            final(self).wf(),
            old(self).state is None ==> r == Err::<Resolution, Error>(Error::NotInitialized)
                && *final(self) == *old(self),
            old(self).state is Some ==> final(self).state is Some && (r matches Ok(res)
                && resolve_rel(
                old(self).state.unwrap(),
                final(self).state.unwrap(),
                *pending,
                outcome,
                res,
            )),
    {
        match &mut self.state {
            Option::Some(c) => Ok(c.resolve_transfer(pending, outcome)),
            Option::None => Err(Error::NotInitialized),
        }
    }

    /// Balance of `account`; 0 for an account without a record.
    pub fn balance_of(&self, account: &String) -> (r: Result<u128, Error>)
        requires
            self.wf(),
        ensures
            self.state is None ==> r == Err::<u128, Error>(Error::NotInitialized),
            self.state is Some ==> r == Ok::<u128, Error>(
                self.state.unwrap().token.spec_balance(account@),
            ),
    {
        match &self.state {
            Option::Some(c) => Ok(c.balance_of(account)),
            Option::None => Err(Error::NotInitialized),
        }
    }

    /// The conserved total supply.
    pub fn total_supply(&self) -> (r: Result<u128, Error>)
        ensures
            self.state is None ==> r == Err::<u128, Error>(Error::NotInitialized),
            self.state is Some ==> r == Ok::<u128, Error>(self.state.unwrap().token.total_supply),
    {
        match &self.state {
            Option::Some(c) => Ok(c.total_supply()),
            Option::None => Err(Error::NotInitialized),
        }
    }

    /// The immutable token description.
    pub fn metadata(&self) -> (r: Result<&Metadata, Error>)
        ensures
            self.state is None ==> r == Err::<&Metadata, Error>(Error::NotInitialized),
            self.state is Some ==> r == Ok::<&Metadata, Error>(&self.state.unwrap().metadata),
    {
        match &self.state {
            Option::Some(c) => Ok(c.metadata()),
            Option::None => Err(Error::NotInitialized),
        }
    }
}

} // verus!
