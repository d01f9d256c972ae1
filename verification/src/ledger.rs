use vstd::prelude::*;

use crate::errors::Error;

verus! {

/// Fixed deposit that covers the storage a balance record consumes.
/// Paying it is what "registers" an account.
pub const MINIMUM_STORAGE_COST: u128 = 1250000000000000000000;

/// One balance record: an account identifier and its current balance.
/// Existence of a record is what makes an account "registered".
pub struct AccountEntry {
    pub id: String,
    pub amount: u128,
}

/// The balance map and the conserved total supply.
///
/// Well-formedness (`wf`) ties the two together: account identifiers are
/// unique and `total_supply` equals the sum of all recorded balances. Every
/// public operation requires and re-establishes `wf`, so the conservation
/// law holds in every reachable state.
pub struct Ledger {
    pub accounts: Vec<AccountEntry>,
    pub total_supply: u128,
}

/// Mathematical sum of the balances of a sequence of records.
pub open spec fn sum_of(s: Seq<AccountEntry>) -> int
    decreases s.len(),
{
    if s.len() == 0 {
        0
    } else {
        sum_of(s.drop_last()) + s.last().amount
    }
}

pub proof fn lemma_sum_nonneg(s: Seq<AccountEntry>)
    ensures
        sum_of(s) >= 0,
    decreases s.len(),
{
    if s.len() > 0 {
        lemma_sum_nonneg(s.drop_last());
    }
}

pub proof fn lemma_sum_push(s: Seq<AccountEntry>, e: AccountEntry)
    ensures
        sum_of(s.push(e)) == sum_of(s) + e.amount,
{
    assert(s.push(e).drop_last() =~= s);
    assert(s.push(e).last() == e);
}

pub proof fn lemma_sum_update(s: Seq<AccountEntry>, i: int, e: AccountEntry)
    requires
        0 <= i < s.len(),
    ensures
        sum_of(s.update(i, e)) == sum_of(s) - s[i].amount + e.amount,
    decreases s.len(),
{
    if i == s.len() - 1 {
        assert(s.update(i, e).drop_last() =~= s.drop_last());
        assert(s.update(i, e).last() == e);
    } else {
        assert(s.update(i, e).drop_last() =~= s.drop_last().update(i, e));
        assert(s.update(i, e).last() == s.last());
        lemma_sum_update(s.drop_last(), i, e);
    }
}

pub proof fn lemma_sum_remove(s: Seq<AccountEntry>, i: int)
    requires
        0 <= i < s.len(),
    ensures
        sum_of(s.remove(i)) == sum_of(s) - s[i].amount,
    decreases s.len(),
{
    if i == s.len() - 1 {
        assert(s.remove(i) =~= s.drop_last());
    } else {
        assert(s.remove(i).drop_last() =~= s.drop_last().remove(i));
        assert(s.remove(i).last() == s.last());
        lemma_sum_remove(s.drop_last(), i);
    }
}

/// Each single balance is bounded by the sum of all balances.
pub proof fn lemma_sum_le(s: Seq<AccountEntry>, i: int)
    requires
        0 <= i < s.len(),
    ensures
        s[i].amount <= sum_of(s),
    decreases s.len(),
{
    if i == s.len() - 1 {
        lemma_sum_nonneg(s.drop_last());
    } else {
        lemma_sum_le(s.drop_last(), i);
    }
}

/// The full contract of a registration: which result is owed on which
/// inputs — each if and only if — and the state the call leaves. A repeated
/// registration is a no-op that refunds the whole deposit; a fresh one costs
/// `MINIMUM_STORAGE_COST`, refunds the excess, and creates an empty record;
/// a short deposit changes nothing at all.
pub open spec fn register_rel(
    pre: Ledger,
    post: Ledger,
    account: Seq<char>,
    deposit: u128,
    r: Result<u128, Error>,
) -> bool {
    &&& post.total_supply == pre.total_supply
    &&& pre.spec_registered(account) ==> r == Ok::<u128, Error>(deposit) && post == pre
    &&& !pre.spec_registered(account) && deposit < MINIMUM_STORAGE_COST ==> r == Err::<
        u128,
        Error,
    >(Error::InsufficientDeposit) && post == pre
    &&& !pre.spec_registered(account) && deposit >= MINIMUM_STORAGE_COST ==> r == Ok::<
        u128,
        Error,
    >((deposit - MINIMUM_STORAGE_COST) as u128) && post.spec_registered(account)
        && post.spec_balance(account) == 0
    &&& forall|a: Seq<char>|
        a != account ==> #[trigger] post.spec_registered(a) == pre.spec_registered(a)
    &&& forall|a: Seq<char>| a != account ==> #[trigger] post.spec_balance(a) == pre.spec_balance(a)
}

/// The full contract of an unregistration: an absent record reports `(false,
/// 0)`; a non-forced close of a non-zero balance fails untouched; otherwise
/// the record goes away, any remaining balance is burned out of the supply,
/// and the storage cost comes back.
pub open spec fn unregister_rel(
    pre: Ledger,
    post: Ledger,
    account: Seq<char>,
    force: bool,
    r: Result<(bool, u128), Error>,
) -> bool {
    &&& !pre.spec_registered(account) ==> r == Ok::<(bool, u128), Error>((false, 0)) && post == pre
    &&& pre.spec_registered(account) && !force && pre.spec_balance(account) != 0 ==> r == Err::<
        (bool, u128),
        Error,
    >(Error::NonZeroBalance) && post == pre
    &&& pre.spec_registered(account) && (force || pre.spec_balance(account) == 0) ==> r == Ok::<
        (bool, u128),
        Error,
    >((true, MINIMUM_STORAGE_COST)) && !post.spec_registered(account) && post.total_supply
        == pre.total_supply - pre.spec_balance(account)
    &&& forall|a: Seq<char>|
        a != account ==> #[trigger] post.spec_registered(a) == pre.spec_registered(a)
    &&& forall|a: Seq<char>| a != account ==> #[trigger] post.spec_balance(a) == pre.spec_balance(a)
}

impl Ledger {
    /// An account is registered when some record carries its identifier.
    pub open spec fn spec_registered(self, id: Seq<char>) -> bool {
        exists|i: int| 0 <= i < self.accounts@.len() && self.accounts@[i].id@ == id
    }

    /// Index of the record of `id` (meaningful only under `keys_unique`).
    pub open spec fn spec_index_of(self, id: Seq<char>) -> int {
        choose|i: int| 0 <= i < self.accounts@.len() && self.accounts@[i].id@ == id
    }

    /// Balance of an account; 0 for an account without a record.
    pub open spec fn spec_balance(self, id: Seq<char>) -> u128 {
        if self.spec_registered(id) {
            self.accounts@[self.spec_index_of(id)].amount
        } else {
            0
        }
    }

    /// No two records carry the same identifier.
    pub open spec fn keys_unique(self) -> bool {
        forall|i: int, j: int|
            0 <= i < j < self.accounts@.len() ==> self.accounts@[i].id@ != self.accounts@[j].id@
    }

    /// The conservation invariant: identifiers are unique and the recorded
    /// total supply equals the sum of all balances.
    pub open spec fn wf(self) -> bool {
        &&& self.keys_unique()
        &&& self.total_supply as int == sum_of(self.accounts@)
    }

    /// Under unique keys, the record at index `i` is exactly the record the
    /// abstract view reports for its identifier.
    pub proof fn lemma_record_at(self, i: int)
        requires
            self.keys_unique(),
            0 <= i < self.accounts@.len(),
        ensures
            self.spec_registered(self.accounts@[i].id@),
            self.spec_index_of(self.accounts@[i].id@) == i,
            self.spec_balance(self.accounts@[i].id@) == self.accounts@[i].amount,
    {
        assert(self.spec_registered(self.accounts@[i].id@));
        let j = self.spec_index_of(self.accounts@[i].id@);
        assert(0 <= j < self.accounts@.len() && self.accounts@[j].id@ == self.accounts@[i].id@);
        if i != j {
            assert(false);
        }
    }

    /// A fresh, empty ledger: no records, zero supply.
    pub fn new() -> (l: Ledger)
        ensures
            l.wf(),
            l.total_supply == 0,
            forall|a: Seq<char>| !l.spec_registered(a),
    {
        Ledger { accounts: Vec::new(), total_supply: 0 }
    }

    /// Index of the record of `account`, if one exists.
    fn find_index(&self, account: &String) -> (r: Option<usize>)
        ensures
            match r {
                Option::Some(i) => i < self.accounts@.len()
                    && self.accounts@[i as int].id@ == account@,
                Option::None => !self.spec_registered(account@),
            },
    {
        let n = self.accounts.len();
        let mut i: usize = 0;
        while i < n
            invariant
                n == self.accounts@.len(),
                i <= n,
                forall|j: int| 0 <= j < i ==> self.accounts@[j].id@ != account@,
            decreases n - i,
        {
            if self.accounts[i].id == *account {
                return Option::Some(i);
            }
            i = i + 1;
        }
        Option::None
    }

    /// Whether `account` holds a balance record.
    pub fn is_registered(&self, account: &String) -> (r: bool)
        ensures
            r == self.spec_registered(account@),
    {
        match self.find_index(account) {
            Option::Some(i) => {
                proof {
                    assert(self.spec_registered(account@));
                }
                true
            },
            Option::None => false,
        }
    }

    /// Balance of `account`; 0 when it holds no record. A zero balance alone
    /// does not distinguish "registered with zero" from "not registered":
    /// that is what `is_registered` is for.
    pub fn balance_of(&self, account: &String) -> (r: u128)
        requires
            self.wf(),
        ensures
            r == self.spec_balance(account@),
    {
        match self.find_index(account) {
            Option::Some(i) => {
                proof {
                    self.lemma_record_at(i as int);
                }
                self.accounts[i].amount
            },
            Option::None => 0,
        }
    }

    /// The conserved total supply.
    pub fn total_supply(&self) -> (r: u128)
        ensures
            r == self.total_supply,
    {
        self.total_supply
    }

    /// Pays the storage cost for `account` and creates its empty record.
    ///
    /// Registering an already-registered account is a no-op and refunds the
    /// whole deposit; a fresh registration requires the deposit to cover
    /// `MINIMUM_STORAGE_COST` and refunds the excess, and a short deposit is
    /// rejected with no state change at all.
    pub fn register(&mut self, account: &String, deposit: u128) -> (r: Result<u128, Error>)
        requires
            old(self).wf(),
        ensures
            final(self).wf(),
            register_rel(*old(self), *final(self), account@, deposit, r),
    {
        match self.find_index(account) {
            Option::Some(_) => Ok(deposit),
            Option::None => {
                if deposit < MINIMUM_STORAGE_COST {
                    Err(Error::InsufficientDeposit)
                } else {
                    self.create_record(account);
                    Ok(deposit - MINIMUM_STORAGE_COST)
                }
            },
        }
    }

    /// Creates the empty balance record of a yet-unregistered account. The
    /// deposit bookkeeping around it lives in `register`; the construction
    /// path registers the owner through this directly.
    pub(crate) fn create_record(&mut self, account: &String)
        requires
            old(self).wf(),
            !old(self).spec_registered(account@),
        ensures
            final(self).wf(),
            final(self).total_supply == old(self).total_supply,
            final(self).spec_registered(account@),
            final(self).spec_balance(account@) == 0,
            forall|a: Seq<char>|
                a != account@ ==> #[trigger] final(self).spec_registered(a) == old(
                    self,
                ).spec_registered(a),
            forall|a: Seq<char>|
                a != account@ ==> #[trigger] final(self).spec_balance(a) == old(
                    self,
                ).spec_balance(a),
    {
        let ghost prev = *self;
        let entry = AccountEntry { id: account.clone(), amount: 0 };
        let ghost ge = entry;
        self.accounts.push(entry);
        proof {
                        lemma_sum_push(prev.accounts@, ge);
                        let n = prev.accounts@.len() as int;
                        assert(self.accounts@[n].id@ == account@);
                        assert(self.spec_registered(account@));
                        assert forall|i: int, j: int|
                            0 <= i < j < self.accounts@.len() implies self.accounts@[i].id@
                            != self.accounts@[j].id@ by {
                            if j < n {
                                assert(prev.accounts@[i].id@ != prev.accounts@[j].id@);
                            } else {
                                assert(!prev.spec_registered(account@));
                                assert(prev.accounts@[i].id@ != account@);
                            }
                        }
                        self.lemma_record_at(n);
                        assert forall|a: Seq<char>|
                            a != account@ implies #[trigger] self.spec_registered(a)
                            == prev.spec_registered(a) by {
                            if prev.spec_registered(a) {
                                let j = prev.spec_index_of(a);
                                assert(self.accounts@[j].id@ == a);
                            }
                            if self.spec_registered(a) {
                                let j = self.spec_index_of(a);
                                assert(j != n);
                                assert(prev.accounts@[j].id@ == a);
                            }
                        }
                        assert forall|a: Seq<char>|
                            a != account@ implies #[trigger] self.spec_balance(a)
                            == prev.spec_balance(a) by {
                            if prev.spec_registered(a) {
                                let j = prev.spec_index_of(a);
                                prev.lemma_record_at(j);
                                assert(self.accounts@[j].id@ == a);
                                self.lemma_record_at(j);
                            }
                        }
        }
    }

    /// Debits `amount` from `account`, leaving the total supply field alone.
    /// Fails with `InsufficientBalance` when the balance cannot cover it.
    pub(crate) fn debit(&mut self, account: &String, amount: u128) -> (r: Result<(), Error>)
        requires
            old(self).keys_unique(),
        ensures
            final(self).keys_unique(),
            final(self).total_supply == old(self).total_supply,
            old(self).spec_balance(account@) < amount ==> r == Err::<(), Error>(
                Error::InsufficientBalance,
            ) && *final(self) == *old(self),
            old(self).spec_balance(account@) >= amount ==> r == Ok::<(), Error>(())
                && final(self).spec_balance(account@) == old(self).spec_balance(account@) - amount
                && sum_of(final(self).accounts@) == sum_of(old(self).accounts@) - amount,
            forall|a: Seq<char>| #[trigger]
                final(self).spec_registered(a) == old(self).spec_registered(a),
            forall|a: Seq<char>|
                a != account@ ==> #[trigger] final(self).spec_balance(a) == old(
                    self,
                ).spec_balance(a),
    {
        match self.find_index(account) {
            Option::None => {
                proof {
                    assert(!self.spec_registered(account@));
                }
                if amount == 0 {
                    Ok(())
                } else {
                    Err(Error::InsufficientBalance)
                }
            },
            Option::Some(i) => {
                proof {
                    self.lemma_record_at(i as int);
                }
                let bal = self.accounts[i].amount;
                if bal < amount {
                    Err(Error::InsufficientBalance)
                } else {
                    let ghost prev = *self;
                    self.accounts[i].amount = bal - amount;
                    proof {
                        self.lemma_update_same_id(prev, i as int, account@);
                        lemma_sum_update(
                            prev.accounts@,
                            i as int,
                            self.accounts@[i as int],
                        );
                    }
                    Ok(())
                }
            },
        }
    }

    /// Credits `amount` to `account`, leaving the total supply field alone.
    /// Fails with `ReceiverNotRegistered` when `account` holds no record.
    pub(crate) fn credit(&mut self, account: &String, amount: u128) -> (r: Result<(), Error>)
        requires
            old(self).keys_unique(),
            sum_of(old(self).accounts@) + amount <= u128::MAX,
        ensures
            final(self).keys_unique(),
            final(self).total_supply == old(self).total_supply,
            !old(self).spec_registered(account@) ==> r == Err::<(), Error>(
                Error::ReceiverNotRegistered,
            ) && *final(self) == *old(self),
            old(self).spec_registered(account@) ==> r == Ok::<(), Error>(())
                && final(self).spec_balance(account@) == old(self).spec_balance(account@) + amount
                && sum_of(final(self).accounts@) == sum_of(old(self).accounts@) + amount,
            forall|a: Seq<char>| #[trigger]
                final(self).spec_registered(a) == old(self).spec_registered(a),
            forall|a: Seq<char>|
                a != account@ ==> #[trigger] final(self).spec_balance(a) == old(
                    self,
                ).spec_balance(a),
    {
        match self.find_index(account) {
            Option::None => Err(Error::ReceiverNotRegistered),
            Option::Some(i) => {
                proof {
                    self.lemma_record_at(i as int);
                    lemma_sum_le(self.accounts@, i as int);
                }
                let bal = self.accounts[i].amount;
                let ghost prev = *self;
                self.accounts[i].amount = bal + amount;
                proof {
                    self.lemma_update_same_id(prev, i as int, account@);
                    lemma_sum_update(prev.accounts@, i as int, self.accounts@[i as int]);
                }
                Ok(())
            },
        }
    }

    /// The abstract view reads only the records: two ledgers with the same
    /// record sequence register the same accounts with the same balances.
    proof fn lemma_same_accounts(self, other: Ledger)
        requires
            self.accounts@ == other.accounts@,
            self.keys_unique(),
        ensures
            forall|a: Seq<char>| #[trigger] self.spec_registered(a) == other.spec_registered(a),
            forall|a: Seq<char>| #[trigger] self.spec_balance(a) == other.spec_balance(a),
    {
        assert forall|a: Seq<char>| #[trigger] self.spec_registered(a)
            == other.spec_registered(a) by {
            if self.spec_registered(a) {
                let j = self.spec_index_of(a);
                assert(other.accounts@[j].id@ == a);
            }
            if other.spec_registered(a) {
                let j = other.spec_index_of(a);
                assert(self.accounts@[j].id@ == a);
            }
        }
        assert forall|a: Seq<char>| #[trigger] self.spec_balance(a) == other.spec_balance(a) by {
            if self.spec_registered(a) {
                let j = self.spec_index_of(a);
                self.lemma_record_at(j);
                other.lemma_record_at(j);
            }
        }
    }

    /// Creates `amount` tokens on `account`, raising the total supply with
    /// the balance. Only the construction path calls this; it is the only way
    /// the supply ever grows.
    pub(crate) fn mint(&mut self, account: &String, amount: u128)
        requires
            old(self).wf(),
            old(self).spec_registered(account@),
            old(self).total_supply + amount <= u128::MAX,
        ensures
            final(self).wf(),
            final(self).total_supply == old(self).total_supply + amount,
            final(self).spec_balance(account@) == old(self).spec_balance(account@) + amount,
            forall|a: Seq<char>| #[trigger]
                final(self).spec_registered(a) == old(self).spec_registered(a),
            forall|a: Seq<char>|
                a != account@ ==> #[trigger] final(self).spec_balance(a) == old(
                    self,
                ).spec_balance(a),
    {
        match self.credit(account, amount) {
            Ok(()) => {
                let ghost mid = *self;
                self.total_supply = self.total_supply + amount;
                proof {
                    self.lemma_same_accounts(mid);
                }
            },
            Err(_) => {
                proof {
                    assert(false);
                }
            },
        }
    }

    /// Destroys `amount` tokens held by `account`, lowering the total supply
    /// with the balance. Only forced unregistration calls this; it is the
    /// only way the supply ever shrinks.
    pub(crate) fn burn(&mut self, account: &String, amount: u128)
        requires
            old(self).wf(),
            old(self).spec_registered(account@),
            amount <= old(self).spec_balance(account@),
        ensures
            final(self).wf(),
            final(self).total_supply == old(self).total_supply - amount,
            final(self).spec_balance(account@) == old(self).spec_balance(account@) - amount,
            forall|a: Seq<char>| #[trigger]
                final(self).spec_registered(a) == old(self).spec_registered(a),
            forall|a: Seq<char>|
                a != account@ ==> #[trigger] final(self).spec_balance(a) == old(
                    self,
                ).spec_balance(a),
    {
        proof {
            let i = self.spec_index_of(account@);
            self.lemma_record_at(i);
            lemma_sum_le(self.accounts@, i);
        }
        match self.debit(account, amount) {
            Ok(()) => {
                let ghost mid = *self;
                self.total_supply = self.total_supply - amount;
                proof {
                    self.lemma_same_accounts(mid);
                }
            },
            Err(_) => {
                proof {
                    assert(false);
                }
            },
        }
    }

    /// Removes the record of `account`. Without `force` this refuses a
    /// non-zero balance; with `force` the remaining balance is burned, which
    /// is the only path by which the supply shrinks after initialization.
    /// On success the storage cost comes back as the refund.
    pub fn unregister(&mut self, account: &String, force: bool) -> (r: Result<
        (bool, u128),
        Error,
    >)
        requires
            old(self).wf(),
        ensures
            final(self).wf(),
            unregister_rel(*old(self), *final(self), account@, force, r),
    {
        match self.find_index(account) {
            Option::None => Ok((false, 0)),
            Option::Some(i) => {
                proof {
                    self.lemma_record_at(i as int);
                }
                let bal = self.accounts[i].amount;
                if !force && bal > 0 {
                    Err(Error::NonZeroBalance)
                } else {
                    proof {
                        lemma_sum_le(self.accounts@, i as int);
                    }
                    self.total_supply = self.total_supply - bal;
                    let ghost pre = *self;
                    let _removed = self.accounts.remove(i);
                    proof {
                        lemma_sum_remove(pre.accounts@, i as int);
                        self.lemma_remove_id(pre, i as int, account@);
                    }
                    Ok((true, MINIMUM_STORAGE_COST))
                }
            },
        }
    }

    /// After removing the record at `i`, relates the new abstract view to the
    /// old one: the removed identifier is gone and every other account keeps
    /// its registration and balance.
    proof fn lemma_remove_id(self, prev: Ledger, i: int, id: Seq<char>)
        requires
            prev.keys_unique(),
            0 <= i < prev.accounts@.len(),
            prev.accounts@[i].id@ == id,
            self.accounts@ == prev.accounts@.remove(i),
        ensures
            self.keys_unique(),
            !self.spec_registered(id),
            forall|a: Seq<char>|
                a != id ==> #[trigger] self.spec_registered(a) == prev.spec_registered(a),
            forall|a: Seq<char>|
                a != id ==> #[trigger] self.spec_balance(a) == prev.spec_balance(a),
    {
        assert(self.accounts@.len() == prev.accounts@.len() - 1);
        assert(forall|j: int| 0 <= j < i ==> self.accounts@[j] == prev.accounts@[j]);
        assert(forall|j: int|
            i <= j < self.accounts@.len() ==> self.accounts@[j] == prev.accounts@[j + 1]);
        assert forall|i1: int, j1: int|
            0 <= i1 < j1 < self.accounts@.len() implies self.accounts@[i1].id@
            != self.accounts@[j1].id@ by {
            let i2 = if i1 < i {
                i1
            } else {
                i1 + 1
            };
            let j2 = if j1 < i {
                j1
            } else {
                j1 + 1
            };
            assert(prev.accounts@[i2].id@ != prev.accounts@[j2].id@);
        }
        assert forall|a: Seq<char>| a != id implies #[trigger] self.spec_registered(a)
            == prev.spec_registered(a) by {
            if prev.spec_registered(a) {
                let j = prev.spec_index_of(a);
                let j2 = if j < i {
                    j
                } else {
                    j - 1
                };
                assert(self.accounts@[j2].id@ == a);
            }
            if self.spec_registered(a) {
                let j = self.spec_index_of(a);
                let j2 = if j < i {
                    j
                } else {
                    j + 1
                };
                assert(prev.accounts@[j2].id@ == a);
            }
        }
        if self.spec_registered(id) {
            let j = self.spec_index_of(id);
            let j2 = if j < i {
                j
            } else {
                j + 1
            };
            assert(prev.accounts@[j2].id@ == id);
            assert(prev.accounts@[i].id@ == id);
            assert(false);
        }
        assert forall|a: Seq<char>| a != id implies #[trigger] self.spec_balance(a)
            == prev.spec_balance(a) by {
            if prev.spec_registered(a) {
                let j = prev.spec_index_of(a);
                prev.lemma_record_at(j);
                let j2 = if j < i {
                    j
                } else {
                    j - 1
                };
                assert(self.accounts@[j2].id@ == a);
                assert(self.accounts@[j2].amount == prev.accounts@[j].amount);
                self.lemma_record_at(j2);
            }
        }
    }

    /// After an in-place update that keeps the identifier at `i`, relates the
    /// new abstract view to the old one: registration is untouched everywhere
    /// and balances are untouched away from that identifier.
    proof fn lemma_update_same_id(self, prev: Ledger, i: int, id: Seq<char>)
        requires
            prev.keys_unique(),
            0 <= i < prev.accounts@.len(),
            self.accounts@.len() == prev.accounts@.len(),
            prev.accounts@[i].id@ == id,
            self.accounts@ == prev.accounts@.update(i, self.accounts@[i]),
            self.accounts@[i].id@ == id,
        ensures
            self.keys_unique(),
            self.spec_registered(id),
            self.spec_balance(id) == self.accounts@[i].amount,
            forall|a: Seq<char>| #[trigger] self.spec_registered(a) == prev.spec_registered(a),
            forall|a: Seq<char>|
                a != id ==> #[trigger] self.spec_balance(a) == prev.spec_balance(a),
    {
        assert(forall|j: int|
            0 <= j < self.accounts@.len() ==> self.accounts@[j].id@ == prev.accounts@[j].id@);
        assert forall|i1: int, j1: int|
            0 <= i1 < j1 < self.accounts@.len() implies self.accounts@[i1].id@
            != self.accounts@[j1].id@ by {
            assert(prev.accounts@[i1].id@ != prev.accounts@[j1].id@);
        }
        self.lemma_record_at(i);
        assert forall|a: Seq<char>| #[trigger]
            self.spec_registered(a) == prev.spec_registered(a) by {
            if prev.spec_registered(a) {
                let j = prev.spec_index_of(a);
                assert(self.accounts@[j].id@ == a);
            }
            if self.spec_registered(a) {
                let j = self.spec_index_of(a);
                assert(prev.accounts@[j].id@ == a);
            }
        }
        assert forall|a: Seq<char>| a != id implies #[trigger] self.spec_balance(a)
            == prev.spec_balance(a) by {
            if prev.spec_registered(a) {
                let j = prev.spec_index_of(a);
                prev.lemma_record_at(j);
                assert(j != i);
                assert(self.accounts@[j].id@ == a);
                self.lemma_record_at(j);
            }
        }
    }
}

} // verus!
