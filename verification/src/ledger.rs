use crate::proto::accounting::TransferComponent;
use vstd::prelude::*;

verus! {

/// One row of the accounts table.
#[derive(Clone, Copy, Debug, PartialEq, Eq, Structural)]
pub struct Account {
    pub id: u32,
    pub balance: i64,
    pub creation_request: u64,
}

/// One row of the transaction log: a leg that was applied, with the place
/// it had in its transfer.
#[derive(Clone, Copy, Debug, PartialEq, Eq, Structural)]
pub struct LogEntry {
    pub req_id: i64,
    pub account_id: u32,
    pub amount: i64,
    pub transaction_index: u64,
}

/// The rows of a ledger: the accounts in the order of their creation and
/// the log in the order of its writing.
pub struct Ledger {
    pub accounts: Seq<Account>,
    pub log: Seq<LogEntry>,
}

/// The sum of the balances of `accounts`.
pub open spec fn total(accounts: Seq<Account>) -> int
    decreases accounts.len(),
{
    if accounts.len() == 0 {
        0
    } else {
        total(accounts.drop_last()) + accounts.last().balance
    }
}

/// The sum of the deltas of `legs`.
pub open spec fn leg_sum(legs: Seq<TransferComponent>) -> int
    decreases legs.len(),
{
    if legs.len() == 0 {
        0
    } else {
        leg_sum(legs.drop_last()) + legs.last().money_delta
    }
}

impl Ledger {
    /// The ledger without any row.
    pub open spec fn empty() -> Ledger {
        Ledger { accounts: Seq::empty(), log: Seq::empty() }
    }

    /// Row `i` of the accounts is the account `id`.
    pub open spec fn holds_at(self, i: int, id: u32) -> bool {
        0 <= i < self.accounts.len() && self.accounts[i].id == id
    }

    /// The account `id` exists.
    pub open spec fn has_account(self, id: u32) -> bool {
        exists|i: int| self.holds_at(i, id)
    }

    /// The row of the account `id`, where it exists.
    pub open spec fn position(self, id: u32) -> int {
        choose|i: int| self.holds_at(i, id)
    }

    /// The balance of the account `id`, where it exists.
    pub open spec fn balance_of(self, id: u32) -> Option<int> {
        if self.has_account(id) {
            Some(self.accounts[self.position(id)].balance as int)
        } else {
            None
        }
    }

    /// The sum of all balances.
    pub open spec fn total(self) -> int {
        total(self.accounts)
    }

    /// What the accounts table guarantees: no id occurs twice and no
    /// balance is negative.
    pub open spec fn wf(self) -> bool {
        &&& forall|i: int, j: int|
            0 <= i < j < self.accounts.len() ==> self.accounts[i].id != self.accounts[j].id
        &&& forall|i: int| 0 <= i < self.accounts.len() ==> self.accounts[i].balance >= 0
    }

    /// The ledger after a new account row. `None` where the table refuses
    /// the row: the id is taken or the balance is negative.
    pub open spec fn open_account(self, account: Account) -> Option<Ledger> {
        if self.has_account(account.id) || account.balance < 0 {
            None
        } else {
            Some(Ledger { accounts: self.accounts.push(account), log: self.log })
        }
    }

    /// The ledger after `delta` was added to the balance of `id`. `None`
    /// where the account is missing or the new balance would be negative or
    /// beyond what a balance can hold.
    pub open spec fn credit(self, id: u32, delta: int) -> Option<Ledger> {
        if !self.has_account(id) {
            None
        } else {
            let p = self.position(id);
            let old_row = self.accounts[p];
            let b = old_row.balance + delta;
            if b < 0 || b > i64::MAX {
                None
            } else {
                Some(
                    Ledger {
                        accounts: self.accounts.update(
                            p,
                            Account {
                                id: old_row.id,
                                balance: b as i64,
                                creation_request: old_row.creation_request,
                            },
                        ),
                        log: self.log,
                    },
                )
            }
        }
    }

    /// The ledger after one more log row.
    pub open spec fn record(self, entry: LogEntry) -> Ledger {
        Ledger { accounts: self.accounts, log: self.log.push(entry) }
    }

    /// The ledger after the leg at place `index` of the transfer `req_id`:
    /// the balance is changed, then the leg is logged with its place.
    pub open spec fn apply_leg(self, req_id: i64, leg: TransferComponent, index: nat) -> Option<
        Ledger,
    > {
        if index > u64::MAX {
            None
        } else {
            match self.credit(leg.account_id, leg.money_delta as int) {
                None => None,
                Some(credited) => Some(
                    credited.record(
                        LogEntry {
                            req_id,
                            account_id: leg.account_id,
                            amount: leg.money_delta,
                            transaction_index: index as u64,
                        },
                    ),
                ),
            }
        }
    }

    /// The ledger after the legs of the transfer `req_id` from place `from`
    /// on, each applied in its turn to what the one before it left. `None`
    /// as soon as one of them cannot be applied.
    pub open spec fn apply_legs_from(
        self,
        req_id: i64,
        legs: Seq<TransferComponent>,
        from: nat,
    ) -> Option<Ledger>
        decreases legs.len() - from,
    {
        if from >= legs.len() {
            Some(self)
        } else {
            match self.apply_leg(req_id, legs[from as int], from) {
                None => None,
                Some(next) => next.apply_legs_from(req_id, legs, from + 1),
            }
        }
    }

    /// The ledger after all legs of the transfer `req_id`, or `None` where
    /// one of them cannot be applied.
    pub open spec fn apply_legs(self, req_id: i64, legs: Seq<TransferComponent>) -> Option<Ledger> {
        self.apply_legs_from(req_id, legs, 0)
    }
}

/// The log rows that the legs of the transfer `req_id` leave: one for each
/// leg, in the order of the legs, each with its place.
pub open spec fn log_rows(req_id: i64, legs: Seq<TransferComponent>) -> Seq<LogEntry> {
    Seq::new(
        legs.len(),
        |i: int|
            LogEntry {
                req_id,
                account_id: legs[i].account_id,
                amount: legs[i].money_delta,
                transaction_index: i as u64,
            },
    )
}

/// Two tables hold accounts of the same ids in the same rows.
pub open spec fn same_ids(a: Seq<Account>, b: Seq<Account>) -> bool {
    &&& a.len() == b.len()
    &&& forall|i: int| 0 <= i < a.len() ==> a[i].id == b[i].id
}

/// A new row adds its balance to the total.
pub proof fn lemma_total_push(accounts: Seq<Account>, row: Account)
    ensures
        total(accounts.push(row)) == total(accounts) + row.balance,
{
    assert(accounts.push(row).drop_last() =~= accounts);
}

/// A changed row changes the total by the difference of its balances.
pub proof fn lemma_total_update(accounts: Seq<Account>, p: int, row: Account)
    requires
        0 <= p < accounts.len(),
    ensures
        total(accounts.update(p, row)) == total(accounts) - accounts[p].balance + row.balance,
    decreases accounts.len(),
{
    let changed = accounts.update(p, row);
    if p == accounts.len() - 1 {
        assert(changed.drop_last() =~= accounts.drop_last());
    } else {
        lemma_total_update(accounts.drop_last(), p, row);
        assert(changed.drop_last() =~= accounts.drop_last().update(p, row));
    }
}

/// The sum of the first `k + 1` legs is the sum of the first `k` and the
/// delta of leg `k`.
pub proof fn lemma_leg_sum_step(legs: Seq<TransferComponent>, k: int)
    requires
        0 <= k < legs.len(),
    ensures
        leg_sum(legs.take(k + 1)) == leg_sum(legs.take(k)) + legs[k].money_delta,
{
    assert(legs.take(k + 1).drop_last() =~= legs.take(k));
}

impl Ledger {
    /// In a well-formed ledger an id stands in one row only.
    pub proof fn lemma_position(self, i: int, id: u32)
        requires
            self.wf(),
            self.holds_at(i, id),
        ensures
            self.has_account(id),
            self.position(id) == i,
    {
        let p = self.position(id);
        assert(self.holds_at(p, id));
        if p < i {
            assert(self.accounts[p].id != self.accounts[i].id);
        } else if i < p {
            assert(self.accounts[i].id != self.accounts[p].id);
        }
    }

    /// What a change of one balance keeps and what it changes.
    pub proof fn lemma_credit(self, id: u32, delta: int)
        requires
            self.wf(),
            self.credit(id, delta) is Some,
        ensures
            ({
                let after = self.credit(id, delta).unwrap();
                &&& after.wf()
                &&& after.log == self.log
                &&& same_ids(self.accounts, after.accounts)
                &&& after.total() == self.total() + delta
                &&& after.balance_of(id) == Some(self.balance_of(id).unwrap() + delta)
                &&& forall|other: u32|
                    other != id ==> after.balance_of(other) == self.balance_of(other)
                &&& forall|other: u32| after.has_account(other) == self.has_account(other)
            }),
    {
        let after = self.credit(id, delta).unwrap();
        let p = self.position(id);
        assert(self.holds_at(p, id));
        lemma_total_update(self.accounts, p, after.accounts[p]);
        assert(after.holds_at(p, id));
        after.lemma_position(p, id);
        assert forall|other: u32| after.has_account(other) == self.has_account(other) by {
            if self.has_account(other) {
                let q = self.position(other);
                assert(self.holds_at(q, other));
                assert(after.holds_at(q, other));
            }
            if after.has_account(other) {
                let q = after.position(other);
                assert(after.holds_at(q, other));
                assert(self.holds_at(q, other));
            }
        }
        assert forall|other: u32| other != id implies after.balance_of(other) == self.balance_of(
            other,
        ) by {
            if self.has_account(other) {
                let q = self.position(other);
                assert(self.holds_at(q, other));
                assert(after.holds_at(q, other));
                after.lemma_position(q, other);
            }
        }
    }

    /// What a new account row keeps and what it changes.
    pub proof fn lemma_open_account(self, account: Account)
        requires
            self.wf(),
            self.open_account(account) is Some,
        ensures
            ({
                let after = self.open_account(account).unwrap();
                &&& after.wf()
                &&& after.log == self.log
                &&& after.total() == self.total() + account.balance
                &&& after.balance_of(account.id) == Some(account.balance as int)
                &&& forall|other: u32|
                    other != account.id ==> after.balance_of(other) == self.balance_of(other)
            }),
    {
        let after = self.open_account(account).unwrap();
        let n = self.accounts.len() as int;
        lemma_total_push(self.accounts, account);
        assert forall|i: int, j: int| 0 <= i < j < after.accounts.len() implies after.accounts[i].id
            != after.accounts[j].id by {
            if j == n {
                assert(!self.holds_at(i, account.id));
            }
        }
        assert(after.holds_at(n, account.id));
        after.lemma_position(n, account.id);
        assert forall|other: u32| other != account.id implies after.balance_of(other)
            == self.balance_of(other) by {
            if self.has_account(other) {
                let q = self.position(other);
                assert(self.holds_at(q, other));
                assert(after.holds_at(q, other));
                after.lemma_position(q, other);
            } else if after.has_account(other) {
                let q = after.position(other);
                assert(after.holds_at(q, other));
                assert(self.holds_at(q, other));
            }
        }
    }

    /// What the legs of a transfer, applied from place `from` on, keep and
    /// what they change: the accounts stay the same ones, no balance turns
    /// negative, the total moves by the sum of the legs applied, and the log
    /// grows by one row for each of them, in their order.
    pub proof fn lemma_apply_legs_from(self, req_id: i64, legs: Seq<TransferComponent>, from: nat)
        requires
            self.wf(),
            from <= legs.len(),
            self.apply_legs_from(req_id, legs, from) is Some,
        ensures
            ({
                let after = self.apply_legs_from(req_id, legs, from).unwrap();
                &&& after.wf()
                &&& same_ids(self.accounts, after.accounts)
                &&& after.total() == self.total() + leg_sum(legs) - leg_sum(legs.take(from as int))
                &&& after.log == self.log + log_rows(req_id, legs).subrange(
                    from as int,
                    legs.len() as int,
                )
            }),
        decreases legs.len() - from,
    {
        let after = self.apply_legs_from(req_id, legs, from).unwrap();
        if from >= legs.len() {
            assert(legs.take(from as int) =~= legs);
            assert(self.log + log_rows(req_id, legs).subrange(from as int, legs.len() as int)
                =~= self.log);
        } else {
            let leg = legs[from as int];
            let credited = self.credit(leg.account_id, leg.money_delta as int).unwrap();
            let next = self.apply_leg(req_id, leg, from).unwrap();
            self.lemma_credit(leg.account_id, leg.money_delta as int);
            assert(same_ids(credited.accounts, next.accounts));
            next.lemma_apply_legs_from(req_id, legs, from + 1);
            lemma_leg_sum_step(legs, from as int);
            let rows = log_rows(req_id, legs);
            assert(next.log + rows.subrange(from as int + 1, legs.len() as int) =~= self.log
                + rows.subrange(from as int, legs.len() as int));
        }
    }

    /// The legs up to and with the one at place `k` are applied by applying
    /// those before it and then that one.
    pub proof fn lemma_apply_one_more(
        self,
        req_id: i64,
        legs: Seq<TransferComponent>,
        from: nat,
        k: nat,
    )
        requires
            from <= k < legs.len(),
        ensures
            self.apply_legs_from(req_id, legs.take(k as int + 1), from) == match self.apply_legs_from(
                req_id,
                legs.take(k as int),
                from,
            ) {
                Some(so_far) => so_far.apply_leg(req_id, legs[k as int], k),
                None => None,
            },
        decreases k - from,
    {
        let longer = legs.take(k as int + 1);
        let shorter = legs.take(k as int);
        if from == k {
            assert(longer[k as int] == legs[k as int]);
            assert(self.apply_legs_from(req_id, shorter, from) == Some(self));
            match self.apply_leg(req_id, legs[k as int], k) {
                Some(next) => {
                    assert(next.apply_legs_from(req_id, longer, k + 1) == Some(next));
                },
                None => {},
            }
        } else {
            assert(longer[from as int] == legs[from as int]);
            assert(shorter[from as int] == legs[from as int]);
            match self.apply_leg(req_id, legs[from as int], from) {
                Some(next) => {
                    next.lemma_apply_one_more(req_id, legs, from + 1, k);
                },
                None => {},
            }
        }
    }
}

/// The rows `after` are what the legs leave of `rows` when they are applied
/// up to the leg at place `k`, which is the first that cannot be applied.
pub open spec fn stopped_at(
    rows: Ledger,
    req_id: i64,
    legs: Seq<TransferComponent>,
    after: Ledger,
    k: nat,
) -> bool {
    &&& k < legs.len()
    &&& rows.apply_legs(req_id, legs.take(k as int)) == Some(after)
    &&& after.apply_leg(req_id, legs[k as int], k) is None
}

} // verus!
