use crate::error::LedgerError;
use crate::ledger::{Account, Ledger, LogEntry};
use vstd::prelude::*;

verus! {

/// What a session with a store amounts to, as far as the ledger's logic
/// reads it.
pub struct SessionModel {
    /// The rows that a statement issued now would work on.
    pub rows: Ledger,
    /// The rows as they were when the restart point was set, while one is
    /// set.
    pub restart: Option<Ledger>,
    /// The rows as they were when the open transaction began, while one is
    /// open.
    pub begun: Option<Ledger>,
    /// How many more times the store will report a serialization conflict,
    /// to a unit of work or to the finalising of a restart point.
    pub conflicts: nat,
    /// The store fails only where the rows give the reason, and where
    /// `conflicts` counts a refusal.
    pub dependable: bool,
    /// The failure with which the store answers every call that can fail,
    /// while it cannot be reached.
    pub outage: Option<LedgerError>,
    /// How many restart points the session has set so far.
    pub restarts: nat,
    /// How many transactions the session has committed so far.
    pub commits: nat,
}

impl SessionModel {
    /// The rows are well formed, now and at each point one can go back to,
    /// a restart point lies inside a transaction, and a store that cannot
    /// be reached is not dependable and fails as a store does.
    pub open spec fn wf(self) -> bool {
        &&& self.rows.wf()
        &&& self.begun matches Some(rows) ==> rows.wf()
        &&& self.restart matches Some(rows) ==> rows.wf() && self.begun is Some
        &&& self.outage matches Some(e) ==> e.from_store() && !self.dependable
    }

    /// No transaction is open.
    pub open spec fn idle(self) -> bool {
        self.begun is None && self.restart is None
    }

    /// A transaction is open and no restart point is set in it.
    pub open spec fn in_transaction(self) -> bool {
        self.begun is Some && self.restart is None
    }

    /// A transaction is open and a restart point is set in it.
    pub open spec fn in_attempt(self) -> bool {
        self.begun is Some && self.restart is Some
    }

    /// The same session over other rows.
    pub open spec fn with_rows(self, rows: Ledger) -> SessionModel {
        SessionModel { rows, ..self }
    }

    /// The same session after the rows were discarded in favour of `rows`
    /// and every transaction was closed.
    pub open spec fn closed_on(self, rows: Ledger) -> SessionModel {
        SessionModel { rows, restart: None, begun: None, ..self }
    }
}

/// The balances that a query for the account `id` finds: one where the
/// account exists, none where it does not.
pub open spec fn balances_found(rows: Ledger, id: u32) -> Seq<i64> {
    if rows.has_account(id) {
        seq![rows.accounts[rows.position(id)].balance]
    } else {
        Seq::empty()
    }
}

/// A session with a store that keeps the accounts table and the
/// transaction log: the statements that the ledger issues and the
/// transaction control around them.
///
/// A failed statement leaves the rows as they were. A statement that
/// succeeds has changed them as the tables allow, whatever the store: no
/// call leaves an id twice or a balance below zero. Only a dependable store
/// promises when a statement succeeds. A store that cannot be reached
/// answers every call that can fail with the failure of its outage, and no
/// failure of a store is one of invalid legs or of a missing account.
pub trait Session: Sized {
    /// What the session amounts to. An implementation that says nothing
    /// leaves it open.
    open spec fn model(&self) -> SessionModel {
        arbitrary()
    }

    /// What the implementation keeps true of itself between calls: unless
    /// it says more, that its model is well formed.
    open spec fn inv(&self) -> bool {
        self.model().wf()
    }

    /// Opens a transaction at the strongest isolation the store has.
    fn begin(&mut self) -> (r: Result<(), LedgerError>)
        requires
            old(self).inv(),
            old(self).model().idle(),
        ensures
            final(self).inv(),
            final(self).model().wf(),
            r matches Err(e) ==> e.from_store(),
            old(self).model().outage matches Some(e) ==> r == Err::<(), LedgerError>(e)
                && final(self).model() == old(self).model(),
            r is Ok ==> final(self).model() == (SessionModel {
                begun: Some(old(self).model().rows),
                ..old(self).model()
            }),
            r is Err ==> final(self).model() == old(self).model(),
            old(self).model().dependable ==> r is Ok,
    ;

    /// Sets the restart point of the open transaction, and counts it.
    fn savepoint(&mut self) -> (r: Result<(), LedgerError>)
        requires
            old(self).inv(),
            old(self).model().in_transaction(),
        ensures
            final(self).inv(),
            final(self).model().wf(),
            r matches Err(e) ==> e.from_store(),
            old(self).model().outage matches Some(e) ==> r == Err::<(), LedgerError>(e)
                && final(self).model() == old(self).model(),
            r is Ok ==> final(self).model() == (SessionModel {
                restart: Some(old(self).model().rows),
                restarts: old(self).model().restarts + 1,
                ..old(self).model()
            }),
            r is Err ==> final(self).model() == old(self).model(),
            old(self).model().dependable ==> r is Ok,
    ;

    /// Finalises the restart point: what was done since it was set becomes
    /// part of the open transaction. While the store counts a conflict it
    /// refuses, and the restart point stays set.
    fn release(&mut self) -> (r: Result<(), LedgerError>)
        requires
            old(self).inv(),
            old(self).model().in_attempt(),
        ensures
            final(self).inv(),
            final(self).model().wf(),
            r matches Err(e) ==> e.from_store(),
            old(self).model().outage matches Some(e) ==> r == Err::<(), LedgerError>(e)
                && final(self).model() == old(self).model(),
            r is Ok ==> old(self).model().conflicts == 0 && final(self).model() == (SessionModel {
                restart: None,
                ..old(self).model()
            }),
            r is Err ==> final(self).model().with_rows(old(self).model().rows) == (SessionModel {
                conflicts: final(self).model().conflicts,
                ..old(self).model()
            }),
            old(self).model().conflicts > 0 && old(self).model().outage is None ==> r == Err::<
                (),
                LedgerError,
            >(LedgerError::TransientConflict) && final(self).model().conflicts == old(
                self,
            ).model().conflicts - 1,
            old(self).model().conflicts == 0 ==> final(self).model().conflicts == 0,
            old(self).model().conflicts == 0 && old(self).model().dependable ==> r is Ok,
    ;

    /// Goes back to the restart point and removes it: the rows are again
    /// what they were when it was set.
    fn rollback_to_savepoint(&mut self)
        requires
            old(self).inv(),
            old(self).model().in_attempt(),
        ensures
            final(self).inv(),
            final(self).model().wf(),
            final(self).model() == (SessionModel {
                rows: old(self).model().restart.unwrap(),
                restart: None,
                ..old(self).model()
            }),
    ;

    /// Commits the open transaction, and counts it. Where the store
    /// refuses, the transaction is gone with all it did.
    fn commit(&mut self) -> (r: Result<(), LedgerError>)
        requires
            old(self).inv(),
            old(self).model().in_transaction(),
        ensures
            final(self).inv(),
            final(self).model().wf(),
            r matches Err(e) ==> e.from_store(),
            old(self).model().outage matches Some(e) ==> r == Err::<(), LedgerError>(e),
            r is Ok ==> final(self).model() == (SessionModel {
                commits: old(self).model().commits + 1,
                ..old(self).model().closed_on(old(self).model().rows)
            }),
            r is Err ==> final(self).model() == old(self).model().closed_on(
                old(self).model().begun.unwrap(),
            ),
            old(self).model().dependable ==> r is Ok,
    ;

    /// Abandons the open transaction with all it did.
    fn rollback(&mut self)
        requires
            old(self).inv(),
            old(self).model().begun is Some,
        ensures
            final(self).inv(),
            final(self).model().wf(),
            final(self).model() == old(self).model().closed_on(old(self).model().begun.unwrap()),
    ;

    /// Inserts an account row and gives the number of rows inserted: one,
    /// or none where the store took the statement and added no row.
    fn insert_account(&mut self, account: u32, balance: i64, req_id: u64) -> (r: Result<
        u64,
        LedgerError,
    >)
        requires
            old(self).inv(),
        ensures
            final(self).inv(),
            final(self).model().wf(),
            r matches Err(e) ==> e.from_store(),
            old(self).model().outage matches Some(e) ==> r == Err::<u64, LedgerError>(e)
                && final(self).model() == old(self).model(),
            r matches Ok(n) ==> n <= 1,
            r == Ok::<u64, LedgerError>(1) ==> Some(final(self).model().rows) == old(
                self,
            ).model().rows.open_account(Account { id: account, balance, creation_request: req_id }),
            r == Ok::<u64, LedgerError>(0) ==> final(self).model().rows == old(self).model().rows,
            r is Ok ==> final(self).model() == old(self).model().with_rows(
                final(self).model().rows,
            ),
            old(self).model().dependable && r is Ok ==> r == Ok::<u64, LedgerError>(1),
            r is Err ==> final(self).model() == old(self).model(),
            old(self).model().dependable ==> (r is Ok <==> old(self).model().rows.open_account(
                Account { id: account, balance, creation_request: req_id },
            ) is Some),
            old(self).model().dependable && old(self).model().rows.has_account(account) ==> r
                == Err::<u64, LedgerError>(LedgerError::AlreadyExists),
            old(self).model().dependable && !old(self).model().rows.has_account(account) && balance
                < 0 ==> r == Err::<u64, LedgerError>(LedgerError::LegFailure),
    ;

    /// Reads the balance of every account row with the id `account`.
    fn select_balance(&mut self, account: u32) -> (r: Result<Vec<i64>, LedgerError>)
        requires
            old(self).inv(),
        ensures
            final(self).inv(),
            final(self).model().wf(),
            r matches Err(e) ==> e.from_store(),
            old(self).model().outage matches Some(e) ==> r == Err::<Vec<i64>, LedgerError>(e)
                && final(self).model() == old(self).model(),
            final(self).model() == old(self).model(),
            r matches Ok(found) ==> found@ == balances_found(old(self).model().rows, account),
            old(self).model().dependable ==> r is Ok,
    ;

    /// Adds `delta` to the balance of the account `account` and gives the
    /// number of rows changed: none where the account is missing.
    fn add_to_balance(&mut self, account: u32, delta: i64) -> (r: Result<u64, LedgerError>)
        requires
            old(self).inv(),
        ensures
            final(self).inv(),
            final(self).model().wf(),
            r matches Err(e) ==> e.from_store(),
            old(self).model().outage matches Some(e) ==> r == Err::<u64, LedgerError>(e)
                && final(self).model() == old(self).model(),
            r matches Ok(n) ==> if old(self).model().rows.has_account(account) {
                n == 1 && Some(final(self).model().rows) == old(self).model().rows.credit(
                    account,
                    delta as int,
                )
            } else {
                n == 0 && final(self).model().rows == old(self).model().rows
            },
            r is Ok ==> final(self).model() == old(self).model().with_rows(
                final(self).model().rows,
            ),
            r is Err ==> final(self).model() == old(self).model(),
            old(self).model().dependable ==> (r is Err <==> old(self).model().rows.has_account(
                account,
            ) && old(self).model().rows.credit(account, delta as int) is None),
            old(self).model().dependable && r is Err ==> r == Err::<u64, LedgerError>(
                LedgerError::LegFailure,
            ),
    ;

    /// Appends a row to the transaction log and gives the number of rows
    /// appended.
    fn insert_transaction(&mut self, entry: LogEntry) -> (r: Result<u64, LedgerError>)
        requires
            old(self).inv(),
        ensures
            final(self).inv(),
            final(self).model().wf(),
            r matches Err(e) ==> e.from_store(),
            old(self).model().outage matches Some(e) ==> r == Err::<u64, LedgerError>(e)
                && final(self).model() == old(self).model(),
            r matches Ok(n) ==> n <= 1 && final(self).model() == old(self).model().with_rows(
                if n == 1 {
                    old(self).model().rows.record(entry)
                } else {
                    old(self).model().rows
                },
            ),
            r is Err ==> final(self).model() == old(self).model(),
            old(self).model().dependable ==> r == Ok::<u64, LedgerError>(1),
    ;

    /// Drops both tables and creates them anew, empty.
    fn recreate_tables(&mut self) -> (r: Result<(), LedgerError>)
        requires
            old(self).inv(),
            old(self).model().idle(),
        ensures
            final(self).inv(),
            final(self).model().wf(),
            r matches Err(e) ==> e.from_store(),
            old(self).model().outage matches Some(e) ==> r == Err::<(), LedgerError>(e)
                && final(self).model() == old(self).model(),
            final(self).model() == old(self).model().with_rows(final(self).model().rows),
            r is Ok ==> final(self).model().rows == Ledger::empty(),
            old(self).model().dependable ==> r is Ok,
    ;
}

/// A unit of work: statements issued in one session, inside a restart
/// point, that end in a result or in a failure. It may be run more than
/// once, each time over the rows that the restart point began with.
///
/// While the store counts a conflict, a run may end in one: the store then
/// counts one less. Work that does not name a conflict among its own
/// failures ends in none on a dependable store.
pub trait UnitOfWork<S: Session, T> {
    /// The work can be done on `rows`. An implementation that says nothing
    /// leaves it open.
    open spec fn feasible(&self, rows: Ledger) -> bool {
        arbitrary()
    }

    /// Done on the rows `before`, the work may leave the rows `after` and
    /// give `out`. An implementation that says nothing leaves it open.
    open spec fn effect(&self, before: Ledger, after: Ledger, out: T) -> bool {
        arbitrary()
    }

    /// On `rows` the work may end in `failure` of its own accord. An
    /// implementation that says nothing leaves it open.
    open spec fn refusal(&self, rows: Ledger, failure: LedgerError) -> bool {
        arbitrary()
    }

    /// Does the work in `session`. After a failure the rows are whatever
    /// the statements that succeeded made of them.
    fn run(&self, session: &mut S) -> (r: Result<T, LedgerError>)
        requires
            old(session).inv(),
            old(session).model().wf(),
            old(session).model().in_attempt(),
        ensures
            final(session).inv(),
            final(session).model().wf(),
            final(session).model() == (SessionModel {
                rows: final(session).model().rows,
                conflicts: final(session).model().conflicts,
                ..old(session).model()
            }),
            final(session).model().conflicts <= old(session).model().conflicts,
            r matches Ok(out) ==> final(session).model().conflicts == old(
                session,
            ).model().conflicts && self.effect(
                old(session).model().rows,
                final(session).model().rows,
                out,
            ),
            r matches Err(e) ==> e.from_store() || self.refusal(old(session).model().rows, e),
            old(session).model().dependable ==> if r matches Err(e) && e.retryable() {
                &&& self.refusal(old(session).model().rows, LedgerError::TransientConflict)
                &&& old(session).model().conflicts > 0
                &&& final(session).model().conflicts == old(session).model().conflicts - 1
            } else {
                &&& final(session).model().conflicts == old(session).model().conflicts
                &&& r is Ok <==> self.feasible(old(session).model().rows)
                &&& r matches Err(e) ==> self.refusal(old(session).model().rows, e)
            },
    ;
}

} // verus!
