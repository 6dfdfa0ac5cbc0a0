use crate::db::{balance_read, conflicts_left, created, transferred};
use crate::error::LedgerError;
use crate::ledger::{Account, Ledger};
use crate::proto::accounting::TransferComponent;
use vstd::prelude::*;

verus! {

/// What a store amounts to between two calls.
pub struct StoreState {
    /// The rows of the ledger.
    pub rows: Ledger,
    /// How many more times the store will refuse to finalise work because
    /// of a serialization conflict.
    pub conflicts: nat,
    /// The store fails only where the rows give the reason, and where
    /// `conflicts` counts a refusal.
    pub dependable: bool,
    /// The failure with which the store answers every call, while it
    /// cannot be reached.
    pub outage: Option<LedgerError>,
    /// How many times the store runs a unit of work before it gives up on
    /// conflicts.
    pub max_attempts: nat,
}

impl StoreState {
    /// The same store over other rows.
    pub open spec fn with_rows(self, rows: Ledger) -> StoreState {
        StoreState { rows, ..self }
    }
}

/// The operations that every store of the ledger offers.
///
/// Whatever the store, an operation that succeeds has changed the rows as
/// stated, and one that fails has left them as they were; none leaves an id
/// twice or a balance below zero. Only a dependable store promises which of
/// the two happens. A store that cannot be reached answers every call with
/// the failure of its outage, and no failure of a store is one of invalid
/// legs.
pub trait DataStore {
    /// What the store amounts to. An implementation that says nothing
    /// leaves it open.
    open spec fn state(&self) -> StoreState {
        arbitrary()
    }

    /// What the implementation keeps true of itself between calls: unless
    /// it says more, that its ledger is well formed.
    open spec fn valid(&self) -> bool {
        self.state().rows.wf()
    }

    /// Creates the account `account` with the balance `balance` on behalf
    /// of the request `req_id`.
    fn create_account(&mut self, account: u32, req_id: u64, balance: i64) -> (r: Result<
        u64,
        LedgerError,
    >)
        requires
            old(self).valid(),
        ensures
            final(self).valid(),
            final(self).state().rows.wf(),
            final(self).state() == old(self).state().with_rows(final(self).state().rows),
            r matches Ok(n) ==> n == 1 && Some(final(self).state().rows) == old(
                self,
            ).state().rows.open_account(Account { id: account, balance, creation_request: req_id }),
            r is Err ==> final(self).state().rows == old(self).state().rows,
            old(self).state().dependable ==> r == created(old(self).state().rows, account, balance),
            r matches Err(e) ==> e.from_store(),
            old(self).state().outage matches Some(e) ==> r == Err::<u64, LedgerError>(e),
    ;

    /// Reads the balance of the account `account`.
    fn get_account_balance(&mut self, account: u32) -> (r: Result<i64, LedgerError>)
        requires
            old(self).valid(),
        ensures
            final(self).valid(),
            final(self).state().rows.wf(),
            final(self).state() == old(self).state(),
            r is Ok ==> r == balance_read(old(self).state().rows, account),
            r matches Err(e) ==> e.from_store() || (e == LedgerError::NotFound && !old(
                self,
            ).state().rows.has_account(account)),
            old(self).state().outage matches Some(e) ==> r == Err::<i64, LedgerError>(e),
            old(self).state().dependable ==> r == balance_read(old(self).state().rows, account),
    ;

    /// Applies the legs of the transfer `req_id` as one unit: all of them,
    /// in their order, or none.
    fn execute_transfers(&mut self, transfers: &[TransferComponent], req_id: i64) -> (r: Result<
        (),
        LedgerError,
    >)
        requires
            old(self).valid(),
        ensures
            final(self).valid(),
            final(self).state().rows.wf(),
            final(self).state() == (StoreState {
                rows: final(self).state().rows,
                conflicts: final(self).state().conflicts,
                ..old(self).state()
            }),
            final(self).state().conflicts <= old(self).state().conflicts,
            r is Ok ==> Some(final(self).state().rows) == old(self).state().rows.apply_legs(
                req_id,
                transfers@,
            ),
            r is Err ==> final(self).state().rows == old(self).state().rows,
            r matches Err(e) ==> e.from_store(),
            old(self).state().outage matches Some(e) ==> r == Err::<(), LedgerError>(e) && final(self).state() == old(self).state(),
            old(self).state().dependable ==> r == transferred(
                old(self).state().rows,
                req_id,
                transfers@,
                old(self).state().conflicts,
                old(self).state().max_attempts,
            ),
            old(self).state().dependable ==> final(self).state().conflicts == conflicts_left(
                old(self).state().rows.apply_legs(req_id, transfers@) is Some,
                old(self).state().conflicts,
                old(self).state().max_attempts,
            ),
    ;

    /// Destroys the ledger and sets up an empty one.
    fn reset(&mut self) -> (r: Result<(), LedgerError>)
        requires
            old(self).valid(),
        ensures
            final(self).valid(),
            final(self).state().rows.wf(),
            final(self).state() == old(self).state().with_rows(final(self).state().rows),
            r is Ok ==> final(self).state().rows == Ledger::empty(),
            r matches Err(e) ==> e.from_store(),
            old(self).state().outage matches Some(e) ==> r == Err::<(), LedgerError>(e),
            old(self).state().dependable ==> r is Ok,
    ;
}

} // verus!
