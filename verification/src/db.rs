pub mod memory;

use crate::error::LedgerError;
use crate::ledger::{stopped_at, Account, Ledger, LogEntry};
use crate::proto::accounting::TransferComponent;
use crate::session::{Session, SessionModel, UnitOfWork};
use vstd::prelude::*;

verus! {

/// What `execute_txn` ends in on a dependable store: the work is done once
/// where it can be done and the store counts fewer conflicts than attempts
/// are allowed.
pub open spec fn succeeds(feasible: bool, conflicts: nat, max_attempts: nat) -> bool {
    feasible && conflicts < max_attempts
}

/// How often work that can be done is run on a dependable store that
/// counts `conflicts` conflicts, with `max_attempts` attempts allowed: once
/// for each conflict and once more to succeed, as far as the attempts go.
pub open spec fn runs_needed(conflicts: nat, max_attempts: nat) -> nat {
    if conflicts < max_attempts {
        conflicts + 1
    } else {
        max_attempts
    }
}

/// What the executor does after an attempt.
pub enum Step<T> {
    /// The attempt is discarded and the work is run again.
    Retry,
    /// The attempts are over, with this result.
    Finished(Result<T, LedgerError>),
}

/// What follows an attempt that ended in `attempt`, with `attempts_left`
/// more allowed: a result ends the attempts, a conflict starts the work
/// again while an attempt is left, and any other failure, or a conflict
/// with no attempt left, ends the attempts as it came.
pub open spec fn next_step<T>(attempt: Result<T, LedgerError>, attempts_left: u64) -> Step<T> {
    match attempt {
        Ok(out) => Step::Finished(Ok(out)),
        Err(e) => if e.retryable() && attempts_left > 0 {
            Step::Retry
        } else {
            Step::Finished(Err(e))
        },
    }
}

/// Decides what follows an attempt that ended in `attempt`, with
/// `attempts_left` more allowed.
pub fn after_attempt<T>(attempt: Result<T, LedgerError>, attempts_left: u64) -> (step: Step<T>)
    ensures
        step == next_step(attempt, attempts_left),
{
    match attempt {
        Ok(out) => Step::Finished(Ok(out)),
        Err(e) => if e.is_retryable() && attempts_left > 0 {
            Step::Retry
        } else {
            Step::Finished(Err(e))
        },
    }
}

/// The result of work that gave `out`, once the store has answered
/// `sealed` to the finalising of its restart point or of its transaction:
/// `out` where the store agreed, and the store's failure where it did not.
pub fn finalised<T>(out: T, sealed: Result<(), LedgerError>) -> (r: Result<T, LedgerError>)
    ensures
        r == match sealed {
            Ok(_) => Ok::<T, LedgerError>(out),
            Err(e) => Err::<T, LedgerError>(e),
        },
{
    match sealed {
        Ok(_) => Ok(out),
        Err(e) => Err(e),
    }
}

/// Runs `op` inside one transaction of `conn`, and starts it again from its
/// restart point whenever the work or the store reports a serialization
/// conflict, up to `max_attempts` runs in all. Each run has a restart point
/// of its own, and the transaction is committed once where the work
/// succeeds and not at all where it does not.
///
/// Whatever the store does, the work has either taken effect once, and is
/// committed, or the rows are as they were. Any failure but a conflict ends
/// the loop and is handed on as it came, and so is the failure of a store
/// that cannot be reached.
pub fn execute_txn<S: Session, T, W: UnitOfWork<S, T>>(conn: &mut S, op: &W, max_attempts: u64) -> (r:
    Result<T, LedgerError>)
    requires
        old(conn).inv(),
        old(conn).model().idle(),
    ensures
        final(conn).inv(),
        final(conn).model().wf(),
        final(conn).model() == (SessionModel {
            rows: final(conn).model().rows,
            conflicts: final(conn).model().conflicts,
            restarts: final(conn).model().restarts,
            commits: final(conn).model().commits,
            ..old(conn).model()
        }),
        r matches Ok(out) ==> op.effect(old(conn).model().rows, final(conn).model().rows, out),
        r is Err ==> final(conn).model().rows == old(conn).model().rows,
        r matches Err(e) ==> e.from_store() || op.refusal(old(conn).model().rows, e),
        final(conn).model().conflicts <= old(conn).model().conflicts,
        final(conn).model().commits == old(conn).model().commits + if r is Ok {
            1nat
        } else {
            0nat
        },
        old(conn).model().restarts <= final(conn).model().restarts <= old(conn).model().restarts
            + max_attempts,
        r is Ok ==> final(conn).model().restarts > old(conn).model().restarts,
        old(conn).model().dependable && op.feasible(old(conn).model().rows) ==> final(conn).model().restarts == old(conn).model().restarts + runs_needed(
            old(conn).model().conflicts,
            max_attempts as nat,
        ),
        old(conn).model().outage matches Some(e) ==> r == Err::<T, LedgerError>(e) && final(conn).model() == old(conn).model(),
        old(conn).model().dependable ==> (r is Ok <==> succeeds(
            op.feasible(old(conn).model().rows),
            old(conn).model().conflicts,
            max_attempts as nat,
        )),
        old(conn).model().dependable && r is Ok ==> final(conn).model().conflicts == 0,
        old(conn).model().dependable && op.feasible(old(conn).model().rows) && old(
            conn,
        ).model().conflicts >= max_attempts ==> r == Err::<T, LedgerError>(
            LedgerError::TransientConflict,
        ) && final(conn).model().conflicts == old(conn).model().conflicts - max_attempts,
        old(conn).model().dependable && !op.feasible(old(conn).model().rows) && !op.refusal(
            old(conn).model().rows,
            LedgerError::TransientConflict,
        ) && max_attempts > 0 ==> final(conn).model().conflicts == old(conn).model().conflicts
            && final(conn).model().restarts == old(conn).model().restarts + 1 && (r matches Err(e)
            && !e.retryable() && op.refusal(old(conn).model().rows, e)),
        old(conn).model().dependable && max_attempts == 0 ==> r == Err::<T, LedgerError>(
            LedgerError::TransientConflict,
        ) && final(conn).model().conflicts == old(conn).model().conflicts,
{
    match conn.begin() {
        Err(e) => {
            return Err(e);
        },
        Ok(()) => {},
    }
    let ghost start = old(conn).model();
    let mut outcome: Result<T, LedgerError> = Err(LedgerError::TransientConflict);
    let mut attempts_left: u64 = max_attempts;
    while attempts_left > 0
        invariant_except_break
            conn.model() == (SessionModel {
                begun: Some(start.rows),
                conflicts: conn.model().conflicts,
                restarts: start.restarts + (max_attempts - attempts_left) as nat,
                ..start
            }),
            outcome == Err::<T, LedgerError>(LedgerError::TransientConflict),
            max_attempts == 0 ==> conn.model().conflicts == start.conflicts,
            start.dependable && op.feasible(start.rows) ==> conn.model().conflicts + (max_attempts
                - attempts_left) == start.conflicts,
            start.dependable && !op.feasible(start.rows) && !op.refusal(
                start.rows,
                LedgerError::TransientConflict,
            ) ==> attempts_left == max_attempts && conn.model().conflicts == start.conflicts,
        invariant
            conn.inv(),
            conn.model().wf(),
            start.idle(),
            attempts_left <= max_attempts,
            conn.model().conflicts <= start.conflicts,
        ensures
            conn.inv(),
            conn.model().wf(),
            conn.model() == (SessionModel {
                rows: conn.model().rows,
                begun: Some(start.rows),
                conflicts: conn.model().conflicts,
                restarts: conn.model().restarts,
                ..start
            }),
            conn.model().conflicts <= start.conflicts,
            start.restarts <= conn.model().restarts <= start.restarts + max_attempts,
            outcome is Ok ==> conn.model().restarts > start.restarts,
            start.dependable && op.feasible(start.rows) ==> conn.model().restarts == start.restarts
                + runs_needed(start.conflicts, max_attempts as nat),
            outcome matches Ok(out) ==> op.effect(start.rows, conn.model().rows, out),
            outcome matches Err(e) ==> e.from_store() || op.refusal(start.rows, e),
            start.dependable ==> (outcome is Ok <==> succeeds(
                op.feasible(start.rows),
                start.conflicts,
                max_attempts as nat,
            )),
            start.dependable && outcome is Ok ==> conn.model().conflicts == 0,
            start.dependable && op.feasible(start.rows) && start.conflicts >= max_attempts
                ==> outcome == Err::<T, LedgerError>(LedgerError::TransientConflict)
                && conn.model().conflicts == start.conflicts - max_attempts,
            start.dependable && !op.feasible(start.rows) && !op.refusal(
                start.rows,
                LedgerError::TransientConflict,
            ) && max_attempts > 0 ==> conn.model().conflicts == start.conflicts
                && conn.model().restarts == start.restarts + 1 && (outcome matches Err(e)
                && !e.retryable() && op.refusal(start.rows, e)),
            start.dependable && max_attempts == 0 ==> outcome == Err::<T, LedgerError>(
                LedgerError::TransientConflict,
            ) && conn.model().conflicts == start.conflicts,
        decreases attempts_left,
    {
        attempts_left = attempts_left - 1;
        match conn.savepoint() {
            Err(e) => {
                outcome = Err(e);
                break ;
            },
            Ok(()) => {},
        }
        let attempt = match op.run(conn) {
            Ok(out) => {
                let released = conn.release();
                finalised(out, released)
            },
            Err(e) => Err(e),
        };
        match &attempt {
            Err(_) => {
                conn.rollback_to_savepoint();
            },
            Ok(_) => {},
        }
        match after_attempt(attempt, attempts_left) {
            Step::Retry => {},
            Step::Finished(result) => {
                outcome = result;
                break ;
            },
        }
    }
    match outcome {
        Ok(out) => {
            let committed = conn.commit();
            finalised(out, committed)
        },
        Err(e) => {
            conn.rollback();
            Err(e)
        },
    }
}

/// What a statement of a leg amounts to, by what the store answered to it:
/// a statement that changed no row has failed the leg, one that changed a
/// row has done its part, and a failure of the store is handed on as it
/// came.
pub open spec fn leg_outcome(answer: Result<u64, LedgerError>) -> Result<(), LedgerError> {
    match answer {
        Ok(rows) => if rows == 0 {
            Err(LedgerError::LegFailure)
        } else {
            Ok(())
        },
        Err(e) => Err(e),
    }
}

/// Decides what a statement of a leg amounts to, by what the store
/// answered to it.
pub fn leg_applied(answer: Result<u64, LedgerError>) -> (r: Result<(), LedgerError>)
    ensures
        r == leg_outcome(answer),
{
    match answer {
        Ok(rows) => if rows == 0 {
            Err(LedgerError::LegFailure)
        } else {
            Ok(())
        },
        Err(e) => Err(e),
    }
}

/// Applies the legs of the transfer `req_id` in their order: each adds its
/// delta to the balance of its account and is then logged with its place.
/// It stops at the first leg that cannot be applied, and leaves it to the
/// caller to undo the legs before it: on a dependable store these are then
/// applied, and nothing else is. A store that cannot be reached fails the
/// first leg with its own failure.
pub fn transfer_funds<S: Session>(txn: &mut S, transfers: &[TransferComponent], req_id: i64) -> (r:
    Result<(), LedgerError>)
    requires
        old(txn).inv(),
        old(txn).model().wf(),
    ensures
        final(txn).inv(),
        final(txn).model().wf(),
        final(txn).model() == old(txn).model().with_rows(final(txn).model().rows),
        r is Ok ==> Some(final(txn).model().rows) == old(txn).model().rows.apply_legs(
            req_id,
            transfers@,
        ),
        r matches Err(e) ==> e.from_store(),
        transfers@.len() == 0 ==> r is Ok,
        transfers@.len() > 0 ==> (old(txn).model().outage matches Some(e) ==> r == Err::<
            (),
            LedgerError,
        >(e) && final(txn).model() == old(txn).model()),
        old(txn).model().dependable ==> (r is Ok <==> old(txn).model().rows.apply_legs(
            req_id,
            transfers@,
        ) is Some),
        old(txn).model().dependable && r is Err ==> r == Err::<(), LedgerError>(
            LedgerError::LegFailure,
        ),
        old(txn).model().dependable && r is Err ==> exists|k: nat| #[trigger]
            stopped_at(
                old(txn).model().rows,
                req_id,
                transfers@,
                final(txn).model().rows,
                k,
            ),
{
    let ghost start = old(txn).model();
    let mut i: usize = 0;
    while i < transfers.len()
        invariant
            txn.inv(),
            txn.model().wf(),
            i <= transfers.len(),
            start == old(txn).model(),
            txn.model() == start.with_rows(txn.model().rows),
            start.outage is Some ==> i == 0 && txn.model() == start,
            txn.model().rows.apply_legs_from(req_id, transfers@, i as nat)
                == start.rows.apply_legs(req_id, transfers@),
            start.rows.apply_legs(req_id, transfers@.take(i as int)) == Some(txn.model().rows),
        decreases transfers.len() - i,
    {
        proof {
            start.rows.lemma_apply_one_more(req_id, transfers@, 0, i as nat);
        }
        let delta: i64 = transfers[i].get_money_delta();
        let account: u32 = transfers[i].get_account_id();
        let ghost before = txn.model().rows;
        let changed = txn.add_to_balance(account, delta);
        match leg_applied(changed) {
            Err(e) => {
                proof {
                    if start.dependable {
                        assert(stopped_at(start.rows, req_id, transfers@, before, i as nat));
                    }
                }
                return Err(e);
            },
            Ok(()) => {},
        }
        let entry = LogEntry {
            req_id,
            account_id: account,
            amount: delta,
            transaction_index: i as u64,
        };
        let logged = txn.insert_transaction(entry);
        match leg_applied(logged) {
            Err(e) => {
                return Err(e);
            },
            Ok(()) => {},
        }
        assert(Some(txn.model().rows) == before.apply_leg(req_id, transfers@[i as int], i as nat));
        i = i + 1;
    }
    Ok(())
}

/// The legs of one transfer as a unit of work.
pub struct TransferWork<'a> {
    pub transfers: &'a [TransferComponent],
    pub req_id: i64,
}

impl<'a, S: Session> UnitOfWork<S, ()> for TransferWork<'a> {
    /// Every leg can be applied in its turn.
    open spec fn feasible(&self, rows: Ledger) -> bool {
        rows.apply_legs(self.req_id, self.transfers@) is Some
    }

    /// The rows after are the rows before with every leg applied.
    open spec fn effect(&self, before: Ledger, after: Ledger, out: ()) -> bool {
        before.apply_legs(self.req_id, self.transfers@) == Some(after)
    }

    /// Of its own accord a transfer ends in a leg failure only.
    open spec fn refusal(&self, rows: Ledger, failure: LedgerError) -> bool {
        failure == LedgerError::LegFailure
    }

    fn run(&self, session: &mut S) -> (r: Result<(), LedgerError>) {
        transfer_funds(session, self.transfers, self.req_id)
    }
}

/// What an insertion of an account amounts to, by what the store answered
/// to it: the one row where one row was inserted, an account that is there
/// already where the store took the statement and inserted none, and the
/// store's failure as it came.
pub open spec fn insertion(answer: Result<u64, LedgerError>) -> Result<u64, LedgerError> {
    match answer {
        Ok(rows) => if rows == 1 {
            Ok(1)
        } else {
            Err(LedgerError::AlreadyExists)
        },
        Err(e) => Err(e),
    }
}

/// Decides what an insertion of an account amounts to, by what the store
/// answered to it.
pub fn inserted(answer: Result<u64, LedgerError>) -> (r: Result<u64, LedgerError>)
    ensures
        r == insertion(answer),
{
    match answer {
        Ok(rows) => if rows == 1 {
            Ok(1)
        } else {
            Err(LedgerError::AlreadyExists)
        },
        Err(e) => Err(e),
    }
}

/// Creates the account `account` with the balance `balance`, on behalf of
/// the request `req_id`, and gives the number of rows inserted, which is
/// one.
pub fn create_account<S: Session>(conn: &mut S, account: u32, req_id: u64, balance: i64) -> (r:
    Result<u64, LedgerError>)
    requires
        old(conn).inv(),
    ensures
        final(conn).inv(),
        final(conn).model().wf(),
        final(conn).model() == old(conn).model().with_rows(final(conn).model().rows),
        r matches Ok(n) ==> n == 1 && Some(final(conn).model().rows) == old(
            conn,
        ).model().rows.open_account(Account { id: account, balance, creation_request: req_id }),
        r is Err ==> final(conn).model().rows == old(conn).model().rows,
        r matches Err(e) ==> e.from_store(),
        old(conn).model().outage matches Some(e) ==> r == Err::<u64, LedgerError>(e),
        old(conn).model().dependable ==> r == created(old(conn).model().rows, account, balance),
{
    let answer = conn.insert_account(account, balance, req_id);
    inserted(answer)
}

/// What the creation of the account `account` with the balance `balance`
/// ends in on a dependable store.
pub open spec fn created(rows: Ledger, account: u32, balance: i64) -> Result<u64, LedgerError> {
    if rows.has_account(account) {
        Err(LedgerError::AlreadyExists)
    } else if balance < 0 {
        Err(LedgerError::LegFailure)
    } else {
        Ok(1)
    }
}

/// What a query for the balance of the account `account` ends in on a
/// dependable store.
pub open spec fn balance_read(rows: Ledger, account: u32) -> Result<i64, LedgerError> {
    if rows.has_account(account) {
        Ok(rows.accounts[rows.position(account)].balance)
    } else {
        Err(LedgerError::NotFound)
    }
}

/// What a query for a balance amounts to, by what the store answered to
/// it: the balance where one row was found, an account that is missing
/// where none or more were, and the store's failure as it came.
pub open spec fn balance_answered(answer: Result<Vec<i64>, LedgerError>) -> Result<
    i64,
    LedgerError,
> {
    match answer {
        Ok(found) => if found@.len() != 1 {
            Err(LedgerError::NotFound)
        } else {
            Ok(found@[0])
        },
        Err(e) => Err(e),
    }
}

/// Decides what a query for a balance amounts to, by what the store
/// answered to it.
pub fn read_balance(answer: Result<Vec<i64>, LedgerError>) -> (r: Result<i64, LedgerError>)
    ensures
        r == balance_answered(answer),
{
    match answer {
        Ok(found) => if found.len() != 1 {
            Err(LedgerError::NotFound)
        } else {
            Ok(found[0])
        },
        Err(e) => Err(e),
    }
}

/// Reads the balance of the account `account`. An account that no row
/// holds is reported as not found.
pub fn get_account_balance<S: Session>(conn: &mut S, account: u32) -> (r: Result<i64, LedgerError>)
    requires
        old(conn).inv(),
    ensures
        final(conn).inv(),
        final(conn).model().wf(),
        final(conn).model() == old(conn).model(),
        r is Ok ==> r == balance_read(old(conn).model().rows, account),
        r matches Err(e) ==> e.from_store() || (e == LedgerError::NotFound && !old(
            conn,
        ).model().rows.has_account(account)),
        old(conn).model().outage matches Some(e) ==> r == Err::<i64, LedgerError>(e),
        old(conn).model().dependable ==> r == balance_read(old(conn).model().rows, account),
{
    let answer = conn.select_balance(account);
    read_balance(answer)
}

/// What a transfer ends in on a dependable store that counts `conflicts`
/// conflicts, with `max_attempts` attempts allowed.
pub open spec fn transferred(
    rows: Ledger,
    req_id: i64,
    legs: Seq<TransferComponent>,
    conflicts: nat,
    max_attempts: nat,
) -> Result<(), LedgerError> {
    if max_attempts == 0 {
        Err(LedgerError::TransientConflict)
    } else if rows.apply_legs(req_id, legs) is None {
        Err(LedgerError::LegFailure)
    } else if conflicts >= max_attempts {
        Err(LedgerError::TransientConflict)
    } else {
        Ok(())
    }
}

/// Applies the legs of the transfer `req_id` as one unit: all of them, in
/// their order, or none. A serialization conflict starts the unit again,
/// up to `max_attempts` runs in all.
pub fn execute_transfers<S: Session>(
    conn: &mut S,
    transfers: &[TransferComponent],
    req_id: i64,
    max_attempts: u64,
) -> (r: Result<(), LedgerError>)
    requires
        old(conn).inv(),
        old(conn).model().idle(),
    ensures
        final(conn).inv(),
        final(conn).model().wf(),
        final(conn).model() == (SessionModel {
            rows: final(conn).model().rows,
            conflicts: final(conn).model().conflicts,
            restarts: final(conn).model().restarts,
            commits: final(conn).model().commits,
            ..old(conn).model()
        }),
        final(conn).model().conflicts <= old(conn).model().conflicts,
        final(conn).model().commits == old(conn).model().commits + if r is Ok {
            1nat
        } else {
            0nat
        },
        old(conn).model().dependable ==> final(conn).model().restarts == old(
            conn,
        ).model().restarts + if max_attempts == 0 {
            0
        } else if old(conn).model().rows.apply_legs(req_id, transfers@) is None {
            1
        } else {
            runs_needed(old(conn).model().conflicts, max_attempts as nat)
        },
        r is Ok ==> Some(final(conn).model().rows) == old(conn).model().rows.apply_legs(
            req_id,
            transfers@,
        ),
        r is Err ==> final(conn).model().rows == old(conn).model().rows,
        r matches Err(e) ==> e.from_store(),
        old(conn).model().outage matches Some(e) ==> r == Err::<(), LedgerError>(e) && final(conn).model() == old(conn).model(),
        old(conn).model().dependable ==> r == transferred(
            old(conn).model().rows,
            req_id,
            transfers@,
            old(conn).model().conflicts,
            max_attempts as nat,
        ),
        old(conn).model().dependable ==> final(conn).model().conflicts == conflicts_left(
            old(conn).model().rows.apply_legs(req_id, transfers@) is Some,
            old(conn).model().conflicts,
            max_attempts as nat,
        ),
{
    let work = TransferWork { transfers, req_id };
    let ghost rows = conn.model().rows;
    let r = execute_txn(conn, &work, max_attempts);
    proof {
        assert(UnitOfWork::<S, ()>::feasible(&work, rows) == (rows.apply_legs(req_id, transfers@)
            is Some));
        assert(forall|e: LedgerError|
            UnitOfWork::<S, ()>::refusal(&work, rows, e) ==> e == LedgerError::LegFailure);
    }
    r
}

/// The conflicts that a dependable store still counts after work was
/// executed with `max_attempts` attempts allowed: work that cannot be done
/// meets none, and work that can be done meets one in each attempt until
/// none is left.
pub open spec fn conflicts_left(feasible: bool, conflicts: nat, max_attempts: nat) -> nat {
    if !feasible {
        conflicts
    } else if conflicts >= max_attempts {
        (conflicts - max_attempts) as nat
    } else {
        0
    }
}

} // verus!
