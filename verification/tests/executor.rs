use accountant::db::memory::{MemorySession, MemoryStore};
use accountant::db::{
    after_attempt, create_account, execute_txn, finalised, get_account_balance, inserted,
    leg_applied, read_balance, transfer_funds, Step,
};
use accountant::error::LedgerError;
use accountant::proto::accounting::{
    CreateAccountRequest, GetBalanceRequest, ResetRequest, TransferComponent, TransferRequest,
};
use accountant::proto::accounting_grpc::{AccountingService, RpcStatusCode};
use accountant::session::{Session, UnitOfWork};
use accountant::{DataStore, GrpcAccountingService};
use std::cell::Cell;

/// Work that adds one to the balance of account 1 and then reports a
/// conflict, for its first runs, or a failure of its own, or gives 7.
struct Flaky {
    runs: Cell<u32>,
    conflicts: u32,
    then: Result<u32, LedgerError>,
}

impl Flaky {
    fn new(conflicts: u32, then: Result<u32, LedgerError>) -> Flaky {
        Flaky { runs: Cell::new(0), conflicts, then }
    }
}

impl UnitOfWork<MemorySession, u32> for Flaky {
    fn run(&self, session: &mut MemorySession) -> Result<u32, LedgerError> {
        let run = self.runs.get() + 1;
        self.runs.set(run);
        session.add_to_balance(1, 1)?;
        if run <= self.conflicts {
            Err(LedgerError::TransientConflict)
        } else {
            self.then
        }
    }
}

fn session_with_account() -> MemorySession {
    let mut session = MemorySession::new();
    assert_eq!(create_account(&mut session, 1, 0, 0), Ok(1));
    session
}

#[test]
fn work_that_reports_conflicts_is_run_again_until_it_succeeds() {
    let mut session = session_with_account();
    let work = Flaky::new(2, Ok(7));
    assert_eq!(execute_txn(&mut session, &work, 5), Ok(7));
    assert_eq!(work.runs.get(), 3);
    assert_eq!(get_account_balance(&mut session, 1), Ok(1));
}

#[test]
fn work_that_succeeds_at_once_is_run_once() {
    let mut session = session_with_account();
    let work = Flaky::new(0, Ok(7));
    assert_eq!(execute_txn(&mut session, &work, 5), Ok(7));
    assert_eq!(work.runs.get(), 1);
    assert_eq!(get_account_balance(&mut session, 1), Ok(1));
}

#[test]
fn conflicts_of_the_work_and_of_the_store_are_each_one_attempt() {
    let mut session = session_with_account();
    session.set_conflicts(2);
    let work = Flaky::new(1, Ok(7));
    assert_eq!(execute_txn(&mut session, &work, 4), Ok(7));
    assert_eq!(work.runs.get(), 4);
    assert_eq!(session.conflicts(), 0);
    assert_eq!(get_account_balance(&mut session, 1), Ok(1));
}

#[test]
fn work_that_keeps_reporting_conflicts_ends_with_the_last_attempt() {
    let mut session = session_with_account();
    let work = Flaky::new(9, Ok(7));
    assert_eq!(execute_txn(&mut session, &work, 2), Err(LedgerError::TransientConflict));
    assert_eq!(work.runs.get(), 2);
    assert_eq!(get_account_balance(&mut session, 1), Ok(0));
    let work = Flaky::new(9, Ok(7));
    assert_eq!(execute_txn(&mut session, &work, 0), Err(LedgerError::TransientConflict));
    assert_eq!(work.runs.get(), 0);
}

#[test]
fn a_failure_of_the_work_that_is_no_conflict_is_not_retried() {
    let mut session = session_with_account();
    let work = Flaky::new(1, Err(LedgerError::LegFailure));
    assert_eq!(execute_txn(&mut session, &work, 5), Err(LedgerError::LegFailure));
    assert_eq!(work.runs.get(), 2);
    assert_eq!(get_account_balance(&mut session, 1), Ok(0));
    let work = Flaky::new(0, Err(LedgerError::StoreUnavailable));
    assert_eq!(execute_txn(&mut session, &work, 5), Err(LedgerError::StoreUnavailable));
    assert_eq!(work.runs.get(), 1);
    assert_eq!(get_account_balance(&mut session, 1), Ok(0));
}

#[test]
fn a_transaction_that_cannot_be_opened_hands_on_the_failure() {
    let mut session = session_with_account();
    session.set_unavailable(true);
    let work = Flaky::new(0, Ok(7));
    assert_eq!(execute_txn(&mut session, &work, 5), Err(LedgerError::StoreUnavailable));
    assert_eq!(work.runs.get(), 0);
    session.set_unavailable(false);
    assert_eq!(get_account_balance(&mut session, 1), Ok(0));
    assert_eq!(execute_txn(&mut session, &work, 5), Ok(7));
}

#[test]
fn a_statement_that_the_store_fails_ends_the_legs_with_that_failure() {
    let mut session = session_with_account();
    session.set_unavailable(true);
    let legs = [TransferComponent { account_id: 1, money_delta: 0 }];
    assert_eq!(transfer_funds(&mut session, &legs, 3), Err(LedgerError::StoreUnavailable));
    assert_eq!(transfer_funds(&mut session, &[], 3), Ok(()));
    assert_eq!(get_account_balance(&mut session, 1), Err(LedgerError::StoreUnavailable));
    assert_eq!(create_account(&mut session, 2, 0, 0), Err(LedgerError::StoreUnavailable));
    session.set_unavailable(false);
    assert!(session.log().is_empty());
    assert_eq!(session.accounts().len(), 1);
}

#[test]
fn a_session_out_of_reach_refuses_every_call_that_can_fail() {
    let mut session = session_with_account();
    assert_eq!(session.begin(), Ok(()));
    assert_eq!(session.add_to_balance(1, 5), Ok(1));
    assert_eq!(session.savepoint(), Ok(()));
    session.set_unavailable(true);
    let down = LedgerError::StoreUnavailable;
    assert_eq!(session.add_to_balance(1, 5), Err(down));
    assert_eq!(session.insert_account(2, 0, 0), Err(down));
    assert_eq!(session.select_balance(1), Err(down));
    assert_eq!(session.release(), Err(down));
    session.rollback_to_savepoint();
    assert_eq!(session.savepoint(), Err(down));
    assert_eq!(session.commit(), Err(down));
    assert_eq!(session.begin(), Err(down));
    assert_eq!(session.recreate_tables(), Err(down));
    session.set_unavailable(false);
    assert_eq!(session.select_balance(1), Ok(vec![0]));
}

#[test]
fn a_store_out_of_reach_is_answered_as_a_server_error() {
    let mut store = MemoryStore::new();
    assert_eq!(store.create_account(1, 0, 10), Ok(1));
    store.set_unavailable(true);
    assert_eq!(store.create_account(2, 0, 10), Err(LedgerError::StoreUnavailable));
    assert_eq!(store.get_account_balance(1), Err(LedgerError::StoreUnavailable));
    assert_eq!(store.execute_transfers(&[], 1), Err(LedgerError::StoreUnavailable));
    assert_eq!(store.reset(), Err(LedgerError::StoreUnavailable));
    let mut service = GrpcAccountingService::new(store);
    let leg = TransferComponent { account_id: 1, money_delta: 0 };
    let reply = service.transfer(TransferRequest { req_id: 1, components: vec![leg] });
    let status = reply.unwrap_err();
    assert_eq!(status.status, RpcStatusCode::Unknown);
    assert_eq!(status.details, "Server Error");
    let uneven = TransferComponent { account_id: 1, money_delta: 1 };
    let reply = service.transfer(TransferRequest { req_id: 1, components: vec![uneven] });
    assert_eq!(reply.unwrap_err().status, RpcStatusCode::FailedPrecondition);
    let reply = service.get_balance(GetBalanceRequest { req_id: 2, account_id: 1 });
    assert_eq!(reply.unwrap_err().status, RpcStatusCode::Unknown);
    let reply =
        service.create_account(CreateAccountRequest { req_id: 3, account_id: 5, balance: 1 });
    assert_eq!(reply.unwrap_err().status, RpcStatusCode::Unknown);
    assert_eq!(service.reset(ResetRequest {}).unwrap_err().status, RpcStatusCode::Unknown);
    let mut store = service.into_store();
    store.set_unavailable(false);
    assert_eq!(store.get_account_balance(1), Ok(10));
    assert_eq!(store.accounts().len(), 1);
}

#[test]
fn a_conflict_is_retried_while_an_attempt_is_left() {
    let conflict = LedgerError::TransientConflict;
    assert!(matches!(after_attempt(Ok::<u32, LedgerError>(3), 0), Step::Finished(Ok(3))));
    assert!(matches!(after_attempt(Ok::<u32, LedgerError>(3), 4), Step::Finished(Ok(3))));
    assert!(matches!(after_attempt(Err::<u32, LedgerError>(conflict), 1), Step::Retry));
    assert!(matches!(
        after_attempt(Err::<u32, LedgerError>(conflict), 0),
        Step::Finished(Err(LedgerError::TransientConflict))
    ));
    for failure in [
        LedgerError::ValidationError,
        LedgerError::AlreadyExists,
        LedgerError::NotFound,
        LedgerError::LegFailure,
        LedgerError::StoreUnavailable,
    ] {
        let step = after_attempt(Err::<u32, LedgerError>(failure), 9);
        assert!(matches!(step, Step::Finished(Err(e)) if e == failure));
    }
}

#[test]
fn what_the_store_refuses_to_finalise_fails_as_the_store_said() {
    assert_eq!(finalised(7, Ok(())), Ok(7));
    assert_eq!(
        finalised(7, Err(LedgerError::TransientConflict)),
        Err(LedgerError::TransientConflict)
    );
    assert_eq!(
        finalised(7, Err(LedgerError::StoreUnavailable)),
        Err(LedgerError::StoreUnavailable)
    );
}

#[test]
fn a_statement_that_changes_no_row_fails_the_leg() {
    assert_eq!(leg_applied(Ok(0)), Err(LedgerError::LegFailure));
    assert_eq!(leg_applied(Ok(1)), Ok(()));
    assert_eq!(leg_applied(Ok(3)), Ok(()));
    assert_eq!(leg_applied(Err(LedgerError::TransientConflict)), Err(LedgerError::TransientConflict));
    assert_eq!(leg_applied(Err(LedgerError::StoreUnavailable)), Err(LedgerError::StoreUnavailable));
}

#[test]
fn an_insertion_of_no_row_is_an_account_that_exists() {
    assert_eq!(inserted(Ok(1)), Ok(1));
    assert_eq!(inserted(Ok(0)), Err(LedgerError::AlreadyExists));
    assert_eq!(inserted(Ok(2)), Err(LedgerError::AlreadyExists));
    assert_eq!(inserted(Err(LedgerError::StoreUnavailable)), Err(LedgerError::StoreUnavailable));
    assert_eq!(inserted(Err(LedgerError::LegFailure)), Err(LedgerError::LegFailure));
}

#[test]
fn a_query_that_fails_is_not_taken_for_a_missing_account() {
    assert_eq!(read_balance(Ok(vec![])), Err(LedgerError::NotFound));
    assert_eq!(read_balance(Ok(vec![5])), Ok(5));
    assert_eq!(read_balance(Ok(vec![5, 6])), Err(LedgerError::NotFound));
    assert_eq!(
        read_balance(Err(LedgerError::StoreUnavailable)),
        Err(LedgerError::StoreUnavailable)
    );
    assert_eq!(
        read_balance(Err(LedgerError::TransientConflict)),
        Err(LedgerError::TransientConflict)
    );
}
