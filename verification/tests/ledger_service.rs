use accountant::db::memory::{MemorySession, MemoryStore};
use accountant::db::{
    create_account, execute_transfers, execute_txn, get_account_balance, transfer_funds,
    TransferWork,
};
use accountant::error::{classify, classify_sql_state, LedgerError};
use accountant::ledger::{Account, LogEntry};
use accountant::proto::accounting::{
    CreateAccountRequest, GetBalanceRequest, ResetRequest, TransferComponent, TransferRequest,
};
use accountant::proto::accounting_grpc::{
    create_accounting_service, AccountingService, AccountingServiceClient, CallOption, Request,
    Response, RpcStatus, RpcStatusCode,
};
use accountant::service::{sum_of_deltas, to_column};
use accountant::session::Session;
use accountant::{DataStore, GrpcAccountingService};

fn leg(account_id: u32, money_delta: i64) -> TransferComponent {
    TransferComponent { account_id, money_delta }
}

fn service_with(accounts: &[(u32, i64)]) -> GrpcAccountingService<MemoryStore> {
    let mut service = GrpcAccountingService::new(MemoryStore::new());
    let mut req_id = 0;
    for (account_id, balance) in accounts {
        let made = service.create_account(CreateAccountRequest {
            req_id,
            account_id: *account_id,
            balance: *balance,
        });
        assert!(made.is_ok());
        req_id += 1;
    }
    service
}

fn balance(service: &mut GrpcAccountingService<MemoryStore>, account_id: u32) -> i64 {
    service.get_balance(GetBalanceRequest { req_id: 0, account_id }).unwrap().balance
}

fn total(service: &GrpcAccountingService<MemoryStore>) -> i128 {
    service.store().accounts().iter().map(|row| row.balance as i128).sum()
}

#[test]
fn end_to_end_transfer_moves_the_amount() {
    let mut service = GrpcAccountingService::new(MemoryStore::new());
    let made = service.create_account(CreateAccountRequest { req_id: 0, account_id: 1, balance: 100 });
    assert_eq!(made.unwrap().account_id, 1);
    let made = service.create_account(CreateAccountRequest { req_id: 1, account_id: 2, balance: 0 });
    assert_eq!(made.unwrap().req_id, 1);
    let reply = service.transfer(TransferRequest {
        req_id: 2,
        components: vec![leg(1, -30), leg(2, 30)],
    });
    assert_eq!(reply.unwrap().req_id, 2);
    let first = service.get_balance(GetBalanceRequest { req_id: 3, account_id: 1 }).unwrap();
    assert_eq!(first.balance, 70);
    assert_eq!(first.req_id, 3);
    assert_eq!(first.account_id, 1);
    let second = service.get_balance(GetBalanceRequest { req_id: 4, account_id: 2 }).unwrap();
    assert_eq!(second.balance, 30);
}

#[test]
fn legs_that_do_not_cancel_are_refused() {
    let mut service = GrpcAccountingService::new(MemoryStore::new());
    let reply = service.transfer(TransferRequest {
        req_id: 7,
        components: vec![leg(1, -50), leg(2, 40)],
    });
    let status = reply.unwrap_err();
    assert_eq!(status.status, RpcStatusCode::FailedPrecondition);
    assert_eq!(status.details, "Sum of All Money Deltas Must Be Zero");

    let mut service = service_with(&[(1, 100), (2, 100)]);
    let reply = service.transfer(TransferRequest {
        req_id: 7,
        components: vec![leg(1, -50), leg(2, 40)],
    });
    assert_eq!(reply.unwrap_err().status, RpcStatusCode::FailedPrecondition);
    assert_eq!(balance(&mut service, 1), 100);
    assert_eq!(balance(&mut service, 2), 100);
    assert!(service.store().log().is_empty());
}

#[test]
fn a_sum_that_would_wrap_is_not_taken_for_zero() {
    let legs = vec![leg(1, i64::MAX), leg(2, i64::MAX), leg(3, 2)];
    assert_eq!(sum_of_deltas(&legs), 2 * (i64::MAX as i128) + 2);
    let mut service = service_with(&[(1, 0), (2, 0), (3, 0)]);
    let reply = service.transfer(TransferRequest { req_id: 1, components: legs });
    assert_eq!(reply.unwrap_err().status, RpcStatusCode::FailedPrecondition);
    assert_eq!(sum_of_deltas(&[]), 0);
    assert_eq!(sum_of_deltas(&[leg(1, i64::MIN), leg(1, i64::MIN)]), 2 * (i64::MIN as i128));
}

#[test]
fn a_second_creation_is_refused_and_changes_nothing() {
    let mut service = service_with(&[(9, 250)]);
    let again = service.create_account(CreateAccountRequest { req_id: 5, account_id: 9, balance: 1 });
    let status = again.unwrap_err();
    assert_eq!(status.status, RpcStatusCode::InvalidArgument);
    assert_eq!(status.details, "Account Already Exists");
    assert_eq!(balance(&mut service, 9), 250);
    assert_eq!(
        service.store().accounts(),
        vec![Account { id: 9, balance: 250, creation_request: 0 }]
    );
}

#[test]
fn a_negative_first_balance_is_refused() {
    let mut store = MemoryStore::new();
    assert_eq!(store.create_account(4, 0, -1), Err(LedgerError::LegFailure));
    assert_eq!(store.get_account_balance(4), Err(LedgerError::NotFound));
    assert_eq!(store.create_account(4, 0, 0), Ok(1));
    assert_eq!(store.get_account_balance(4), Ok(0));
}

#[test]
fn a_leg_on_a_missing_account_fails_the_transfer() {
    let mut service = service_with(&[(1, 80)]);
    let reply = service.transfer(TransferRequest {
        req_id: 3,
        components: vec![leg(1, -50), leg(77, 50)],
    });
    let status = reply.unwrap_err();
    assert_eq!(status.status, RpcStatusCode::Aborted);
    assert_eq!(status.details, "Transaction Error.  Possibly a User Had Insufficient Funds");
    assert_eq!(balance(&mut service, 1), 80);
    assert!(service.store().log().is_empty());
}

#[test]
fn a_failed_leg_undoes_the_legs_before_it() {
    let mut service = service_with(&[(1, 100), (2, 0), (3, 0)]);
    let reply = service.transfer(TransferRequest {
        req_id: 3,
        components: vec![leg(1, -30), leg(2, 30), leg(1, -1000), leg(3, 1000)],
    });
    assert_eq!(reply.unwrap_err().status, RpcStatusCode::Aborted);
    assert_eq!(balance(&mut service, 1), 100);
    assert_eq!(balance(&mut service, 2), 0);
    assert_eq!(balance(&mut service, 3), 0);
    assert!(service.store().log().is_empty());
}

#[test]
fn a_balance_may_not_dip_below_zero_on_the_way() {
    let mut service = service_with(&[(1, 5)]);
    let reply = service.transfer(TransferRequest {
        req_id: 3,
        components: vec![leg(1, -10), leg(1, 10)],
    });
    assert_eq!(reply.unwrap_err().status, RpcStatusCode::Aborted);
    assert_eq!(balance(&mut service, 1), 5);
    let reply = service.transfer(TransferRequest {
        req_id: 4,
        components: vec![leg(1, 10), leg(1, -10)],
    });
    assert!(reply.is_ok());
    assert_eq!(balance(&mut service, 1), 5);
}

#[test]
fn a_balance_beyond_the_largest_is_refused() {
    let mut service = service_with(&[(1, i64::MAX), (2, 1)]);
    let reply = service.transfer(TransferRequest {
        req_id: 3,
        components: vec![leg(1, 1), leg(2, -1)],
    });
    assert_eq!(reply.unwrap_err().status, RpcStatusCode::Aborted);
    assert_eq!(balance(&mut service, 1), i64::MAX);
    assert_eq!(balance(&mut service, 2), 1);
}

#[test]
fn the_log_keeps_each_leg_with_its_place() {
    let mut service = service_with(&[(1, 100), (2, 0)]);
    let reply = service.transfer(TransferRequest {
        req_id: 11,
        components: vec![leg(1, -10), leg(1, -10), leg(2, 20)],
    });
    assert!(reply.is_ok());
    assert_eq!(
        service.store().log(),
        vec![
            LogEntry { req_id: 11, account_id: 1, amount: -10, transaction_index: 0 },
            LogEntry { req_id: 11, account_id: 1, amount: -10, transaction_index: 1 },
            LogEntry { req_id: 11, account_id: 2, amount: 20, transaction_index: 2 },
        ]
    );
    assert_eq!(balance(&mut service, 1), 80);
    assert_eq!(balance(&mut service, 2), 20);
}

#[test]
fn transfers_under_one_request_id_are_all_logged() {
    let mut service = service_with(&[(1, 10), (2, 0)]);
    for _ in 0..2 {
        let reply = service.transfer(TransferRequest {
            req_id: 5,
            components: vec![leg(1, -1), leg(2, 1)],
        });
        assert!(reply.is_ok());
    }
    let log = service.store().log();
    assert_eq!(log.len(), 4);
    assert!(log.iter().all(|row| row.req_id == 5));
    assert_eq!(log[2].transaction_index, 0);
    assert_eq!(log[3].transaction_index, 1);
}

#[test]
fn the_total_stays_through_transfers_that_succeed_and_that_fail() {
    let mut service = service_with(&[(1, 500), (2, 20), (3, 0)]);
    let before = total(&service);
    assert_eq!(before, 520);
    let transfers = vec![
        vec![leg(1, -100), leg(2, 50), leg(3, 50)],
        vec![leg(2, -70), leg(3, 70)],
        vec![leg(3, -500), leg(1, 500)],
        vec![leg(3, -120), leg(1, 60), leg(2, 60)],
        vec![leg(1, -1), leg(8, 1)],
        vec![],
    ];
    let mut req_id = 10;
    for components in transfers {
        let _ = service.transfer(TransferRequest { req_id, components });
        req_id += 1;
        assert_eq!(total(&service), before);
        assert!(service.store().accounts().iter().all(|row| row.balance >= 0));
    }
    assert_eq!(balance(&mut service, 1), 460);
    assert_eq!(balance(&mut service, 2), 60);
    assert_eq!(balance(&mut service, 3), 0);
}

#[test]
fn two_transfers_leave_the_same_balances_in_either_order() {
    let first = vec![leg(1, -40), leg(2, 40)];
    let second = vec![leg(1, -25), leg(3, 25)];
    let mut one = service_with(&[(1, 100), (2, 0), (3, 0)]);
    assert!(one.transfer(TransferRequest { req_id: 1, components: first.clone() }).is_ok());
    assert!(one.transfer(TransferRequest { req_id: 2, components: second.clone() }).is_ok());
    let mut other = service_with(&[(1, 100), (2, 0), (3, 0)]);
    assert!(other.transfer(TransferRequest { req_id: 2, components: second }).is_ok());
    assert!(other.transfer(TransferRequest { req_id: 1, components: first }).is_ok());
    for account in 1..=3 {
        assert_eq!(balance(&mut one, account), balance(&mut other, account));
    }
    assert_eq!(balance(&mut one, 1), 35);
    assert_eq!(balance(&mut one, 2), 40);
    assert_eq!(balance(&mut one, 3), 25);
}

#[test]
fn a_conflict_is_retried_and_the_transfer_applied_once() {
    let mut store = MemoryStore::new();
    assert_eq!(store.create_account(1, 0, 100), Ok(1));
    assert_eq!(store.create_account(2, 1, 0), Ok(1));
    store.set_conflicts(3);
    assert_eq!(store.execute_transfers(&[leg(1, -30), leg(2, 30)], 9), Ok(()));
    assert_eq!(store.conflicts(), 0);
    assert_eq!(store.get_account_balance(1), Ok(70));
    assert_eq!(store.get_account_balance(2), Ok(30));
    assert_eq!(
        store.log(),
        vec![
            LogEntry { req_id: 9, account_id: 1, amount: -30, transaction_index: 0 },
            LogEntry { req_id: 9, account_id: 2, amount: 30, transaction_index: 1 },
        ]
    );
}

#[test]
fn conflicts_beyond_the_attempts_allowed_fail_the_transfer() {
    let mut store = MemoryStore::new();
    assert_eq!(store.create_account(1, 0, 100), Ok(1));
    assert_eq!(store.create_account(2, 1, 0), Ok(1));
    store.set_max_attempts(2);
    store.set_conflicts(5);
    assert_eq!(
        store.execute_transfers(&[leg(1, -30), leg(2, 30)], 9),
        Err(LedgerError::TransientConflict)
    );
    assert_eq!(store.conflicts(), 3);
    assert_eq!(store.get_account_balance(1), Ok(100));
    assert_eq!(store.get_account_balance(2), Ok(0));
    assert!(store.log().is_empty());
    assert_eq!(
        store.execute_transfers(&[leg(1, -30), leg(2, 30)], 9),
        Err(LedgerError::TransientConflict)
    );
    assert_eq!(store.conflicts(), 1);
    assert_eq!(store.execute_transfers(&[leg(1, -30), leg(2, 30)], 9), Ok(()));
    assert_eq!(store.conflicts(), 0);
    assert_eq!(store.get_account_balance(1), Ok(70));

    let mut service = GrpcAccountingService::new(store);
    let mut inner = MemoryStore::new();
    inner.set_max_attempts(0);
    assert_eq!(inner.execute_transfers(&[], 1), Err(LedgerError::TransientConflict));
    assert_eq!(balance(&mut service, 2), 30);
}

#[test]
fn a_transfer_that_cannot_be_applied_meets_no_conflict() {
    let mut store = MemoryStore::new();
    assert_eq!(store.create_account(1, 0, 10), Ok(1));
    store.set_conflicts(4);
    assert_eq!(
        store.execute_transfers(&[leg(1, -30), leg(1, 30)], 9),
        Err(LedgerError::LegFailure)
    );
    assert_eq!(store.conflicts(), 4);
    assert_eq!(store.get_account_balance(1), Ok(10));
}

#[test]
fn exhausted_conflicts_are_answered_as_aborted() {
    let mut store = MemoryStore::new();
    assert_eq!(store.create_account(1, 0, 10), Ok(1));
    store.set_max_attempts(1);
    store.set_conflicts(1);
    let mut service = GrpcAccountingService::new(store);
    let reply = service.transfer(TransferRequest { req_id: 1, components: vec![leg(1, 0)] });
    assert_eq!(reply.unwrap_err().status, RpcStatusCode::Aborted);
    let reply = service.transfer(TransferRequest { req_id: 1, components: vec![leg(1, 0)] });
    assert!(reply.is_ok());
}

#[test]
fn the_executor_runs_the_work_in_one_transaction() {
    let mut session = MemorySession::new();
    assert_eq!(create_account(&mut session, 1, 0, 50), Ok(1));
    assert_eq!(create_account(&mut session, 2, 0, 50), Ok(1));
    let legs = [leg(1, -20), leg(2, 20)];
    let work = TransferWork { transfers: &legs, req_id: 4 };
    session.set_conflicts(1);
    assert_eq!(execute_txn(&mut session, &work, 2), Ok(()));
    assert_eq!(get_account_balance(&mut session, 1), Ok(30));
    assert_eq!(get_account_balance(&mut session, 2), Ok(70));
    assert_eq!(session.log().len(), 2);
    let legs = [leg(1, -20), leg(2, 20), leg(3, 0)];
    assert_eq!(execute_transfers(&mut session, &legs, 5, 2), Err(LedgerError::LegFailure));
    assert_eq!(get_account_balance(&mut session, 1), Ok(30));
    assert_eq!(session.log().len(), 2);
}

#[test]
fn legs_applied_outside_a_transaction_stay_when_a_later_one_fails() {
    let mut session = MemorySession::new();
    assert_eq!(create_account(&mut session, 1, 0, 50), Ok(1));
    let legs = [leg(1, -20), leg(2, 20)];
    assert_eq!(transfer_funds(&mut session, &legs, 4), Err(LedgerError::LegFailure));
    assert_eq!(get_account_balance(&mut session, 1), Ok(30));
    assert_eq!(
        session.log(),
        vec![LogEntry { req_id: 4, account_id: 1, amount: -20, transaction_index: 0 }]
    );
}

#[test]
fn a_session_goes_back_to_its_restart_point_and_to_its_begin() {
    let mut session = MemorySession::new();
    assert_eq!(session.insert_account(1, 50, 0), Ok(1));
    assert_eq!(session.begin(), Ok(()));
    assert_eq!(session.add_to_balance(1, 5), Ok(1));
    assert_eq!(session.savepoint(), Ok(()));
    assert_eq!(session.add_to_balance(1, 7), Ok(1));
    assert_eq!(session.add_to_balance(2, 7), Ok(0));
    assert_eq!(session.add_to_balance(1, -100), Err(LedgerError::LegFailure));
    assert_eq!(
        session.insert_transaction(LogEntry {
            req_id: 1,
            account_id: 1,
            amount: 7,
            transaction_index: 0
        }),
        Ok(1)
    );
    assert_eq!(session.select_balance(1), Ok(vec![62]));
    assert_eq!(session.select_balance(2), Ok(vec![]));
    session.set_conflicts(1);
    assert_eq!(session.release(), Err(LedgerError::TransientConflict));
    session.rollback_to_savepoint();
    assert_eq!(session.select_balance(1), Ok(vec![55]));
    assert!(session.log().is_empty());
    assert_eq!(session.savepoint(), Ok(()));
    assert_eq!(session.add_to_balance(1, 1), Ok(1));
    assert_eq!(session.release(), Ok(()));
    assert_eq!(session.select_balance(1), Ok(vec![56]));
    session.rollback();
    assert_eq!(session.select_balance(1), Ok(vec![50]));
    assert_eq!(session.begin(), Ok(()));
    assert_eq!(session.add_to_balance(1, 1), Ok(1));
    assert_eq!(session.commit(), Ok(()));
    assert_eq!(session.select_balance(1), Ok(vec![51]));
    assert_eq!(session.recreate_tables(), Ok(()));
    assert!(session.accounts().is_empty());
}

#[test]
fn a_missing_account_has_no_balance() {
    let mut service = service_with(&[(1, 1_000)]);
    let reply = service.get_balance(GetBalanceRequest { req_id: 6, account_id: 2 });
    let status = reply.unwrap_err();
    assert_eq!(status.status, RpcStatusCode::NotFound);
    assert_eq!(status.details, "Resource Not Found");
}

#[test]
fn a_reset_leaves_an_empty_ledger() {
    let mut service = service_with(&[(1, 10), (2, 10)]);
    assert!(service
        .transfer(TransferRequest { req_id: 3, components: vec![leg(1, -1), leg(2, 1)] })
        .is_ok());
    assert!(service.reset(ResetRequest {}).is_ok());
    assert!(service.store().accounts().is_empty());
    assert!(service.store().log().is_empty());
    let reply = service.get_balance(GetBalanceRequest { req_id: 6, account_id: 1 });
    assert_eq!(reply.unwrap_err().status, RpcStatusCode::NotFound);
    let store = service.into_store();
    assert_eq!(store.conflicts(), 0);
}

#[test]
fn each_category_has_its_status() {
    let cases = [
        (
            LedgerError::ValidationError,
            RpcStatusCode::FailedPrecondition,
            "Sum of All Money Deltas Must Be Zero",
        ),
        (LedgerError::AlreadyExists, RpcStatusCode::InvalidArgument, "Account Already Exists"),
        (LedgerError::NotFound, RpcStatusCode::NotFound, "Resource Not Found"),
        (
            LedgerError::LegFailure,
            RpcStatusCode::Aborted,
            "Transaction Error.  Possibly a User Had Insufficient Funds",
        ),
        (
            LedgerError::TransientConflict,
            RpcStatusCode::Aborted,
            "Transaction Error.  Possibly a User Had Insufficient Funds",
        ),
        (LedgerError::StoreUnavailable, RpcStatusCode::Unknown, "Server Error"),
    ];
    for (category, code, words) in cases {
        let status = RpcStatus::from_error(category);
        assert_eq!(status.status, code);
        assert_eq!(status.details, words);
    }
    let status = RpcStatus::new(RpcStatusCode::Unknown, "why");
    assert_eq!(status.details, "why");
}

#[test]
fn only_a_conflict_is_retried() {
    assert!(LedgerError::TransientConflict.is_retryable());
    for category in [
        LedgerError::ValidationError,
        LedgerError::AlreadyExists,
        LedgerError::NotFound,
        LedgerError::LegFailure,
        LedgerError::StoreUnavailable,
    ] {
        assert!(!category.is_retryable());
    }
}

#[test]
fn a_code_of_the_store_has_its_category() {
    let code = |text: &str| Some(text.to_string());
    assert_eq!(classify_sql_state(&code("40001")), LedgerError::TransientConflict);
    assert_eq!(classify_sql_state(&code("23505")), LedgerError::AlreadyExists);
    assert_eq!(classify_sql_state(&code("23514")), LedgerError::LegFailure);
    assert_eq!(classify_sql_state(&code("22003")), LedgerError::LegFailure);
    assert_eq!(classify_sql_state(&code("40003")), LedgerError::StoreUnavailable);
    assert_eq!(classify_sql_state(&code("")), LedgerError::StoreUnavailable);
    assert_eq!(classify_sql_state(&None), LedgerError::StoreUnavailable);
}

#[test]
fn a_failure_without_a_code_is_the_stores_own() {
    let failure = "port=no".parse::<postgres::Config>().unwrap_err();
    assert_eq!(classify(&failure), LedgerError::StoreUnavailable);
}

#[test]
fn a_request_id_is_logged_as_the_same_bits() {
    assert_eq!(to_column(0), 0);
    assert_eq!(to_column(9_223_372_036_854_775_807), i64::MAX);
    assert_eq!(to_column(9_223_372_036_854_775_808), i64::MIN);
    assert_eq!(to_column(u64::MAX), -1);
    let mut service = service_with(&[(1, 1)]);
    assert!(service
        .transfer(TransferRequest { req_id: u64::MAX, components: vec![leg(1, 0)] })
        .is_ok());
    assert_eq!(service.store().log()[0].req_id, -1);
}

#[test]
fn a_call_reaches_the_operation_it_asks_for() {
    let mut service = create_accounting_service(service_with(&[(1, 10), (2, 0)]));
    let opt = CallOption::default().timeout(5);
    assert_eq!(opt.timeout_millis, Some(5));
    let reply = service.unary_call(
        Request::CreateAccount(CreateAccountRequest { req_id: 1, account_id: 3, balance: 4 }),
        &opt,
    );
    assert!(matches!(reply, Ok(Response::CreateAccount(made)) if made.account_id == 3));
    let reply = service.unary_call(
        Request::Transfer(TransferRequest { req_id: 2, components: vec![leg(1, -4), leg(2, 4)] }),
        &opt,
    );
    assert!(matches!(reply, Ok(Response::Transfer(done)) if done.req_id == 2));
    let reply =
        service.unary_call(Request::GetBalance(GetBalanceRequest { req_id: 3, account_id: 2 }), &opt);
    assert!(matches!(reply, Ok(Response::GetBalance(found)) if found.balance == 4));
    assert_eq!(service.get_ref().store().accounts().len(), 3);
    let reply = service.unary_call(Request::Reset(ResetRequest {}), &opt);
    assert!(matches!(reply, Ok(Response::Reset(_))));
    assert!(service.get_ref().store().accounts().is_empty());
}

#[test]
fn a_client_gets_what_the_service_answers() {
    let service = create_accounting_service(service_with(&[(1, 10), (2, 0)]));
    let mut client = AccountingServiceClient::new(service);
    let opt = CallOption::default().timeout(1);
    let made = client
        .create_account_opt(&CreateAccountRequest { req_id: 8, account_id: 5, balance: 2 }, opt)
        .unwrap();
    assert_eq!((made.get_req_id(), made.get_account_id()), (8, 5));
    let again = client.create_account(&CreateAccountRequest { req_id: 9, account_id: 5, balance: 2 });
    assert_eq!(again.unwrap_err().status, RpcStatusCode::InvalidArgument);
    let request = TransferRequest { req_id: 10, components: vec![leg(1, -3), leg(5, 3)] };
    assert_eq!(client.transfer_opt(&request, opt).unwrap().get_req_id(), 10);
    assert_eq!(client.transfer(&request).unwrap().get_req_id(), 10);
    let found = client.get_balance_opt(&GetBalanceRequest { req_id: 11, account_id: 5 }, opt);
    assert_eq!(found.unwrap().get_balance(), 8);
    let found = client.get_balance(&GetBalanceRequest { req_id: 12, account_id: 1 }).unwrap();
    assert_eq!((found.get_req_id(), found.get_account_id(), found.get_balance()), (12, 1, 4));
    assert_eq!(client.get_ref().get_ref().store().log().len(), 4);
    assert!(client.reset_opt(&ResetRequest {}, opt).is_ok());
    assert!(client.reset(&ResetRequest {}).is_ok());
    let found = client.get_balance(&GetBalanceRequest { req_id: 13, account_id: 1 });
    assert!(found.is_err());
}
