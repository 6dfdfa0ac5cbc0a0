use accountant::client::AccountTestingClient;
use accountant::db::memory::MemoryStore;
use accountant::proto::accounting_grpc::{create_accounting_service, AccountingServiceClient};
use accountant::GrpcAccountingService;

fn connect() -> AccountTestingClient<GrpcAccountingService<MemoryStore>> {
    let service = create_accounting_service(GrpcAccountingService::new(MemoryStore::new()));
    AccountTestingClient::new(AccountingServiceClient::new(service))
}

#[test]
fn test_create_account() {
    let mut client = connect();
    client.reset().expect("Database Reset Failed");

    for i in 1..20 {
        for account_id in (100 * i)..(100 * (i + 1)) {
            let reply = client.create_account(account_id, 1_000);
            assert!(reply.is_ok());
        }
    }

    for account in 100..2000 {
        let reply = client.get_balance(account);
        assert!(reply.is_ok());
        assert_eq!(reply.unwrap().get_balance(), 1_000);
    }

    // redundant create request
    let reply = client.create_account(100, 1_000);
    assert!(reply.is_err());
}

#[test]
fn test_get_balance() {
    let mut client = connect();
    client.reset().expect("Database Reset Failed");

    let reply = client.create_account(1, 1_000);
    assert!(reply.is_ok());

    // get balance of valid account
    let reply = client.get_balance(1);
    assert!(reply.is_ok());
    assert_eq!(reply.unwrap().get_balance(), 1_000);

    // get balance of invalid account
    let reply = client.get_balance(2);
    assert!(reply.is_err());
}

#[test]
fn test_transfer() {
    let mut client = connect();
    client.reset().expect("Database Reset Failed");

    // make our large donor
    let reply = client.create_account(1, 5_000);
    assert!(reply.is_ok());
    let reply = client.create_account(2, 0);
    assert!(reply.is_ok());
    let reply = client.create_account(3, 0);
    assert!(reply.is_ok());

    // test transfer with non existant accounts
    let reply = client.transfer(&[(1, -50), (5, 50)]);
    assert!(reply.is_err());

    let reply = client.transfer(&[(5, -50), (1, 50)]);
    assert!(reply.is_err());

    let reply = client.transfer(&[(5, -50), (6, 50)]);
    assert!(reply.is_err());

    // test transfer with invalid sum
    let reply = client.transfer(&[(1, -50), (2, 55)]);
    assert!(reply.is_err());

    // test transfer with negative balance
    let reply = client.transfer(&[(1, -10_000), (2, 10_000)]);
    assert!(reply.is_err());

    // test for valid transfer
    let reply = client.transfer(&[(1, -50), (2, 25), (3, 25)]);
    assert!(reply.is_ok());

    let reply = client.transfer(&[(1, 50), (2, -25), (3, -25)]);
    assert!(reply.is_ok());

    let transfers = client.create_test_transfers();
    for transfer in transfers {
        let reply = client.transfer(&transfer);
        assert!(reply.is_ok());
    }

    let reply = client.get_balance(1).expect("failed to get balance for large donor");
    assert_eq!(reply.get_balance(), 4_000);

    let reply = client.get_balance(2).expect("failed to get balance for large donor");
    assert_eq!(reply.get_balance(), 500);

    let reply = client.get_balance(3).expect("failed to get balance for large donor");
    assert_eq!(reply.get_balance(), 500);
}

#[test]
fn request_ids_count_up_from_zero() {
    let mut counter = accountant::client::ReqCounter::new();
    assert_eq!(counter.incr(), 0);
    assert_eq!(counter.incr(), 1);
    assert_eq!(counter.incr(), 2);
}

#[test]
fn requests_of_a_client_are_numbered_in_their_order() {
    let mut client = connect();
    assert_eq!(client.create_account(7, 10).unwrap().get_req_id(), 0);
    assert_eq!(client.create_account(8, 0).unwrap().get_req_id(), 1);
    assert_eq!(client.get_balance(7).unwrap().get_req_id(), 2);
    assert_eq!(client.transfer(&[(7, -4), (8, 4)]).unwrap().get_req_id(), 3);
    assert!(client.reset().is_ok());
    assert!(client.transfer(&[(7, 1), (8, 4)]).is_err());
    assert!(client.create_account(7, 1).is_ok());
    assert_eq!(client.get_balance(7).unwrap().get_req_id(), 6);
}

#[test]
fn a_transfer_request_holds_the_pairs_as_legs() {
    let request = accountant::client::transfer_request(3, &[(1, -10), (1, -10), (2, 20)]);
    assert_eq!(request.get_req_id(), 3);
    let legs = request.get_components();
    assert_eq!(legs.len(), 3);
    assert_eq!((legs[0].get_account_id(), legs[0].get_money_delta()), (1, -10));
    assert_eq!((legs[1].get_account_id(), legs[1].get_money_delta()), (1, -10));
    assert_eq!((legs[2].get_account_id(), legs[2].get_money_delta()), (2, 20));
    let copy = request.duplicate();
    assert_eq!(copy.req_id, 3);
    assert_eq!(copy.components, request.components);
}

#[test]
fn the_test_transfers_alternate() {
    let mut client = connect();
    let transfers = client.create_test_transfers();
    assert_eq!(transfers.len(), 1000);
    assert_eq!(transfers[0], vec![(1, -4), (2, 2), (3, 2)]);
    assert_eq!(transfers[1], vec![(1, 2), (2, -1), (3, -1)]);
    assert_eq!(transfers[998], vec![(1, -4), (2, 2), (3, 2)]);
    assert_eq!(transfers[999], vec![(1, 2), (2, -1), (3, -1)]);
}
