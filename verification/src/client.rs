use crate::proto::accounting::{
    CreateAccountRequest, CreateAccountResponse, GetBalanceRequest, GetBalanceResponse,
    ResetRequest, ResetResponse, TransferComponent, TransferRequest, TransferResponse,
};
use crate::proto::accounting_grpc::{AccountingService, AccountingServiceClient, RpcStatus};
use vstd::prelude::*;

verus! {

/// Gives out request ids: 0 first, then each time the next number.
pub struct ReqCounter {
    req_id: u64,
}

/// The number after `n`, and 0 after the largest.
pub open spec fn next_id(n: u64) -> u64 {
    if n == u64::MAX {
        0
    } else {
        (n + 1) as u64
    }
}

impl ReqCounter {
    /// The id that will be given out next.
    pub closed spec fn upcoming(&self) -> u64 {
        self.req_id
    }

    /// A counter that starts at 0.
    pub fn new() -> (r: ReqCounter)
        ensures
            r.upcoming() == 0,
    {
        ReqCounter { req_id: 0 }
    }

    /// Gives out the next id.
    pub fn incr(&mut self) -> (r: u64)
        ensures
            r == old(self).upcoming(),
            final(self).upcoming() == next_id(old(self).upcoming()),
    {
        let current = self.req_id;
        self.req_id = if current == u64::MAX {
            0
        } else {
            current + 1
        };
        current
    }
}

/// The legs that the pairs of account and amount stand for, in their
/// order.
pub open spec fn legs_of(transactions: Seq<(u32, i64)>) -> Seq<TransferComponent> {
    Seq::new(
        transactions.len(),
        |i: int| TransferComponent { account_id: transactions[i].0, money_delta: transactions[i].1 },
    )
}

/// The request for the transfer `req_id` whose legs are the pairs of
/// account and amount in `transactions`, in their order.
pub fn transfer_request(req_id: u64, transactions: &[(u32, i64)]) -> (req: TransferRequest)
    ensures
        req.req_id == req_id,
        req.components@ == legs_of(transactions@),
{
    let mut req = TransferRequest::new();
    req.set_req_id(req_id);
    let mut i: usize = 0;
    while i < transactions.len()
        invariant
            i <= transactions.len(),
            req.req_id == req_id,
            req.components@ == legs_of(transactions@).take(i as int),
        decreases transactions.len() - i,
    {
        let (account_id, amount) = transactions[i];
        let mut comp = TransferComponent::new();
        comp.set_account_id(account_id);
        comp.set_money_delta(amount);
        req.components.push(comp);
        assert(legs_of(transactions@).take(i + 1) =~= legs_of(transactions@).take(i as int).push(
            comp,
        ));
        i = i + 1;
    }
    assert(legs_of(transactions@).take(transactions.len() as int) =~= legs_of(transactions@));
    req
}

/// The transfer that takes 4 from account 1 and gives 2 each to the
/// accounts 2 and 3.
pub open spec fn spread() -> Seq<(u32, i64)> {
    seq![(1u32, -4i64), (2u32, 2i64), (3u32, 2i64)]
}

/// The transfer that gives 2 to account 1 and takes 1 each from the
/// accounts 2 and 3.
pub open spec fn gather() -> Seq<(u32, i64)> {
    seq![(1u32, 2i64), (2u32, -1i64), (3u32, -1i64)]
}

/// A client that numbers its requests and sends them to a service.
pub struct AccountTestingClient<S: AccountingService> {
    client: AccountingServiceClient<S>,
    counter: ReqCounter,
}

impl<S: AccountingService> AccountTestingClient<S> {
    /// The client that carries the requests.
    pub closed spec fn carrier(&self) -> AccountingServiceClient<S> {
        self.client
    }

    /// The implementation that answers the requests.
    pub open spec fn service(&self) -> S {
        self.carrier().service()
    }

    /// The id of the next request.
    pub closed spec fn upcoming(&self) -> u64 {
        self.counter.upcoming()
    }

    /// A client that sends its requests through `client`, numbered from 0.
    pub fn new(client: AccountingServiceClient<S>) -> (r: AccountTestingClient<S>)
        ensures
            r.carrier() == client,
            r.upcoming() == 0,
    {
        AccountTestingClient { client, counter: ReqCounter::new() }
    }

    /// The client that carries the requests.
    pub fn get_ref(&self) -> (r: &AccountingServiceClient<S>)
        ensures
            *r == self.carrier(),
    {
        &self.client
    }

    /// Asks for the ledger to be reset. The request takes no id.
    pub fn reset(&mut self) -> (reply: Result<ResetResponse, RpcStatus>)
        requires
            old(self).service().ready(),
        ensures
            final(self).service().ready(),
            final(self).upcoming() == old(self).upcoming(),
            old(self).service().resets(final(self).service(), reply),
    {
        let req = ResetRequest {  };
        self.client.reset(&req)
    }

    /// Asks for the account `account` to be created with the balance
    /// `balance`, under the next request id.
    pub fn create_account(&mut self, account: u32, balance: i64) -> (reply: Result<
        CreateAccountResponse,
        RpcStatus,
    >)
        requires
            old(self).service().ready(),
        ensures
            final(self).service().ready(),
            final(self).upcoming() == next_id(old(self).upcoming()),
            old(self).service().creates(
                CreateAccountRequest { req_id: old(self).upcoming(), account_id: account, balance },
                final(self).service(),
                reply,
            ),
    {
        let mut req = CreateAccountRequest::new();
        req.set_req_id(self.counter.incr());
        req.set_account_id(account);
        req.set_balance(balance);
        self.client.create_account(&req)
    }

    /// Asks for the balance of the account `account`, under the next
    /// request id.
    pub fn get_balance(&mut self, account: u32) -> (reply: Result<GetBalanceResponse, RpcStatus>)
        requires
            old(self).service().ready(),
        ensures
            final(self).service().ready(),
            final(self).upcoming() == next_id(old(self).upcoming()),
            old(self).service().reads(
                GetBalanceRequest { req_id: old(self).upcoming(), account_id: account },
                final(self).service(),
                reply,
            ),
    {
        let mut req = GetBalanceRequest::new();
        req.set_req_id(self.counter.incr());
        req.set_account_id(account);
        self.client.get_balance(&req)
    }

    /// Asks for the transfer whose legs are the pairs of account and amount
    /// in `transactions`, under the next request id.
    pub fn transfer(&mut self, transactions: &[(u32, i64)]) -> (reply: Result<
        TransferResponse,
        RpcStatus,
    >)
        requires
            old(self).service().ready(),
        ensures
            final(self).service().ready(),
            final(self).upcoming() == next_id(old(self).upcoming()),
            old(self).service().transfers(
                old(self).upcoming(),
                legs_of(transactions@),
                final(self).service(),
                reply,
            ),
    {
        let req = transfer_request(self.counter.incr(), transactions);
        self.client.transfer(&req)
    }

    /// A thousand transfers among the accounts 1, 2 and 3: five hundred
    /// times one that spreads 4 from account 1, followed by one that
    /// gathers 2 for it.
    pub fn create_test_transfers(&mut self) -> (transfers: Vec<Vec<(u32, i64)>>)
        ensures
            *final(self) == *old(self),
            transfers.len() == 1000,
            forall|k: int|
                0 <= k < 1000 ==> (#[trigger] transfers[k])@ == if k % 2 == 0 {
                    spread()
                } else {
                    gather()
                },
    {
        let mut transfers: Vec<Vec<(u32, i64)>> = Vec::new();
        let mut round: usize = 0;
        while round < 500
            invariant
                round <= 500,
                transfers.len() == 2 * round,
                forall|k: int|
                    0 <= k < 2 * round ==> (#[trigger] transfers[k])@ == if k % 2 == 0 {
                        spread()
                    } else {
                        gather()
                    },
            decreases 500 - round,
        {
            let req: Vec<(u32, i64)> = vec![(1u32, -4i64), (2u32, 2i64), (3u32, 2i64)];
            assert(req@ =~= spread());
            transfers.push(req);
            let req: Vec<(u32, i64)> = vec![(1u32, 2i64), (2u32, -1i64), (3u32, -1i64)];
            assert(req@ =~= gather());
            transfers.push(req);
            round = round + 1;
        }
        transfers
    }
}

} // verus!
