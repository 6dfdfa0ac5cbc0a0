use crate::db::{balance_read, conflicts_left, created, transferred};
use crate::error::LedgerError;
use crate::ledger::{leg_sum, lemma_leg_sum_step, Account, Ledger};
use crate::proto::accounting::{
    CreateAccountRequest, CreateAccountResponse, GetBalanceRequest, GetBalanceResponse,
    ResetRequest, ResetResponse, TransferComponent, TransferRequest, TransferResponse,
};
use crate::proto::accounting_grpc::{AccountingService, RpcStatus};
use crate::store::{DataStore, StoreState};
use vstd::prelude::*;

verus! {

/// The reply answers the outcome: a result is handed on as it is, and a
/// failure is answered under the status of its category.
pub open spec fn answers<R>(reply: Result<R, RpcStatus>, outcome: Result<R, LedgerError>) -> bool {
    match outcome {
        Ok(result) => reply == Ok::<R, RpcStatus>(result),
        Err(e) => reply matches Err(status) && status.reports(e),
    }
}

/// The request id as the log's column holds it: the same sixty-four bits,
/// read as a signed number.
pub open spec fn column_of(req_id: u64) -> i64 {
    if req_id <= i64::MAX {
        req_id as i64
    } else {
        (req_id - 0x1_0000_0000_0000_0000) as i64
    }
}

/// Gives the request id as the log's column holds it.
pub fn to_column(req_id: u64) -> (r: i64)
    ensures
        r == column_of(req_id),
{
    if req_id <= 0x7fff_ffff_ffff_ffff {
        req_id as i64
    } else {
        let low: u64 = req_id - 0x8000_0000_0000_0000;
        (low as i64) + i64::MIN
    }
}

/// Adds up the deltas of `components`. The sum is exact: no number of legs
/// makes it wrap.
pub fn sum_of_deltas(components: &[TransferComponent]) -> (sum: i128)
    ensures
        sum == leg_sum(components@),
{
    let mut sum: i128 = 0;
    let mut i: usize = 0;
    while i < components.len()
        invariant
            i <= components.len(),
            sum == leg_sum(components@.take(i as int)),
            -0x8000_0000_0000_0000 * i <= sum <= 0x8000_0000_0000_0000 * i,
        decreases components.len() - i,
    {
        proof {
            lemma_leg_sum_step(components@, i as int);
        }
        sum = sum + components[i].get_money_delta() as i128;
        i = i + 1;
    }
    proof {
        assert(components@.take(components.len() as int) =~= components@);
    }
    sum
}

/// Answers a request to create an account, given what the store made of
/// it: the request's ids are echoed, or the failure is reported.
pub fn create_account_reply(req: &CreateAccountRequest, outcome: Result<u64, LedgerError>) -> (reply:
    Result<CreateAccountResponse, RpcStatus>)
    ensures
        answers(
            reply,
            match outcome {
                Ok(_) => Ok(CreateAccountResponse { req_id: req.req_id, account_id: req.account_id }),
                Err(e) => Err(e),
            },
        ),
{
    match outcome {
        Ok(_) => Ok(CreateAccountResponse { req_id: req.req_id, account_id: req.account_id }),
        Err(e) => Err(RpcStatus::from_error(e)),
    }
}

/// Answers a request for a balance, given what the store made of it: the
/// request's ids are echoed with the balance, or the failure is reported.
pub fn get_balance_reply(req: &GetBalanceRequest, outcome: Result<i64, LedgerError>) -> (reply:
    Result<GetBalanceResponse, RpcStatus>)
    ensures
        answers(
            reply,
            match outcome {
                Ok(balance) => Ok(
                    GetBalanceResponse { req_id: req.req_id, account_id: req.account_id, balance },
                ),
                Err(e) => Err(e),
            },
        ),
{
    match outcome {
        Ok(balance) => Ok(
            GetBalanceResponse { req_id: req.req_id, account_id: req.account_id, balance },
        ),
        Err(e) => Err(RpcStatus::from_error(e)),
    }
}

/// Answers a request for a transfer, given what the store made of it: the
/// request's id is echoed, or the failure is reported.
pub fn transfer_reply(req_id: u64, outcome: Result<(), LedgerError>) -> (reply: Result<
    TransferResponse,
    RpcStatus,
>)
    ensures
        answers(
            reply,
            match outcome {
                Ok(_) => Ok(TransferResponse { req_id }),
                Err(e) => Err(e),
            },
        ),
{
    match outcome {
        Ok(_) => Ok(TransferResponse { req_id }),
        Err(e) => Err(RpcStatus::from_error(e)),
    }
}

/// Answers a request to reset the ledger, given what the store made of it.
pub fn reset_reply(outcome: Result<(), LedgerError>) -> (reply: Result<ResetResponse, RpcStatus>)
    ensures
        answers(
            reply,
            match outcome {
                Ok(_) => Ok(ResetResponse {  }),
                Err(e) => Err(e),
            },
        ),
{
    match outcome {
        Ok(_) => Ok(ResetResponse {  }),
        Err(e) => Err(RpcStatus::from_error(e)),
    }
}

/// What a request for a transfer ends in on a dependable store: legs that
/// do not add up to zero are refused before the store is asked.
pub open spec fn transfer_outcome(
    state: StoreState,
    req_id: u64,
    legs: Seq<TransferComponent>,
) -> Result<TransferResponse, LedgerError> {
    if leg_sum(legs) != 0 {
        Err(LedgerError::ValidationError)
    } else {
        match transferred(state.rows, column_of(req_id), legs, state.conflicts, state.max_attempts) {
            Ok(_) => Ok(TransferResponse { req_id }),
            Err(e) => Err(e),
        }
    }
}

/// The ledger's operations over a store: each call is handed to the store
/// and what the store makes of it is answered. The service keeps nothing
/// but the store.
pub struct GrpcAccountingService<T: DataStore> {
    store: T,
}

impl<T: DataStore> GrpcAccountingService<T> {
    /// The store that the service works on.
    pub closed spec fn store_view(&self) -> T {
        self.store
    }

    /// What the store amounts to.
    pub open spec fn state(&self) -> StoreState {
        self.store_view().state()
    }

    /// A service over `store`.
    pub fn new(store: T) -> (r: GrpcAccountingService<T>)
        ensures
            r.store_view() == store,
    {
        GrpcAccountingService { store }
    }

    /// The store that the service works on.
    pub fn store(&self) -> (r: &T)
        ensures
            *r == self.store_view(),
    {
        &self.store
    }

    /// Gives the store back.
    pub fn into_store(self) -> (r: T)
        ensures
            r == self.store_view(),
    {
        self.store
    }
}

impl<T: DataStore> AccountingService for GrpcAccountingService<T> {
    open spec fn ready(&self) -> bool {
        self.store_view().valid() && self.state().rows.wf()
    }

    /// An answer echoes the ids of the request, and the account is then
    /// there with the balance asked for. A failure leaves the rows as they
    /// were. A dependable store fails only where the account table refuses
    /// the row.
    open spec fn creates(
        &self,
        req: CreateAccountRequest,
        after: Self,
        reply: Result<CreateAccountResponse, RpcStatus>,
    ) -> bool {
        &&& after.state().rows.wf()
        &&& after.state() == self.state().with_rows(after.state().rows)
        &&& reply matches Ok(response) ==> response == (CreateAccountResponse {
            req_id: req.req_id,
            account_id: req.account_id,
        }) && Some(after.state().rows) == self.state().rows.open_account(
            Account { id: req.account_id, balance: req.balance, creation_request: req.req_id },
        )
        &&& reply is Err ==> after.state().rows == self.state().rows
        &&& self.state().outage matches Some(e) ==> answers(
            reply,
            Err::<CreateAccountResponse, LedgerError>(e),
        )
        &&& self.state().dependable ==> answers(
            reply,
            match created(self.state().rows, req.account_id, req.balance) {
                Ok(_) => Ok(CreateAccountResponse { req_id: req.req_id, account_id: req.account_id }),
                Err(e) => Err(e),
            },
        )
    }

    /// The store is as it was. An answer echoes the ids of the request and
    /// gives the balance of the account. A dependable store fails only
    /// where the account is missing.
    open spec fn reads(
        &self,
        req: GetBalanceRequest,
        after: Self,
        reply: Result<GetBalanceResponse, RpcStatus>,
    ) -> bool {
        &&& after.state().rows.wf()
        &&& after.state() == self.state()
        &&& reply matches Ok(response) ==> response.req_id == req.req_id && response.account_id
            == req.account_id && self.state().rows.balance_of(req.account_id) == Some(
            response.balance as int,
        )
        &&& self.state().outage matches Some(e) ==> answers(
            reply,
            Err::<GetBalanceResponse, LedgerError>(e),
        )
        &&& self.state().dependable ==> answers(
            reply,
            match balance_read(self.state().rows, req.account_id) {
                Ok(balance) => Ok(
                    GetBalanceResponse { req_id: req.req_id, account_id: req.account_id, balance },
                ),
                Err(e) => Err(e),
            },
        )
    }

    /// Legs that do not add up to zero are refused as invalid and the store
    /// is as it was, and no other legs are refused as invalid. An answer echoes the id of the request, and every leg is then
    /// applied and logged, in the order of the legs. A failure leaves the
    /// rows as they were. On a dependable store the answer is the one that
    /// `transfer_outcome` gives.
    open spec fn transfers(
        &self,
        req_id: u64,
        legs: Seq<TransferComponent>,
        after: Self,
        reply: Result<TransferResponse, RpcStatus>,
    ) -> bool {
        &&& after.state().rows.wf()
        &&& after.state() == (StoreState {
            rows: after.state().rows,
            conflicts: after.state().conflicts,
            ..self.state()
        })
        &&& leg_sum(legs) != 0 ==> after.state() == self.state() && (reply matches Err(status)
            && status.reports(LedgerError::ValidationError))
        &&& leg_sum(legs) == 0 ==> !(reply matches Err(status) && status.reports(
            LedgerError::ValidationError,
        ))
        &&& leg_sum(legs) == 0 ==> (self.state().outage matches Some(e) ==> after.state()
            == self.state() && answers(reply, Err::<TransferResponse, LedgerError>(e)))
        &&& reply matches Ok(response) ==> response.req_id == req_id && leg_sum(legs) == 0 && Some(
            after.state().rows,
        ) == self.state().rows.apply_legs(column_of(req_id), legs)
        &&& reply is Err ==> after.state().rows == self.state().rows
        &&& self.state().dependable ==> answers(reply, transfer_outcome(self.state(), req_id, legs))
        &&& self.state().dependable && leg_sum(legs) == 0 ==> after.state().conflicts
            == conflicts_left(
            self.state().rows.apply_legs(column_of(req_id), legs) is Some,
            self.state().conflicts,
            self.state().max_attempts,
        )
    }

    /// After an answer the ledger is empty. A dependable store does not
    /// fail.
    open spec fn resets(&self, after: Self, reply: Result<ResetResponse, RpcStatus>) -> bool {
        &&& after.state().rows.wf()
        &&& after.state() == self.state().with_rows(after.state().rows)
        &&& reply is Ok ==> after.state().rows == Ledger::empty()
        &&& self.state().outage matches Some(e) ==> answers(
            reply,
            Err::<ResetResponse, LedgerError>(e),
        )
        &&& self.state().dependable ==> reply is Ok
    }

    fn create_account(&mut self, req: CreateAccountRequest) -> (reply: Result<
        CreateAccountResponse,
        RpcStatus,
    >) {
        let outcome = self.store.create_account(req.account_id, req.req_id, req.balance);
        create_account_reply(&req, outcome)
    }

    fn get_balance(&mut self, req: GetBalanceRequest) -> (reply: Result<
        GetBalanceResponse,
        RpcStatus,
    >) {
        let outcome = self.store.get_account_balance(req.account_id);
        get_balance_reply(&req, outcome)
    }

    fn transfer(&mut self, req: TransferRequest) -> (reply: Result<TransferResponse, RpcStatus>) {
        let verify_total = sum_of_deltas(req.components.as_slice());
        if verify_total != 0 {
            Err(RpcStatus::from_error(LedgerError::ValidationError))
        } else {
            let outcome = self.store.execute_transfers(
                req.components.as_slice(),
                to_column(req.req_id),
            );
            transfer_reply(req.req_id, outcome)
        }
    }

    fn reset(&mut self, req: ResetRequest) -> (reply: Result<ResetResponse, RpcStatus>) {
        let outcome = self.store.reset();
        reset_reply(outcome)
    }
}

} // verus!
