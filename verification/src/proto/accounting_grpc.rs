use crate::error::LedgerError;
use crate::proto::accounting::{
    CreateAccountRequest, CreateAccountResponse, GetBalanceRequest, GetBalanceResponse,
    ResetRequest, ResetResponse, TransferComponent, TransferRequest, TransferResponse,
};
use vstd::prelude::*;

verus! {

/// The classes of status under which a call is answered when it fails.
#[derive(Clone, Copy, Debug, PartialEq, Eq, Structural)]
pub enum RpcStatusCode {
    Unknown,
    InvalidArgument,
    NotFound,
    FailedPrecondition,
    Aborted,
}

/// The answer to a call that failed: the class of the failure and its
/// reason in words.
#[derive(Debug)]
pub struct RpcStatus {
    pub status: RpcStatusCode,
    pub details: String,
}

/// The class of status under which a failure of the category `e` is
/// answered.
pub open spec fn status_code_of(e: LedgerError) -> RpcStatusCode {
    match e {
        LedgerError::ValidationError => RpcStatusCode::FailedPrecondition,
        LedgerError::AlreadyExists => RpcStatusCode::InvalidArgument,
        LedgerError::NotFound => RpcStatusCode::NotFound,
        LedgerError::LegFailure => RpcStatusCode::Aborted,
        LedgerError::TransientConflict => RpcStatusCode::Aborted,
        LedgerError::StoreUnavailable => RpcStatusCode::Unknown,
    }
}

/// The reason that is given in words for a failure of the category `e`.
pub open spec fn reason_of(e: LedgerError) -> Seq<char> {
    match e {
        LedgerError::ValidationError => "Sum of All Money Deltas Must Be Zero"@,
        LedgerError::AlreadyExists => "Account Already Exists"@,
        LedgerError::NotFound => "Resource Not Found"@,
        LedgerError::LegFailure => "Transaction Error.  Possibly a User Had Insufficient Funds"@,
        LedgerError::TransientConflict => "Transaction Error.  Possibly a User Had Insufficient Funds"@,
        LedgerError::StoreUnavailable => "Server Error"@,
    }
}

impl RpcStatus {
    /// This status answers a failure of the category `e`.
    pub open spec fn reports(self, e: LedgerError) -> bool {
        self.status == status_code_of(e) && self.details@ == reason_of(e)
    }

    /// A status of the class `status` with the reason `details`.
    pub fn new(status: RpcStatusCode, details: &str) -> (r: RpcStatus)
        ensures
            r.status == status,
            r.details@ == details@,
    {
        RpcStatus { status, details: details.to_owned() }
    }

    /// The status that answers a failure of the category `e`.
    pub fn from_error(e: LedgerError) -> (r: RpcStatus)
        ensures
            r.reports(e),
    {
        match e {
            LedgerError::ValidationError => RpcStatus::new(
                RpcStatusCode::FailedPrecondition,
                "Sum of All Money Deltas Must Be Zero",
            ),
            LedgerError::AlreadyExists => RpcStatus::new(
                RpcStatusCode::InvalidArgument,
                "Account Already Exists",
            ),
            LedgerError::NotFound => RpcStatus::new(RpcStatusCode::NotFound, "Resource Not Found"),
            LedgerError::LegFailure => RpcStatus::new(
                RpcStatusCode::Aborted,
                "Transaction Error.  Possibly a User Had Insufficient Funds",
            ),
            LedgerError::TransientConflict => RpcStatus::new(
                RpcStatusCode::Aborted,
                "Transaction Error.  Possibly a User Had Insufficient Funds",
            ),
            LedgerError::StoreUnavailable => RpcStatus::new(RpcStatusCode::Unknown, "Server Error"),
        }
    }
}

/// The operations of the ledger, one call for one answer. When a call has
/// been answered, all it did to the ledger is done.
///
/// What a call does is said by a relation of its own between the service
/// before it, the request, the service after it and the answer. An
/// implementation says what the relation is.
pub trait AccountingService: Sized {
    /// The service can take a call.
    spec fn ready(&self) -> bool;

    /// A call to create an account may leave the service `after` and be
    /// answered with `reply`.
    spec fn creates(
        &self,
        req: CreateAccountRequest,
        after: Self,
        reply: Result<CreateAccountResponse, RpcStatus>,
    ) -> bool;

    /// A call for a balance may leave the service `after` and be answered
    /// with `reply`.
    spec fn reads(
        &self,
        req: GetBalanceRequest,
        after: Self,
        reply: Result<GetBalanceResponse, RpcStatus>,
    ) -> bool;

    /// A call for the transfer `req_id` with the legs `legs` may leave the
    /// service `after` and be answered with `reply`.
    spec fn transfers(
        &self,
        req_id: u64,
        legs: Seq<TransferComponent>,
        after: Self,
        reply: Result<TransferResponse, RpcStatus>,
    ) -> bool;

    /// A call to reset the ledger may leave the service `after` and be
    /// answered with `reply`.
    spec fn resets(&self, after: Self, reply: Result<ResetResponse, RpcStatus>) -> bool;

    /// Creates the account that `req` names with the balance it gives.
    fn create_account(&mut self, req: CreateAccountRequest) -> (reply: Result<
        CreateAccountResponse,
        RpcStatus,
    >)
        requires
            old(self).ready(),
        ensures
            final(self).ready(),
            old(self).creates(req, *final(self), reply),
    ;

    /// Reads the balance of the account that `req` names.
    fn get_balance(&mut self, req: GetBalanceRequest) -> (reply: Result<
        GetBalanceResponse,
        RpcStatus,
    >)
        requires
            old(self).ready(),
        ensures
            final(self).ready(),
            old(self).reads(req, *final(self), reply),
    ;

    /// Applies the legs of `req` as one unit.
    fn transfer(&mut self, req: TransferRequest) -> (reply: Result<TransferResponse, RpcStatus>)
        requires
            old(self).ready(),
        ensures
            final(self).ready(),
            old(self).transfers(req.req_id, req.components@, *final(self), reply),
    ;

    /// Destroys the ledger and sets up an empty one.
    fn reset(&mut self, req: ResetRequest) -> (reply: Result<ResetResponse, RpcStatus>)
        requires
            old(self).ready(),
        ensures
            final(self).ready(),
            old(self).resets(*final(self), reply),
    ;
}

/// What a caller may ask for a single call.
#[derive(Clone, Copy, Debug, PartialEq, Eq, Structural)]
pub struct CallOption {
    /// How long the caller will wait for the answer, in milliseconds.
    pub timeout_millis: Option<u64>,
}

impl CallOption {
    /// The same options with a time to wait of `millis` milliseconds.
    pub fn timeout(self, millis: u64) -> (r: CallOption)
        ensures
            r == (CallOption { timeout_millis: Some(millis) }),
    {
        CallOption { timeout_millis: Some(millis) }
    }
}

impl Default for CallOption {
    /// The options of a caller that waits as long as it takes.
    fn default() -> (r: CallOption)
        ensures
            r == (CallOption { timeout_millis: None }),
    {
        CallOption { timeout_millis: None }
    }
}

/// A call, by the operation it asks for.
pub enum Request {
    CreateAccount(CreateAccountRequest),
    GetBalance(GetBalanceRequest),
    Transfer(TransferRequest),
    Reset(ResetRequest),
}

/// An answer, by the operation it answers.
pub enum Response {
    CreateAccount(CreateAccountResponse),
    GetBalance(GetBalanceResponse),
    Transfer(TransferResponse),
    Reset(ResetResponse),
}

/// An implementation of the operations, set up to take calls: each call is
/// handed to the operation it asks for.
pub struct Service<S: AccountingService> {
    instance: S,
}

impl<S: AccountingService> Service<S> {
    /// The implementation that takes the calls.
    pub closed spec fn instance(&self) -> S {
        self.instance
    }

    /// The service can take a call.
    pub open spec fn ready(&self) -> bool {
        self.instance().ready()
    }

    /// The call `request` may leave the service `after` and be answered
    /// with `reply`: the answer is of the operation that was asked for, and
    /// is one that the implementation may give to it.
    pub open spec fn handles(
        &self,
        request: Request,
        after: Service<S>,
        reply: Result<Response, RpcStatus>,
    ) -> bool {
        match request {
            Request::CreateAccount(req) => match reply {
                Ok(Response::CreateAccount(response)) => self.instance().creates(
                    req,
                    after.instance(),
                    Ok(response),
                ),
                Ok(_) => false,
                Err(status) => self.instance().creates(req, after.instance(), Err(status)),
            },
            Request::GetBalance(req) => match reply {
                Ok(Response::GetBalance(response)) => self.instance().reads(
                    req,
                    after.instance(),
                    Ok(response),
                ),
                Ok(_) => false,
                Err(status) => self.instance().reads(req, after.instance(), Err(status)),
            },
            Request::Transfer(req) => match reply {
                Ok(Response::Transfer(response)) => self.instance().transfers(
                    req.req_id,
                    req.components@,
                    after.instance(),
                    Ok(response),
                ),
                Ok(_) => false,
                Err(status) => self.instance().transfers(
                    req.req_id,
                    req.components@,
                    after.instance(),
                    Err(status),
                ),
            },
            Request::Reset(req) => match reply {
                Ok(Response::Reset(response)) => self.instance().resets(
                    after.instance(),
                    Ok(response),
                ),
                Ok(_) => false,
                Err(status) => self.instance().resets(after.instance(), Err(status)),
            },
        }
    }

    /// Takes one call and answers it. The answer has come when all that the
    /// call did is done, so the caller's options change nothing of it.
    pub fn unary_call(&mut self, request: Request, opt: &CallOption) -> (reply: Result<
        Response,
        RpcStatus,
    >)
        requires
            old(self).ready(),
        ensures
            final(self).ready(),
            old(self).handles(request, *final(self), reply),
    {
        match request {
            Request::CreateAccount(req) => match self.instance.create_account(req) {
                Ok(response) => Ok(Response::CreateAccount(response)),
                Err(status) => Err(status),
            },
            Request::GetBalance(req) => match self.instance.get_balance(req) {
                Ok(response) => Ok(Response::GetBalance(response)),
                Err(status) => Err(status),
            },
            Request::Transfer(req) => match self.instance.transfer(req) {
                Ok(response) => Ok(Response::Transfer(response)),
                Err(status) => Err(status),
            },
            Request::Reset(req) => match self.instance.reset(req) {
                Ok(response) => Ok(Response::Reset(response)),
                Err(status) => Err(status),
            },
        }
    }

    /// The implementation that takes the calls.
    pub fn get_ref(&self) -> (r: &S)
        ensures
            *r == self.instance(),
    {
        &self.instance
    }
}

/// Sets up `s` to take calls.
pub fn create_accounting_service<S: AccountingService>(s: S) -> (r: Service<S>)
    ensures
        r.instance() == s,
{
    Service { instance: s }
}

/// The caller's side of the operations, bound to a service in the same
/// process: what a call is answered with, and what it leaves, is what the
/// service makes of it.
pub struct AccountingServiceClient<S: AccountingService> {
    client: Service<S>,
}

impl<S: AccountingService> AccountingServiceClient<S> {
    /// The service that the client is bound to.
    pub closed spec fn channel(&self) -> Service<S> {
        self.client
    }

    /// The implementation that answers the client's calls.
    pub open spec fn service(&self) -> S {
        self.channel().instance()
    }

    /// A client bound to `channel`.
    pub fn new(channel: Service<S>) -> (r: AccountingServiceClient<S>)
        ensures
            r.channel() == channel,
    {
        AccountingServiceClient { client: channel }
    }

    /// The service that the client is bound to.
    pub fn get_ref(&self) -> (r: &Service<S>)
        ensures
            *r == self.channel(),
    {
        &self.client
    }

    /// Asks for the account of `req` to be created, with the options `opt`.
    pub fn create_account_opt(&mut self, req: &CreateAccountRequest, opt: CallOption) -> (reply:
        Result<CreateAccountResponse, RpcStatus>)
        requires
            old(self).service().ready(),
        ensures
            final(self).service().ready(),
            old(self).service().creates(*req, final(self).service(), reply),
    {
        match self.client.unary_call(Request::CreateAccount(*req), &opt) {
            Ok(Response::CreateAccount(response)) => Ok(response),
            Ok(_) => vstd::pervasive::unreached(),
            Err(status) => Err(status),
        }
    }

    /// Asks for the account of `req` to be created.
    pub fn create_account(&mut self, req: &CreateAccountRequest) -> (reply: Result<
        CreateAccountResponse,
        RpcStatus,
    >)
        requires
            old(self).service().ready(),
        ensures
            final(self).service().ready(),
            old(self).service().creates(*req, final(self).service(), reply),
    {
        self.create_account_opt(req, CallOption::default())
    }

    /// Asks for the balance of the account of `req`, with the options
    /// `opt`.
    pub fn get_balance_opt(&mut self, req: &GetBalanceRequest, opt: CallOption) -> (reply: Result<
        GetBalanceResponse,
        RpcStatus,
    >)
        requires
            old(self).service().ready(),
        ensures
            final(self).service().ready(),
            old(self).service().reads(*req, final(self).service(), reply),
    {
        match self.client.unary_call(Request::GetBalance(*req), &opt) {
            Ok(Response::GetBalance(response)) => Ok(response),
            Ok(_) => vstd::pervasive::unreached(),
            Err(status) => Err(status),
        }
    }

    /// Asks for the balance of the account of `req`.
    pub fn get_balance(&mut self, req: &GetBalanceRequest) -> (reply: Result<
        GetBalanceResponse,
        RpcStatus,
    >)
        requires
            old(self).service().ready(),
        ensures
            final(self).service().ready(),
            old(self).service().reads(*req, final(self).service(), reply),
    {
        self.get_balance_opt(req, CallOption::default())
    }

    /// Asks for the transfer of `req`, with the options `opt`.
    pub fn transfer_opt(&mut self, req: &TransferRequest, opt: CallOption) -> (reply: Result<
        TransferResponse,
        RpcStatus,
    >)
        requires
            old(self).service().ready(),
        ensures
            final(self).service().ready(),
            old(self).service().transfers(
                req.req_id,
                req.components@,
                final(self).service(),
                reply,
            ),
    {
        match self.client.unary_call(Request::Transfer(req.duplicate()), &opt) {
            Ok(Response::Transfer(response)) => Ok(response),
            Ok(_) => vstd::pervasive::unreached(),
            Err(status) => Err(status),
        }
    }

    /// Asks for the transfer of `req`.
    pub fn transfer(&mut self, req: &TransferRequest) -> (reply: Result<
        TransferResponse,
        RpcStatus,
    >)
        requires
            old(self).service().ready(),
        ensures
            final(self).service().ready(),
            old(self).service().transfers(
                req.req_id,
                req.components@,
                final(self).service(),
                reply,
            ),
    {
        self.transfer_opt(req, CallOption::default())
    }

    /// Asks for the ledger to be reset, with the options `opt`.
    pub fn reset_opt(&mut self, req: &ResetRequest, opt: CallOption) -> (reply: Result<
        ResetResponse,
        RpcStatus,
    >)
        requires
            old(self).service().ready(),
        ensures
            final(self).service().ready(),
            old(self).service().resets(final(self).service(), reply),
    {
        match self.client.unary_call(Request::Reset(*req), &opt) {
            Ok(Response::Reset(response)) => Ok(response),
            Ok(_) => vstd::pervasive::unreached(),
            Err(status) => Err(status),
        }
    }

    /// Asks for the ledger to be reset.
    pub fn reset(&mut self, req: &ResetRequest) -> (reply: Result<ResetResponse, RpcStatus>)
        requires
            old(self).service().ready(),
        ensures
            final(self).service().ready(),
            old(self).service().resets(final(self).service(), reply),
    {
        self.reset_opt(req, CallOption::default())
    }
}

} // verus!
