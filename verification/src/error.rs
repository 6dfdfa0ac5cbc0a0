use vstd::prelude::*;

verus! {

/// The categories under which the ledger reports a failure.
#[derive(Clone, Copy, Debug, PartialEq, Eq, Structural)]
pub enum LedgerError {
    /// The legs of a transfer do not add up to zero.
    ValidationError,
    /// An account with the requested id is already there.
    AlreadyExists,
    /// No account has the requested id.
    NotFound,
    /// A leg names a missing account, or would leave a balance outside
    /// what the accounts table admits.
    LegFailure,
    /// The store refused to finalise work because of a concurrent
    /// serialization conflict; the work may be tried again.
    TransientConflict,
    /// The store could not be reached or gave up for a reason of its own.
    StoreUnavailable,
}

impl LedgerError {
    /// Whether work that ended with this failure is to be started again.
    /// Only a serialization conflict is.
    pub open spec fn retryable(self) -> bool {
        self == LedgerError::TransientConflict
    }

    /// Whether a store can be the one that reports this failure. Invalid
    /// legs are found before a store is asked, and an account is found
    /// missing by reading what the store answered.
    pub open spec fn from_store(self) -> bool {
        self != LedgerError::ValidationError && self != LedgerError::NotFound
    }

    /// Decides whether work that ended with this failure is to be started
    /// again.
    pub fn is_retryable(&self) -> (r: bool)
        ensures
            r == self.retryable(),
    {
        match self {
            LedgerError::TransientConflict => true,
            _ => false,
        }
    }
}

/// The failure that a PostgreSQL connection reports.
#[verifier::external_type_specification]
#[verifier::external_body]
pub struct ExPostgresError(postgres::Error);

/// The SQLSTATE code that a PostgreSQL server gives with a failure.
#[verifier::external_type_specification]
#[verifier::external_body]
pub struct ExSqlState(postgres::error::SqlState);

/// The category of a failure that the store reported with the SQLSTATE
/// code `code`, or without one. A serialization failure is a conflict, a
/// unique violation is an account that exists, a check violation or a
/// number out of range is a leg that the accounts table refuses, and
/// anything else is the store's own trouble.
pub open spec fn category_of(code: Option<Seq<char>>) -> LedgerError {
    match code {
        None => LedgerError::StoreUnavailable,
        Some(c) => if c == "40001"@ {
            LedgerError::TransientConflict
        } else if c == "23505"@ {
            LedgerError::AlreadyExists
        } else if c == "23514"@ || c == "22003"@ {
            LedgerError::LegFailure
        } else {
            LedgerError::StoreUnavailable
        },
    }
}

/// The view of an optional code.
pub open spec fn code_view(code: Option<String>) -> Option<Seq<char>> {
    match code {
        None => None,
        Some(c) => Some(c@),
    }
}

/// Gives the category of a failure that the store reported with the
/// SQLSTATE code `code`, or without one.
pub fn classify_sql_state(code: &Option<String>) -> (r: LedgerError)
    ensures
        r == category_of(code_view(*code)),
        r.from_store(),
{
    match code {
        None => LedgerError::StoreUnavailable,
        Some(c) => {
            let serialization_failure = "40001".to_owned();
            let unique_violation = "23505".to_owned();
            let check_violation = "23514".to_owned();
            let out_of_range = "22003".to_owned();
            if *c == serialization_failure {
                LedgerError::TransientConflict
            } else if *c == unique_violation {
                LedgerError::AlreadyExists
            } else if *c == check_violation || *c == out_of_range {
                LedgerError::LegFailure
            } else {
                LedgerError::StoreUnavailable
            }
        },
    }
}

/// The SQLSTATE code that `err` carries, as text, where the server gave
/// one: what `postgres::Error::code` returns, read through
/// `postgres::error::SqlState::code`.
pub uninterp spec fn reported_code(err: postgres::Error) -> Option<Seq<char>>;

/// The text of `state`: what `postgres::error::SqlState::code` returns.
pub uninterp spec fn code_text(state: postgres::error::SqlState) -> Seq<char>;

/// The state that the server gave with `err`, where it gave one: what
/// `postgres::Error::code` returns. The code that `err` carries is the text
/// of that state, and there is none where there is no state.
#[verifier::external_body]
fn error_state(err: &postgres::Error) -> (state: Option<&postgres::error::SqlState>)
    ensures
        match state {
            Some(s) => reported_code(*err) == Some(code_text(*s)),
            None => reported_code(*err) is None,
        },
{
    err.code()
}

/// The text of `state`, owned: what `postgres::error::SqlState::code`
/// returns. For a state that the crate knows it is the state's five
/// characters, for any other it is what the server sent.
#[verifier::external_body]
fn state_code(state: &postgres::error::SqlState) -> (code: String)
    ensures
        code@ == code_text(*state),
{
    state.code().to_string()
}

/// Gives the category of a failure that a PostgreSQL connection reported,
/// by the SQLSTATE code that it carries. The store reports no failure as
/// invalid legs or as a missing account.
pub fn classify(err: &postgres::Error) -> (r: LedgerError)
    ensures
        r == category_of(reported_code(*err)),
        r.from_store(),
{
    let code = match error_state(err) {
        Some(state) => Some(state_code(state)),
        None => None,
    };
    classify_sql_state(&code)
}

} // verus!
