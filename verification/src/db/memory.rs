use crate::db::{create_account, execute_transfers, get_account_balance};
use crate::error::LedgerError;
use crate::ledger::{Account, Ledger, LogEntry};
use crate::proto::accounting::TransferComponent;
use crate::session::{Session, SessionModel};
use crate::store::{DataStore, StoreState};
use vstd::prelude::*;

verus! {

/// The row of `accounts` that holds the account `id`, if one does.
fn find(accounts: &Vec<Account>, id: u32) -> (r: Option<usize>)
    ensures
        match r {
            Some(i) => i < accounts.len() && accounts[i as int].id == id,
            None => forall|i: int| 0 <= i < accounts.len() ==> accounts[i].id != id,
        },
{
    let mut i: usize = 0;
    while i < accounts.len()
        invariant
            i <= accounts.len(),
            forall|j: int| 0 <= j < i ==> accounts[j].id != id,
        decreases accounts.len() - i,
    {
        if accounts[i].id == id {
            return Some(i);
        }
        i = i + 1;
    }
    None
}

/// A copy of `rows`.
fn copy_accounts(rows: &Vec<Account>) -> (r: Vec<Account>)
    ensures
        r@ == rows@,
{
    let mut out: Vec<Account> = Vec::new();
    let mut i: usize = 0;
    while i < rows.len()
        invariant
            i <= rows.len(),
            out@ == rows@.take(i as int),
        decreases rows.len() - i,
    {
        out.push(rows[i]);
        assert(rows@.take(i + 1) =~= rows@.take(i as int).push(rows@[i as int]));
        i = i + 1;
    }
    assert(rows@.take(rows.len() as int) =~= rows@);
    out
}

/// A copy of `rows`.
fn copy_log(rows: &Vec<LogEntry>) -> (r: Vec<LogEntry>)
    ensures
        r@ == rows@,
{
    let mut out: Vec<LogEntry> = Vec::new();
    let mut i: usize = 0;
    while i < rows.len()
        invariant
            i <= rows.len(),
            out@ == rows@.take(i as int),
        decreases rows.len() - i,
    {
        out.push(rows[i]);
        assert(rows@.take(i + 1) =~= rows@.take(i as int).push(rows@[i as int]));
        i = i + 1;
    }
    assert(rows@.take(rows.len() as int) =~= rows@);
    out
}

/// A session with a ledger kept in memory. It is dependable: a statement
/// fails only where the tables refuse it. To exercise the retry of
/// conflicts it can be told to refuse the next restart points, and to
/// exercise the failure of a store it can be told to be out of reach: it is
/// then not dependable, and answers every call that can fail with
/// `StoreUnavailable`.
pub struct MemorySession {
    accounts: Vec<Account>,
    log: Vec<LogEntry>,
    restart_set: bool,
    restart_accounts: Vec<Account>,
    restart_log_len: usize,
    begun_set: bool,
    begun_accounts: Vec<Account>,
    begun_log_len: usize,
    conflicts: u64,
    down: bool,
    restarts: Ghost<nat>,
    commits: Ghost<nat>,
}

impl MemorySession {
    /// The rows as they are now.
    pub closed spec fn rows(&self) -> Ledger {
        Ledger { accounts: self.accounts@, log: self.log@ }
    }

    /// The rows as they were at the restart point.
    pub closed spec fn restart_rows(&self) -> Option<Ledger> {
        if self.restart_set {
            Some(
                Ledger {
                    accounts: self.restart_accounts@,
                    log: self.log@.take(self.restart_log_len as int),
                },
            )
        } else {
            None
        }
    }

    /// The rows as they were when the transaction began.
    pub closed spec fn begun_rows(&self) -> Option<Ledger> {
        if self.begun_set {
            Some(
                Ledger {
                    accounts: self.begun_accounts@,
                    log: self.log@.take(self.begun_log_len as int),
                },
            )
        } else {
            None
        }
    }

    /// The conflicts that the store was told to report and has not yet
    /// reported.
    pub closed spec fn pending_conflicts(&self) -> nat {
        self.conflicts as nat
    }

    /// The failure with which the session answers while it is out of
    /// reach.
    pub closed spec fn outage(&self) -> Option<LedgerError> {
        if self.down {
            Some(LedgerError::StoreUnavailable)
        } else {
            None
        }
    }

    /// A session with an empty ledger, outside any transaction, within
    /// reach and with no conflict pending.
    pub fn new() -> (r: MemorySession)
        ensures
            r.inv(),
            r.model() == (SessionModel {
                rows: Ledger::empty(),
                restart: None,
                begun: None,
                conflicts: 0,
                dependable: true,
                outage: None,
                restarts: 0,
                commits: 0,
            }),
    {
        MemorySession {
            accounts: Vec::new(),
            log: Vec::new(),
            restart_set: false,
            restart_accounts: Vec::new(),
            restart_log_len: 0,
            begun_set: false,
            begun_accounts: Vec::new(),
            begun_log_len: 0,
            conflicts: 0,
            down: false,
            restarts: Ghost(0),
            commits: Ghost(0),
        }
    }

    /// Puts the store out of reach, or back within reach.
    pub fn set_unavailable(&mut self, down: bool)
        requires
            old(self).inv(),
        ensures
            final(self).inv(),
            final(self).model() == (SessionModel {
                dependable: !down,
                outage: if down {
                    Some(LedgerError::StoreUnavailable)
                } else {
                    None
                },
                ..old(self).model()
            }),
    {
        self.down = down;
    }

    /// Makes the store refuse the next `conflicts` restart points.
    pub fn set_conflicts(&mut self, conflicts: u64)
        requires
            old(self).inv(),
        ensures
            final(self).inv(),
            final(self).model() == (SessionModel {
                conflicts: conflicts as nat,
                ..old(self).model()
            }),
    {
        self.conflicts = conflicts;
    }

    /// The conflicts that the store will still report.
    pub fn conflicts(&self) -> (r: u64)
        ensures
            r == self.model().conflicts,
    {
        self.conflicts
    }

    /// The rows of the accounts table, in the order of their creation.
    pub fn accounts(&self) -> (r: Vec<Account>)
        ensures
            r@ == self.model().rows.accounts,
    {
        copy_accounts(&self.accounts)
    }

    /// The rows of the transaction log, in the order of their writing.
    pub fn log(&self) -> (r: Vec<LogEntry>)
        ensures
            r@ == self.model().rows.log,
    {
        copy_log(&self.log)
    }
}

impl Session for MemorySession {
    closed spec fn model(&self) -> SessionModel {
        SessionModel {
            rows: self.rows(),
            restart: self.restart_rows(),
            begun: self.begun_rows(),
            conflicts: self.pending_conflicts(),
            dependable: !self.down,
            outage: self.outage(),
            restarts: self.restarts@,
            commits: self.commits@,
        }
    }

    closed spec fn inv(&self) -> bool {
        &&& self.rows().wf()
        &&& self.begun_set ==> self.begun_log_len <= self.log.len() && self.begun_rows().unwrap().wf()
        &&& self.restart_set ==> self.begun_set && self.begun_log_len <= self.restart_log_len
            <= self.log.len() && self.restart_rows().unwrap().wf()
    }

    fn begin(&mut self) -> (r: Result<(), LedgerError>) {
        if self.down {
            return Err(LedgerError::StoreUnavailable);
        }
        self.begun_accounts = copy_accounts(&self.accounts);
        self.begun_log_len = self.log.len();
        self.begun_set = true;
        proof {
            assert(self.log@.take(self.log.len() as int) =~= self.log@);
        }
        Ok(())
    }

    fn savepoint(&mut self) -> (r: Result<(), LedgerError>) {
        if self.down {
            return Err(LedgerError::StoreUnavailable);
        }
        self.restart_accounts = copy_accounts(&self.accounts);
        self.restart_log_len = self.log.len();
        self.restart_set = true;
        self.restarts = Ghost(self.restarts@ + 1);
        proof {
            assert(self.log@.take(self.log.len() as int) =~= self.log@);
        }
        Ok(())
    }

    fn release(&mut self) -> (r: Result<(), LedgerError>) {
        if self.down {
            return Err(LedgerError::StoreUnavailable);
        }
        if self.conflicts > 0 {
            self.conflicts = self.conflicts - 1;
            Err(LedgerError::TransientConflict)
        } else {
            self.restart_set = false;
            Ok(())
        }
    }

    fn rollback_to_savepoint(&mut self) {
        let ghost before = self.log@;
        self.accounts = copy_accounts(&self.restart_accounts);
        self.log.truncate(self.restart_log_len);
        self.restart_set = false;
        proof {
            assert(self.log@ =~= before.take(self.restart_log_len as int));
            assert(self.log@.take(self.begun_log_len as int) =~= before.take(
                self.begun_log_len as int,
            ));
        }
    }

    fn commit(&mut self) -> (r: Result<(), LedgerError>) {
        if self.down {
            self.rollback();
            return Err(LedgerError::StoreUnavailable);
        }
        self.commits = Ghost(self.commits@ + 1);
        self.begun_set = false;
        Ok(())
    }

    fn rollback(&mut self) {
        let ghost before = self.log@;
        self.accounts = copy_accounts(&self.begun_accounts);
        self.log.truncate(self.begun_log_len);
        self.begun_set = false;
        self.restart_set = false;
        proof {
            assert(self.log@ =~= before.take(self.begun_log_len as int));
        }
    }

    fn insert_account(&mut self, account: u32, balance: i64, req_id: u64) -> (r: Result<
        u64,
        LedgerError,
    >) {
        if self.down {
            return Err(LedgerError::StoreUnavailable);
        }
        let ghost before = self.rows();
        let row = Account { id: account, balance, creation_request: req_id };
        match find(&self.accounts, account) {
            Some(i) => {
                proof {
                    assert(before.holds_at(i as int, account));
                }
                Err(LedgerError::AlreadyExists)
            },
            None => {
                proof {
                    assert(!before.has_account(account)) by {
                        if before.has_account(account) {
                            assert(before.holds_at(before.position(account), account));
                        }
                    }
                }
                if balance < 0 {
                    Err(LedgerError::LegFailure)
                } else {
                    self.accounts.push(row);
                    proof {
                        before.lemma_open_account(row);
                    }
                    Ok(1)
                }
            },
        }
    }

    fn select_balance(&mut self, account: u32) -> (r: Result<Vec<i64>, LedgerError>) {
        if self.down {
            return Err(LedgerError::StoreUnavailable);
        }
        let ghost rows = self.rows();
        let mut found: Vec<i64> = Vec::new();
        match find(&self.accounts, account) {
            Some(i) => {
                found.push(self.accounts[i].balance);
                proof {
                    assert(rows.holds_at(i as int, account));
                    rows.lemma_position(i as int, account);
                    assert(found@ =~= seq![rows.accounts[rows.position(account)].balance]);
                }
            },
            None => {
                proof {
                    assert(!rows.has_account(account)) by {
                        if rows.has_account(account) {
                            assert(rows.holds_at(rows.position(account), account));
                        }
                    }
                }
            },
        }
        Ok(found)
    }

    fn add_to_balance(&mut self, account: u32, delta: i64) -> (r: Result<u64, LedgerError>) {
        if self.down {
            return Err(LedgerError::StoreUnavailable);
        }
        let ghost before = self.rows();
        match find(&self.accounts, account) {
            None => {
                proof {
                    assert(!before.has_account(account)) by {
                        if before.has_account(account) {
                            assert(before.holds_at(before.position(account), account));
                        }
                    }
                }
                Ok(0)
            },
            Some(i) => {
                proof {
                    assert(before.holds_at(i as int, account));
                    before.lemma_position(i as int, account);
                }
                let row = self.accounts[i];
                match row.balance.checked_add(delta) {
                    None => Err(LedgerError::LegFailure),
                    Some(balance) => {
                        if balance < 0 {
                            Err(LedgerError::LegFailure)
                        } else {
                            self.accounts[i] = Account {
                                id: row.id,
                                balance,
                                creation_request: row.creation_request,
                            };
                            proof {
                                before.lemma_credit(account, delta as int);
                                assert(self.accounts@ =~= before.credit(
                                    account,
                                    delta as int,
                                ).unwrap().accounts);
                            }
                            Ok(1)
                        }
                    },
                }
            },
        }
    }

    fn insert_transaction(&mut self, entry: LogEntry) -> (r: Result<u64, LedgerError>) {
        if self.down {
            return Err(LedgerError::StoreUnavailable);
        }
        let ghost before = self.log@;
        self.log.push(entry);
        proof {
            if self.restart_set {
                assert(self.log@.take(self.restart_log_len as int) =~= before.take(
                    self.restart_log_len as int,
                ));
            }
            if self.begun_set {
                assert(self.log@.take(self.begun_log_len as int) =~= before.take(
                    self.begun_log_len as int,
                ));
            }
        }
        Ok(1)
    }

    fn recreate_tables(&mut self) -> (r: Result<(), LedgerError>) {
        if self.down {
            return Err(LedgerError::StoreUnavailable);
        }
        self.accounts = Vec::new();
        self.log = Vec::new();
        Ok(())
    }
}

/// A ledger kept in memory, as a store: one session, and the number of
/// attempts that a unit of work is allowed in it.
pub struct MemoryStore {
    session: MemorySession,
    max_attempts: u64,
}

impl MemoryStore {
    /// An empty ledger. No conflict is pending, and a unit of work may be
    /// started again as often as a counter can tell.
    pub fn new() -> (r: MemoryStore)
        ensures
            r.valid(),
            r.state().rows.wf(),
            r.state() == (StoreState {
                rows: Ledger::empty(),
                conflicts: 0,
                dependable: true,
                outage: None,
                max_attempts: u64::MAX as nat,
            }),
    {
        MemoryStore { session: MemorySession::new(), max_attempts: u64::MAX }
    }

    /// Allows a unit of work `max_attempts` runs from now on.
    pub fn set_max_attempts(&mut self, max_attempts: u64)
        requires
            old(self).valid(),
        ensures
            final(self).valid(),
            final(self).state() == (StoreState {
                max_attempts: max_attempts as nat,
                ..old(self).state()
            }),
    {
        self.max_attempts = max_attempts;
    }

    /// Makes the store refuse the next `conflicts` restart points.
    pub fn set_conflicts(&mut self, conflicts: u64)
        requires
            old(self).valid(),
        ensures
            final(self).valid(),
            final(self).state() == (StoreState {
                conflicts: conflicts as nat,
                ..old(self).state()
            }),
    {
        self.session.set_conflicts(conflicts);
    }

    /// Puts the store out of reach, or back within reach. Out of reach it
    /// answers every call with `StoreUnavailable`.
    pub fn set_unavailable(&mut self, down: bool)
        requires
            old(self).valid(),
        ensures
            final(self).valid(),
            final(self).state() == (StoreState {
                dependable: !down,
                outage: if down {
                    Some(LedgerError::StoreUnavailable)
                } else {
                    None
                },
                ..old(self).state()
            }),
    {
        self.session.set_unavailable(down);
    }

    /// The conflicts that the store will still report.
    pub fn conflicts(&self) -> (r: u64)
        ensures
            r == self.state().conflicts,
    {
        self.session.conflicts()
    }

    /// The rows of the accounts table, in the order of their creation.
    pub fn accounts(&self) -> (r: Vec<Account>)
        ensures
            r@ == self.state().rows.accounts,
    {
        self.session.accounts()
    }

    /// The rows of the transaction log, in the order of their writing.
    pub fn log(&self) -> (r: Vec<LogEntry>)
        ensures
            r@ == self.state().rows.log,
    {
        self.session.log()
    }
}

impl DataStore for MemoryStore {
    closed spec fn state(&self) -> StoreState {
        StoreState {
            rows: self.session.model().rows,
            conflicts: self.session.model().conflicts,
            dependable: self.session.model().dependable,
            outage: self.session.model().outage,
            max_attempts: self.max_attempts as nat,
        }
    }

    closed spec fn valid(&self) -> bool {
        self.session.inv() && self.session.model().idle()
    }

    fn create_account(&mut self, account: u32, req_id: u64, balance: i64) -> (r: Result<
        u64,
        LedgerError,
    >) {
        create_account(&mut self.session, account, req_id, balance)
    }

    fn get_account_balance(&mut self, account: u32) -> (r: Result<i64, LedgerError>) {
        get_account_balance(&mut self.session, account)
    }

    fn execute_transfers(&mut self, transfers: &[TransferComponent], req_id: i64) -> (r: Result<
        (),
        LedgerError,
    >) {
        execute_transfers(&mut self.session, transfers, req_id, self.max_attempts)
    }

    fn reset(&mut self) -> (r: Result<(), LedgerError>) {
        self.session.recreate_tables()
    }
}

} // verus!
