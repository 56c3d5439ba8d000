//! The persisted state of the service and the interface to where it is kept.
//!
//! The service works on a [`Store`] held in memory. A [`Storage`] is where a
//! host keeps the six collections between calls.

use vstd::prelude::*;
use crate::ipc::{
    AuditEntry, AuditEntryView, ChatRequest, ChatRequestView, McpServerRecord,
    McpServerRecordView, PendingConsentRecord, PendingConsentRecordView, Session, SessionView,
};
use crate::model::{clone_opt_text, clone_views, opt_text, views};

verus! {

/// The stored settings of one provider, as JSON text exactly as given.
#[derive(Debug, PartialEq, Eq)]
pub struct ProviderSetting {
    pub provider_name: String,
    pub config_json: String,
}

/// What contracts see of a [`ProviderSetting`].
pub struct ProviderSettingView {
    pub provider_name: Seq<char>,
    pub config_json: Seq<char>,
}

impl View for ProviderSetting {
    type V = ProviderSettingView;

    open spec fn view(&self) -> ProviderSettingView {
        ProviderSettingView {
            provider_name: self.provider_name@,
            config_json: self.config_json@,
        }
    }
}

impl Clone for ProviderSetting {
    fn clone(&self) -> (r: Self)
        ensures
            r@ == self@,
    {
        ProviderSetting {
            provider_name: self.provider_name.clone(),
            config_json: self.config_json.clone(),
        }
    }
}

/// Which provider is active, and the settings stored for each provider.
/// Stored settings are meant to hold each provider name once
/// ([`distinct_names`]): the empty state does, and storing settings keeps
/// it so.
#[derive(Debug, PartialEq, Eq)]
pub struct ProviderState {
    pub active_provider: Option<String>,
    pub configs: Vec<ProviderSetting>,
}

/// What contracts see of a [`ProviderState`].
pub struct ProviderStateView {
    pub active_provider: Option<Seq<char>>,
    pub configs: Seq<ProviderSettingView>,
}

/// Whether no two settings share a provider name.
pub open spec fn distinct_names(configs: Seq<ProviderSettingView>) -> bool {
    forall|i: int, j: int|
        0 <= i < j < configs.len() ==> (#[trigger] configs[i]).provider_name != (
        #[trigger] configs[j]).provider_name
}

impl View for ProviderState {
    type V = ProviderStateView;

    open spec fn view(&self) -> ProviderStateView {
        ProviderStateView {
            active_provider: opt_text(self.active_provider),
            configs: views(self.configs@),
        }
    }
}

impl Clone for ProviderState {
    fn clone(&self) -> (r: Self)
        ensures
            r@ == self@,
    {
        ProviderState {
            active_provider: clone_opt_text(&self.active_provider),
            configs: clone_views(&self.configs),
        }
    }
}

/// A consent record together with the exact request it was issued for.
/// The pair is what an approval replays.
#[derive(Debug, PartialEq, Eq)]
pub struct PendingConsentState {
    pub record: PendingConsentRecord,
    pub chat_request: ChatRequest,
}

/// What contracts see of a [`PendingConsentState`].
pub struct PendingConsentStateView {
    pub record: PendingConsentRecordView,
    pub chat_request: ChatRequestView,
}

impl View for PendingConsentState {
    type V = PendingConsentStateView;

    open spec fn view(&self) -> PendingConsentStateView {
        PendingConsentStateView {
            record: self.record@,
            chat_request: self.chat_request@,
        }
    }
}

impl Clone for PendingConsentState {
    fn clone(&self) -> (r: Self)
        ensures
            r@ == self@,
    {
        PendingConsentState {
            record: self.record.clone(),
            chat_request: self.chat_request.clone(),
        }
    }
}

/// The project root that file tools are confined to, once one is open.
#[derive(Debug, PartialEq, Eq)]
pub struct ProjectState {
    pub open_path: Option<String>,
}

/// What contracts see of a [`ProjectState`].
pub struct ProjectStateView {
    pub open_path: Option<Seq<char>>,
}

impl View for ProjectState {
    type V = ProjectStateView;

    open spec fn view(&self) -> ProjectStateView {
        ProjectStateView {
            open_path: opt_text(self.open_path),
        }
    }
}

impl Clone for ProjectState {
    fn clone(&self) -> (r: Self)
        ensures
            r@ == self@,
    {
        ProjectState {
            open_path: clone_opt_text(&self.open_path),
        }
    }
}

/// Everything the service persists: one collection per file of the store directory.
#[derive(Debug, PartialEq, Eq)]
pub struct Store {
    pub sessions: Vec<Session>,
    pub audit_entries: Vec<AuditEntry>,
    pub pending_consents: Vec<PendingConsentState>,
    pub providers: ProviderState,
    pub mcp_servers: Vec<McpServerRecord>,
    pub project: ProjectState,
}

/// What contracts see of a [`Store`].
pub struct StoreView {
    pub sessions: Seq<SessionView>,
    pub audit_entries: Seq<AuditEntryView>,
    pub pending_consents: Seq<PendingConsentStateView>,
    pub providers: ProviderStateView,
    pub mcp_servers: Seq<McpServerRecordView>,
    pub project: ProjectStateView,
}

impl View for Store {
    type V = StoreView;

    open spec fn view(&self) -> StoreView {
        StoreView {
            sessions: views(self.sessions@),
            audit_entries: views(self.audit_entries@),
            pending_consents: views(self.pending_consents@),
            providers: self.providers@,
            mcp_servers: views(self.mcp_servers@),
            project: self.project@,
        }
    }
}

impl Clone for Store {
    fn clone(&self) -> (r: Self)
        ensures
            r@ == self@,
    {
        Store {
            sessions: clone_views(&self.sessions),
            audit_entries: clone_views(&self.audit_entries),
            pending_consents: clone_views(&self.pending_consents),
            providers: self.providers.clone(),
            mcp_servers: clone_views(&self.mcp_servers),
            project: self.project.clone(),
        }
    }
}

/// A store that holds nothing.
pub open spec fn empty_store() -> StoreView {
    StoreView {
        sessions: Seq::empty(),
        audit_entries: Seq::empty(),
        pending_consents: Seq::empty(),
        providers: ProviderStateView { active_provider: None, configs: Seq::empty() },
        mcp_servers: Seq::empty(),
        project: ProjectStateView { open_path: None },
    }
}

impl Default for ProviderState {
    fn default() -> (r: Self)
        ensures
            r@ == (ProviderStateView { active_provider: None, configs: Seq::empty() }),
            distinct_names(r@.configs),
    {
        let configs: Vec<ProviderSetting> = Vec::new();
        assert(views(configs@) =~= Seq::<ProviderSettingView>::empty());
        ProviderState { active_provider: None, configs }
    }
}

impl Default for ProjectState {
    fn default() -> (r: Self)
        ensures
            r@ == (ProjectStateView { open_path: None }),
    {
        ProjectState { open_path: None }
    }
}

impl Default for Store {
    fn default() -> (r: Self)
        ensures
            r@ == empty_store(),
    {
        let sessions: Vec<Session> = Vec::new();
        let audit_entries: Vec<AuditEntry> = Vec::new();
        let pending_consents: Vec<PendingConsentState> = Vec::new();
        let mcp_servers: Vec<McpServerRecord> = Vec::new();
        assert(views(sessions@) =~= Seq::<SessionView>::empty());
        assert(views(audit_entries@) =~= Seq::<AuditEntryView>::empty());
        assert(views(pending_consents@) =~= Seq::<PendingConsentStateView>::empty());
        assert(views(mcp_servers@) =~= Seq::<McpServerRecordView>::empty());
        Store {
            sessions,
            audit_entries,
            pending_consents,
            providers: ProviderState::default(),
            mcp_servers,
            project: ProjectState::default(),
        }
    }
}

/// Where a host keeps the six collections between calls. A read hands out
/// the collection as last written, or fails; a write replaces a collection
/// as a whole, or fails and leaves it as it was. Nothing is assumed of an
/// implementation: what is read is taken as it comes.
pub trait Storage {
    fn list_sessions(&self) -> Result<Vec<Session>, String>;

    fn write_sessions(&self, sessions: &Vec<Session>) -> Result<(), String>;

    fn read_provider_state(&self) -> Result<ProviderState, String>;

    fn write_provider_state(&self, state: &ProviderState) -> Result<(), String>;

    fn read_audit_entries(&self) -> Result<Vec<AuditEntry>, String>;

    fn write_audit_entries(&self, entries: &Vec<AuditEntry>) -> Result<(), String>;

    fn read_pending_consents(&self) -> Result<Vec<PendingConsentState>, String>;

    fn write_pending_consents(&self, entries: &Vec<PendingConsentState>) -> Result<(), String>;

    fn read_mcp_servers(&self) -> Result<Vec<McpServerRecord>, String>;

    fn write_mcp_servers(&self, entries: &Vec<McpServerRecord>) -> Result<(), String>;

    fn read_project_state(&self) -> Result<ProjectState, String>;

    fn write_project_state(&self, state: &ProjectState) -> Result<(), String>;
}

// ---------------------------------------------------------------------------
// Waiting for the lock of a stored file
// ---------------------------------------------------------------------------

/// How long a writer waits for the lock of a stored file, in milliseconds.
pub const LOCK_WAIT_TIMEOUT_MILLIS: u64 = 5000;

/// How long a writer sleeps between two attempts to take the lock, in
/// milliseconds.
pub const LOCK_POLL_INTERVAL_MILLIS: u64 = 10;

/// What came of an attempt to create the lock file.
#[derive(Clone, Copy, Debug, PartialEq, Eq, Structural)]
pub enum LockAttempt {
    /// The lock file was created: the lock is taken.
    Created,
    /// The lock file exists: another writer holds the lock.
    Held,
    /// The attempt failed for another reason.
    Failed,
}

/// What a writer does after an attempt to take the lock.
#[derive(Clone, Copy, Debug, PartialEq, Eq, Structural)]
pub enum LockStep {
    /// Write, then release the lock.
    Proceed,
    /// Sleep for so many milliseconds and try again.
    Retry { sleep_millis: u64 },
    /// Give up: the lock was held for the whole waiting time.
    TimedOut,
    /// Give up with the error of the attempt.
    Fail,
}

/// What a writer does after an attempt to take the lock, `waited_millis`
/// after its first attempt: only a held lock is waited for, and for no
/// longer than [`LOCK_WAIT_TIMEOUT_MILLIS`].
pub open spec fn lock_step_for(attempt: LockAttempt, waited_millis: u64) -> LockStep {
    match attempt {
        LockAttempt::Created => LockStep::Proceed,
        LockAttempt::Held => if waited_millis >= LOCK_WAIT_TIMEOUT_MILLIS {
            LockStep::TimedOut
        } else {
            LockStep::Retry { sleep_millis: LOCK_POLL_INTERVAL_MILLIS }
        },
        LockAttempt::Failed => LockStep::Fail,
    }
}

/// Decides what a writer does after an attempt to take the lock.
pub fn lock_step(attempt: LockAttempt, waited_millis: u64) -> (step: LockStep)
    ensures
        step == lock_step_for(attempt, waited_millis),
{
    match attempt {
        LockAttempt::Created => LockStep::Proceed,
        LockAttempt::Held => {
            if waited_millis >= LOCK_WAIT_TIMEOUT_MILLIS {
                LockStep::TimedOut
            } else {
                LockStep::Retry { sleep_millis: LOCK_POLL_INTERVAL_MILLIS }
            }
        },
        LockAttempt::Failed => LockStep::Fail,
    }
}

/// A writer tries again only while the lock is held and the waiting time
/// is not over, and writes only once the lock is its own.
pub proof fn lemma_lock_is_waited_for_in_bounds(attempt: LockAttempt, waited_millis: u64)
    ensures
        lock_step_for(attempt, waited_millis) is Retry <==> (attempt == LockAttempt::Held
            && waited_millis < LOCK_WAIT_TIMEOUT_MILLIS),
        lock_step_for(attempt, waited_millis) == LockStep::Proceed <==> attempt == LockAttempt::Created,
{
}

} // verus!
