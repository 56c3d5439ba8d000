//! The agent service: sessions, consent issuance and resolution, provider
//! selection, the MCP registry, project state, audits and health, all as
//! transitions on a [`Store`] held in memory.
//!
//! Nothing here reads a clock, a file or the environment. A host passes the
//! current time and what it observed to each operation, and persists the
//! store between calls.

use vstd::prelude::*;
use crate::actions::traits::ActionBackend;
use crate::ipc::{
    ActionEvent, ActionEventView, AuditEntry, AuditEntryView, AuditGetRequest, AuditListRequest,
    ChatApproveRequest, ChatDenyRequest, ChatMessage, ChatMessageView, ChatRequest,
    ChatRequestView, ChatResponse, ChatResponseView, ConsentListRequest, ConsentRequest,
    ConsentRequestView, McpServerAddRequest, McpServerMutationResponse, McpServerRecord,
    McpServerRecordView, PendingConsentRecord, PendingConsentRecordView, ProjectOpenRequest,
    ProjectOpenResponse, ProjectOpenResponseView, ProjectStatusRequest, ProjectStatusResponse,
    ProjectStatusResponseView, ProviderConfigGetRequest, ProviderConfigRecord,
    ProviderConfigRecordView, ProviderConfigSetRequest, ProviderConfigSetResponse,
    ProviderConfigSetResponseView, ProviderInfo, ProviderInfoView, ProvidersSetRequest, Session,
    SessionCreateRequest, SessionDeleteRequest, SessionDeleteResponse, SessionGetRequest,
    SessionMessagesAppendRequest, SessionMessagesAppendResponse, SessionSummary,
    SessionSummaryView, SessionView, SystemHealthResponse, SystemHealthResponseView, Tool,
    ToolView,
};
use crate::json::{
    lemma_object_view, member_views, parse_json, parsed_json, render_json, rendered_json,
    text_field, Json, JsonView,
};
use crate::model::{
    clone_opt_text, clone_texts, clone_views, lemma_views_push, opt_text, opt_view, views,
};
use crate::orchestrator::{redaction_mark, Orchestrator};
use crate::providers::provider_trait::Provider;
use crate::storage::{
    distinct_names, PendingConsentState, PendingConsentStateView, ProjectState, ProjectStateView,
    ProviderSetting, ProviderSettingView, ProviderState, ProviderStateView, Store, StoreView,
};
use crate::text::{
    after_last, chars_of, is_blank, join2, join3, join4, join5, last_field, make_id, number_of,
    numbered, numbered_id, parse_unsigned, same_text, str_is_blank, texts, unsigned_value,
};
use crate::tool_registry::{default_tools, ToolRegistry};

verus! {

/// How long a consent request can be resolved, in seconds.
pub const CONSENT_TTL_SECS: u64 = 300;

/// The stateful shell around the orchestrator.
#[derive(Debug)]
pub struct AgentService {
    pub store: Store,
    pub tool_registry: ToolRegistry,
    pub platform: String,
    pub synthetic_audit_counter: u64,
    pub consent_counter: u64,
    pub session_counter: u64,
    pub mcp_counter: u64,
}

/// What contracts see of an [`AgentService`].
pub struct ServiceView {
    pub store: StoreView,
    pub tools: Seq<ToolView>,
    pub platform: Seq<char>,
    pub audit_counter: u64,
    pub consent_counter: u64,
    pub session_counter: u64,
    pub mcp_counter: u64,
}

impl View for AgentService {
    type V = ServiceView;

    open spec fn view(&self) -> ServiceView {
        ServiceView {
            store: self.store@,
            tools: self.tool_registry@,
            platform: self.platform@,
            audit_counter: self.synthetic_audit_counter,
            consent_counter: self.consent_counter,
            session_counter: self.session_counter,
            mcp_counter: self.mcp_counter,
        }
    }
}

// ---------------------------------------------------------------------------
// Counters and identifiers
// ---------------------------------------------------------------------------

/// The number an audit identifier ends in: what follows its last `-`, read
/// as an unsigned decimal number, or zero where that is no number.
pub open spec fn audit_number(id: Seq<char>) -> nat {
    match unsigned_value(last_field(id, '-')) {
        Some(n) => n as nat,
        None => 0,
    }
}

/// The greatest of the first `upto` numbers, or zero.
pub open spec fn highest(numbers: Seq<nat>, upto: int) -> nat
    decreases upto,
{
    if upto <= 0 {
        0
    } else if numbers[upto - 1] > highest(numbers, upto - 1) {
        numbers[upto - 1]
    } else {
        highest(numbers, upto - 1)
    }
}

/// The numbers that the stored sessions' identifiers end in.
pub open spec fn session_numbers(sessions: Seq<SessionView>) -> Seq<nat> {
    Seq::new(sessions.len(), |i: int| numbered(sessions[i].id, "sess-"@))
}

/// The numbers that the stored consents' identifiers end in.
pub open spec fn consent_numbers(items: Seq<PendingConsentStateView>) -> Seq<nat> {
    Seq::new(items.len(), |i: int| numbered(items[i].record.consent_id, "consent-"@))
}

/// The numbers that the stored MCP servers' identifiers end in.
pub open spec fn mcp_numbers(servers: Seq<McpServerRecordView>) -> Seq<nat> {
    Seq::new(servers.len(), |i: int| numbered(servers[i].id, "mcp-"@))
}

/// The numbers that the stored audit entries' identifiers end in.
pub open spec fn audit_numbers(entries: Seq<AuditEntryView>) -> Seq<nat> {
    Seq::new(entries.len(), |i: int| audit_number(entries[i].audit_id))
}

/// The number an audit identifier ends in.
pub fn audit_number_of(id: &str) -> (n: u64)
    ensures
        n == audit_number(id@),
{
    match parse_unsigned(&after_last(&chars_of(id), '-')) {
        Some(n) => n,
        None => 0,
    }
}

/// The servers with every `running` status set back to `stopped`.
pub open spec fn all_stopped(servers: Seq<McpServerRecordView>) -> Seq<McpServerRecordView> {
    Seq::new(
        servers.len(),
        |i: int|
            if servers[i].status == "running"@ {
                McpServerRecordView { status: "stopped"@, ..servers[i] }
            } else {
                servers[i]
            },
    )
}

/// The store as a starting service takes it over: no live child survives a
/// restart, so no server is left marked `running`.
pub open spec fn startup_store(store: StoreView) -> StoreView {
    StoreView { mcp_servers: all_stopped(store.mcp_servers), ..store }
}

/// No stored audit entry is numbered above `counter`.
pub open spec fn audits_numbered_upto(entries: Seq<AuditEntryView>, counter: u64) -> bool {
    forall|k: int| 0 <= k < entries.len() ==> audit_number(#[trigger] entries[k].audit_id) <= counter
}

/// Whether the service is in order: no stored audit entry is numbered
/// above the audit counter, so that the next audit identifier is new. A
/// service is in order when it starts, and every operation keeps it so.
pub open spec fn well_formed(svc: ServiceView) -> bool {
    audits_numbered_upto(svc.store.audit_entries, svc.audit_counter)
}

/// Asking for the audit entry of `response` finds an entry under the
/// response's identifier that names the response's session and `provider`
/// and lists the actions that the response says were executed.
pub open spec fn audited(svc: ServiceView, response: ChatResponseView, provider: Seq<char>) -> bool {
    match audit_position(svc.store.audit_entries, response.audit_id, 0) {
        Some(i) => {
            &&& svc.store.audit_entries[i].audit_id == response.audit_id
            &&& svc.store.audit_entries[i].session_id == response.session_id
            &&& svc.store.audit_entries[i].provider == provider
            &&& svc.store.audit_entries[i].executed_actions == response.actions_executed
        },
        None => false,
    }
}

/// What an audited operation leaves behind on a service that was in
/// order: the service is in order again; one audit entry was added and the
/// earlier ones are as they were; the response's audit identifier is that
/// of no earlier entry; and asking for it finds the new entry, which names
/// the response's session and `provider`.
pub open spec fn newly_audited(
    before: ServiceView,
    after: ServiceView,
    response: ChatResponseView,
    provider: Seq<char>,
) -> bool {
    let earlier = before.store.audit_entries;
    let entries = after.store.audit_entries;
    &&& well_formed(after)
    &&& entries.len() == earlier.len() + 1
    &&& entries.subrange(0, earlier.len() as int) == earlier
    &&& forall|k: int| 0 <= k < earlier.len() ==> (#[trigger] earlier[k]).audit_id != response.audit_id
    &&& audit_position(entries, response.audit_id, 0) == Some(earlier.len() as int)
    &&& audited(after, response, provider)
}

/// The service over `store` right after start.
pub open spec fn started(platform: Seq<char>, store: StoreView) -> ServiceView {
    ServiceView {
        store: startup_store(store),
        tools: default_tools(),
        platform,
        audit_counter: highest(audit_numbers(store.audit_entries), store.audit_entries.len() as int) as u64,
        consent_counter: highest(
            consent_numbers(store.pending_consents),
            store.pending_consents.len() as int,
        ) as u64,
        session_counter: highest(session_numbers(store.sessions), store.sessions.len() as int) as u64,
        mcp_counter: highest(mcp_numbers(store.mcp_servers), store.mcp_servers.len() as int) as u64,
    }
}

/// Sets every `running` status back to `stopped`.
pub fn normalize_mcp_statuses_on_startup(servers: &mut Vec<McpServerRecord>)
    ensures
        views(final(servers)@) == all_stopped(views(old(servers)@)),
{
    let mut i: usize = 0;
    while i < servers.len()
        invariant
            i <= servers.len(),
            servers.len() == old(servers).len(),
            forall|k: int| 0 <= k < i ==> servers@[k]@ == all_stopped(views(old(servers)@))[k],
            forall|k: int| i <= k < servers.len() ==> servers@[k]@ == old(servers)@[k]@,
        decreases servers.len() - i,
    {
        if same_text(servers[i].status.as_str(), "running") {
            let mut record = servers.remove(i);
            record.status = "stopped".to_string();
            servers.insert(i, record);
        }
        i = i + 1;
    }
}

impl AgentService {
    /// Starts a service over `store`: each counter takes up after the
    /// highest number a stored identifier of its kind ends in, and servers
    /// left marked `running` are set back to `stopped`.
    pub fn new(platform: &str, store: Store) -> (svc: Self)
        ensures
            svc@ == started(platform@, store@),
            well_formed(svc@),
    {
        let ghost given = store@;
        let mut store = store;
        let mut consent_counter: u64 = 0;
        let mut i: usize = 0;
        while i < store.pending_consents.len()
            invariant
                i <= store.pending_consents.len(),
                consent_counter == highest(consent_numbers(store@.pending_consents), i as int),
            decreases store.pending_consents.len() - i,
        {
            let n = number_of(store.pending_consents[i].record.consent_id.as_str(), "consent-");
            if n > consent_counter {
                consent_counter = n;
            }
            i = i + 1;
        }
        let mut session_counter: u64 = 0;
        i = 0;
        while i < store.sessions.len()
            invariant
                i <= store.sessions.len(),
                session_counter == highest(session_numbers(store@.sessions), i as int),
            decreases store.sessions.len() - i,
        {
            let n = number_of(store.sessions[i].id.as_str(), "sess-");
            if n > session_counter {
                session_counter = n;
            }
            i = i + 1;
        }
        let mut mcp_counter: u64 = 0;
        i = 0;
        while i < store.mcp_servers.len()
            invariant
                i <= store.mcp_servers.len(),
                mcp_counter == highest(mcp_numbers(store@.mcp_servers), i as int),
            decreases store.mcp_servers.len() - i,
        {
            let n = number_of(store.mcp_servers[i].id.as_str(), "mcp-");
            if n > mcp_counter {
                mcp_counter = n;
            }
            i = i + 1;
        }
        let mut audit_counter: u64 = 0;
        i = 0;
        while i < store.audit_entries.len()
            invariant
                i <= store.audit_entries.len(),
                audit_counter == highest(audit_numbers(store@.audit_entries), i as int),
            decreases store.audit_entries.len() - i,
        {
            let n = audit_number_of(store.audit_entries[i].audit_id.as_str());
            if n > audit_counter {
                audit_counter = n;
            }
            i = i + 1;
        }
        normalize_mcp_statuses_on_startup(&mut store.mcp_servers);
        proof {
            crate::laws::lemma_started_audits_are_numbered(platform@, given);
        }
        AgentService {
            store,
            tool_registry: ToolRegistry::new_default(),
            platform: platform.to_string(),
            synthetic_audit_counter: audit_counter,
            consent_counter,
            session_counter,
            mcp_counter,
        }
    }

    /// Mints the next audit identifier.
    pub fn next_synthetic_audit_id(&mut self) -> (id: String)
        requires
            old(self).synthetic_audit_counter < u64::MAX,
        ensures
            well_formed(old(self)@) ==> well_formed(final(self)@),
            final(self)@ == (ServiceView {
                audit_counter: (old(self).synthetic_audit_counter + 1) as u64,
                ..old(self)@
            }),
            id@ == numbered_id("audit-"@, final(self).synthetic_audit_counter as nat),
    {
        self.synthetic_audit_counter = self.synthetic_audit_counter + 1;
        make_id("audit-", self.synthetic_audit_counter)
    }

    /// Mints the next consent identifier.
    pub fn next_consent_id(&mut self) -> (id: String)
        requires
            old(self).consent_counter < u64::MAX,
        ensures
            well_formed(old(self)@) ==> well_formed(final(self)@),
            final(self)@ == (ServiceView {
                consent_counter: (old(self).consent_counter + 1) as u64,
                ..old(self)@
            }),
            id@ == numbered_id("consent-"@, final(self).consent_counter as nat),
    {
        self.consent_counter = self.consent_counter + 1;
        make_id("consent-", self.consent_counter)
    }

    /// Mints the next session identifier.
    pub fn next_session_id(&mut self) -> (id: String)
        requires
            old(self).session_counter < u64::MAX,
        ensures
            well_formed(old(self)@) ==> well_formed(final(self)@),
            final(self)@ == (ServiceView {
                session_counter: (old(self).session_counter + 1) as u64,
                ..old(self)@
            }),
            id@ == numbered_id("sess-"@, final(self).session_counter as nat),
    {
        self.session_counter = self.session_counter + 1;
        make_id("sess-", self.session_counter)
    }

    /// Mints the next MCP server identifier.
    pub fn next_mcp_id(&mut self) -> (id: String)
        requires
            old(self).mcp_counter < u64::MAX,
        ensures
            well_formed(old(self)@) ==> well_formed(final(self)@),
            final(self)@ == (ServiceView {
                mcp_counter: (old(self).mcp_counter + 1) as u64,
                ..old(self)@
            }),
            id@ == numbered_id("mcp-"@, final(self).mcp_counter as nat),
    {
        self.mcp_counter = self.mcp_counter + 1;
        make_id("mcp-", self.mcp_counter)
    }
}

// ---------------------------------------------------------------------------
// Resolving consents
// ---------------------------------------------------------------------------

/// The first position at or after `from` that holds the consent `id`.
pub open spec fn consent_position(
    items: Seq<PendingConsentStateView>,
    id: Seq<char>,
    from: int,
) -> Option<int>
    decreases items.len() - from,
{
    if from < 0 || from >= items.len() {
        None
    } else if items[from].record.consent_id == id {
        Some(from)
    } else {
        consent_position(items, id, from + 1)
    }
}

/// What an attempt to resolve a consent comes to.
pub enum Resolution {
    /// No record has the identifier.
    NotFound,
    /// The record at this position was resolved before, or has expired.
    NotPending(int),
    /// The record at this position is pending and past its expiry.
    Expired(int),
    /// The record at this position is pending and fresh.
    Resolvable(int),
}

/// What an attempt to resolve the consent `id` at time `now` comes to.
pub open spec fn resolution(items: Seq<PendingConsentStateView>, id: Seq<char>, now: u64) -> Resolution {
    match consent_position(items, id, 0) {
        None => Resolution::NotFound,
        Some(i) => if items[i].record.status != "pending"@ {
            Resolution::NotPending(i)
        } else if now > items[i].record.expires_at_unix_seconds {
            Resolution::Expired(i)
        } else {
            Resolution::Resolvable(i)
        },
    }
}

/// The consents with the status of the record at `at` replaced.
pub open spec fn with_status(
    items: Seq<PendingConsentStateView>,
    at: int,
    status: Seq<char>,
) -> Seq<PendingConsentStateView> {
    items.update(
        at,
        PendingConsentStateView {
            record: PendingConsentRecordView { status, ..items[at].record },
            chat_request: items[at].chat_request,
        },
    )
}

/// The stable code of a failed resolution.
pub open spec fn resolution_error(items: Seq<PendingConsentStateView>, r: Resolution) -> Seq<char> {
    match r {
        Resolution::NotFound => "consent_not_found"@,
        Resolution::NotPending(i) => "consent_not_pending:"@ + items[i].record.status,
        Resolution::Expired(_) => "consent_expired"@,
        Resolution::Resolvable(_) => Seq::empty(),
    }
}

/// The consents after an attempt to give the consent `id` the status
/// `new_status` at time `now`: a fresh pending record takes the new status,
/// an expired pending record is marked `expired`, nothing else changes.
pub open spec fn resolved_consents(
    items: Seq<PendingConsentStateView>,
    id: Seq<char>,
    new_status: Seq<char>,
    now: u64,
) -> Seq<PendingConsentStateView> {
    match resolution(items, id, now) {
        Resolution::Expired(i) => with_status(items, i, "expired"@),
        Resolution::Resolvable(i) => with_status(items, i, new_status),
        _ => items,
    }
}

/// The position found is the first record with the identifier; `None` means
/// that no record has it.
pub proof fn lemma_consent_position(items: Seq<PendingConsentStateView>, id: Seq<char>, from: int)
    requires
        0 <= from,
    ensures
        match consent_position(items, id, from) {
            Some(i) => from <= i < items.len() && items[i].record.consent_id == id && forall|k: int|
                from <= k < i ==> items[k].record.consent_id != id,
            None => forall|k: int| from <= k < items.len() ==> items[k].record.consent_id != id,
        },
    decreases items.len() - from,
{
    if from < items.len() && items[from].record.consent_id != id {
        lemma_consent_position(items, id, from + 1);
    }
}

/// Replacing a status moves no record: every identifier is found where it was.
pub proof fn lemma_position_ignores_status(
    items: Seq<PendingConsentStateView>,
    at: int,
    status: Seq<char>,
    id: Seq<char>,
    from: int,
)
    requires
        0 <= at < items.len(),
        0 <= from,
    ensures
        consent_position(with_status(items, at, status), id, from) == consent_position(items, id, from),
    decreases items.len() - from,
{
    if from < items.len() && items[from].record.consent_id != id {
        lemma_position_ignores_status(items, at, status, id, from + 1);
    }
}

/// Finds the consent `id`.
fn find_consent(items: &Vec<PendingConsentState>, id: &str) -> (out: Option<usize>)
    ensures
        match out {
            Some(i) => consent_position(views(items@), id@, 0) == Some(i as int) && i < items.len(),
            None => consent_position(views(items@), id@, 0) is None,
        },
{
    let mut i: usize = 0;
    while i < items.len()
        invariant
            i <= items.len(),
            consent_position(views(items@), id@, 0) == consent_position(views(items@), id@, i as int),
        decreases items.len() - i,
    {
        if same_text(items[i].record.consent_id.as_str(), id) {
            return Some(i);
        }
        i = i + 1;
    }
    None
}

/// Replaces the status of the record at `at`.
fn set_consent_status(items: &mut Vec<PendingConsentState>, at: usize, status: &str)
    requires
        at < old(items).len(),
    ensures
        views(final(items)@) == with_status(views(old(items)@), at as int, status@),
        final(items).len() == old(items).len(),
{
    let mut item = items.remove(at);
    item.record.status = status.to_string();
    items.insert(at, item);
}

impl AgentService {
    /// Tries to give the consent `consent_id` the status `new_status`.
    ///
    /// Fails with `consent_not_found` where no record has the identifier,
    /// with `consent_not_pending:<status>` where the record is no longer
    /// pending, and with `consent_expired` where `now` is past its expiry;
    /// an expired record is marked `expired` in the store. Otherwise the
    /// record takes the new status and is returned with its bound request.
    pub fn mark_or_find_pending_consent(&mut self, consent_id: &str, new_status: &str, now: u64) -> (out:
        Result<PendingConsentState, String>)
        ensures
            well_formed(old(self)@) ==> well_formed(final(self)@),
            final(self)@ == (ServiceView {
                store: StoreView {
                    pending_consents: resolved_consents(
                        old(self)@.store.pending_consents,
                        consent_id@,
                        new_status@,
                        now,
                    ),
                    ..old(self)@.store
                },
                ..old(self)@
            }),
            match resolution(old(self)@.store.pending_consents, consent_id@, now) {
                Resolution::Resolvable(i) => out is Ok && out->Ok_0@
                    == final(self)@.store.pending_consents[i],
                other => out is Err && out->Err_0@ == resolution_error(
                    old(self)@.store.pending_consents,
                    other,
                ),
            },
    {
        let idx = match find_consent(&self.store.pending_consents, consent_id) {
            Some(i) => i,
            None => {
                return Err("consent_not_found".to_string());
            },
        };
        if !same_text(self.store.pending_consents[idx].record.status.as_str(), "pending") {
            return Err(
                join2("consent_not_pending:", self.store.pending_consents[idx].record.status.as_str()),
            );
        }
        if now > self.store.pending_consents[idx].record.expires_at_unix_seconds {
            set_consent_status(&mut self.store.pending_consents, idx, "expired");
            return Err("consent_expired".to_string());
        }
        set_consent_status(&mut self.store.pending_consents, idx, new_status);
        let found = self.store.pending_consents[idx].clone();
        Ok(found)
    }
}

/// A consent is single-use. Once an attempt has given a record a status
/// other than `pending`, every later attempt on the same identifier, at any
/// time and towards any status, fails with `consent_not_pending:` and that
/// status, and changes nothing.
pub proof fn lemma_consent_is_single_use(
    items: Seq<PendingConsentStateView>,
    id: Seq<char>,
    first_status: Seq<char>,
    first_now: u64,
    second_status: Seq<char>,
    second_now: u64,
)
    requires
        resolution(items, id, first_now) is Resolvable,
        first_status != "pending"@,
    ensures
        ({
            let after = resolved_consents(items, id, first_status, first_now);
            &&& resolution(after, id, second_now) is NotPending
            &&& resolution_error(after, resolution(after, id, second_now)) == "consent_not_pending:"@
                + first_status
            &&& resolved_consents(after, id, second_status, second_now) == after
        }),
{
    let i = resolution(items, id, first_now)->Resolvable_0;
    lemma_consent_position(items, id, 0);
    lemma_position_ignores_status(items, i, first_status, id, 0);
}

/// Approving or denying twice: after an approval, a second approval or a
/// denial fails with `consent_not_pending:approved`; after a denial, a
/// second denial or an approval fails with `consent_not_pending:denied`.
pub proof fn lemma_second_resolution_fails(
    items: Seq<PendingConsentStateView>,
    id: Seq<char>,
    approve_first: bool,
    first_now: u64,
    approve_second: bool,
    second_now: u64,
)
    requires
        resolution(items, id, first_now) is Resolvable,
    ensures
        ({
            let first = if approve_first {
                "approved"@
            } else {
                "denied"@
            };
            let second = if approve_second {
                "approved"@
            } else {
                "denied"@
            };
            let after = resolved_consents(items, id, first, first_now);
            &&& resolution_error(after, resolution(after, id, second_now)) == "consent_not_pending:"@
                + first
            &&& resolved_consents(after, id, second, second_now) == after
        }),
{
    reveal_strlit("approved");
    reveal_strlit("denied");
    reveal_strlit("pending");
    assert("approved"@ != "pending"@) by {
        assert("approved"@.len() == 8);
    }
    assert("denied"@ != "pending"@) by {
        assert("denied"@.len() == 6);
    }
    let first = if approve_first {
        "approved"@
    } else {
        "denied"@
    };
    let second = if approve_second {
        "approved"@
    } else {
        "denied"@
    };
    lemma_consent_is_single_use(items, id, first, first_now, second, second_now);
}

/// Expiry is enforced when a consent is read. A pending record past its
/// expiry cannot be resolved: the attempt fails with `consent_expired`, the
/// record is left marked `expired`, and every later attempt fails too.
pub proof fn lemma_expired_consent_fails(
    items: Seq<PendingConsentStateView>,
    id: Seq<char>,
    new_status: Seq<char>,
    now: u64,
    later_status: Seq<char>,
    later: u64,
)
    requires
        consent_position(items, id, 0) is Some,
        items[consent_position(items, id, 0)->Some_0].record.status == "pending"@,
        now > items[consent_position(items, id, 0)->Some_0].record.expires_at_unix_seconds,
    ensures
        ({
            let i = consent_position(items, id, 0)->Some_0;
            let after = resolved_consents(items, id, new_status, now);
            &&& resolution(items, id, now) == Resolution::Expired(i)
            &&& resolution_error(items, resolution(items, id, now)) == "consent_expired"@
            &&& after[i].record.status == "expired"@
            &&& resolution(after, id, later) is NotPending
            &&& resolved_consents(after, id, later_status, later) == after
        }),
{
    reveal_strlit("expired");
    reveal_strlit("pending");
    assert("expired"@ != "pending"@) by {
        assert("expired"@[0] == 'e');
    }
    let i = consent_position(items, id, 0)->Some_0;
    lemma_consent_position(items, id, 0);
    lemma_position_ignores_status(items, i, "expired"@, id, 0);
}

// ---------------------------------------------------------------------------
// Consent requests
// ---------------------------------------------------------------------------

/// Whether an event waits for the user's consent.
pub open spec fn waits(e: ActionEventView) -> bool {
    e.status == "consent_required"@
}

/// How many of the first `upto` events wait for consent.
pub open spec fn waiting_count(events: Seq<ActionEventView>, upto: int) -> nat
    decreases upto,
{
    if upto <= 0 {
        0
    } else {
        waiting_count(events, upto - 1) + (if waits(events[upto - 1]) {
            1nat
        } else {
            0nat
        })
    }
}

/// Whether a waiting event among the first `upto` carries the tier `label`.
pub open spec fn waiting_tier(events: Seq<ActionEventView>, label: Seq<char>, upto: int) -> bool
    decreases upto,
{
    if upto <= 0 {
        false
    } else {
        waiting_tier(events, label, upto - 1) || (waits(events[upto - 1]) && events[upto
            - 1].capability_tier == label)
    }
}

/// Whether a waiting event among the first `upto` shows any arguments.
pub open spec fn waiting_arguments(events: Seq<ActionEventView>, upto: int) -> bool
    decreases upto,
{
    if upto <= 0 {
        false
    } else {
        waiting_arguments(events, upto - 1) || (waits(events[upto - 1]) && match events[upto
            - 1].arguments_preview {
            Some(p) => p.len() > 0,
            None => false,
        })
    }
}

/// The first waiting event at or after `from`.
pub open spec fn first_waiting(events: Seq<ActionEventView>, from: int) -> Option<int>
    decreases events.len() - from,
{
    if from < 0 || from >= events.len() {
        None
    } else if waits(events[from]) {
        Some(from)
    } else {
        first_waiting(events, from + 1)
    }
}

/// The risk factors of the waiting events, in their fixed order.
pub open spec fn risk_factors_of(events: Seq<ActionEventView>) -> Seq<Seq<char>> {
    let n = events.len() as int;
    (if waiting_tier(events, "LocalActions"@, n) {
        seq!["local_device_action"@]
    } else {
        Seq::empty()
    }) + (if waiting_tier(events, "SystemActions"@, n) {
        seq!["system_level_action"@]
    } else {
        Seq::empty()
    }) + (if waiting_count(events, n) > 1 {
        seq!["multiple_actions_requested"@]
    } else {
        Seq::empty()
    }) + (if waiting_arguments(events, n) {
        seq!["external_arguments_present"@]
    } else {
        Seq::empty()
    })
}

/// What the user is told about the waiting events.
pub open spec fn human_summary_of(events: Seq<ActionEventView>) -> Seq<char> {
    let n = waiting_count(events, events.len() as int);
    if n == 0 {
        "No consent-required actions pending."@
    } else if n == 1 {
        "Approve execution of '"@ + events[first_waiting(events, 0)->Some_0].tool_name
            + "' once for this exact request."@
    } else {
        "Approve execution of "@ + crate::text::decimal_text(n) + " actions once for this exact request."@
    }
}

/// The consent request for the waiting events among `events`.
pub open spec fn consent_request_of(
    events: Seq<ActionEventView>,
    expires_at_unix_seconds: Option<u64>,
    ttl_seconds: Option<u64>,
) -> ConsentRequestView {
    let n = events.len() as int;
    ConsentRequestView {
        scope: "once_exact_request"@,
        human_summary: human_summary_of(events),
        risk_factors: risk_factors_of(events),
        requires_extra_confirmation_click: waiting_tier(events, "LocalActions"@, n) || waiting_tier(
            events,
            "SystemActions"@,
            n,
        ),
        expires_at_unix_seconds,
        ttl_seconds,
    }
}

/// The position found holds an event that waits for consent; `None` means
/// that no event waits.
pub proof fn lemma_first_waiting(events: Seq<ActionEventView>, from: int)
    requires
        0 <= from,
    ensures
        match first_waiting(events, from) {
            Some(i) => from <= i < events.len() && waits(events[i]),
            None => forall|k: int| from <= k < events.len() ==> !waits(events[k]),
        },
    decreases events.len() - from,
{
    if from < events.len() && !waits(events[from]) {
        lemma_first_waiting(events, from + 1);
    }
}

/// Where no event waits for consent, none is counted.
pub proof fn lemma_none_waiting(events: Seq<ActionEventView>, upto: int)
    requires
        0 <= upto <= events.len(),
        forall|k: int| 0 <= k < events.len() ==> !waits(events[k]),
    ensures
        waiting_count(events, upto) == 0,
    decreases upto,
{
    if upto > 0 {
        lemma_none_waiting(events, upto - 1);
    }
}

/// What a scan of the proposal events finds.
struct Waiting {
    count: usize,
    first: Option<usize>,
    local: bool,
    system: bool,
    arguments: bool,
}

/// Scans the proposal events for those that wait for consent.
fn scan_waiting(events: &Vec<ActionEvent>) -> (w: Waiting)
    ensures
        w.count == waiting_count(views(events@), events.len() as int),
        match w.first {
            Some(i) => first_waiting(views(events@), 0) == Some(i as int) && i < events.len(),
            None => first_waiting(views(events@), 0) is None,
        },
        w.local == waiting_tier(views(events@), "LocalActions"@, events.len() as int),
        w.system == waiting_tier(views(events@), "SystemActions"@, events.len() as int),
        w.arguments == waiting_arguments(views(events@), events.len() as int),
{
    let ghost ev = views(events@);
    let mut w = Waiting { count: 0, first: None, local: false, system: false, arguments: false };
    let mut i: usize = 0;
    while i < events.len()
        invariant
            i <= events.len(),
            ev == views(events@),
            w.count <= i,
            w.count == waiting_count(ev, i as int),
            match w.first {
                Some(f) => first_waiting(ev, 0) == Some(f as int) && f < i,
                None => first_waiting(ev, 0) == first_waiting(ev, i as int),
            },
            w.local == waiting_tier(ev, "LocalActions"@, i as int),
            w.system == waiting_tier(ev, "SystemActions"@, i as int),
            w.arguments == waiting_arguments(ev, i as int),
        decreases events.len() - i,
    {
        let e = &events[i];
        if same_text(e.status.as_str(), "consent_required") {
            w.count = w.count + 1;
            if w.first.is_none() {
                w.first = Some(i);
            }
            if same_text(e.capability_tier.as_str(), "LocalActions") {
                w.local = true;
            }
            if same_text(e.capability_tier.as_str(), "SystemActions") {
                w.system = true;
            }
            match &e.arguments_preview {
                Some(p) => {
                    if p.as_str().unicode_len() > 0 {
                        w.arguments = true;
                    }
                },
                None => {},
            }
        }
        i = i + 1;
    }
    w
}

/// Describes what the user is asked to approve: the waiting events among
/// `proposed_actions`, their risk factors, and until when.
pub fn build_consent_request(
    proposed_actions: &Vec<ActionEvent>,
    expires_at_unix_seconds: Option<u64>,
    ttl_seconds: Option<u64>,
) -> (out: ConsentRequest)
    ensures
        out@ == consent_request_of(views(proposed_actions@), expires_at_unix_seconds, ttl_seconds),
{
    let w = scan_waiting(proposed_actions);
    let mut risk_factors: Vec<String> = Vec::new();
    if w.local {
        let s = "local_device_action".to_string();
        risk_factors.push(s);
    }
    if w.system {
        let s = "system_level_action".to_string();
        risk_factors.push(s);
    }
    if w.count > 1 {
        let s = "multiple_actions_requested".to_string();
        risk_factors.push(s);
    }
    if w.arguments {
        let s = "external_arguments_present".to_string();
        risk_factors.push(s);
    }
    assert(texts(risk_factors@) =~= risk_factors_of(views(proposed_actions@)));
    let human_summary = if w.count == 0 {
        "No consent-required actions pending.".to_string()
    } else if w.count == 1 {
        proof {
            lemma_first_waiting(views(proposed_actions@), 0);
            if w.first is None {
                lemma_none_waiting(views(proposed_actions@), proposed_actions.len() as int);
            }
        }
        match w.first {
            Some(f) => {
                join3(
                "Approve execution of '",
                proposed_actions[f].tool_name.as_str(),
                "' once for this exact request.",
            )
            },
            None => "No consent-required actions pending.".to_string(),
        }
    } else {
        join3(
            "Approve execution of ",
            crate::text::decimal(w.count as u64).as_str(),
            " actions once for this exact request.",
        )
    };
    ConsentRequest {
        scope: "once_exact_request".to_string(),
        human_summary,
        risk_factors,
        requires_extra_confirmation_click: w.local || w.system,
        expires_at_unix_seconds,
        ttl_seconds,
    }
}

// ---------------------------------------------------------------------------
// Sessions touched by a chat turn
// ---------------------------------------------------------------------------

/// The first position at or after `from` that holds the session `id`.
pub open spec fn session_position(sessions: Seq<SessionView>, id: Seq<char>, from: int) -> Option<int>
    decreases sessions.len() - from,
{
    if from < 0 || from >= sessions.len() {
        None
    } else if sessions[from].id == id {
        Some(from)
    } else {
        session_position(sessions, id, from + 1)
    }
}

/// The sessions after `extra` is appended to the session at `at` at time `now`.
pub open spec fn with_messages(
    sessions: Seq<SessionView>,
    at: int,
    extra: Seq<ChatMessageView>,
    now: u64,
) -> Seq<SessionView> {
    sessions.update(
        at,
        SessionView {
            messages: sessions[at].messages + extra,
            updated_at_unix_seconds: now,
            ..sessions[at]
        },
    )
}

/// The sessions after a chat turn appends `extra` to the session it names.
/// A turn that names no session, or one that is not stored, changes nothing.
pub open spec fn appended(
    sessions: Seq<SessionView>,
    session_id: Option<Seq<char>>,
    extra: Seq<ChatMessageView>,
    now: u64,
) -> Seq<SessionView> {
    match session_id {
        None => sessions,
        Some(id) => match session_position(sessions, id, 0) {
            None => sessions,
            Some(at) => with_messages(sessions, at, extra, now),
        },
    }
}

/// The one-message list that holds an assistant's reply.
pub open spec fn assistant_reply(content: Seq<char>) -> Seq<ChatMessageView> {
    seq![ChatMessageView { role: "assistant"@, content }]
}

/// The position found is the first session with the identifier; `None` means
/// that no session has it.
pub proof fn lemma_session_position(sessions: Seq<SessionView>, id: Seq<char>, from: int)
    requires
        0 <= from,
    ensures
        match session_position(sessions, id, from) {
            Some(i) => from <= i < sessions.len() && sessions[i].id == id && forall|k: int|
                from <= k < i ==> sessions[k].id != id,
            None => forall|k: int| from <= k < sessions.len() ==> sessions[k].id != id,
        },
    decreases sessions.len() - from,
{
    if from < sessions.len() && sessions[from].id != id {
        lemma_session_position(sessions, id, from + 1);
    }
}

/// Finds the session `id`.
fn find_session(sessions: &Vec<Session>, id: &str) -> (out: Option<usize>)
    ensures
        match out {
            Some(i) => session_position(views(sessions@), id@, 0) == Some(i as int) && i
                < sessions.len(),
            None => session_position(views(sessions@), id@, 0) is None,
        },
{
    let mut i: usize = 0;
    while i < sessions.len()
        invariant
            i <= sessions.len(),
            session_position(views(sessions@), id@, 0) == session_position(
                views(sessions@),
                id@,
                i as int,
            ),
        decreases sessions.len() - i,
    {
        if same_text(sessions[i].id.as_str(), id) {
            return Some(i);
        }
        i = i + 1;
    }
    None
}

/// Appends copies of `extra` to the session at `at`.
fn extend_session(sessions: &mut Vec<Session>, at: usize, extra: &Vec<ChatMessage>, now: u64)
    requires
        at < old(sessions).len(),
    ensures
        views(final(sessions)@) == with_messages(views(old(sessions)@), at as int, views(extra@), now),
        final(sessions).len() == old(sessions).len(),
{
    let mut session = sessions.remove(at);
    let ghost before = views(session.messages@);
    let mut i: usize = 0;
    while i < extra.len()
        invariant
            i <= extra.len(),
            views(session.messages@) == before + views(extra@).subrange(0, i as int),
            session.id == old(sessions)@[at as int].id,
            session.title == old(sessions)@[at as int].title,
            session.created_at_unix_seconds == old(sessions)@[at as int].created_at_unix_seconds,
        decreases extra.len() - i,
    {
        let m = extra[i].clone();
        proof {
            lemma_views_push(session.messages@, m);
        }
        session.messages.push(m);
        i = i + 1;
    }
    assert(views(extra@).subrange(0, extra.len() as int) =~= views(extra@));
    session.updated_at_unix_seconds = now;
    sessions.insert(at, session);
}

// ---------------------------------------------------------------------------
// Audit entries
// ---------------------------------------------------------------------------

/// One policy decision as an audit entry keeps it: `tool:status:reason`.
pub open spec fn decision_line(e: ActionEventView) -> Seq<char> {
    e.tool_name + ":"@ + e.status + ":"@ + (match e.reason {
        Some(r) => r,
        None => Seq::empty(),
    })
}

/// The policy decision lines of a list of events.
pub open spec fn decision_lines(events: Seq<ActionEventView>) -> Seq<Seq<char>> {
    Seq::new(events.len(), |i: int| decision_line(events[i]))
}

/// The tool names of a list of events.
pub open spec fn event_names(events: Seq<ActionEventView>) -> Seq<Seq<char>> {
    Seq::new(events.len(), |i: int| events[i].tool_name)
}

/// The evidence summaries that the first `upto` events carry.
pub open spec fn evidence_upto(events: Seq<ActionEventView>, upto: int) -> Seq<Seq<char>>
    decreases upto,
{
    if upto <= 0 {
        Seq::empty()
    } else {
        match events[upto - 1].evidence_summary {
            Some(s) => evidence_upto(events, upto - 1).push(s),
            None => evidence_upto(events, upto - 1),
        }
    }
}

/// The audit entry of a response.
pub open spec fn audit_entry_of(response: ChatResponseView, provider: Seq<char>, now: u64) -> AuditEntryView {
    AuditEntryView {
        audit_id: response.audit_id,
        timestamp_unix_seconds: now,
        session_id: response.session_id,
        provider,
        policy_decisions: decision_lines(response.proposed_actions),
        proposed_tool_calls: event_names(response.proposed_actions),
        executed_actions: response.actions_executed,
        evidence_summaries: evidence_upto(
            response.executed_action_events,
            response.executed_action_events.len() as int,
        ),
    }
}

/// Builds the audit entry of a response.
fn audit_entry_for(response: &ChatResponse, provider: &str, now: u64) -> (out: AuditEntry)
    ensures
        out@ == audit_entry_of(response@, provider@, now),
{
    let mut policy_decisions: Vec<String> = Vec::new();
    let mut proposed_tool_calls: Vec<String> = Vec::new();
    let mut i: usize = 0;
    while i < response.proposed_actions.len()
        invariant
            i <= response.proposed_actions.len(),
            policy_decisions@.len() == i,
            proposed_tool_calls@.len() == i,
            forall|k: int|
                0 <= k < i ==> policy_decisions@[k]@ == decision_line(
                    response.proposed_actions@[k]@,
                ),
            forall|k: int|
                0 <= k < i ==> proposed_tool_calls@[k]@ == response.proposed_actions@[k]@.tool_name,
        decreases response.proposed_actions.len() - i,
    {
        let e = &response.proposed_actions[i];
        let line = match &e.reason {
            Some(r) => join5(e.tool_name.as_str(), ":", e.status.as_str(), ":", r.as_str()),
            None => join4(e.tool_name.as_str(), ":", e.status.as_str(), ":"),
        };
        policy_decisions.push(line);
        proposed_tool_calls.push(e.tool_name.clone());
        i = i + 1;
    }
    assert(texts(policy_decisions@) =~= decision_lines(response@.proposed_actions));
    assert(texts(proposed_tool_calls@) =~= event_names(response@.proposed_actions));
    let mut evidence_summaries: Vec<String> = Vec::new();
    let mut j: usize = 0;
    while j < response.executed_action_events.len()
        invariant
            j <= response.executed_action_events.len(),
            texts(evidence_summaries@) == evidence_upto(response@.executed_action_events, j as int),
        decreases response.executed_action_events.len() - j,
    {
        match &response.executed_action_events[j].evidence_summary {
            Some(s) => {
                let copy = s.clone();
                evidence_summaries.push(copy);
            },
            None => {},
        }
        j = j + 1;
    }
    AuditEntry {
        audit_id: response.audit_id.clone(),
        timestamp_unix_seconds: now,
        session_id: clone_opt_text(&response.session_id),
        provider: provider.to_string(),
        policy_decisions,
        proposed_tool_calls,
        executed_actions: clone_texts(&response.actions_executed),
        evidence_summaries,
    }
}

// ---------------------------------------------------------------------------
// The steps of a chat turn
// ---------------------------------------------------------------------------

/// `now` plus the consent lifetime, held at the largest representable time.
pub open spec fn expiry_after(now: u64) -> u64 {
    if now + CONSENT_TTL_SECS > u64::MAX {
        u64::MAX
    } else {
        (now + CONSENT_TTL_SECS) as u64
    }
}

/// The request a chat turn works on: a blank provider name is replaced by
/// the active provider, where one is selected.
pub open spec fn effective_request(svc: ServiceView, request: ChatRequestView) -> ChatRequestView {
    if is_blank(request.provider_config.provider_name) {
        match svc.store.providers.active_provider {
            Some(active) => ChatRequestView {
                provider_config: crate::ipc::ProviderConfigView {
                    provider_name: active,
                    ..request.provider_config
                },
                ..request
            },
            None => request,
        }
    } else {
        request
    }
}

/// The service once a chat turn has stored its messages in its session.
pub open spec fn begun(svc: ServiceView, request: ChatRequestView, now: u64) -> ServiceView {
    ServiceView {
        store: StoreView {
            sessions: appended(svc.store.sessions, request.session_id, request.messages, now),
            ..svc.store
        },
        ..svc
    }
}

/// The consent record minted for a response whose first waiting proposal is
/// at `first`, bound to `request`.
pub open spec fn consent_state_of(
    request: ChatRequestView,
    response: ChatResponseView,
    first: int,
    consent_id: Seq<char>,
    now: u64,
) -> PendingConsentStateView {
    let e = response.proposed_actions[first];
    PendingConsentStateView {
        record: PendingConsentRecordView {
            consent_id,
            session_id: request.session_id,
            requested_at_unix_seconds: now,
            expires_at_unix_seconds: expiry_after(now),
            tool_name: e.tool_name,
            capability_tier: e.capability_tier,
            status: "pending"@,
            rationale: match e.reason {
                Some(r) => r,
                None => "explicit consent required"@,
            },
            arguments_preview: e.arguments_preview,
            request_fingerprint: response.request_fingerprint,
        },
        chat_request: request,
    }
}

/// The service and the response after consent is attached: where a proposal
/// waits, a consent is minted, stored with the exact request, and named in
/// the response together with what the user is asked; otherwise the
/// response names none.
pub open spec fn attached(
    svc: ServiceView,
    request: ChatRequestView,
    response: ChatResponseView,
    now: u64,
) -> (ServiceView, ChatResponseView) {
    match first_waiting(response.proposed_actions, 0) {
        None => (svc, ChatResponseView { consent_token: None, consent_request: None, ..response }),
        Some(first) => {
            let n = (svc.consent_counter + 1) as u64;
            let id = numbered_id("consent-"@, n as nat);
            (
                ServiceView {
                    consent_counter: n,
                    store: StoreView {
                        pending_consents: svc.store.pending_consents.push(
                            consent_state_of(request, response, first, id, now),
                        ),
                        ..svc.store
                    },
                    ..svc
                },
                ChatResponseView {
                    consent_token: Some(id),
                    consent_request: Some(
                        consent_request_of(
                            response.proposed_actions,
                            Some(expiry_after(now)),
                            Some(CONSENT_TTL_SECS),
                        ),
                    ),
                    ..response
                },
            )
        },
    }
}

/// The service after the assistant's reply is stored and the response audited.
pub open spec fn recorded(svc: ServiceView, response: ChatResponseView, provider: Seq<char>, now: u64) -> ServiceView {
    ServiceView {
        store: StoreView {
            sessions: appended(
                svc.store.sessions,
                response.session_id,
                assistant_reply(response.final_text),
                now,
            ),
            audit_entries: svc.store.audit_entries.push(audit_entry_of(response, provider, now)),
            ..svc.store
        },
        ..svc
    }
}

/// What a chat turn makes of the orchestrator's response `run`: it carries
/// a fresh audit identifier and the request's session, a consent where a
/// proposal waits, and the matching execution state; the reply is stored in
/// the session and the response is audited.
pub open spec fn after_chat(
    svc: ServiceView,
    request: ChatRequestView,
    run: ChatResponseView,
    now: u64,
) -> (ServiceView, ChatResponseView) {
    let n = (svc.audit_counter + 1) as u64;
    let stamped = ChatResponseView {
        audit_id: numbered_id("audit-"@, n as nat),
        session_id: request.session_id,
        ..run
    };
    let (svc2, with_consent) = attached(
        ServiceView { audit_counter: n, ..svc },
        request,
        stamped,
        now,
    );
    let response = ChatResponseView {
        execution_state: if with_consent.consent_token is Some {
            "awaiting_consent"@
        } else {
            "completed"@
        },
        ..with_consent
    };
    (recorded(svc2, response, request.provider_config.provider_name, now), response)
}

/// What an approval makes of the orchestrator's response `run` to the
/// replay of the bound request of `pending`.
pub open spec fn after_approval(
    svc: ServiceView,
    pending: PendingConsentStateView,
    run: ChatResponseView,
    now: u64,
) -> (ServiceView, ChatResponseView) {
    let n = (svc.audit_counter + 1) as u64;
    let response = ChatResponseView {
        audit_id: numbered_id("audit-"@, n as nat),
        session_id: pending.record.session_id,
        execution_state: "completed"@,
        consent_token: None,
        consent_request: None,
        ..run
    };
    (
        recorded(
            ServiceView { audit_counter: n, ..svc },
            response,
            pending.chat_request.provider_config.provider_name,
            now,
        ),
        response,
    )
}

/// The event that stands for a denied consent.
pub open spec fn denial_event(record: PendingConsentRecordView) -> ActionEventView {
    ActionEventView {
        tool_name: record.tool_name,
        capability_tier: record.capability_tier,
        status: "denied"@,
        reason: Some(record.rationale),
        arguments_preview: record.arguments_preview,
        evidence_summary: None,
    }
}

/// What a denial of `pending` comes to: a response in state `denied` with
/// one denied event and nothing executed, stored and audited like a reply.
pub open spec fn after_denial(svc: ServiceView, pending: PendingConsentStateView, now: u64) -> (
    ServiceView,
    ChatResponseView,
) {
    let n = (svc.audit_counter + 1) as u64;
    let event = denial_event(pending.record);
    let response = ChatResponseView {
        final_text: "User denied consent for requested actions."@,
        audit_id: numbered_id("audit-"@, n as nat),
        request_fingerprint: pending.record.request_fingerprint,
        execution_state: "denied"@,
        consent_token: None,
        session_id: pending.record.session_id,
        consent_request: None,
        actions_executed: seq![
            "denied:"@ + pending.record.tool_name + ":"@ + pending.record.rationale,
        ],
        proposed_actions: seq![event],
        executed_action_events: Seq::empty(),
        action_events: seq![event],
    };
    (
        recorded(
            ServiceView { audit_counter: n, ..svc },
            response,
            pending.chat_request.provider_config.provider_name,
            now,
        ),
        response,
    )
}

impl AgentService {
    /// Appends a turn's messages to the session it names, where it is stored.
    pub fn append_messages_to_session_if_requested(&mut self, request: &ChatRequest, now: u64)
        ensures
            well_formed(old(self)@) ==> well_formed(final(self)@),
            final(self)@ == begun(old(self)@, request@, now),
    {
        match &request.session_id {
            None => {},
            Some(id) => match find_session(&self.store.sessions, id.as_str()) {
                None => {},
                Some(at) => {
                    extend_session(&mut self.store.sessions, at, &request.messages, now);
                },
            },
        }
    }

    /// Appends the assistant's reply to the session named, where it is stored.
    pub fn append_assistant_message_to_session_if_requested(
        &mut self,
        session_id: &Option<String>,
        content: &str,
        now: u64,
    )
        ensures
            well_formed(old(self)@) ==> well_formed(final(self)@),
            final(self)@ == (ServiceView {
                store: StoreView {
                    sessions: appended(
                        old(self)@.store.sessions,
                        opt_text(*session_id),
                        assistant_reply(content@),
                        now,
                    ),
                    ..old(self)@.store
                },
                ..old(self)@
            }),
    {
        match session_id {
            None => {},
            Some(id) => match find_session(&self.store.sessions, id.as_str()) {
                None => {},
                Some(at) => {
                    let mut reply: Vec<ChatMessage> = Vec::new();
                    reply.push(
                        ChatMessage { role: "assistant".to_string(), content: content.to_string() },
                    );
                    assert(views(reply@) =~= assistant_reply(content@));
                    extend_session(&mut self.store.sessions, at, &reply, now);
                },
            },
        }
    }

    /// Appends the audit entry of a response.
    pub fn persist_audit_from_response(&mut self, response: &ChatResponse, provider: &str, now: u64)
        ensures
            well_formed(old(self)@) && audit_number(response.audit_id@) <= old(self).synthetic_audit_counter
                ==> well_formed(final(self)@),
            final(self)@ == (ServiceView {
                store: StoreView {
                    audit_entries: old(self)@.store.audit_entries.push(
                        audit_entry_of(response@, provider@, now),
                    ),
                    ..old(self)@.store
                },
                ..old(self)@
            }),
    {
        let entry = audit_entry_for(response, provider, now);
        proof {
            lemma_views_push(self.store.audit_entries@, entry);
        }
        self.store.audit_entries.push(entry);
    }

    /// Mints a consent for the first waiting proposal of `response`, where
    /// there is one, and binds it to `request`.
    pub fn attach_or_create_consent(&mut self, request: &ChatRequest, response: &mut ChatResponse, now: u64)
        requires
            old(self).consent_counter < u64::MAX,
        ensures
            well_formed(old(self)@) ==> well_formed(final(self)@),
            (final(self)@, final(response)@) == attached(old(self)@, request@, old(response)@, now),
    {
        let first = match first_waiting_event(&response.proposed_actions) {
            None => {
                response.consent_token = None;
                response.consent_request = None;
                return ;
            },
            Some(f) => f,
        };
        let expires_at = now.saturating_add(CONSENT_TTL_SECS);
        let consent_id = self.next_consent_id();
        let e = &response.proposed_actions[first];
        let state = PendingConsentState {
            record: PendingConsentRecord {
                consent_id: consent_id.clone(),
                session_id: clone_opt_text(&request.session_id),
                requested_at_unix_seconds: now,
                expires_at_unix_seconds: expires_at,
                tool_name: e.tool_name.clone(),
                capability_tier: e.capability_tier.clone(),
                status: "pending".to_string(),
                rationale: match &e.reason {
                    Some(r) => r.clone(),
                    None => "explicit consent required".to_string(),
                },
                arguments_preview: clone_opt_text(&e.arguments_preview),
                request_fingerprint: response.request_fingerprint.clone(),
            },
            chat_request: request.clone(),
        };
        proof {
            lemma_views_push(self.store.pending_consents@, state);
        }
        self.store.pending_consents.push(state);
        let asked = build_consent_request(
            &response.proposed_actions,
            Some(expires_at),
            Some(CONSENT_TTL_SECS),
        );
        response.consent_token = Some(consent_id);
        response.consent_request = Some(asked);
    }

    /// Completes a chat turn from the orchestrator's response.
    pub fn finish_chat(&mut self, request: &ChatRequest, run: ChatResponse, now: u64) -> (response:
        ChatResponse)
        requires
            old(self).consent_counter < u64::MAX,
            old(self).synthetic_audit_counter < u64::MAX,
        ensures
            well_formed(old(self)@) ==> newly_audited(
                old(self)@,
                final(self)@,
                response@,
                request@.provider_config.provider_name,
            ),
            (final(self)@, response@) == after_chat(old(self)@, request@, run@, now),
    {
        let ghost given = run@;
        let mut response = run;
        response.audit_id = self.next_synthetic_audit_id();
        response.session_id = clone_opt_text(&request.session_id);
        self.attach_or_create_consent(request, &mut response, now);
        response.execution_state = if response.consent_token.is_some() {
            "awaiting_consent".to_string()
        } else {
            "completed".to_string()
        };
        self.append_assistant_message_to_session_if_requested(
            &response.session_id,
            response.final_text.as_str(),
            now,
        );
        self.persist_audit_from_response(
            &response,
            request.provider_config.provider_name.as_str(),
            now,
        );
        proof {
            if well_formed(old(self)@) {
                crate::laws::lemma_chat_turn_is_audited(old(self)@, request@, given, now);
            }
        }
        response
    }

    /// Completes an approval from the orchestrator's response to the replay.
    pub fn finish_approval(&mut self, pending: &PendingConsentState, run: ChatResponse, now: u64) -> (response:
        ChatResponse)
        requires
            old(self).synthetic_audit_counter < u64::MAX,
        ensures
            well_formed(old(self)@) ==> newly_audited(
                old(self)@,
                final(self)@,
                response@,
                pending@.chat_request.provider_config.provider_name,
            ),
            (final(self)@, response@) == after_approval(old(self)@, pending@, run@, now),
    {
        let ghost given = run@;
        let mut response = run;
        response.audit_id = self.next_synthetic_audit_id();
        response.session_id = clone_opt_text(&pending.record.session_id);
        response.execution_state = "completed".to_string();
        response.consent_token = None;
        response.consent_request = None;
        self.append_assistant_message_to_session_if_requested(
            &response.session_id,
            response.final_text.as_str(),
            now,
        );
        self.persist_audit_from_response(
            &response,
            pending.chat_request.provider_config.provider_name.as_str(),
            now,
        );
        proof {
            if well_formed(old(self)@) {
                crate::laws::lemma_approval_is_audited(old(self)@, pending@, given, now);
            }
        }
        response
    }

    /// Answers a denied consent: one denied event, nothing executed, the
    /// answer stored in the session and audited.
    pub fn response_for_denial(&mut self, pending: &PendingConsentState, now: u64) -> (response:
        ChatResponse)
        requires
            old(self).synthetic_audit_counter < u64::MAX,
        ensures
            well_formed(old(self)@) ==> newly_audited(
                old(self)@,
                final(self)@,
                response@,
                pending@.chat_request.provider_config.provider_name,
            ),
            (final(self)@, response@) == after_denial(old(self)@, pending@, now),
    {
        let audit_id = self.next_synthetic_audit_id();
        let record = &pending.record;
        let mut proposed_actions: Vec<ActionEvent> = Vec::new();
        proposed_actions.push(denial_event_for(record));
        let mut action_events: Vec<ActionEvent> = Vec::new();
        action_events.push(denial_event_for(record));
        let mut actions_executed: Vec<String> = Vec::new();
        actions_executed.push(
            join4("denied:", record.tool_name.as_str(), ":", record.rationale.as_str()),
        );
        let executed_action_events: Vec<ActionEvent> = Vec::new();
        assert(views(proposed_actions@) =~= seq![denial_event(record@)]);
        assert(views(action_events@) =~= seq![denial_event(record@)]);
        assert(views(executed_action_events@) =~= Seq::<ActionEventView>::empty());
        assert(texts(actions_executed@) =~= seq![
            "denied:"@ + record@.tool_name + ":"@ + record@.rationale,
        ]);
        let response = ChatResponse {
            final_text: "User denied consent for requested actions.".to_string(),
            audit_id,
            request_fingerprint: record.request_fingerprint.clone(),
            execution_state: "denied".to_string(),
            consent_token: None,
            session_id: clone_opt_text(&record.session_id),
            consent_request: None,
            actions_executed,
            proposed_actions,
            executed_action_events,
            action_events,
        };
        self.append_assistant_message_to_session_if_requested(
            &response.session_id,
            response.final_text.as_str(),
            now,
        );
        self.persist_audit_from_response(
            &response,
            pending.chat_request.provider_config.provider_name.as_str(),
            now,
        );
        proof {
            if well_formed(old(self)@) {
                crate::laws::lemma_denial_is_audited(old(self)@, pending@, now);
            }
        }
        response
    }

    /// The provider that a chat turn is run with: the one the request
    /// names, or the active provider where the request names none.
    pub fn provider_for_chat(&self, params: &ChatRequest) -> (name: String)
        ensures
            name@ == effective_request(self@, params@).provider_config.provider_name,
    {
        if str_is_blank(params.provider_config.provider_name.as_str()) {
            match &self.store.providers.active_provider {
                Some(active) => {
                    return active.clone();
                },
                None => {},
            }
        }
        params.provider_config.provider_name.clone()
    }

    /// The provider that an approval is replayed with: the one named in
    /// the request that the consent is bound to; the empty name where no
    /// consent has the token.
    pub fn provider_for_approval(&self, consent_token: &str) -> (name: String)
        ensures
            name@ == provider_bound_to(self@.store.pending_consents, consent_token@),
    {
        match find_consent(&self.store.pending_consents, consent_token) {
            Some(i) => self.store.pending_consents[i].chat_request.provider_config.provider_name.clone(),
            None => String::new(),
        }
    }

    /// The root that the file tools of a run are confined to: the path of
    /// the open project, unless it is blank.
    pub fn project_root_for_tools(&self) -> (root: Option<String>)
        ensures
            opt_text(root) == tool_root(self@.store.project.open_path),
    {
        match &self.store.project.open_path {
            Some(path) => {
                if str_is_blank(path.as_str()) {
                    None
                } else {
                    Some(path.clone())
                }
            },
            None => None,
        }
    }

    /// Replaces a blank provider name by the active provider, where one is
    /// selected.
    pub fn resolve_provider(&self, request: ChatRequest) -> (out: ChatRequest)
        ensures
            out@ == effective_request(self@, request@),
    {
        let mut request = request;
        if str_is_blank(request.provider_config.provider_name.as_str()) {
            match &self.store.providers.active_provider {
                Some(active) => {
                    request.provider_config.provider_name = active.clone();
                },
                None => {},
            }
        }
        request
    }

    /// Serves a chat turn: stores its messages, runs the orchestrator
    /// without the user's confirmation, and completes the response.
    pub fn chat_request<P: Provider, A: ActionBackend>(
        &mut self,
        orchestrator: &mut Orchestrator<P, A>,
        params: ChatRequest,
        now: u64,
    ) -> (response: ChatResponse)
        requires
            old(self).consent_counter < u64::MAX,
            old(self).synthetic_audit_counter < u64::MAX,
            old(orchestrator).audit_count() < u64::MAX,
        ensures
            well_formed(old(self)@) ==> newly_audited(
                old(self)@,
                final(self)@,
                response@,
                effective_request(old(self)@, params@).provider_config.provider_name,
            ),
            exists|run: ChatResponseView| #[trigger]
                chat_outcome(
                    old(self)@,
                    params@,
                    *old(orchestrator),
                    *final(orchestrator),
                    final(self)@,
                    response@,
                    now,
                    run,
                ),
    {
        let request = self.resolve_provider(params);
        self.append_messages_to_session_if_requested(&request, now);
        let run = orchestrator.run(
            clone_views(&request.messages),
            request.provider_config.clone(),
            request.mode,
            now,
        );
        let ghost run_view = run@;
        let response = self.finish_chat(&request, run, now);
        proof {
            reveal(chat_outcome);
            assert(chat_outcome(
                old(self)@,
                params@,
                *old(orchestrator),
                *orchestrator,
                self@,
                response@,
                now,
                run_view,
            ));
        }
        response
    }

    /// Resolves a consent by approval: the bound request, exactly as stored
    /// when the consent was minted, is replayed with the user's
    /// confirmation. Fails, without running anything, where the consent
    /// cannot be resolved.
    pub fn chat_approve<P: Provider, A: ActionBackend>(
        &mut self,
        orchestrator: &mut Orchestrator<P, A>,
        params: ChatApproveRequest,
        now: u64,
    ) -> (out: Result<ChatResponse, String>)
        requires
            old(self).synthetic_audit_counter < u64::MAX,
            old(orchestrator).audit_count() < u64::MAX,
        ensures
            well_formed(old(self)@) ==> well_formed(final(self)@),
            match resolution(old(self)@.store.pending_consents, params.consent_token@, now) {
                Resolution::Resolvable(i) => {
                    let marked = approved(old(self)@, params.consent_token@, now);
                    let bound = marked.store.pending_consents[i];
                    &&& bound.chat_request == old(self)@.store.pending_consents[i].chat_request
                    &&& out is Ok
                    &&& well_formed(old(self)@) ==> newly_audited(
                        old(self)@,
                        final(self)@,
                        out->Ok_0@,
                        bound.chat_request.provider_config.provider_name,
                    )
                    &&& exists|run: ChatResponseView| #[trigger]
                        approval_outcome(
                            marked,
                            bound,
                            *old(orchestrator),
                            *final(orchestrator),
                            final(self)@,
                            out->Ok_0@,
                            now,
                            run,
                        )
                },
                other => {
                    &&& out is Err
                    &&& out->Err_0@ == resolution_error(old(self)@.store.pending_consents, other)
                    &&& final(self)@ == approved(old(self)@, params.consent_token@, now)
                    &&& *final(orchestrator) == *old(orchestrator)
                },
            },
    {
        proof {
            lemma_consent_position(old(self)@.store.pending_consents, params.consent_token@, 0);
        }
        let pending = match self.mark_or_find_pending_consent(
            params.consent_token.as_str(),
            "approved",
            now,
        ) {
            Ok(p) => p,
            Err(e) => {
                return Err(e);
            },
        };
        let ghost marked = self@;
        let ghost bound = pending@;
        let response = self.replay_approved(orchestrator, pending, now);
        let ghost answer = response@;
        let out: Result<ChatResponse, String> = Ok(response);
        proof {
            let run = choose|run: ChatResponseView| #[trigger]
                approval_outcome(
                    marked,
                    bound,
                    *old(orchestrator),
                    *orchestrator,
                    self@,
                    answer,
                    now,
                    run,
                );
            assert(approval_outcome(
                marked,
                bound,
                *old(orchestrator),
                *orchestrator,
                self@,
                out->Ok_0@,
                now,
                run,
            ));
        }
        out
    }

    /// Replays the bound request of an approved consent with the user's
    /// confirmation and completes the response.
    pub fn replay_approved<P: Provider, A: ActionBackend>(
        &mut self,
        orchestrator: &mut Orchestrator<P, A>,
        pending: PendingConsentState,
        now: u64,
    ) -> (response: ChatResponse)
        requires
            old(self).synthetic_audit_counter < u64::MAX,
            old(orchestrator).audit_count() < u64::MAX,
        ensures
            well_formed(old(self)@) ==> newly_audited(
                old(self)@,
                final(self)@,
                response@,
                pending@.chat_request.provider_config.provider_name,
            ),
            exists|run: ChatResponseView| #[trigger]
                approval_outcome(
                    old(self)@,
                    pending@,
                    *old(orchestrator),
                    *final(orchestrator),
                    final(self)@,
                    response@,
                    now,
                    run,
                ),
    {
        let run = orchestrator.run_with_confirmation(
            clone_views(&pending.chat_request.messages),
            pending.chat_request.provider_config.clone(),
            pending.chat_request.mode,
            true,
            now,
        );
        let ghost run_view = run@;
        let response = self.finish_approval(&pending, run, now);
        proof {
            reveal(approval_outcome);
            assert(approval_outcome(
                old(self)@,
                pending@,
                *old(orchestrator),
                *orchestrator,
                self@,
                response@,
                now,
                run_view,
            ));
        }
        response
    }

    /// Resolves a consent by denial. Nothing is run.
    pub fn chat_deny(&mut self, params: ChatDenyRequest, now: u64) -> (out: Result<ChatResponse, String>)
        requires
            old(self).synthetic_audit_counter < u64::MAX,
        ensures
            well_formed(old(self)@) ==> well_formed(final(self)@),
            match resolution(old(self)@.store.pending_consents, params.consent_token@, now) {
                Resolution::Resolvable(i) => {
                    let marked = denied(old(self)@, params.consent_token@, now);
                    &&& out is Ok
                    &&& well_formed(old(self)@) ==> newly_audited(
                        old(self)@,
                        final(self)@,
                        out->Ok_0@,
                        marked.store.pending_consents[i].chat_request.provider_config.provider_name,
                    )
                    &&& (final(self)@, out->Ok_0@) == after_denial(
                        marked,
                        marked.store.pending_consents[i],
                        now,
                    )
                },
                other => {
                    &&& out is Err
                    &&& out->Err_0@ == resolution_error(old(self)@.store.pending_consents, other)
                    &&& final(self)@ == denied(old(self)@, params.consent_token@, now)
                },
            },
    {
        let pending = match self.mark_or_find_pending_consent(
            params.consent_token.as_str(),
            "denied",
            now,
        ) {
            Ok(p) => p,
            Err(e) => {
                return Err(e);
            },
        };
        Ok(self.response_for_denial(&pending, now))
    }
}

/// The provider named in the request that the consent `id` is bound to,
/// or the empty name where there is no such consent.
pub open spec fn provider_bound_to(items: Seq<PendingConsentStateView>, id: Seq<char>) -> Seq<char> {
    match consent_position(items, id, 0) {
        Some(i) => items[i].chat_request.provider_config.provider_name,
        None => Seq::empty(),
    }
}

/// The root that file tools are confined to, given the path of the open
/// project: that path, unless it is blank.
pub open spec fn tool_root(open_path: Option<Seq<char>>) -> Option<Seq<char>> {
    match open_path {
        Some(path) => if is_blank(path) {
            None
        } else {
            Some(path)
        },
        None => None,
    }
}

/// Whether the orchestrator's response `run` accounts for a chat turn: it
/// is the outcome of a run of the effective request without the user's
/// confirmation, and the turn made of it what [`after_chat`] says.
#[verifier::opaque]
pub open spec fn chat_outcome<P: Provider, A: ActionBackend>(
    before: ServiceView,
    params: ChatRequestView,
    orchestrator_before: Orchestrator<P, A>,
    orchestrator_after: Orchestrator<P, A>,
    after: ServiceView,
    response: ChatResponseView,
    now: u64,
    run: ChatResponseView,
) -> bool {
    let request = effective_request(before, params);
    &&& Orchestrator::outcome_ok(
        orchestrator_before,
        orchestrator_after,
        request.messages,
        request.provider_config,
        request.mode,
        false,
        now,
        run,
    )
    &&& (after, response) == after_chat(begun(before, request, now), request, run, now)
}

/// Whether the orchestrator's response `run` accounts for an approval: it
/// is the outcome of a run of the bound request with the user's
/// confirmation, and the approval made of it what [`after_approval`] says.
#[verifier::opaque]
pub open spec fn approval_outcome<P: Provider, A: ActionBackend>(
    marked: ServiceView,
    bound: PendingConsentStateView,
    orchestrator_before: Orchestrator<P, A>,
    orchestrator_after: Orchestrator<P, A>,
    after: ServiceView,
    response: ChatResponseView,
    now: u64,
    run: ChatResponseView,
) -> bool {
    &&& Orchestrator::outcome_ok(
        orchestrator_before,
        orchestrator_after,
        bound.chat_request.messages,
        bound.chat_request.provider_config,
        bound.chat_request.mode,
        true,
        now,
        run,
    )
    &&& (after, response) == after_approval(marked, bound, run, now)
}

/// The service after an attempt to approve the consent `id` at time `now`.
pub open spec fn approved(svc: ServiceView, id: Seq<char>, now: u64) -> ServiceView {
    ServiceView {
        store: StoreView {
            pending_consents: resolved_consents(svc.store.pending_consents, id, "approved"@, now),
            ..svc.store
        },
        ..svc
    }
}

/// The service after an attempt to deny the consent `id` at time `now`.
pub open spec fn denied(svc: ServiceView, id: Seq<char>, now: u64) -> ServiceView {
    ServiceView {
        store: StoreView {
            pending_consents: resolved_consents(svc.store.pending_consents, id, "denied"@, now),
            ..svc.store
        },
        ..svc
    }
}

/// The first proposal that waits for consent.
fn first_waiting_event(events: &Vec<ActionEvent>) -> (out: Option<usize>)
    ensures
        match out {
            Some(i) => first_waiting(views(events@), 0) == Some(i as int) && i < events.len(),
            None => first_waiting(views(events@), 0) is None,
        },
{
    let mut i: usize = 0;
    while i < events.len()
        invariant
            i <= events.len(),
            first_waiting(views(events@), 0) == first_waiting(views(events@), i as int),
        decreases events.len() - i,
    {
        if same_text(events[i].status.as_str(), "consent_required") {
            return Some(i);
        }
        i = i + 1;
    }
    None
}

/// The event that stands for a denied consent.
fn denial_event_for(record: &PendingConsentRecord) -> (e: ActionEvent)
    ensures
        e@ == denial_event(record@),
{
    ActionEvent {
        tool_name: record.tool_name.clone(),
        capability_tier: record.capability_tier.clone(),
        status: "denied".to_string(),
        reason: Some(record.rationale.clone()),
        arguments_preview: clone_opt_text(&record.arguments_preview),
        evidence_summary: None,
    }
}

// ---------------------------------------------------------------------------
// Listings
// ---------------------------------------------------------------------------

/// The records picked out by `order`, in that order.
pub open spec fn arranged<T>(items: Seq<T>, order: Seq<usize>) -> Seq<T> {
    Seq::new(order.len(), |k: int| items[order[k] as int])
}

/// The first `limit` records, or all of them where no limit is given.
pub open spec fn limited<T>(items: Seq<T>, limit: Option<usize>) -> Seq<T> {
    match limit {
        Some(n) => if n < items.len() {
            items.subrange(0, n as int)
        } else {
            items
        },
        None => items,
    }
}

/// Copies of the records picked out by `order`, up to `limit` of them.
fn arrange<T: Clone + View>(items: &Vec<T>, order: &Vec<usize>, limit: Option<usize>) -> (out: Vec<T>)
    requires
        crate::model::clone_keeps_view::<T>(),
        forall|k: int| 0 <= k < order.len() ==> #[trigger] order@[k] < items.len(),
    ensures
        views(out@) == limited(arranged(views(items@), order@), limit),
{
    let count = match limit {
        Some(n) => if n < order.len() {
            n
        } else {
            order.len()
        },
        None => order.len(),
    };
    let mut out: Vec<T> = Vec::new();
    let mut k: usize = 0;
    while k < count
        invariant
            k <= count <= order.len(),
            out@.len() == k,
            crate::model::clone_keeps_view::<T>(),
            forall|j: int| 0 <= j < order.len() ==> #[trigger] order@[j] < items.len(),
            forall|j: int| 0 <= j < k ==> out@[j]@ == items@[order@[j] as int]@,
        decreases count - k,
    {
        let item = items[order[k]].clone();
        assert(cloned::<T>(items@[order@[k as int] as int], item));
        out.push(item);
        k = k + 1;
    }
    out
}

/// When each session was last updated.
pub open spec fn session_keys(sessions: Seq<SessionView>) -> Seq<u64> {
    Seq::new(sessions.len(), |i: int| sessions[i].updated_at_unix_seconds)
}

/// A session as listings show it.
pub open spec fn summary_of(s: SessionView) -> SessionSummaryView {
    SessionSummaryView {
        id: s.id,
        title: s.title,
        created_at_unix_seconds: s.created_at_unix_seconds,
        updated_at_unix_seconds: s.updated_at_unix_seconds,
        message_count: s.messages.len() as usize,
    }
}

/// The session listing: a summary of every session, last updated first.
pub open spec fn session_listing(sessions: Seq<SessionView>) -> Seq<SessionSummaryView> {
    let order = crate::listing::listing(session_keys(sessions), sessions.len() as int);
    Seq::new(order.len(), |k: int| summary_of(sessions[order[k] as int]))
}

/// The title of a new session: the one asked for, or `Session <n>` where
/// none or a blank one is given.
pub open spec fn title_of(asked: Option<Seq<char>>, n: nat) -> Seq<char> {
    match asked {
        Some(t) => if is_blank(t) {
            "Session "@ + crate::text::decimal_text(n)
        } else {
            t
        },
        None => "Session "@ + crate::text::decimal_text(n),
    }
}

/// The sessions among the first `upto` that are not named `id`.
pub open spec fn sessions_without(sessions: Seq<SessionView>, id: Seq<char>, upto: int) -> Seq<SessionView>
    decreases upto,
{
    if upto <= 0 {
        Seq::empty()
    } else if sessions[upto - 1].id == id {
        sessions_without(sessions, id, upto - 1)
    } else {
        sessions_without(sessions, id, upto - 1).push(sessions[upto - 1])
    }
}

/// Whether an audit entry belongs to a listing filtered by `session`.
pub open spec fn audit_matches(e: AuditEntryView, session: Option<Seq<char>>) -> bool {
    match session {
        Some(id) => e.session_id == Some(id),
        None => true,
    }
}

/// The audit entries among the first `upto` that pass the session filter.
pub open spec fn audits_kept(entries: Seq<AuditEntryView>, session: Option<Seq<char>>, upto: int) -> Seq<
    AuditEntryView,
>
    decreases upto,
{
    if upto <= 0 {
        Seq::empty()
    } else if audit_matches(entries[upto - 1], session) {
        audits_kept(entries, session, upto - 1).push(entries[upto - 1])
    } else {
        audits_kept(entries, session, upto - 1)
    }
}

/// When each audit entry was written.
pub open spec fn audit_keys(entries: Seq<AuditEntryView>) -> Seq<u64> {
    Seq::new(entries.len(), |i: int| entries[i].timestamp_unix_seconds)
}

/// The audit listing: the entries that pass the session filter, newest
/// first, cut to the limit.
pub open spec fn audit_listing(
    entries: Seq<AuditEntryView>,
    session: Option<Seq<char>>,
    limit: Option<usize>,
) -> Seq<AuditEntryView> {
    let kept = audits_kept(entries, session, entries.len() as int);
    limited(arranged(kept, crate::listing::listing(audit_keys(kept), kept.len() as int)), limit)
}

/// The first position at or after `from` that holds the audit entry `id`.
pub open spec fn audit_position(entries: Seq<AuditEntryView>, id: Seq<char>, from: int) -> Option<int>
    decreases entries.len() - from,
{
    if from < 0 || from >= entries.len() {
        None
    } else if entries[from].audit_id == id {
        Some(from)
    } else {
        audit_position(entries, id, from + 1)
    }
}

/// A consent record as seen at time `now`: a pending record past its
/// expiry is seen as `expired`.
pub open spec fn seen_at(record: PendingConsentRecordView, now: u64) -> PendingConsentRecordView {
    if record.status == "pending"@ && now > record.expires_at_unix_seconds {
        PendingConsentRecordView { status: "expired"@, ..record }
    } else {
        record
    }
}

/// Whether a consent record, as seen, belongs to a filtered listing.
pub open spec fn consent_matches(
    record: PendingConsentRecordView,
    status: Option<Seq<char>>,
    session: Option<Seq<char>>,
) -> bool {
    &&& match status {
        Some(s) => record.status == s,
        None => true,
    }
    &&& match session {
        Some(id) => record.session_id == Some(id),
        None => true,
    }
}

/// The consent records among the first `upto`, as seen at `now`, that pass
/// the filters.
pub open spec fn consents_kept(
    items: Seq<PendingConsentStateView>,
    status: Option<Seq<char>>,
    session: Option<Seq<char>>,
    now: u64,
    upto: int,
) -> Seq<PendingConsentRecordView>
    decreases upto,
{
    if upto <= 0 {
        Seq::empty()
    } else if consent_matches(seen_at(items[upto - 1].record, now), status, session) {
        consents_kept(items, status, session, now, upto - 1).push(
            seen_at(items[upto - 1].record, now),
        )
    } else {
        consents_kept(items, status, session, now, upto - 1)
    }
}

/// When each consent was requested.
pub open spec fn consent_keys(records: Seq<PendingConsentRecordView>) -> Seq<u64> {
    Seq::new(records.len(), |i: int| records[i].requested_at_unix_seconds)
}

/// The consent listing: the records, as seen at `now`, that pass the
/// filters, most recently requested first.
pub open spec fn consent_listing(
    items: Seq<PendingConsentStateView>,
    status: Option<Seq<char>>,
    session: Option<Seq<char>>,
    now: u64,
) -> Seq<PendingConsentRecordView> {
    let kept = consents_kept(items, status, session, now, items.len() as int);
    arranged(kept, crate::listing::listing(consent_keys(kept), kept.len() as int))
}

/// Whether an optional text is `wanted`, where something is wanted.
fn passes(have: &Option<String>, wanted: &Option<String>) -> (r: bool)
    ensures
        r == match opt_text(*wanted) {
            Some(id) => opt_text(*have) == Some(id),
            None => true,
        },
{
    match wanted {
        None => true,
        Some(w) => match have {
            Some(h) => same_text(h.as_str(), w.as_str()),
            None => false,
        },
    }
}

impl AgentService {
    /// Creates a session and stores it.
    pub fn sessions_create(&mut self, params: SessionCreateRequest, now: u64) -> (session: Session)
        requires
            old(self).session_counter < u64::MAX,
        ensures
            well_formed(old(self)@) ==> well_formed(final(self)@),
            session@ == (SessionView {
                id: numbered_id("sess-"@, (old(self).session_counter + 1) as nat),
                created_at_unix_seconds: now,
                updated_at_unix_seconds: now,
                title: title_of(opt_text(params.title), (old(self).session_counter + 1) as nat),
                messages: Seq::empty(),
            }),
            final(self)@ == (ServiceView {
                session_counter: (old(self).session_counter + 1) as u64,
                store: StoreView {
                    sessions: old(self)@.store.sessions.push(session@),
                    ..old(self)@.store
                },
                ..old(self)@
            }),
    {
        let fallback = join2("Session ", crate::text::decimal(self.session_counter + 1).as_str());
        let title = match params.title {
            Some(t) => if str_is_blank(t.as_str()) {
                fallback
            } else {
                t
            },
            None => fallback,
        };
        let messages: Vec<ChatMessage> = Vec::new();
        assert(views(messages@) =~= Seq::<ChatMessageView>::empty());
        let session = Session {
            id: self.next_session_id(),
            created_at_unix_seconds: now,
            updated_at_unix_seconds: now,
            title,
            messages,
        };
        let copy = session.clone();
        proof {
            lemma_views_push(self.store.sessions@, copy);
        }
        self.store.sessions.push(copy);
        session
    }

    /// Lists the sessions, last updated first.
    pub fn sessions_list(&self) -> (out: Vec<SessionSummary>)
        ensures
            views(out@) == session_listing(self@.store.sessions),
    {
        let sessions = &self.store.sessions;
        let mut keys: Vec<u64> = Vec::new();
        let mut i: usize = 0;
        while i < sessions.len()
            invariant
                i <= sessions.len(),
                keys@.len() == i,
                forall|k: int| 0 <= k < i ==> keys@[k] == sessions@[k]@.updated_at_unix_seconds,
            decreases sessions.len() - i,
        {
            keys.push(sessions[i].updated_at_unix_seconds);
            i = i + 1;
        }
        assert(keys@ =~= session_keys(views(sessions@)));
        let order = crate::listing::listing_order(&keys);
        let mut out: Vec<SessionSummary> = Vec::new();
        let mut k: usize = 0;
        while k < order.len()
            invariant
                k <= order.len(),
                out@.len() == k,
                forall|j: int| 0 <= j < order.len() ==> #[trigger] order@[j] < sessions.len(),
                forall|j: int| 0 <= j < k ==> out@[j]@ == summary_of(sessions@[order@[j] as int]@),
            decreases order.len() - k,
        {
            let s = &sessions[order[k]];
            out.push(
                SessionSummary {
                    id: s.id.clone(),
                    title: s.title.clone(),
                    created_at_unix_seconds: s.created_at_unix_seconds,
                    updated_at_unix_seconds: s.updated_at_unix_seconds,
                    message_count: s.messages.len(),
                },
            );
            k = k + 1;
        }
        out
    }

    /// The first stored session named `session_id`; fails with
    /// `session not found` where there is none.
    pub fn sessions_get(&self, params: SessionGetRequest) -> (out: Result<Session, String>)
        ensures
            match session_position(self@.store.sessions, params.session_id@, 0) {
                Some(i) => out is Ok && out->Ok_0@ == self@.store.sessions[i],
                None => out is Err && out->Err_0@ == "session not found"@,
            },
    {
        match find_session(&self.store.sessions, params.session_id.as_str()) {
            Some(i) => {
                let s = self.store.sessions[i].clone();
                Ok(s)
            },
            None => Err("session not found".to_string()),
        }
    }

    /// Removes every session named `session_id`; says whether any was removed.
    pub fn sessions_delete(&mut self, params: SessionDeleteRequest) -> (out: SessionDeleteResponse)
        ensures
            well_formed(old(self)@) ==> well_formed(final(self)@),
            final(self)@ == (ServiceView {
                store: StoreView {
                    sessions: sessions_without(
                        old(self)@.store.sessions,
                        params.session_id@,
                        old(self)@.store.sessions.len() as int,
                    ),
                    ..old(self)@.store
                },
                ..old(self)@
            }),
            out.deleted == (final(self)@.store.sessions.len() != old(self)@.store.sessions.len()),
    {
        let mut kept: Vec<Session> = Vec::new();
        let mut i: usize = 0;
        while i < self.store.sessions.len()
            invariant
                i <= self.store.sessions.len(),
                *self == *old(self),
                views(kept@) == sessions_without(self@.store.sessions, params.session_id@, i as int),
            decreases self.store.sessions.len() - i,
        {
            if !same_text(self.store.sessions[i].id.as_str(), params.session_id.as_str()) {
                let s = self.store.sessions[i].clone();
                kept.push(s);
            }
            i = i + 1;
        }
        let deleted = kept.len() != self.store.sessions.len();
        self.store.sessions = kept;
        SessionDeleteResponse { deleted }
    }

    /// Appends messages to the first stored session named `session_id`;
    /// fails with `session not found` where there is none. The messages keep
    /// their order and follow those already stored.
    pub fn sessions_messages_append(&mut self, params: SessionMessagesAppendRequest, now: u64) -> (out:
        Result<SessionMessagesAppendResponse, String>)
        ensures
            well_formed(old(self)@) ==> well_formed(final(self)@),
            match session_position(old(self)@.store.sessions, params.session_id@, 0) {
                Some(i) => {
                    &&& final(self)@ == (ServiceView {
                        store: StoreView {
                            sessions: with_messages(
                                old(self)@.store.sessions,
                                i,
                                views(params.messages@),
                                now,
                            ),
                            ..old(self)@.store
                        },
                        ..old(self)@
                    })
                    &&& out is Ok
                    &&& out->Ok_0@.session == final(self)@.store.sessions[i]
                },
                None => out is Err && out->Err_0@ == "session not found"@ && final(self)@ == old(
                    self,
                )@,
            },
    {
        match find_session(&self.store.sessions, params.session_id.as_str()) {
            Some(i) => {
                extend_session(&mut self.store.sessions, i, &params.messages, now);
                let session = self.store.sessions[i].clone();
                Ok(SessionMessagesAppendResponse { session })
            },
            None => Err("session not found".to_string()),
        }
    }

    /// Lists the audit entries of a session, or all of them, newest first,
    /// up to the limit.
    pub fn audit_list(&self, params: AuditListRequest) -> (out: Vec<AuditEntry>)
        ensures
            views(out@) == audit_listing(
                self@.store.audit_entries,
                opt_text(params.session_id),
                params.limit,
            ),
    {
        let entries = &self.store.audit_entries;
        let mut kept: Vec<AuditEntry> = Vec::new();
        let mut keys: Vec<u64> = Vec::new();
        let mut i: usize = 0;
        while i < entries.len()
            invariant
                i <= entries.len(),
                views(kept@) == audits_kept(views(entries@), opt_text(params.session_id), i as int),
                keys@.len() == kept@.len(),
                forall|k: int| 0 <= k < keys@.len() ==> keys@[k] == kept@[k]@.timestamp_unix_seconds,
            decreases entries.len() - i,
        {
            if passes(&entries[i].session_id, &params.session_id) {
                let e = entries[i].clone();
                keys.push(e.timestamp_unix_seconds);
                kept.push(e);
            }
            i = i + 1;
        }
        assert(keys@ =~= audit_keys(views(kept@)));
        let order = crate::listing::listing_order(&keys);
        arrange(&kept, &order, params.limit)
    }

    /// The first stored audit entry named `audit_id`; fails with
    /// `audit entry not found` where there is none.
    pub fn audit_get(&self, params: AuditGetRequest) -> (out: Result<AuditEntry, String>)
        ensures
            match audit_position(self@.store.audit_entries, params.audit_id@, 0) {
                Some(i) => out is Ok && out->Ok_0@ == self@.store.audit_entries[i],
                None => out is Err && out->Err_0@ == "audit entry not found"@,
            },
    {
        let entries = &self.store.audit_entries;
        let mut i: usize = 0;
        while i < entries.len()
            invariant
                i <= entries.len(),
                *entries == self.store.audit_entries,
                audit_position(views(entries@), params.audit_id@, 0) == audit_position(
                    views(entries@),
                    params.audit_id@,
                    i as int,
                ),
            decreases entries.len() - i,
        {
            if same_text(entries[i].audit_id.as_str(), params.audit_id.as_str()) {
                let e = entries[i].clone();
                return Ok(e);
            }
            i = i + 1;
        }
        Err("audit entry not found".to_string())
    }

    /// Lists the consent records as seen at `now`, filtered by status and
    /// session, most recently requested first. A pending record past its
    /// expiry is listed as `expired`; the store is left as it is.
    pub fn consent_list(&self, params: ConsentListRequest, now: u64) -> (out: Vec<PendingConsentRecord>)
        ensures
            views(out@) == consent_listing(
                self@.store.pending_consents,
                opt_text(params.status),
                opt_text(params.session_id),
                now,
            ),
    {
        let items = &self.store.pending_consents;
        let mut kept: Vec<PendingConsentRecord> = Vec::new();
        let mut keys: Vec<u64> = Vec::new();
        let mut i: usize = 0;
        while i < items.len()
            invariant
                i <= items.len(),
                views(kept@) == consents_kept(
                    views(items@),
                    opt_text(params.status),
                    opt_text(params.session_id),
                    now,
                    i as int,
                ),
                keys@.len() == kept@.len(),
                forall|k: int| 0 <= k < keys@.len() ==> keys@[k] == kept@[k]@.requested_at_unix_seconds,
            decreases items.len() - i,
        {
            let mut record = items[i].record.clone();
            if same_text(record.status.as_str(), "pending") && now > record.expires_at_unix_seconds {
                record.status = "expired".to_string();
            }
            let status_ok = match &params.status {
                Some(s) => same_text(record.status.as_str(), s.as_str()),
                None => true,
            };
            if status_ok && passes(&record.session_id, &params.session_id) {
                keys.push(record.requested_at_unix_seconds);
                kept.push(record);
            }
            i = i + 1;
        }
        assert(keys@ =~= consent_keys(views(kept@)));
        let order = crate::listing::listing_order(&keys);
        let out = arrange(&kept, &order, None);
        out
    }

    /// The tools on offer.
    pub fn tools_list(&self) -> (out: Vec<Tool>)
        ensures
            views(out@) == self@.tools,
    {
        self.tool_registry.list()
    }
}

// ---------------------------------------------------------------------------
// Providers
// ---------------------------------------------------------------------------

/// The settings used for a provider that has none stored.
pub open spec fn empty_config() -> Seq<char> {
    "{}"@
}

/// The first position at or after `from` that holds settings for `name`.
pub open spec fn config_position(configs: Seq<ProviderSettingView>, name: Seq<char>, from: int) -> Option<int>
    decreases configs.len() - from,
{
    if from < 0 || from >= configs.len() {
        None
    } else if configs[from].provider_name == name {
        Some(from)
    } else {
        config_position(configs, name, from + 1)
    }
}

/// The settings stored for `name`, or the empty settings.
pub open spec fn config_of(configs: Seq<ProviderSettingView>, name: Seq<char>) -> Seq<char> {
    match config_position(configs, name, 0) {
        Some(i) => configs[i].config_json,
        None => empty_config(),
    }
}

/// The settings after `config_json` is stored for `name`: it replaces what
/// was stored for the name, or is added.
pub open spec fn with_config(
    configs: Seq<ProviderSettingView>,
    name: Seq<char>,
    config_json: Seq<char>,
) -> Seq<ProviderSettingView> {
    let setting = ProviderSettingView { provider_name: name, config_json };
    match config_position(configs, name, 0) {
        Some(i) => configs.update(i, setting),
        None => configs.push(setting),
    }
}

/// Whether the member `key` of a document is a string that is not blank.
pub open spec fn names_something(doc: JsonView, key: Seq<char>) -> bool {
    match text_field(doc, key) {
        Some(s) => !is_blank(s),
        None => false,
    }
}

/// Whether a document names an environment variable to take a credential from.
pub open spec fn doc_has_env_auth(doc: JsonView) -> bool {
    names_something(doc, "api_key_env"@) || names_something(doc, "token_env"@)
}

/// Whether a document holds a credential inline.
pub open spec fn doc_has_inline_auth(doc: JsonView) -> bool {
    names_something(doc, "api_key"@) || names_something(doc, "token"@)
}

/// Where a settings document takes its credential from: `env` where it
/// names an environment variable, else `inline` where it holds a
/// credential, else nowhere.
pub open spec fn doc_auth_source(doc: JsonView) -> Option<Seq<char>> {
    if doc_has_env_auth(doc) {
        Some("env"@)
    } else if doc_has_inline_auth(doc) {
        Some("inline"@)
    } else {
        None
    }
}

/// The environment variable that a settings document refers to:
/// `api_key_env` where it names something, else `token_env`.
pub open spec fn doc_env_ref(doc: JsonView) -> Option<Seq<char>> {
    if names_something(doc, "api_key_env"@) {
        text_field(doc, "api_key_env"@)
    } else if names_something(doc, "token_env"@) {
        text_field(doc, "token_env"@)
    } else {
        None
    }
}

/// Whether provider settings carry a credential, inline or by reference.
pub open spec fn has_auth(config_json: Seq<char>) -> bool {
    match parsed_json(config_json) {
        Some(doc) => doc_has_inline_auth(doc) || doc_has_env_auth(doc),
        None => false,
    }
}

/// Where provider settings take their credential from: `env`, `inline`, or nowhere.
pub open spec fn auth_source(config_json: Seq<char>) -> Option<Seq<char>> {
    match parsed_json(config_json) {
        Some(doc) => doc_auth_source(doc),
        None => None,
    }
}

/// The environment variable that provider settings refer to.
pub open spec fn env_ref(config_json: Seq<char>) -> Option<Seq<char>> {
    match parsed_json(config_json) {
        Some(doc) => doc_env_ref(doc),
        None => None,
    }
}

/// Whether a member name holds an inline secret of provider settings.
pub open spec fn secret_member(key: Seq<char>) -> bool {
    key == "api_key"@ || key == "token"@ || key == "password"@ || key == "secret"@
}

/// The members with every inline secret masked.
pub open spec fn masked_members(members: Seq<(Seq<char>, JsonView)>) -> Seq<(Seq<char>, JsonView)> {
    Seq::new(
        members.len(),
        |i: int|
            (
                members[i].0,
                if secret_member(members[i].0) {
                    JsonView::Text(redaction_mark())
                } else {
                    members[i].1
                },
            ),
    )
}

/// A settings document as shown to a caller: inline secrets at the top
/// level of an object are masked, all other members are kept; a document
/// that is no object is shown as it is.
pub open spec fn masked_doc(doc: JsonView) -> JsonView {
    match doc {
        JsonView::Object(members) => JsonView::Object(masked_members(members)),
        _ => doc,
    }
}

/// Provider settings as shown to a caller: inline secrets at the top level
/// are masked, all other members are kept; settings that are no JSON
/// object are shown as they are.
pub open spec fn masked_config(config_json: Seq<char>) -> Seq<char> {
    match parsed_json(config_json) {
        Some(JsonView::Object(members)) => rendered_json(masked_doc(JsonView::Object(members))),
        _ => config_json,
    }
}

/// What a listing says of a provider's settings.
pub open spec fn config_summary_of(config_json: Seq<char>) -> Seq<char> {
    if has_auth(config_json) {
        if auth_source(config_json) == Some("env"@) {
            "configured (env)"@
        } else {
            "configured"@
        }
    } else {
        "not configured"@
    }
}

/// A provider as listings show it.
pub open spec fn provider_info_of(state: ProviderStateView, name: Seq<char>) -> ProviderInfoView {
    let config_json = config_of(state.configs, name);
    ProviderInfoView {
        name,
        enabled: true,
        is_active: state.active_provider == Some(name),
        has_auth: has_auth(config_json),
        config_summary: config_summary_of(config_json),
    }
}

/// The first position at or after `from` whose name does not come before `name`.
pub open spec fn name_slot(names: Seq<Seq<char>>, name: Seq<char>, from: int) -> int
    decreases names.len() - from,
{
    if from < 0 || from >= names.len() {
        names.len() as int
    } else if crate::text::lex_less(names[from], name, 0) {
        name_slot(names, name, from + 1)
    } else {
        from
    }
}

/// The names with `name` put in its place in dictionary order, unless it is
/// there already.
pub open spec fn with_name(names: Seq<Seq<char>>, name: Seq<char>) -> Seq<Seq<char>> {
    let p = name_slot(names, name, 0);
    if p < names.len() && names[p] == name {
        names
    } else {
        names.insert(p, name)
    }
}

/// The names with those of the first `upto` settings put in.
pub open spec fn with_config_names(names: Seq<Seq<char>>, configs: Seq<ProviderSettingView>, upto: int) -> Seq<
    Seq<char>,
>
    decreases upto,
{
    if upto <= 0 {
        names
    } else {
        with_name(with_config_names(names, configs, upto - 1), configs[upto - 1].provider_name)
    }
}

/// The names of the built-in providers, in dictionary order.
pub open spec fn builtin_names() -> Seq<Seq<char>> {
    with_name(
        with_name(with_name(with_name(Seq::empty(), "openai"@), "openai-stub"@), "anthropic-stub"@),
        "gemini-stub"@,
    )
}

/// The names a provider listing shows: the built-in providers, every
/// provider with stored settings and the active provider, each once, in
/// dictionary order.
pub open spec fn provider_names(state: ProviderStateView) -> Seq<Seq<char>> {
    let named = with_config_names(builtin_names(), state.configs, state.configs.len() as int);
    match state.active_provider {
        Some(active) => with_name(named, active),
        None => named,
    }
}

/// Whether the names stand in dictionary order, each before the next: a
/// list in this order holds no name twice.
pub open spec fn ascending(names: Seq<Seq<char>>) -> bool {
    forall|i: int, j: int|
        0 <= i < j < names.len() ==> crate::text::lex_less(#[trigger] names[i], #[trigger] names[j], 0)
}

/// The slot found for a name stands behind every name that comes before
/// it, and at a name that does not.
pub proof fn lemma_name_slot(names: Seq<Seq<char>>, name: Seq<char>, from: int)
    requires
        0 <= from <= names.len(),
    ensures
        from <= name_slot(names, name, from) <= names.len(),
        forall|k: int|
            from <= k < name_slot(names, name, from) ==> crate::text::lex_less(
                #[trigger] names[k],
                name,
                0,
            ),
        name_slot(names, name, from) < names.len() ==> !crate::text::lex_less(
            names[name_slot(names, name, from)],
            name,
            0,
        ),
    decreases names.len() - from,
{
    if from < names.len() && crate::text::lex_less(names[from], name, 0) {
        lemma_name_slot(names, name, from + 1);
    }
}

/// Putting a name in its place keeps the names in dictionary order, each
/// once.
pub proof fn lemma_with_name_is_ascending(names: Seq<Seq<char>>, name: Seq<char>)
    requires
        ascending(names),
    ensures
        ascending(with_name(names, name)),
{
    let p = name_slot(names, name, 0);
    lemma_name_slot(names, name, 0);
    let after = with_name(names, name);
    if !(p < names.len() && names[p] == name) {
        assert forall|i: int, j: int| 0 <= i < j < after.len() implies crate::text::lex_less(
            #[trigger] after[i],
            #[trigger] after[j],
            0,
        ) by {
            if j < p {
                assert(after[i] == names[i] && after[j] == names[j]);
            } else if j == p {
                assert(after[i] == names[i] && after[j] == name);
            } else if i < p {
                assert(after[i] == names[i] && after[j] == names[j - 1]);
            } else if i == p {
                assert(after[i] == name && after[j] == names[j - 1]);
                crate::text::lemma_lex_less_decides(names[p], name, 0);
                if j - 1 > p {
                    assert(crate::text::lex_less(names[p], names[j - 1], 0));
                    crate::text::lemma_lex_less_chains(name, names[p], names[j - 1], 0);
                }
            } else {
                assert(after[i] == names[i - 1] && after[j] == names[j - 1]);
            }
        }
    }
}

/// The names of the stored settings, put in one by one, keep the order.
pub proof fn lemma_config_names_are_ascending(
    names: Seq<Seq<char>>,
    configs: Seq<ProviderSettingView>,
    upto: int,
)
    requires
        ascending(names),
    ensures
        ascending(with_config_names(names, configs, upto)),
    decreases upto,
{
    if upto > 0 {
        lemma_config_names_are_ascending(names, configs, upto - 1);
        lemma_with_name_is_ascending(
            with_config_names(names, configs, upto - 1),
            configs[upto - 1].provider_name,
        );
    }
}

/// A provider listing names its providers in dictionary order, each once,
/// whatever the stored settings and the active provider are.
pub proof fn lemma_provider_names_are_ascending(state: ProviderStateView)
    ensures
        ascending(provider_names(state)),
{
    let none = Seq::<Seq<char>>::empty();
    lemma_with_name_is_ascending(none, "openai"@);
    lemma_with_name_is_ascending(with_name(none, "openai"@), "openai-stub"@);
    lemma_with_name_is_ascending(
        with_name(with_name(none, "openai"@), "openai-stub"@),
        "anthropic-stub"@,
    );
    lemma_with_name_is_ascending(
        with_name(with_name(with_name(none, "openai"@), "openai-stub"@), "anthropic-stub"@),
        "gemini-stub"@,
    );
    lemma_config_names_are_ascending(builtin_names(), state.configs, state.configs.len() as int);
    let named = with_config_names(builtin_names(), state.configs, state.configs.len() as int);
    match state.active_provider {
        Some(active) => {
            lemma_with_name_is_ascending(named, active);
        },
        None => {},
    }
}

/// The provider listing.
pub open spec fn provider_listing(state: ProviderStateView) -> Seq<ProviderInfoView> {
    let names = provider_names(state);
    Seq::new(names.len(), |i: int| provider_info_of(state, names[i]))
}

/// The first position at or after `from` that holds a provider named `name`.
pub open spec fn info_position(infos: Seq<ProviderInfoView>, name: Seq<char>, from: int) -> Option<int>
    decreases infos.len() - from,
{
    if from < 0 || from >= infos.len() {
        None
    } else if infos[from].name == name {
        Some(from)
    } else {
        info_position(infos, name, from + 1)
    }
}

/// Puts `name` in its place in dictionary order, unless it is there already.
fn insert_name(names: &mut Vec<String>, name: &str)
    ensures
        texts(final(names)@) == with_name(texts(old(names)@), name@),
{
    let wanted = chars_of(name);
    let mut p: usize = 0;
    while p < names.len() && crate::text::text_less(&chars_of(names[p].as_str()), &wanted)
        invariant
            p <= names.len(),
            wanted@ == name@,
            name_slot(texts(names@), name@, 0) == name_slot(texts(names@), name@, p as int),
        decreases names.len() - p,
    {
        p = p + 1;
    }
    if p < names.len() && same_text(names[p].as_str(), name) {
        return ;
    }
    names.insert(p, name.to_string());
}

/// Whether the member `key` of a document is a string that is not blank.
pub fn member_names_something(doc: &Json, key: &str) -> (r: bool)
    ensures
        r == names_something(doc@, key@),
{
    match doc.text_at(key) {
        Some(s) => !str_is_blank(s.as_str()),
        None => false,
    }
}

/// Whether a settings document carries a credential, inline or by
/// reference.
pub fn settings_have_auth(doc: &Json) -> (r: bool)
    ensures
        r == (doc_has_inline_auth(doc@) || doc_has_env_auth(doc@)),
{
    member_names_something(doc, "api_key") || member_names_something(doc, "token")
        || member_names_something(doc, "api_key_env") || member_names_something(doc, "token_env")
}

/// Where a settings document takes its credential from.
pub fn settings_auth_source(doc: &Json) -> (out: Option<String>)
    ensures
        opt_text(out) == doc_auth_source(doc@),
{
    if member_names_something(doc, "api_key_env") || member_names_something(doc, "token_env") {
        Some("env".to_string())
    } else if member_names_something(doc, "api_key") || member_names_something(doc, "token") {
        Some("inline".to_string())
    } else {
        None
    }
}

/// The environment variable that a settings document refers to.
pub fn settings_env_ref(doc: &Json) -> (out: Option<String>)
    ensures
        opt_text(out) == doc_env_ref(doc@),
{
    if member_names_something(doc, "api_key_env") {
        match doc.text_at("api_key_env") {
            Some(s) => Some(s.clone()),
            None => None,
        }
    } else if member_names_something(doc, "token_env") {
        match doc.text_at("token_env") {
            Some(s) => Some(s.clone()),
            None => None,
        }
    } else {
        None
    }
}

/// Whether provider settings carry a credential, inline or by reference.
pub fn provider_config_has_auth(provider_name: &str, config_json: &str) -> (r: bool)
    ensures
        r == has_auth(config_json@),
{
    match parse_json(config_json) {
        Some(doc) => settings_have_auth(&doc),
        None => false,
    }
}

/// Where provider settings take their credential from.
pub fn provider_config_auth_source(config_json: &str) -> (out: Option<String>)
    ensures
        opt_text(out) == auth_source(config_json@),
{
    match parse_json(config_json) {
        Some(doc) => settings_auth_source(&doc),
        None => None,
    }
}

/// The environment variable that provider settings refer to.
pub fn provider_config_env_ref(config_json: &str) -> (out: Option<String>)
    ensures
        opt_text(out) == env_ref(config_json@),
{
    match parse_json(config_json) {
        Some(doc) => settings_env_ref(&doc),
        None => None,
    }
}

/// A settings document as shown to a caller, inline secrets masked.
pub fn mask_settings(doc: Json) -> (out: Json)
    ensures
        out@ == masked_doc(doc@),
{
    match doc {
        Json::Object(members) => {
            proof {
                lemma_object_view(members);
            }
            let mut out: Vec<(String, Json)> = Vec::new();
            let mut members = members;
            let ghost before = member_views(members@);
            while members.len() > 0
                invariant
                    before.len() == out@.len() + members@.len(),
                    forall|k: int| 0 <= k < out@.len() ==> (out@[k].0@, out@[k].1@) == masked_members(before)[k],
                    forall|k: int|
                        0 <= k < members@.len() ==> (#[trigger] members@[k]).0@ == before[out@.len()
                            + k].0 && members@[k].1@ == before[out@.len() + k].1,
                decreases members.len(),
            {
                let (key, value) = members.remove(0);
                let secret = same_text(key.as_str(), "api_key") || same_text(key.as_str(), "token")
                    || same_text(key.as_str(), "password") || same_text(key.as_str(), "secret");
                let shown = if secret {
                    Json::Text("[REDACTED]".to_string())
                } else {
                    value
                };
                out.push((key, shown));
            }
            proof {
                lemma_object_view(out);
                assert(member_views(out@) =~= masked_members(before));
            }
            Json::Object(out)
        },
        other => other,
    }
}

/// Provider settings as shown to a caller, inline secrets masked.
pub fn redact_provider_config_json(config_json: &str) -> (out: String)
    ensures
        out@ == masked_config(config_json@),
{
    match parse_json(config_json) {
        Some(Json::Object(members)) => {
            let doc = Json::Object(members);
            proof {
                lemma_object_view(members);
            }
            render_json(&mask_settings(doc))
        },
        _ => config_json.to_string(),
    }
}

/// The settings stored for `name`.
fn stored_config<'a>(configs: &'a Vec<ProviderSetting>, name: &str) -> (out: Option<usize>)
    ensures
        match out {
            Some(i) => config_position(views(configs@), name@, 0) == Some(i as int) && i
                < configs.len(),
            None => config_position(views(configs@), name@, 0) is None,
        },
{
    let mut i: usize = 0;
    while i < configs.len()
        invariant
            i <= configs.len(),
            config_position(views(configs@), name@, 0) == config_position(
                views(configs@),
                name@,
                i as int,
            ),
        decreases configs.len() - i,
    {
        if same_text(configs[i].provider_name.as_str(), name) {
            return Some(i);
        }
        i = i + 1;
    }
    None
}

/// Finds the listing entry of the provider `name`.
fn find_info(infos: &Vec<ProviderInfo>, name: &str) -> (out: Option<usize>)
    ensures
        match out {
            Some(i) => info_position(views(infos@), name@, 0) == Some(i as int) && i < infos.len(),
            None => info_position(views(infos@), name@, 0) is None,
        },
{
    let mut i: usize = 0;
    while i < infos.len()
        invariant
            i <= infos.len(),
            info_position(views(infos@), name@, 0) == info_position(views(infos@), name@, i as int),
        decreases infos.len() - i,
    {
        if same_text(infos[i].name.as_str(), name) {
            return Some(i);
        }
        i = i + 1;
    }
    None
}

/// A provider as listings show it.
fn provider_info_for(state: &ProviderState, name: &str) -> (out: ProviderInfo)
    ensures
        out@ == provider_info_of(state@, name@),
{
    let config_json = match stored_config(&state.configs, name) {
        Some(i) => {
            state.configs[i].config_json.clone()
        },
        None => "{}".to_string(),
    };
    let has_auth = provider_config_has_auth(name, config_json.as_str());
    let source = provider_config_auth_source(config_json.as_str());
    let is_active = match &state.active_provider {
        Some(a) => same_text(a.as_str(), name),
        None => false,
    };
    let from_env = match &source {
        Some(s) => same_text(s.as_str(), "env"),
        None => false,
    };
    let config_summary = if has_auth {
        if from_env {
            "configured (env)".to_string()
        } else {
            "configured".to_string()
        }
    } else {
        "not configured".to_string()
    };
    ProviderInfo { name: name.to_string(), enabled: true, is_active, has_auth, config_summary }
}

/// The provider listing.
fn list_providers(state: &ProviderState) -> (out: Vec<ProviderInfo>)
    ensures
        views(out@) == provider_listing(state@),
{
    let mut names: Vec<String> = Vec::new();
    assert(texts(names@) =~= Seq::<Seq<char>>::empty());
    insert_name(&mut names, "openai");
    insert_name(&mut names, "openai-stub");
    insert_name(&mut names, "anthropic-stub");
    insert_name(&mut names, "gemini-stub");
    let mut i: usize = 0;
    while i < state.configs.len()
        invariant
            i <= state.configs.len(),
            texts(names@) == with_config_names(builtin_names(), views(state.configs@), i as int),
        decreases state.configs.len() - i,
    {
        insert_name(&mut names, state.configs[i].provider_name.as_str());
        i = i + 1;
    }
    match &state.active_provider {
        Some(a) => {
            insert_name(&mut names, a.as_str());
        },
        None => {},
    }
    let mut out: Vec<ProviderInfo> = Vec::new();
    let mut k: usize = 0;
    while k < names.len()
        invariant
            k <= names.len(),
            out@.len() == k,
            forall|j: int| 0 <= j < k ==> out@[j]@ == provider_info_of(state@, names@[j]@),
        decreases names.len() - k,
    {
        out.push(provider_info_for(state, names[k].as_str()));
        k = k + 1;
    }
    out
}

impl AgentService {
    /// Lists the built-in providers, every provider with stored settings
    /// and the active provider, in dictionary order.
    pub fn providers_list(&self) -> (out: Vec<ProviderInfo>)
        ensures
            views(out@) == provider_listing(self@.store.providers),
    {
        list_providers(&self.store.providers)
    }

    /// Makes `provider_name` the active provider and returns its listing entry.
    pub fn providers_set(&mut self, params: ProvidersSetRequest) -> (out: Result<ProviderInfo, String>)
        ensures
            well_formed(old(self)@) ==> well_formed(final(self)@),
            final(self)@ == (ServiceView {
                store: StoreView {
                    providers: ProviderStateView {
                        active_provider: Some(params.provider_name@),
                        ..old(self)@.store.providers
                    },
                    ..old(self)@.store
                },
                ..old(self)@
            }),
            match info_position(provider_listing(final(self)@.store.providers), params.provider_name@, 0) {
                Some(i) => out is Ok && out->Ok_0@ == provider_listing(
                    final(self)@.store.providers,
                )[i],
                None => out is Err && out->Err_0@ == "provider not found"@,
            },
    {
        self.store.providers.active_provider = Some(params.provider_name.clone());
        let infos = list_providers(&self.store.providers);
        match find_info(&infos, params.provider_name.as_str()) {
            Some(i) => {
                let info = infos[i].clone();
                Ok(info)
            },
            None => Err("provider not found".to_string()),
        }
    }

    /// The settings of the provider asked for, of the active provider
    /// where none is named, or of `openai-stub` where none is active either;
    /// inline secrets are masked.
    pub fn providers_config_get(&self, params: ProviderConfigGetRequest) -> (out: ProviderConfigRecord)
        ensures
            out@ == config_record_of(self@.store.providers, opt_text(params.provider_name)),
    {
        let state = &self.store.providers;
        let provider_name = match params.provider_name {
            Some(n) => n,
            None => match &state.active_provider {
                Some(a) => a.clone(),
                None => "openai-stub".to_string(),
            },
        };
        let is_active = match &state.active_provider {
            Some(a) => same_text(a.as_str(), provider_name.as_str()),
            None => false,
        };
        let stored = match stored_config(&state.configs, provider_name.as_str()) {
            Some(i) => {
                state.configs[i].config_json.clone()
            },
            None => "{}".to_string(),
        };
        ProviderConfigRecord {
            provider_name,
            is_active,
            config_json: redact_provider_config_json(stored.as_str()),
        }
    }

    /// Stores settings for a provider exactly as given, and makes the
    /// provider active where none is.
    pub fn providers_config_set(&mut self, params: ProviderConfigSetRequest) -> (out:
        ProviderConfigSetResponse)
        ensures
            well_formed(old(self)@) ==> well_formed(final(self)@),
            distinct_names(old(self)@.store.providers.configs) ==> distinct_names(
                final(self)@.store.providers.configs,
            ),
            final(self)@ == (ServiceView {
                store: StoreView {
                    providers: configured(
                        old(self)@.store.providers,
                        params.provider_name@,
                        params.config_json@,
                    ),
                    ..old(self)@.store
                },
                ..old(self)@
            }),
            out@ == (ProviderConfigSetResponseView {
                provider_name: params.provider_name@,
                has_auth: has_auth(params.config_json@),
            }),
    {
        let setting = ProviderSetting {
            provider_name: params.provider_name.clone(),
            config_json: params.config_json.clone(),
        };
        match stored_config(&self.store.providers.configs, params.provider_name.as_str()) {
            Some(i) => {
                let ghost before = views(self.store.providers.configs@);
                self.store.providers.configs.remove(i);
                self.store.providers.configs.insert(i, setting);
                assert(views(self.store.providers.configs@) =~= before.update(i as int, setting@));
            },
            None => {
                proof {
                    lemma_views_push(self.store.providers.configs@, setting);
                }
                self.store.providers.configs.push(setting);
            },
        }
        if self.store.providers.active_provider.is_none() {
            self.store.providers.active_provider = Some(params.provider_name.clone());
        }
        proof {
            if distinct_names(old(self)@.store.providers.configs) {
                lemma_stored_names_stay_distinct(
                    old(self)@.store.providers.configs,
                    params.provider_name@,
                    params.config_json@,
                );
            }
        }
        ProviderConfigSetResponse {
            has_auth: provider_config_has_auth(
                params.provider_name.as_str(),
                params.config_json.as_str(),
            ),
            provider_name: params.provider_name,
        }
    }
}

/// The provider state after settings are stored for `name`.
pub open spec fn configured(state: ProviderStateView, name: Seq<char>, config_json: Seq<char>) -> ProviderStateView {
    ProviderStateView {
        active_provider: match state.active_provider {
            Some(a) => Some(a),
            None => Some(name),
        },
        configs: with_config(state.configs, name, config_json),
    }
}

/// The settings record shown for the provider asked for.
pub open spec fn config_record_of(state: ProviderStateView, asked: Option<Seq<char>>) -> ProviderConfigRecordView {
    let name = match asked {
        Some(n) => n,
        None => match state.active_provider {
            Some(a) => a,
            None => "openai-stub"@,
        },
    };
    ProviderConfigRecordView {
        provider_name: name,
        is_active: state.active_provider == Some(name),
        config_json: masked_config(config_of(state.configs, name)),
    }
}

/// The position found is the first setting of the provider; `None` means that
/// it has none.
pub proof fn lemma_config_position(configs: Seq<ProviderSettingView>, name: Seq<char>, from: int)
    requires
        0 <= from,
    ensures
        match config_position(configs, name, from) {
            Some(i) => from <= i < configs.len() && configs[i].provider_name == name && forall|k: int|
                from <= k < i ==> configs[k].provider_name != name,
            None => forall|k: int| from <= k < configs.len() ==> configs[k].provider_name != name,
        },
    decreases configs.len() - from,
{
    if from < configs.len() && configs[from].provider_name != name {
        lemma_config_position(configs, name, from + 1);
    }
}

/// Storing settings keeps each provider name once: the settings of a name
/// that is stored already are replaced where they stand, and a new name is
/// added at the end.
pub proof fn lemma_stored_names_stay_distinct(
    configs: Seq<ProviderSettingView>,
    name: Seq<char>,
    config_json: Seq<char>,
)
    requires
        distinct_names(configs),
    ensures
        distinct_names(with_config(configs, name, config_json)),
{
    lemma_config_position(configs, name, 0);
    let after = with_config(configs, name, config_json);
    assert forall|i: int, j: int| 0 <= i < j < after.len() implies (#[trigger] after[i]).provider_name
        != (#[trigger] after[j]).provider_name by {
        match config_position(configs, name, 0) {
            Some(p) => {
                assert(after[i].provider_name == configs[i].provider_name);
                assert(after[j].provider_name == configs[j].provider_name);
            },
            None => {
                if j < configs.len() {
                    assert(after[i] == configs[i] && after[j] == configs[j]);
                } else {
                    assert(after[i] == configs[i]);
                }
            },
        }
    }
}

/// Settings come back as stored. After settings are stored for a
/// provider, asking for that provider's settings shows exactly what was
/// stored, with inline secrets masked and every other member kept.
pub proof fn lemma_config_round_trip(state: ProviderStateView, name: Seq<char>, config_json: Seq<char>)
    ensures
        config_record_of(configured(state, name, config_json), Some(name)).config_json
            == masked_config(config_json),
        config_record_of(configured(state, name, config_json), Some(name)).provider_name == name,
{
    lemma_config_position(state.configs, name, 0);
    let after = with_config(state.configs, name, config_json);
    lemma_config_position(after, name, 0);
    match config_position(state.configs, name, 0) {
        Some(i) => {
            assert(after[i].provider_name == name);
        },
        None => {
            let n = state.configs.len() as int;
            assert(after[n].provider_name == name);
        },
    }
}

// ---------------------------------------------------------------------------
// MCP servers
// ---------------------------------------------------------------------------

/// The first position at or after `from` that holds the server `id`.
pub open spec fn server_position(servers: Seq<McpServerRecordView>, id: Seq<char>, from: int) -> Option<int>
    decreases servers.len() - from,
{
    if from < 0 || from >= servers.len() {
        None
    } else if servers[from].id == id {
        Some(from)
    } else {
        server_position(servers, id, from + 1)
    }
}

/// Whether `id` is among the first `upto` of `ids`.
pub open spec fn names_id(ids: Seq<Seq<char>>, id: Seq<char>, upto: int) -> bool
    decreases upto,
{
    if upto <= 0 {
        false
    } else {
        ids[upto - 1] == id || names_id(ids, id, upto - 1)
    }
}

/// The servers once the children named in `exited` are known to have
/// exited: each of them that was marked `running` is marked `stopped`.
pub open spec fn refreshed(servers: Seq<McpServerRecordView>, exited: Seq<Seq<char>>) -> Seq<McpServerRecordView> {
    Seq::new(
        servers.len(),
        |i: int|
            if names_id(exited, servers[i].id, exited.len() as int) && servers[i].status
                == "running"@ {
                McpServerRecordView { status: "stopped"@, ..servers[i] }
            } else {
                servers[i]
            },
    )
}

/// The servers with the status of the first server named `id` replaced.
pub open spec fn with_server_status(
    servers: Seq<McpServerRecordView>,
    id: Seq<char>,
    status: Seq<char>,
) -> Seq<McpServerRecordView> {
    match server_position(servers, id, 0) {
        Some(i) => servers.update(i, McpServerRecordView { status, ..servers[i] }),
        None => servers,
    }
}

/// The servers among the first `upto` that are not named `id`.
pub open spec fn servers_without(servers: Seq<McpServerRecordView>, id: Seq<char>, upto: int) -> Seq<
    McpServerRecordView,
>
    decreases upto,
{
    if upto <= 0 {
        Seq::empty()
    } else if servers[upto - 1].id == id {
        servers_without(servers, id, upto - 1)
    } else {
        servers_without(servers, id, upto - 1).push(servers[upto - 1])
    }
}

/// The last server named `id` among the first `upto`.
pub open spec fn last_server(servers: Seq<McpServerRecordView>, id: Seq<char>, upto: int) -> Option<
    McpServerRecordView,
>
    decreases upto,
{
    if upto <= 0 {
        None
    } else if servers[upto - 1].id == id {
        Some(servers[upto - 1])
    } else {
        last_server(servers, id, upto - 1)
    }
}

/// How many of the first `upto` servers are marked `running`.
pub open spec fn running_count(servers: Seq<McpServerRecordView>, upto: int) -> nat
    decreases upto,
{
    if upto <= 0 {
        0
    } else {
        running_count(servers, upto - 1) + (if servers[upto - 1].status == "running"@ {
            1nat
        } else {
            0nat
        })
    }
}

/// Whether `id` is among `ids`.
fn id_listed(ids: &Vec<String>, id: &str) -> (r: bool)
    ensures
        r == names_id(texts(ids@), id@, ids.len() as int),
{
    let mut i: usize = 0;
    let mut found = false;
    while i < ids.len()
        invariant
            i <= ids.len(),
            found == names_id(texts(ids@), id@, i as int),
        decreases ids.len() - i,
    {
        if same_text(ids[i].as_str(), id) {
            found = true;
        }
        i = i + 1;
    }
    found
}

/// Finds the server `id`.
fn find_server(servers: &Vec<McpServerRecord>, id: &str) -> (out: Option<usize>)
    ensures
        match out {
            Some(i) => server_position(views(servers@), id@, 0) == Some(i as int) && i
                < servers.len(),
            None => server_position(views(servers@), id@, 0) is None,
        },
{
    let mut i: usize = 0;
    while i < servers.len()
        invariant
            i <= servers.len(),
            server_position(views(servers@), id@, 0) == server_position(views(servers@), id@, i as int),
        decreases servers.len() - i,
    {
        if same_text(servers[i].id.as_str(), id) {
            return Some(i);
        }
        i = i + 1;
    }
    None
}

/// Marks as `stopped` every server that is marked `running` and whose
/// child is known to have exited.
pub fn refresh_mcp_runtime_statuses(servers: &mut Vec<McpServerRecord>, exited_ids: &Vec<String>)
    ensures
        views(final(servers)@) == refreshed(views(old(servers)@), texts(exited_ids@)),
{
    let mut i: usize = 0;
    while i < servers.len()
        invariant
            i <= servers.len(),
            servers.len() == old(servers).len(),
            forall|k: int|
                0 <= k < i ==> servers@[k]@ == refreshed(views(old(servers)@), texts(exited_ids@))[k],
            forall|k: int| i <= k < servers.len() ==> servers@[k]@ == old(servers)@[k]@,
        decreases servers.len() - i,
    {
        if id_listed(exited_ids, servers[i].id.as_str()) && same_text(
            servers[i].status.as_str(),
            "running",
        ) {
            let mut record = servers.remove(i);
            record.status = "stopped".to_string();
            servers.insert(i, record);
        }
        i = i + 1;
    }
}

impl AgentService {
    /// Lists the registered servers. `exited_ids` names the servers whose
    /// child the host has observed to have exited since the last call; none
    /// of them is listed as `running`.
    pub fn mcp_servers_list(&mut self, exited_ids: &Vec<String>) -> (out: Vec<McpServerRecord>)
        ensures
            well_formed(old(self)@) ==> well_formed(final(self)@),
            final(self)@ == (ServiceView {
                store: StoreView {
                    mcp_servers: refreshed(old(self)@.store.mcp_servers, texts(exited_ids@)),
                    ..old(self)@.store
                },
                ..old(self)@
            }),
            views(out@) == final(self)@.store.mcp_servers,
    {
        refresh_mcp_runtime_statuses(&mut self.store.mcp_servers, exited_ids);
        clone_views(&self.store.mcp_servers)
    }

    /// Registers a server; it starts out `stopped`.
    pub fn mcp_servers_add(&mut self, params: McpServerAddRequest) -> (out: McpServerMutationResponse)
        requires
            old(self).mcp_counter < u64::MAX,
        ensures
            well_formed(old(self)@) ==> well_formed(final(self)@),
            out.ok,
            out@.server == Some(
                McpServerRecordView {
                    id: numbered_id("mcp-"@, (old(self).mcp_counter + 1) as nat),
                    name: params.name@,
                    command: params.command@,
                    args: texts(params.args@),
                    status: "stopped"@,
                },
            ),
            final(self)@ == (ServiceView {
                mcp_counter: (old(self).mcp_counter + 1) as u64,
                store: StoreView {
                    mcp_servers: old(self)@.store.mcp_servers.push(out@.server->Some_0),
                    ..old(self)@.store
                },
                ..old(self)@
            }),
    {
        let record = McpServerRecord {
            id: self.next_mcp_id(),
            name: params.name,
            command: params.command,
            args: params.args,
            status: "stopped".to_string(),
        };
        let copy = record.clone();
        proof {
            lemma_views_push(self.store.mcp_servers@, copy);
        }
        self.store.mcp_servers.push(copy);
        McpServerMutationResponse { ok: true, server: Some(record) }
    }

    /// Removes every server named `server_id` and returns the last of them.
    pub fn mcp_servers_remove(&mut self, params: crate::ipc::McpServerRemoveRequest) -> (out:
        McpServerMutationResponse)
        ensures
            well_formed(old(self)@) ==> well_formed(final(self)@),
            final(self)@ == (ServiceView {
                store: StoreView {
                    mcp_servers: servers_without(
                        old(self)@.store.mcp_servers,
                        params.server_id@,
                        old(self)@.store.mcp_servers.len() as int,
                    ),
                    ..old(self)@.store
                },
                ..old(self)@
            }),
            out@.server == last_server(
                old(self)@.store.mcp_servers,
                params.server_id@,
                old(self)@.store.mcp_servers.len() as int,
            ),
            out.ok == (out@.server is Some),
    {
        let mut kept: Vec<McpServerRecord> = Vec::new();
        let mut removed: Option<McpServerRecord> = None;
        let mut i: usize = 0;
        while i < self.store.mcp_servers.len()
            invariant
                i <= self.store.mcp_servers.len(),
                *self == *old(self),
                views(kept@) == servers_without(self@.store.mcp_servers, params.server_id@, i as int),
                opt_view(removed) == last_server(self@.store.mcp_servers, params.server_id@, i as int),
            decreases self.store.mcp_servers.len() - i,
        {
            let s = self.store.mcp_servers[i].clone();
            if same_text(s.id.as_str(), params.server_id.as_str()) {
                removed = Some(s);
            } else {
                kept.push(s);
            }
            i = i + 1;
        }
        self.store.mcp_servers = kept;
        McpServerMutationResponse { ok: removed.is_some(), server: removed }
    }

    /// The first registered server named `server_id`; fails with
    /// `mcp server not found` where there is none.
    pub fn mcp_server_named(&self, server_id: &str) -> (out: Result<McpServerRecord, String>)
        ensures
            match server_position(self@.store.mcp_servers, server_id@, 0) {
                Some(i) => out is Ok && out->Ok_0@ == self@.store.mcp_servers[i],
                None => out is Err && out->Err_0@ == "mcp server not found"@,
            },
    {
        match find_server(&self.store.mcp_servers, server_id) {
            Some(i) => {
                let s = self.store.mcp_servers[i].clone();
                Ok(s)
            },
            None => Err("mcp server not found".to_string()),
        }
    }

    /// Records what came of starting the process of the server
    /// `server_id`: where it runs, the server is marked `running`; where it
    /// could not be started, nothing changes and the failure is handed on.
    pub fn mcp_server_started(&mut self, server_id: &str, spawned: Result<(), String>) -> (out: Result<
        McpServerMutationResponse,
        String,
    >)
        ensures
            well_formed(old(self)@) ==> well_formed(final(self)@),
            match spawned {
                Ok(_) => {
                    &&& out is Ok
                    &&& final(self)@.store.mcp_servers == with_server_status(
                        old(self)@.store.mcp_servers,
                        server_id@,
                        "running"@,
                    )
                    &&& out->Ok_0.ok == (server_position(old(self)@.store.mcp_servers, server_id@, 0) is Some)
                },
                Err(failure) => out == Err::<McpServerMutationResponse, String>(failure) && final(self)@
                    == old(self)@,
            },
    {
        match spawned {
            Ok(_) => Ok(self.set_mcp_server_status(server_id, "running")),
            Err(failure) => Err(failure),
        }
    }

    /// Records what came of stopping the process of the server
    /// `server_id`: where it is stopped, the server is marked `stopped`;
    /// where stopping failed, nothing changes and the failure is handed on.
    pub fn mcp_server_stopped(&mut self, server_id: &str, stopped: Result<(), String>) -> (out: Result<
        McpServerMutationResponse,
        String,
    >)
        ensures
            well_formed(old(self)@) ==> well_formed(final(self)@),
            match stopped {
                Ok(_) => {
                    &&& out is Ok
                    &&& final(self)@.store.mcp_servers == with_server_status(
                        old(self)@.store.mcp_servers,
                        server_id@,
                        "stopped"@,
                    )
                    &&& out->Ok_0.ok == (server_position(old(self)@.store.mcp_servers, server_id@, 0) is Some)
                },
                Err(failure) => out == Err::<McpServerMutationResponse, String>(failure) && final(self)@
                    == old(self)@,
            },
    {
        match stopped {
            Ok(_) => Ok(self.set_mcp_server_status(server_id, "stopped")),
            Err(failure) => Err(failure),
        }
    }

    /// Sets the status of the first server named `server_id` and returns
    /// the record; where there is none, nothing changes and the response
    /// says so.
    pub fn set_mcp_server_status(&mut self, server_id: &str, status: &str) -> (out:
        McpServerMutationResponse)
        ensures
            well_formed(old(self)@) ==> well_formed(final(self)@),
            final(self)@ == (ServiceView {
                store: StoreView {
                    mcp_servers: with_server_status(
                        old(self)@.store.mcp_servers,
                        server_id@,
                        status@,
                    ),
                    ..old(self)@.store
                },
                ..old(self)@
            }),
            match server_position(old(self)@.store.mcp_servers, server_id@, 0) {
                Some(i) => out.ok && out@.server == Some(final(self)@.store.mcp_servers[i]),
                None => !out.ok && out@.server is None,
            },
    {
        match find_server(&self.store.mcp_servers, server_id) {
            Some(i) => {
                let ghost before = views(self.store.mcp_servers@);
                let mut record = self.store.mcp_servers.remove(i);
                record.status = status.to_string();
                let copy = record.clone();
                self.store.mcp_servers.insert(i, record);
                assert(views(self.store.mcp_servers@) =~= before.update(
                    i as int,
                    McpServerRecordView { status: status@, ..before[i as int] },
                ));
                McpServerMutationResponse { ok: true, server: Some(copy) }
            },
            None => McpServerMutationResponse { ok: false, server: None },
        }
    }
}

/// After a start, no server is left marked `running`.
pub proof fn lemma_startup_leaves_none_running(platform: Seq<char>, store: StoreView)
    ensures
        forall|i: int|
            0 <= i < started(platform, store).store.mcp_servers.len() ==> (#[trigger] started(
                platform,
                store,
            ).store.mcp_servers[i]).status != "running"@,
{
    reveal_strlit("running");
    reveal_strlit("stopped");
    assert("running"@ != "stopped"@) by {
        assert("running"@[0] == 'r');
    }
}

/// Once a tracked child is reported as exited, its server is not listed as
/// `running`.
pub proof fn lemma_exited_servers_are_not_running(
    servers: Seq<McpServerRecordView>,
    exited: Seq<Seq<char>>,
    i: int,
)
    requires
        0 <= i < servers.len(),
        names_id(exited, servers[i].id, exited.len() as int),
    ensures
        refreshed(servers, exited)[i].status != "running"@,
        refreshed(servers, exited)[i].id == servers[i].id,
{
    reveal_strlit("running");
    reveal_strlit("stopped");
    assert("running"@ != "stopped"@) by {
        assert("running"@[0] == 'r');
    }
}

// ---------------------------------------------------------------------------
// Project
// ---------------------------------------------------------------------------

/// What a host observed at a path.
#[derive(Clone, Copy, Debug, PartialEq, Eq)]
pub struct PathProbe {
    pub exists: bool,
    pub is_dir: bool,
    pub entry_count: usize,
}

/// The path a status request looks at: the one asked for, else the open
/// project, else the working directory.
pub open spec fn status_path_of(project: ProjectStateView, asked: Option<Seq<char>>) -> Seq<char> {
    match asked {
        Some(p) => p,
        None => match project.open_path {
            Some(p) => p,
            None => "."@,
        },
    }
}

impl AgentService {
    /// Opens `path` as the project root where the host found a directory
    /// there; otherwise only reports what was found.
    pub fn project_open(&mut self, params: ProjectOpenRequest, probe: PathProbe) -> (out:
        ProjectOpenResponse)
        ensures
            well_formed(old(self)@) ==> well_formed(final(self)@),
            out@ == (ProjectOpenResponseView {
                path: params.path@,
                exists: probe.exists,
                is_dir: probe.is_dir,
            }),
            final(self)@ == (if probe.exists && probe.is_dir {
                ServiceView {
                    store: StoreView {
                        project: ProjectStateView { open_path: Some(params.path@) },
                        ..old(self)@.store
                    },
                    ..old(self)@
                }
            } else {
                old(self)@
            }),
    {
        let response = ProjectOpenResponse {
            path: params.path.clone(),
            exists: probe.exists,
            is_dir: probe.is_dir,
        };
        if probe.exists && probe.is_dir {
            self.store.project = ProjectState { open_path: Some(params.path) };
        }
        response
    }

    /// The path a status request looks at.
    pub fn project_status_path(&self, params: &ProjectStatusRequest) -> (path: String)
        ensures
            path@ == status_path_of(self@.store.project, opt_text(params.path)),
    {
        match &params.path {
            Some(p) => p.clone(),
            None => match &self.store.project.open_path {
                Some(p) => p.clone(),
                None => ".".to_string(),
            },
        }
    }

    /// Reports what the host found at the path a status request looks at.
    /// Entries are counted for directories only.
    pub fn project_status(&self, params: ProjectStatusRequest, probe: PathProbe) -> (out:
        ProjectStatusResponse)
        ensures
            out@ == (ProjectStatusResponseView {
                path: status_path_of(self@.store.project, opt_text(params.path)),
                exists: probe.exists,
                is_dir: probe.is_dir,
                entry_count: if probe.is_dir {
                    probe.entry_count
                } else {
                    0
                },
            }),
    {
        ProjectStatusResponse {
            path: self.project_status_path(&params),
            exists: probe.exists,
            is_dir: probe.is_dir,
            entry_count: if probe.is_dir {
                probe.entry_count
            } else {
                0
            },
        }
    }
}

// ---------------------------------------------------------------------------
// Health
// ---------------------------------------------------------------------------

/// What a host observed for a health report: the value of the environment
/// variable that the active provider's settings refer to, where it is set,
/// and what is at the open project path.
#[derive(Debug, PartialEq, Eq)]
pub struct HealthProbe {
    pub env_value: Option<String>,
    pub project: PathProbe,
}

/// The warning raised while a server is marked `running`.
pub open spec fn running_warning() -> Seq<char> {
    "MCP servers marked running are in-process only and will stop on service restart"@
}

/// The warnings about the active provider.
pub open spec fn provider_warnings(state: ProviderStateView, env_value: Option<Seq<char>>) -> Seq<Seq<char>> {
    match state.active_provider {
        None => seq!["no active provider selected"@],
        Some(active) => {
            let config_json = config_of(state.configs, active);
            (if has_auth(config_json) {
                Seq::empty()
            } else {
                seq!["active provider '"@ + active + "' has no configured auth"@]
            }) + (match env_ref(config_json) {
                Some(name) => if match env_value {
                    Some(v) => is_blank(v),
                    None => true,
                } {
                    seq!["provider auth env var '"@ + name + "' is not set or empty"@]
                } else {
                    Seq::empty()
                },
                None => Seq::empty(),
            })
        },
    }
}

/// The warnings about the open project.
pub open spec fn project_warnings(project: ProjectStateView, exists: bool, is_dir: bool) -> Seq<Seq<char>> {
    match project.open_path {
        Some(path) => if !exists {
            seq!["project path does not exist: "@ + path]
        } else if !is_dir {
            seq!["project path is not a directory: "@ + path]
        } else {
            Seq::empty()
        },
        None => Seq::empty(),
    }
}

/// The warnings of a health report, in their fixed order.
pub open spec fn health_warnings(
    providers: ProviderStateView,
    project: ProjectStateView,
    servers: Seq<McpServerRecordView>,
    env_value: Option<Seq<char>>,
    exists: bool,
    is_dir: bool,
) -> Seq<Seq<char>> {
    provider_warnings(providers, env_value) + project_warnings(project, exists, is_dir) + (if running_count(
        servers,
        servers.len() as int,
    ) > 0 {
        seq![running_warning()]
    } else {
        Seq::empty()
    })
}

/// How many servers are marked `running`.
fn count_running(servers: &Vec<McpServerRecord>) -> (n: usize)
    ensures
        n == running_count(views(servers@), servers.len() as int),
{
    let mut n: usize = 0;
    let mut i: usize = 0;
    while i < servers.len()
        invariant
            i <= servers.len(),
            n <= i,
            n == running_count(views(servers@), i as int),
        decreases servers.len() - i,
    {
        if same_text(servers[i].status.as_str(), "running") {
            n = n + 1;
        }
        i = i + 1;
    }
    n
}

/// The warnings of a health report.
pub fn build_system_health_warnings(
    provider_state: &ProviderState,
    project: &ProjectState,
    mcp_servers: &Vec<McpServerRecord>,
    probe: &HealthProbe,
) -> (out: Vec<String>)
    ensures
        texts(out@) == health_warnings(
            provider_state@,
            project@,
            views(mcp_servers@),
            opt_text(probe.env_value),
            probe.project.exists,
            probe.project.is_dir,
        ),
{
    let mut warnings: Vec<String> = Vec::new();
    match &provider_state.active_provider {
        Some(active) => {
            let config_json = match stored_config(&provider_state.configs, active.as_str()) {
                Some(i) => {
                    provider_state.configs[i].config_json.clone()
                },
                None => "{}".to_string(),
            };
            if !provider_config_has_auth(active.as_str(), config_json.as_str()) {
                let w = join3("active provider '", active.as_str(), "' has no configured auth");
                warnings.push(w);
            }
            match provider_config_env_ref(config_json.as_str()) {
                Some(name) => {
                    let missing = match &probe.env_value {
                        Some(v) => str_is_blank(v.as_str()),
                        None => true,
                    };
                    if missing {
                        let w = join3(
                            "provider auth env var '",
                            name.as_str(),
                            "' is not set or empty",
                        );
                        warnings.push(w);
                    }
                },
                None => {},
            }
        },
        None => {
            let w = "no active provider selected".to_string();
            warnings.push(w);
        },
    }
    match &project.open_path {
        Some(path) => {
            if !probe.project.exists {
                let w = join2("project path does not exist: ", path.as_str());
                warnings.push(w);
            } else if !probe.project.is_dir {
                let w = join2("project path is not a directory: ", path.as_str());
                warnings.push(w);
            }
        },
        None => {},
    }
    if count_running(mcp_servers) > 0 {
        let w =
            "MCP servers marked running are in-process only and will stop on service restart".to_string();
        warnings.push(w);
    }
    warnings
}

impl AgentService {
    /// The environment variable a health report needs the value of: the
    /// one the active provider's settings refer to.
    pub fn health_env_ref(&self) -> (out: Option<String>)
        ensures
            opt_text(out) == match self@.store.providers.active_provider {
                Some(active) => env_ref(config_of(self@.store.providers.configs, active)),
                None => None,
            },
    {
        match &self.store.providers.active_provider {
            Some(active) => {
                let config_json = match stored_config(
                    &self.store.providers.configs,
                    active.as_str(),
                ) {
                    Some(i) => {
                        self.store.providers.configs[i].config_json.clone()
                    },
                    None => "{}".to_string(),
                };
                provider_config_env_ref(config_json.as_str())
            },
            None => None,
        }
    }

    /// Reports on the service: the active provider, how many providers
    /// have settings, how many consents are stored, the MCP servers after
    /// the children named in `exited_ids` are marked `stopped`, the project
    /// path, and the warnings. The report is `ok` where there is no warning.
    pub fn system_health(&mut self, exited_ids: &Vec<String>, probe: &HealthProbe) -> (out:
        SystemHealthResponse)
        ensures
            well_formed(old(self)@) ==> well_formed(final(self)@),
            final(self)@ == (ServiceView {
                store: StoreView {
                    mcp_servers: refreshed(old(self)@.store.mcp_servers, texts(exited_ids@)),
                    ..old(self)@.store
                },
                ..old(self)@
            }),
            out@ == health_of(final(self)@.store, opt_text(probe.env_value), probe.project),
    {
        refresh_mcp_runtime_statuses(&mut self.store.mcp_servers, exited_ids);
        let warnings = build_system_health_warnings(
            &self.store.providers,
            &self.store.project,
            &self.store.mcp_servers,
            probe,
        );
        SystemHealthResponse {
            ok: warnings.len() == 0,
            active_provider: clone_opt_text(&self.store.providers.active_provider),
            provider_count: self.store.providers.configs.len(),
            pending_consents: self.store.pending_consents.len(),
            mcp_servers_total: self.store.mcp_servers.len(),
            mcp_servers_running: count_running(&self.store.mcp_servers),
            project_path: clone_opt_text(&self.store.project.open_path),
            warnings,
        }
    }
}

/// The health report on a store.
pub open spec fn health_of(store: StoreView, env_value: Option<Seq<char>>, project: PathProbe) -> SystemHealthResponseView {
    let warnings = health_warnings(
        store.providers,
        store.project,
        store.mcp_servers,
        env_value,
        project.exists,
        project.is_dir,
    );
    SystemHealthResponseView {
        ok: warnings.len() == 0,
        active_provider: store.providers.active_provider,
        provider_count: store.providers.configs.len() as usize,
        pending_consents: store.pending_consents.len() as usize,
        mcp_servers_total: store.mcp_servers.len() as usize,
        mcp_servers_running: running_count(store.mcp_servers, store.mcp_servers.len() as int) as usize,
        project_path: store.project.open_path,
        warnings,
    }
}

} // verus!
