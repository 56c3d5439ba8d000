//! What holds of the service as a whole: laws that tie several operations
//! together, proved from the operations' own contracts.

use vstd::prelude::*;
use crate::actions::traits::ActionBackend;
use crate::agent::{
    after_approval, after_chat, after_denial, approved, attached, audit_number, audit_numbers,
    audit_position, audits_numbered_upto, chat_outcome, denied, first_waiting, highest,
    newly_audited, recorded, resolution, resolution_error, resolved_consents, started,
    well_formed, ServiceView,
};
use crate::agent::{lemma_session_position, session_position, with_messages};
use crate::ipc::{
    AuditEntryView, ChatMessageView, ChatRequestView, ChatResponseView, SessionView,
};
use crate::orchestrator::{run_explains, tier_label, Orchestrator, RunView};
use crate::policy::{tier_of, CapabilityTier};
use crate::providers::provider_trait::Provider;
use crate::storage::{PendingConsentStateView, StoreView};
use crate::text::{
    digits_value, last_field, lemma_last_field_of_digits, lemma_padded_decimal_reads_back,
    numbered_id, padded_decimal,
};

verus! {

// ---------------------------------------------------------------------------
// Exact-request binding
// ---------------------------------------------------------------------------

/// A minted consent is bound to the request of its turn: the record that
/// a chat turn stores holds exactly the request the turn worked on.
pub proof fn lemma_mint_binds_the_request(
    svc: ServiceView,
    request: ChatRequestView,
    response: ChatResponseView,
    now: u64,
)
    requires
        first_waiting(response.proposed_actions, 0) is Some,
    ensures
        ({
            let after = attached(svc, request, response, now).0;
            &&& after.store.pending_consents.len() == svc.store.pending_consents.len() + 1
            &&& after.store.pending_consents.last().chat_request == request
            &&& after.store.pending_consents.last().record.status == "pending"@
            &&& Some(after.store.pending_consents.last().record.consent_id) == attached(
                svc,
                request,
                response,
                now,
            ).1.consent_token
        }),
{
}

/// Resolving a consent never touches a bound request: whatever is
/// approved, denied or found expired, every stored record keeps the exact
/// request it was minted with. An approval therefore replays the request
/// captured when the consent was minted.
pub proof fn lemma_resolution_keeps_bound_requests(
    items: Seq<PendingConsentStateView>,
    id: Seq<char>,
    new_status: Seq<char>,
    now: u64,
)
    ensures
        resolved_consents(items, id, new_status, now).len() == items.len(),
        forall|k: int|
            0 <= k < items.len() ==> (#[trigger] resolved_consents(
                items,
                id,
                new_status,
                now,
            )[k]).chat_request == items[k].chat_request,
{
    crate::agent::lemma_consent_position(items, id, 0);
}

// ---------------------------------------------------------------------------
// Single use
// ---------------------------------------------------------------------------

/// A consent token is used up by the first approval or denial: whatever
/// the replay of the approved request did, and at whatever time the token
/// is presented again, the service finds it no longer pending and answers
/// `consent_not_pending:` with the status the first resolution gave it.
pub proof fn lemma_token_is_single_use(
    svc: ServiceView,
    id: Seq<char>,
    approve_first: bool,
    run: ChatResponseView,
    now: u64,
    later: u64,
)
    requires
        resolution(svc.store.pending_consents, id, now) is Resolvable,
    ensures
        ({
            let i = resolution(svc.store.pending_consents, id, now)->Resolvable_0;
            let marked = if approve_first {
                approved(svc, id, now)
            } else {
                denied(svc, id, now)
            };
            let bound = marked.store.pending_consents[i];
            let after = if approve_first {
                after_approval(marked, bound, run, now).0
            } else {
                after_denial(marked, bound, now).0
            };
            let again = resolution(after.store.pending_consents, id, later);
            &&& again is NotPending
            &&& resolution_error(after.store.pending_consents, again) == "consent_not_pending:"@ + (
            if approve_first {
                "approved"@
            } else {
                "denied"@
            })
        }),
{
    let items = svc.store.pending_consents;
    let first = if approve_first {
        "approved"@
    } else {
        "denied"@
    };
    reveal_strlit("approved");
    reveal_strlit("denied");
    reveal_strlit("pending");
    assert(first[0] != "pending"@[0]);
    crate::agent::lemma_consent_position(items, id, 0);
    crate::agent::lemma_consent_is_single_use(items, id, first, now, first, later);
    lemma_resolution_keeps_bound_requests(items, id, first, now);
    let marked = if approve_first {
        approved(svc, id, now)
    } else {
        denied(svc, id, now)
    };
    let i = resolution(items, id, now)->Resolvable_0;
    let bound = marked.store.pending_consents[i];
    let after = if approve_first {
        after_approval(marked, bound, run, now).0
    } else {
        after_denial(marked, bound, now).0
    };
    assert(after.store.pending_consents == marked.store.pending_consents);
}

// ---------------------------------------------------------------------------
// Capability gating
// ---------------------------------------------------------------------------

/// A chat turn executes read-only tools only. Whatever the provider
/// proposed and the backend did, every execution event of a chat turn's
/// response carries the read-only tier: a tool of a higher tier is executed
/// by the replay of an approved consent and by nothing else.
pub proof fn lemma_chat_turn_executes_read_only_tools<P: Provider, A: ActionBackend>(
    before: ServiceView,
    params: ChatRequestView,
    orchestrator_before: Orchestrator<P, A>,
    orchestrator_after: Orchestrator<P, A>,
    after: ServiceView,
    response: ChatResponseView,
    now: u64,
    run: ChatResponseView,
)
    requires
        chat_outcome(
            before,
            params,
            orchestrator_before,
            orchestrator_after,
            after,
            response,
            now,
            run,
        ),
    ensures
        forall|k: int|
            0 <= k < response.executed_action_events.len() ==> {
                &&& (#[trigger] response.executed_action_events[k]).capability_tier == tier_label(
                    CapabilityTier::ReadOnly,
                )
                &&& tier_of(response.executed_action_events[k].tool_name) == CapabilityTier::ReadOnly
                &&& response.executed_action_events[k].status == "executed"@
            },
{
    reveal(chat_outcome);
    let request = crate::agent::effective_request(before, params);
    let rules = orchestrator_before.rules(request.mode, false);
    let state = choose|state: RunView| #[trigger]
        run_explains(
            state,
            rules,
            run,
            orchestrator_after.log().last(),
            now,
            request.provider_config.provider_name,
        );
}

/// A denial executes nothing: its response holds no execution event.
pub proof fn lemma_denial_executes_nothing(svc: ServiceView, pending: PendingConsentStateView, now: u64)
    ensures
        after_denial(svc, pending, now).1.executed_action_events.len() == 0,
{
}

// ---------------------------------------------------------------------------
// Audit completeness
// ---------------------------------------------------------------------------

/// The `n`-th audit identifier is numbered `n`.
pub proof fn lemma_audit_id_number(n: nat)
    requires
        n <= u64::MAX,
    ensures
        audit_number(numbered_id("audit-"@, n)) == n,
{
    reveal_strlit("audit-");
    let head = "audit-"@;
    let digits = padded_decimal(n, 6);
    lemma_padded_decimal_reads_back(n, 6);
    let id = head + digits;
    lemma_last_field_of_digits(head, digits, id.len() as int);
    assert(last_field(id, '-') =~= digits);
}

/// What a text of digits spells fits in 64 bits.
pub proof fn lemma_digits_value_fits(s: Seq<char>, upto: int)
    ensures
        match digits_value(s, upto) {
            Some(n) => 0 <= n <= u64::MAX,
            None => true,
        },
    decreases upto,
{
    if upto > 0 && upto <= s.len() {
        lemma_digits_value_fits(s, upto - 1);
    }
}

/// Every audit number fits in 64 bits.
pub proof fn lemma_audit_number_fits(id: Seq<char>)
    ensures
        audit_number(id) <= u64::MAX,
{
    let s = last_field(id, '-');
    if s.len() > 0 && s[0] == '+' {
        lemma_digits_value_fits(s.subrange(1, s.len() as int), s.len() - 1);
    } else {
        lemma_digits_value_fits(s, s.len() as int);
    }
}

/// The highest of the first `upto` numbers is one no smaller than each of
/// them, and stays under any bound on them all.
pub proof fn lemma_highest_bounds(numbers: Seq<nat>, upto: int, bound: nat)
    requires
        0 <= upto <= numbers.len(),
        forall|k: int| 0 <= k < numbers.len() ==> numbers[k] <= bound,
    ensures
        highest(numbers, upto) <= bound,
        forall|k: int| 0 <= k < upto ==> numbers[k] <= highest(numbers, upto),
    decreases upto,
{
    if upto > 0 {
        lemma_highest_bounds(numbers, upto - 1, bound);
    }
}

/// A service that has just started has no audit entry numbered above its counter.
pub proof fn lemma_started_audits_are_numbered(platform: Seq<char>, store: StoreView)
    ensures
        audits_numbered_upto(
            started(platform, store).store.audit_entries,
            started(platform, store).audit_counter,
        ),
{
    let entries = store.audit_entries;
    let numbers = audit_numbers(entries);
    assert forall|k: int| 0 <= k < numbers.len() implies numbers[k] <= u64::MAX by {
        lemma_audit_number_fits(entries[k].audit_id);
    }
    lemma_highest_bounds(numbers, entries.len() as int, u64::MAX as nat);
    assert forall|k: int| 0 <= k < entries.len() implies audit_number(
        #[trigger] entries[k].audit_id,
    ) <= started(platform, store).audit_counter by {
        assert(numbers[k] == audit_number(entries[k].audit_id));
    }
}

/// Entries with other identifiers do not matter to where an identifier is
/// found.
pub proof fn lemma_audit_position_skips(entries: Seq<AuditEntryView>, id: Seq<char>, from: int, upto: int)
    requires
        0 <= from <= upto <= entries.len(),
        forall|k: int| from <= k < upto ==> entries[k].audit_id != id,
    ensures
        audit_position(entries, id, from) == audit_position(entries, id, upto),
    decreases upto - from,
{
    if from < upto {
        lemma_audit_position_skips(entries, id, from + 1, upto);
    }
}

/// Recording a response under a fresh audit identifier makes it findable:
/// where no stored entry is numbered as high as the response's identifier,
/// the entry found for that identifier is the one just written.
pub proof fn lemma_recorded_is_audited(
    svc: ServiceView,
    response: ChatResponseView,
    provider: Seq<char>,
    now: u64,
)
    requires
        svc.audit_counter >= 1,
        audits_numbered_upto(svc.store.audit_entries, (svc.audit_counter - 1) as u64),
        response.audit_id == numbered_id("audit-"@, svc.audit_counter as nat),
    ensures
        newly_audited(svc, recorded(svc, response, provider, now), response, provider),
        recorded(svc, response, provider, now).audit_counter == svc.audit_counter,
{
    let before = svc.store.audit_entries;
    let after = recorded(svc, response, provider, now).store.audit_entries;
    let n = before.len() as int;
    lemma_audit_id_number(svc.audit_counter as nat);
    lemma_audit_position_skips(after, response.audit_id, 0, n);
    assert(after.subrange(0, n) =~= before);
    assert forall|k: int| 0 <= k < n implies (#[trigger] before[k]).audit_id != response.audit_id by {
        assert(audit_number(before[k].audit_id) <= svc.audit_counter - 1);
    }
}

/// Every chat turn is audited. After a chat turn on a service that is in
/// order, asking for the audit entry of the response finds a new entry
/// that names the response's session and the request's provider; the
/// earlier entries are as they were, and the service is in order again.
pub proof fn lemma_chat_turn_is_audited(svc: ServiceView, request: ChatRequestView, run: ChatResponseView, now: u64)
    requires
        svc.audit_counter < u64::MAX,
        well_formed(svc),
    ensures
        newly_audited(
            svc,
            after_chat(svc, request, run, now).0,
            after_chat(svc, request, run, now).1,
            request.provider_config.provider_name,
        ),
{
    let n = (svc.audit_counter + 1) as u64;
    let stamped = ChatResponseView {
        audit_id: numbered_id("audit-"@, n as nat),
        session_id: request.session_id,
        ..run
    };
    let (svc2, with_consent) = attached(ServiceView { audit_counter: n, ..svc }, request, stamped, now);
    let response = after_chat(svc, request, run, now).1;
    lemma_recorded_is_audited(svc2, response, request.provider_config.provider_name, now);
}

/// Every approval is audited, in the same sense as a chat turn.
pub proof fn lemma_approval_is_audited(
    svc: ServiceView,
    pending: PendingConsentStateView,
    run: ChatResponseView,
    now: u64,
)
    requires
        svc.audit_counter < u64::MAX,
        well_formed(svc),
    ensures
        newly_audited(
            svc,
            after_approval(svc, pending, run, now).0,
            after_approval(svc, pending, run, now).1,
            pending.chat_request.provider_config.provider_name,
        ),
{
    let n = (svc.audit_counter + 1) as u64;
    let response = after_approval(svc, pending, run, now).1;
    lemma_recorded_is_audited(
        ServiceView { audit_counter: n, ..svc },
        response,
        pending.chat_request.provider_config.provider_name,
        now,
    );
}

/// Every denial is audited, in the same sense as a chat turn.
pub proof fn lemma_denial_is_audited(svc: ServiceView, pending: PendingConsentStateView, now: u64)
    requires
        svc.audit_counter < u64::MAX,
        well_formed(svc),
    ensures
        newly_audited(
            svc,
            after_denial(svc, pending, now).0,
            after_denial(svc, pending, now).1,
            pending.chat_request.provider_config.provider_name,
        ),
{
    let n = (svc.audit_counter + 1) as u64;
    let response = after_denial(svc, pending, now).1;
    lemma_recorded_is_audited(
        ServiceView { audit_counter: n, ..svc },
        response,
        pending.chat_request.provider_config.provider_name,
        now,
    );
}

// ---------------------------------------------------------------------------
// Sessions
// ---------------------------------------------------------------------------

/// Appended messages come back in order. After messages are appended to a
/// stored session, asking for that session finds it where it was, with the
/// messages it had followed by the appended ones in the order given.
pub proof fn lemma_appended_messages_come_back(
    sessions: Seq<SessionView>,
    id: Seq<char>,
    extra: Seq<ChatMessageView>,
    now: u64,
)
    requires
        session_position(sessions, id, 0) is Some,
    ensures
        ({
            let at = session_position(sessions, id, 0)->Some_0;
            let after = with_messages(sessions, at, extra, now);
            &&& session_position(after, id, 0) == Some(at)
            &&& after[at].messages == sessions[at].messages + extra
            &&& after[at].id == id
            &&& forall|k: int|
                0 <= k < extra.len() ==> after[at].messages[sessions[at].messages.len() + k]
                    == extra[k]
        }),
{
    let at = session_position(sessions, id, 0)->Some_0;
    lemma_session_position(sessions, id, 0);
    let after = with_messages(sessions, at, extra, now);
    lemma_session_position(after, id, 0);
    assert(after[at].id == id);
}

} // verus!
