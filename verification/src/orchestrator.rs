//! The bounded tool-call loop between a provider, the policy and an action
//! backend, with what it shows of tool arguments and how it names a request.

use vstd::prelude::*;
use crate::actions::traits::ActionBackend;
use crate::ipc::{
    ActionEvent, ActionEventView, ChatMessage, ChatMessageView, ChatMode, ChatResponse,
    ChatResponseView, ProviderConfig, ProviderConfigView, ToolCall, ToolCallView, ToolResult,
    ToolResultView, ToolView,
};
use crate::json::{
    lemma_array_view, lemma_object_view, item_views, member_views, parse_json, parsed_json,
    render_json, rendered_json, Json, JsonView,
};
use crate::model::{
    clone_opt_text, clone_texts, clone_views, lemma_texts_push, lemma_views_push, opt_text,
    opt_view, views,
};
use crate::policy::{
    decision, tier_of, tier_of_name, Authorization, AuthorizationView, CapabilityTier, Policy,
    PolicyContext,
};
use crate::providers::provider_trait::{Provider, ProviderReply, ProviderReplyView};
use crate::text::{
    chars_of, hex_text, lower, padded_decimal, push_hex, push_padded_decimal, same_chars,
    slice_of, string_of, texts, to_lower, truncated,
};
use crate::tool_registry::{lists_tool, ToolRegistry};

verus! {

// ---------------------------------------------------------------------------
// Sanitized argument previews
// ---------------------------------------------------------------------------

/// What replaces the value of a sensitive member.
pub open spec fn redaction_mark() -> Seq<char> {
    "[REDACTED]"@
}

/// Whether a member name is one of the sensitive keys, whatever its case.
pub open spec fn sensitive_key(key: Seq<char>) -> bool {
    let k = lower(key);
    ||| k == "api_key"@
    ||| k == "apikey"@
    ||| k == "token"@
    ||| k == "authorization"@
    ||| k == "password"@
    ||| k == "secret"@
    ||| k == "content"@
}

/// Whether a member name is one of the sensitive keys, whatever its case.
pub fn is_sensitive_key(key: &str) -> (r: bool)
    ensures
        r == sensitive_key(key@),
{
    let k = to_lower(&chars_of(key));
    same_chars(&k, &chars_of("api_key")) || same_chars(&k, &chars_of("apikey")) || same_chars(
        &k,
        &chars_of("token"),
    ) || same_chars(&k, &chars_of("authorization")) || same_chars(&k, &chars_of("password"))
        || same_chars(&k, &chars_of("secret")) || same_chars(&k, &chars_of("content"))
}

/// The document with the value of every sensitive member, at any depth,
/// replaced by the redaction mark.
pub open spec fn redacted(doc: JsonView) -> JsonView
    decreases doc,
{
    match doc {
        JsonView::Object(members) => JsonView::Object(
            Seq::new(
                members.len(),
                |i: int|
                    (
                        members[i].0,
                        if sensitive_key(members[i].0) {
                            JsonView::Text(redaction_mark())
                        } else if 0 <= i < members.len() {
                            redacted(members[i].1)
                        } else {
                            JsonView::Null
                        },
                    ),
            ),
        ),
        JsonView::Array(items) => JsonView::Array(
            Seq::new(
                items.len(),
                |i: int|
                    if 0 <= i < items.len() {
                        redacted(items[i])
                    } else {
                        JsonView::Null
                    },
            ),
        ),
        _ => doc,
    }
}

/// No sensitive member of the document, at any depth, holds anything but
/// the redaction mark.
pub open spec fn scrubbed(doc: JsonView) -> bool
    decreases doc,
{
    match doc {
        JsonView::Object(members) => forall|i: int|
            0 <= i < members.len() ==> if sensitive_key(#[trigger] members[i].0) {
                members[i].1 == JsonView::Text(redaction_mark())
            } else {
                scrubbed(members[i].1)
            },
        JsonView::Array(items) => forall|i: int|
            0 <= i < items.len() ==> scrubbed(#[trigger] items[i]),
        _ => true,
    }
}

/// Redaction leaves no value under a sensitive key.
pub proof fn lemma_redacted_is_scrubbed(doc: JsonView)
    ensures
        scrubbed(redacted(doc)),
    decreases doc,
{
    match doc {
        JsonView::Object(members) => {
            let out = redacted(doc)->Object_0;
            assert forall|i: int| 0 <= i < out.len() implies if sensitive_key(
                #[trigger] out[i].0,
            ) {
                out[i].1 == JsonView::Text(redaction_mark())
            } else {
                scrubbed(out[i].1)
            } by {
                if !sensitive_key(members[i].0) {
                    lemma_redacted_is_scrubbed(members[i].1);
                }
            }
        },
        JsonView::Array(items) => {
            let out = redacted(doc)->Array_0;
            assert forall|i: int| 0 <= i < out.len() implies scrubbed(#[trigger] out[i]) by {
                lemma_redacted_is_scrubbed(items[i]);
            }
        },
        _ => {},
    }
}

/// A copy of the document with every sensitive member redacted.
pub fn redact_sensitive_json(doc: &Json) -> (out: Json)
    ensures
        out@ == redacted(doc@),
    decreases doc,
{
    match doc {
        Json::Null => Json::Null,
        Json::Bool(b) => Json::Bool(*b),
        Json::Number(n) => Json::Number(n.clone()),
        Json::Text(s) => Json::Text(s.clone()),
        Json::Array(items) => {
            let mut out: Vec<Json> = Vec::new();
            let mut i: usize = 0;
            while i < items.len()
                invariant
                    i <= items.len(),
                    out@.len() == i,
                    *doc == Json::Array(*items),
                    decreases_to!(*doc => *items),
                    forall|k: int| 0 <= k < i ==> out@[k]@ == redacted(items@[k]@),
                decreases items.len() - i,
            {
                out.push(redact_sensitive_json(&items[i]));
                i = i + 1;
            }
            proof {
                lemma_array_view(out);
                assert(item_views(out@) =~= redacted(doc@)->Array_0);
            }
            Json::Array(out)
        },
        Json::Object(members) => {
            let mut out: Vec<(String, Json)> = Vec::new();
            let mut i: usize = 0;
            while i < members.len()
                invariant
                    i <= members.len(),
                    out@.len() == i,
                    *doc == Json::Object(*members),
                    decreases_to!(*doc => *members),
                    forall|k: int|
                        0 <= k < i ==> out@[k].0@ == members@[k].0@ && out@[k].1@ == (if sensitive_key(
                            members@[k].0@,
                        ) {
                            JsonView::Text(redaction_mark())
                        } else {
                            redacted(members@[k].1@)
                        }),
                decreases members.len() - i,
            {
                let key = members[i].0.clone();
                let value = if is_sensitive_key(key.as_str()) {
                    Json::Text("[REDACTED]".to_string())
                } else {
                    redact_sensitive_json(&members[i].1)
                };
                out.push((key, value));
                i = i + 1;
            }
            proof {
                lemma_object_view(out);
                assert(member_views(out@) =~= redacted(doc@)->Object_0);
            }
            Json::Object(out)
        },
    }
}

/// The longest preview shown of a tool call's arguments, in characters.
pub const PREVIEW_MAX_CHARS: usize = 180;

/// The arguments with sensitive members redacted, where they are a JSON
/// document; arguments that are no JSON document are kept as they are.
pub open spec fn sanitized_arguments(arguments: Seq<char>) -> Seq<char> {
    match parsed_json(arguments) {
        Some(doc) => rendered_json(redacted(doc)),
        None => arguments,
    }
}

/// The text with every line break replaced by a blank.
pub open spec fn flattened(s: Seq<char>) -> Seq<char> {
    Seq::new(
        s.len(),
        |i: int|
            if s[i] == '\n' || s[i] == '\r' {
                ' '
            } else {
                s[i]
            },
    )
}

/// What is shown of a tool call's arguments: sanitized, on one line, and
/// truncated to [`PREVIEW_MAX_CHARS`] characters.
pub open spec fn preview_of(arguments: Seq<char>) -> Seq<char> {
    truncated(flattened(sanitized_arguments(arguments)), PREVIEW_MAX_CHARS as int)
}

/// A preview has at most [`PREVIEW_MAX_CHARS`] characters and no line
/// break, and a sanitized text that is no longer than that is shown whole.
pub proof fn lemma_previews_are_short(arguments: Seq<char>)
    ensures
        preview_of(arguments).len() <= PREVIEW_MAX_CHARS,
        forall|k: int|
            0 <= k < preview_of(arguments).len() ==> (#[trigger] preview_of(arguments)[k]) != '\n'
                && preview_of(arguments)[k] != '\r',
        sanitized_arguments(arguments).len() <= PREVIEW_MAX_CHARS ==> preview_of(arguments)
            == flattened(sanitized_arguments(arguments)),
{
}

/// What a preview is made of holds no secret. The text that is flattened
/// and truncated into the preview of JSON arguments is the writing of a
/// document in which no sensitive member, at any depth, holds anything but
/// the redaction mark; arguments that are no JSON have no members and are
/// shown as they are.
pub proof fn lemma_previews_are_sanitized(arguments: Seq<char>)
    ensures
        preview_of(arguments) == truncated(
            flattened(sanitized_arguments(arguments)),
            PREVIEW_MAX_CHARS as int,
        ),
        match parsed_json(arguments) {
            Some(doc) => sanitized_arguments(arguments) == rendered_json(redacted(doc)) && scrubbed(
                redacted(doc),
            ),
            None => sanitized_arguments(arguments) == arguments,
        },
{
    match parsed_json(arguments) {
        Some(doc) => {
            lemma_redacted_is_scrubbed(doc);
        },
        None => {},
    }
}

/// The arguments with sensitive members redacted.
pub fn sanitize_arguments_preview(arguments_json: &str) -> (out: String)
    ensures
        out@ == sanitized_arguments(arguments_json@),
{
    match parse_json(arguments_json) {
        Some(doc) => {
            let clean = redact_sensitive_json(&doc);
            render_json(&clean)
        },
        None => arguments_json.to_string(),
    }
}

/// What is shown of a tool call's arguments.
pub fn arguments_preview(arguments_json: &str) -> (out: String)
    ensures
        out@ == preview_of(arguments_json@),
{
    let sanitized = sanitize_arguments_preview(arguments_json);
    let raw = chars_of(sanitized.as_str());
    let mut flat: Vec<char> = Vec::new();
    let mut i: usize = 0;
    while i < raw.len()
        invariant
            i <= raw.len(),
            flat@.len() == i,
            forall|k: int| 0 <= k < i ==> flat@[k] == flattened(raw@)[k],
        decreases raw.len() - i,
    {
        let c = raw[i];
        if c == '\n' || c == '\r' {
            flat.push(' ');
        } else {
            flat.push(c);
        }
        i = i + 1;
    }
    if flat.len() > PREVIEW_MAX_CHARS {
        string_of(&slice_of(&flat, 0, PREVIEW_MAX_CHARS))
    } else {
        assert(flat@ =~= flattened(raw@));
        string_of(&flat)
    }
}

// ---------------------------------------------------------------------------
// Request fingerprints
// ---------------------------------------------------------------------------

/// The starting value of the fingerprint hash.
pub const FINGERPRINT_SEED: u64 = 0xcbf29ce484222325;

/// The multiplier of the fingerprint hash.
pub const FINGERPRINT_PRIME: u64 = 0x100000001b3;

/// Marks the end of a hashed text; no character has this value.
pub const END_OF_TEXT: u64 = 0x110000;

/// Marks an absent optional text.
pub const ABSENT: u64 = 0x110001;

/// Marks a present optional text.
pub const PRESENT: u64 = 0x110002;

/// One step of the hash: fold `word` into `h`.
pub open spec fn mixed(h: u64, word: u64) -> u64 {
    (h ^ word).wrapping_mul(FINGERPRINT_PRIME)
}

/// The hash after the first `upto` characters of `s`.
pub open spec fn mixed_chars(h: u64, s: Seq<char>, upto: int) -> u64
    decreases upto,
{
    if upto <= 0 {
        h
    } else {
        mixed(mixed_chars(h, s, upto - 1), s[upto - 1] as u64)
    }
}

/// The hash after a whole text and its end mark.
pub open spec fn mixed_text(h: u64, s: Seq<char>) -> u64 {
    mixed(mixed_chars(h, s, s.len() as int), END_OF_TEXT)
}

/// The hash after an optional text.
pub open spec fn mixed_opt_text(h: u64, s: Option<Seq<char>>) -> u64 {
    match s {
        Some(s) => mixed_text(mixed(h, PRESENT), s),
        None => mixed(h, ABSENT),
    }
}

/// The hash after the first `upto` messages, role before content.
pub open spec fn mixed_messages(h: u64, messages: Seq<ChatMessageView>, upto: int) -> u64
    decreases upto,
{
    if upto <= 0 {
        h
    } else {
        mixed_text(
            mixed_text(mixed_messages(h, messages, upto - 1), messages[upto - 1].role),
            messages[upto - 1].content,
        )
    }
}

/// The name of a mode as it enters the fingerprint.
pub open spec fn mode_tag(mode: ChatMode) -> Seq<char> {
    match mode {
        ChatMode::RequireConfirmation => "RequireConfirmation"@,
        ChatMode::BestEffort => "BestEffort"@,
    }
}

/// The 64-bit fingerprint of a request: a hash over the provider name, the
/// model, the mode and every message's role and content, in this order.
pub open spec fn fingerprint_value(
    messages: Seq<ChatMessageView>,
    provider_name: Seq<char>,
    model: Option<Seq<char>>,
    mode: ChatMode,
) -> u64 {
    mixed_messages(
        mixed_text(mixed_opt_text(mixed_text(FINGERPRINT_SEED, provider_name), model), mode_tag(mode)),
        messages,
        messages.len() as int,
    )
}

/// The fingerprint as shown: `req-` and sixteen hexadecimal digits.
pub open spec fn fingerprint_of(
    messages: Seq<ChatMessageView>,
    provider_name: Seq<char>,
    model: Option<Seq<char>>,
    mode: ChatMode,
) -> Seq<char> {
    "req-"@ + hex_text(fingerprint_value(messages, provider_name, model, mode) as nat, 16)
}

fn mix(h: u64, word: u64) -> (r: u64)
    ensures
        r == mixed(h, word),
{
    (h ^ word).wrapping_mul(FINGERPRINT_PRIME)
}

fn mix_text(h: u64, s: &str) -> (r: u64)
    ensures
        r == mixed_text(h, s@),
{
    let v = chars_of(s);
    let mut acc: u64 = h;
    let mut i: usize = 0;
    while i < v.len()
        invariant
            i <= v.len(),
            acc == mixed_chars(h, v@, i as int),
        decreases v.len() - i,
    {
        acc = mix(acc, v[i] as u64);
        i = i + 1;
    }
    mix(acc, END_OF_TEXT)
}

/// The fingerprint of a request. Requests that agree on provider name,
/// model, mode and messages have the same fingerprint.
pub fn request_fingerprint(
    messages: &Vec<ChatMessage>,
    provider_config: &ProviderConfig,
    mode: &ChatMode,
) -> (out: String)
    ensures
        out@ == fingerprint_of(
            views(messages@),
            provider_config.provider_name@,
            opt_text(provider_config.model),
            *mode,
        ),
{
    let mut h: u64 = mix_text(FINGERPRINT_SEED, provider_config.provider_name.as_str());
    h = match &provider_config.model {
        Some(m) => mix_text(mix(h, PRESENT), m.as_str()),
        None => mix(h, ABSENT),
    };
    h = match mode {
        ChatMode::RequireConfirmation => mix_text(h, "RequireConfirmation"),
        ChatMode::BestEffort => mix_text(h, "BestEffort"),
    };
    let ghost start = h;
    let mut i: usize = 0;
    while i < messages.len()
        invariant
            i <= messages.len(),
            h == mixed_messages(start, views(messages@), i as int),
        decreases messages.len() - i,
    {
        h = mix_text(h, messages[i].role.as_str());
        h = mix_text(h, messages[i].content.as_str());
        i = i + 1;
    }
    let mut out = chars_of("req-");
    push_hex(&mut out, h, 16);
    string_of(&out)
}


// ---------------------------------------------------------------------------
// Audit events of the orchestrator
// ---------------------------------------------------------------------------

/// The policy's answer for one requested tool call, as kept in the run's audit event.
#[derive(Debug, PartialEq, Eq)]
pub struct PolicyDecisionRecord {
    pub tool_name: String,
    pub capability_tier: CapabilityTier,
    pub decision: String,
    pub reason: Option<String>,
}

/// What contracts see of a [`PolicyDecisionRecord`].
pub struct PolicyDecisionRecordView {
    pub tool_name: Seq<char>,
    pub capability_tier: CapabilityTier,
    pub decision: Seq<char>,
    pub reason: Option<Seq<char>>,
}

impl View for PolicyDecisionRecord {
    type V = PolicyDecisionRecordView;

    open spec fn view(&self) -> PolicyDecisionRecordView {
        PolicyDecisionRecordView {
            tool_name: self.tool_name@,
            capability_tier: self.capability_tier,
            decision: self.decision@,
            reason: opt_text(self.reason),
        }
    }
}

impl Clone for PolicyDecisionRecord {
    fn clone(&self) -> (r: Self)
        ensures
            r@ == self@,
    {
        PolicyDecisionRecord {
            tool_name: self.tool_name.clone(),
            capability_tier: self.capability_tier,
            decision: self.decision.clone(),
            reason: clone_opt_text(&self.reason),
        }
    }
}

/// What one orchestrator run asked for and did.
#[derive(Debug, PartialEq, Eq)]
pub struct AuditEvent {
    pub audit_id: String,
    pub timestamp_unix_seconds: u64,
    pub provider: String,
    pub tool_calls_requested: Vec<String>,
    pub tool_calls_executed: Vec<String>,
    pub evidence_summaries: Vec<String>,
    pub policy_decisions: Vec<PolicyDecisionRecord>,
}

/// What contracts see of a [`AuditEvent`].
pub struct AuditEventView {
    pub audit_id: Seq<char>,
    pub timestamp_unix_seconds: u64,
    pub provider: Seq<char>,
    pub tool_calls_requested: Seq<Seq<char>>,
    pub tool_calls_executed: Seq<Seq<char>>,
    pub evidence_summaries: Seq<Seq<char>>,
    pub policy_decisions: Seq<PolicyDecisionRecordView>,
}

impl View for AuditEvent {
    type V = AuditEventView;

    open spec fn view(&self) -> AuditEventView {
        AuditEventView {
            audit_id: self.audit_id@,
            timestamp_unix_seconds: self.timestamp_unix_seconds,
            provider: self.provider@,
            tool_calls_requested: texts(self.tool_calls_requested@),
            tool_calls_executed: texts(self.tool_calls_executed@),
            evidence_summaries: texts(self.evidence_summaries@),
            policy_decisions: views(self.policy_decisions@),
        }
    }
}

impl Clone for AuditEvent {
    fn clone(&self) -> (r: Self)
        ensures
            r@ == self@,
    {
        AuditEvent {
            audit_id: self.audit_id.clone(),
            timestamp_unix_seconds: self.timestamp_unix_seconds,
            provider: self.provider.clone(),
            tool_calls_requested: clone_texts(&self.tool_calls_requested),
            tool_calls_executed: clone_texts(&self.tool_calls_executed),
            evidence_summaries: clone_texts(&self.evidence_summaries),
            policy_decisions: clone_views(&self.policy_decisions),
        }
    }
}


/// The audit events of an orchestrator, oldest first.
#[derive(Debug)]
pub struct AuditLog {
    events: Vec<AuditEvent>,
}

impl View for AuditLog {
    type V = Seq<AuditEventView>;

    closed spec fn view(&self) -> Seq<AuditEventView> {
        views(self.events@)
    }
}

impl Default for AuditLog {
    fn default() -> (r: Self)
        ensures
            r@ == Seq::<AuditEventView>::empty(),
    {
        let events: Vec<AuditEvent> = Vec::new();
        AuditLog { events }
    }
}

impl AuditLog {
    /// Appends an event.
    pub fn push(&mut self, event: AuditEvent)
        ensures
            final(self)@ == old(self)@.push(event@),
    {
        self.events.push(event);
    }

    /// The events, oldest first.
    pub fn events(&self) -> (out: &[AuditEvent])
        ensures
            views(out@) == self@,
    {
        self.events.as_slice()
    }
}

// ---------------------------------------------------------------------------
// Judging one tool call
// ---------------------------------------------------------------------------

/// The most rounds of tool calls a provider is granted in one run.
pub const MAX_TOOL_ROUNDS: usize = 4;

/// What is said when a provider asks for a round beyond the bound.
pub open spec fn too_many_rounds_text() -> Seq<char> {
    "Provider requested more than 4 tool rounds; stopping for safety."@
}

/// What is said when a round ends with calls awaiting consent and nothing run.
pub open spec fn confirmation_required_text() -> Seq<char> {
    "Confirmation required before executing requested tools."@
}

/// The name of a tier as events carry it.
pub open spec fn tier_label(tier: CapabilityTier) -> Seq<char> {
    match tier {
        CapabilityTier::ReadOnly => "ReadOnly"@,
        CapabilityTier::LocalActions => "LocalActions"@,
        CapabilityTier::SystemActions => "SystemActions"@,
    }
}

/// The name of a tier as events carry it.
pub fn capability_tier_label(tier: &CapabilityTier) -> (out: String)
    ensures
        out@ == tier_label(*tier),
{
    match tier {
        CapabilityTier::ReadOnly => "ReadOnly".to_string(),
        CapabilityTier::LocalActions => "LocalActions".to_string(),
        CapabilityTier::SystemActions => "SystemActions".to_string(),
    }
}

/// What decides the fate of a tool call within one run.
pub struct Rules {
    pub registry: Seq<ToolView>,
    pub mode: ChatMode,
    pub user_confirmed: bool,
    pub always_ask: bool,
}

/// The fate of one requested tool call.
#[derive(Debug, PartialEq, Eq)]
pub enum Verdict {
    /// The registry does not know the tool: never run.
    Unknown,
    /// The policy allows the call: it is run.
    Run,
    /// The call waits for the user's consent.
    Ask { reason: String },
    /// The policy refuses the call.
    Refuse { reason: String },
}

/// What contracts see of a [`Verdict`].
pub enum VerdictView {
    Unknown,
    Run,
    Ask { reason: Seq<char> },
    Refuse { reason: Seq<char> },
}

impl View for Verdict {
    type V = VerdictView;

    open spec fn view(&self) -> VerdictView {
        match self {
            Verdict::Unknown => VerdictView::Unknown,
            Verdict::Run => VerdictView::Run,
            Verdict::Ask { reason } => VerdictView::Ask { reason: reason@ },
            Verdict::Refuse { reason } => VerdictView::Refuse { reason: reason@ },
        }
    }
}

/// The fate of a call of the tool named `name`: unknown tools are never run;
/// known ones follow the policy.
pub open spec fn verdict_for(rules: Rules, name: Seq<char>) -> VerdictView {
    if !lists_tool(rules.registry, name) {
        VerdictView::Unknown
    } else {
        match decision(name, rules.mode, rules.user_confirmed, rules.always_ask) {
            AuthorizationView::Allow => VerdictView::Run,
            AuthorizationView::RequireConfirmation { reason } => VerdictView::Ask { reason },
            AuthorizationView::Deny { reason } => VerdictView::Refuse { reason },
        }
    }
}

/// The status of the proposal event of a call.
pub open spec fn status_for(v: VerdictView) -> Seq<char> {
    match v {
        VerdictView::Unknown => "denied"@,
        VerdictView::Run => "approved"@,
        VerdictView::Ask { .. } => "consent_required"@,
        VerdictView::Refuse { .. } => "denied"@,
    }
}

/// The reason given in the proposal event of a call.
pub open spec fn reason_for(v: VerdictView) -> Option<Seq<char>> {
    match v {
        VerdictView::Unknown => Some("unknown_tool"@),
        VerdictView::Run => None,
        VerdictView::Ask { reason } => Some(reason),
        VerdictView::Refuse { reason } => Some(reason),
    }
}

/// The tier recorded for a call; an unknown tool counts as a system action.
pub open spec fn tier_for(v: VerdictView, name: Seq<char>) -> CapabilityTier {
    match v {
        VerdictView::Unknown => CapabilityTier::SystemActions,
        _ => tier_of(name),
    }
}

/// The proposal event of a call.
pub open spec fn proposed_event(call: ToolCallView, v: VerdictView) -> ActionEventView {
    ActionEventView {
        tool_name: call.name,
        capability_tier: tier_label(tier_for(v, call.name)),
        status: status_for(v),
        reason: reason_for(v),
        arguments_preview: Some(preview_of(call.arguments_json)),
        evidence_summary: None,
    }
}

/// The execution event of a call that was run and reported `summary`.
pub open spec fn executed_event(call: ToolCallView, summary: Seq<char>) -> ActionEventView {
    ActionEventView {
        tool_name: call.name,
        capability_tier: tier_label(tier_of(call.name)),
        status: "executed"@,
        reason: None,
        arguments_preview: Some(preview_of(call.arguments_json)),
        evidence_summary: Some(summary),
    }
}

/// The name of a verdict in policy decision records.
pub open spec fn decision_label(v: VerdictView) -> Seq<char> {
    match v {
        VerdictView::Unknown => "deny"@,
        VerdictView::Run => "allow"@,
        VerdictView::Ask { .. } => "require_confirmation"@,
        VerdictView::Refuse { .. } => "deny"@,
    }
}

/// The policy decision record of a call.
pub open spec fn decision_record(call: ToolCallView, v: VerdictView) -> PolicyDecisionRecordView {
    PolicyDecisionRecordView {
        tool_name: call.name,
        capability_tier: tier_for(v, call.name),
        decision: decision_label(v),
        reason: reason_for(v),
    }
}

// ---------------------------------------------------------------------------
// The state of one run
// ---------------------------------------------------------------------------

/// What one run has gathered so far.
#[derive(Debug, PartialEq, Eq)]
pub struct RunState {
    pub tool_rounds: usize,
    pub executed_actions: Vec<String>,
    pub proposed_actions: Vec<ActionEvent>,
    pub executed_action_events: Vec<ActionEvent>,
    pub tool_results: Vec<ToolResult>,
    pub requested_tool_calls: Vec<String>,
    pub policy_decisions: Vec<PolicyDecisionRecord>,
}

/// What contracts see of a [`RunState`].
pub struct RunView {
    pub tool_rounds: nat,
    pub executed_actions: Seq<Seq<char>>,
    pub proposed_actions: Seq<ActionEventView>,
    pub executed_action_events: Seq<ActionEventView>,
    pub tool_results: Seq<ToolResultView>,
    pub requested_tool_calls: Seq<Seq<char>>,
    pub policy_decisions: Seq<PolicyDecisionRecordView>,
}

impl View for RunState {
    type V = RunView;

    open spec fn view(&self) -> RunView {
        RunView {
            tool_rounds: self.tool_rounds as nat,
            executed_actions: texts(self.executed_actions@),
            proposed_actions: views(self.proposed_actions@),
            executed_action_events: views(self.executed_action_events@),
            tool_results: views(self.tool_results@),
            requested_tool_calls: texts(self.requested_tool_calls@),
            policy_decisions: views(self.policy_decisions@),
        }
    }
}

/// A run that has gathered nothing yet.
pub open spec fn fresh_run() -> RunView {
    RunView {
        tool_rounds: 0,
        executed_actions: Seq::empty(),
        proposed_actions: Seq::empty(),
        executed_action_events: Seq::empty(),
        tool_results: Seq::empty(),
        requested_tool_calls: Seq::empty(),
        policy_decisions: Seq::empty(),
    }
}

/// The run after one more call with verdict `v`; `result` is what the
/// backend returned where the call was run.
pub open spec fn after_call(
    run: RunView,
    call: ToolCallView,
    v: VerdictView,
    result: Option<ToolResultView>,
) -> RunView {
    RunView {
        tool_rounds: run.tool_rounds,
        executed_actions: match result {
            Some(_) => run.executed_actions.push(call.name),
            None => run.executed_actions,
        },
        proposed_actions: run.proposed_actions.push(proposed_event(call, v)),
        executed_action_events: match result {
            Some(r) => run.executed_action_events.push(executed_event(call, r.evidence.summary)),
            None => run.executed_action_events,
        },
        tool_results: match result {
            Some(r) => run.tool_results.push(r),
            None => run.tool_results,
        },
        requested_tool_calls: run.requested_tool_calls.push(call.name),
        policy_decisions: run.policy_decisions.push(decision_record(call, v)),
    }
}

/// Whether a preview is the sanitized preview of some arguments.
pub open spec fn shows_sanitized(preview: Option<Seq<char>>) -> bool {
    exists|arguments: Seq<char>| preview == Some(#[trigger] preview_of(arguments))
}

/// A proposal event says of its tool what the rules say.
pub open spec fn proposal_ok(e: ActionEventView, rules: Rules) -> bool {
    let v = verdict_for(rules, e.tool_name);
    &&& e.status == status_for(v)
    &&& e.reason == reason_for(v)
    &&& e.capability_tier == tier_label(tier_for(v, e.tool_name))
    &&& shows_sanitized(e.arguments_preview)
    &&& e.evidence_summary is None
}

/// An execution event stands for a registered tool that the rules allow to
/// run, and carries the evidence summary `summary`.
pub open spec fn execution_ok(e: ActionEventView, rules: Rules, summary: Seq<char>) -> bool {
    &&& verdict_for(rules, e.tool_name) is Run
    &&& e.status == "executed"@
    &&& e.reason is None
    &&& e.capability_tier == tier_label(tier_of(e.tool_name))
    &&& shows_sanitized(e.arguments_preview)
    &&& e.evidence_summary == Some(summary)
}

/// The run after the first `upto` of the calls: each call in order, judged
/// by the rules, with the backend's result where it was run.
pub open spec fn extended(
    run: RunView,
    calls: Seq<ToolCallView>,
    results: Seq<Option<ToolResultView>>,
    rules: Rules,
    upto: int,
) -> RunView
    decreases upto,
{
    if upto <= 0 {
        run
    } else {
        after_call(
            extended(run, calls, results, rules, upto - 1),
            calls[upto - 1],
            verdict_for(rules, calls[upto - 1].name),
            results[upto - 1],
        )
    }
}

/// The run that the first `upto` of the calls leave behind.
pub open spec fn replayed(
    calls: Seq<ToolCallView>,
    results: Seq<Option<ToolResultView>>,
    rules: Rules,
    upto: int,
) -> RunView {
    extended(fresh_run(), calls, results, rules, upto)
}

/// Whether `results` holds a result for exactly those of the calls that
/// the rules allow to run.
pub open spec fn results_fit(
    calls: Seq<ToolCallView>,
    results: Seq<Option<ToolResultView>>,
    rules: Rules,
) -> bool {
    &&& results.len() == calls.len()
    &&& forall|j: int|
        0 <= j < calls.len() ==> ((#[trigger] results[j]) is Some <==> verdict_for(
            rules,
            calls[j].name,
        ) is Run)
}

/// What a run has gathered, without the number of its rounds.
pub open spec fn gathered(run: RunView) -> RunView {
    RunView {
        tool_rounds: 0,
        executed_actions: run.executed_actions,
        proposed_actions: run.proposed_actions,
        executed_action_events: run.executed_action_events,
        tool_results: run.tool_results,
        requested_tool_calls: run.requested_tool_calls,
        policy_decisions: run.policy_decisions,
    }
}

/// Whether the run has gathered exactly what `calls` leave behind with the
/// results `results`.
pub open spec fn replays(
    run: RunView,
    calls: Seq<ToolCallView>,
    results: Seq<Option<ToolResultView>>,
    rules: Rules,
) -> bool {
    &&& results_fit(calls, results, rules)
    &&& gathered(run) == replayed(calls, results, rules, calls.len() as int)
}

/// Whether the run is accounted for: some calls, with some results of
/// those that were run, leave behind exactly what it has gathered.
pub open spec fn accounted(run: RunView, rules: Rules) -> bool {
    exists|calls: Seq<ToolCallView>, results: Seq<Option<ToolResultView>>| #[trigger]
        replays(run, calls, results, rules)
}

/// Everything the run has gathered agrees with the rules: it is what a
/// sequence of judged calls leaves behind, so each proposal event agrees
/// with the verdict for its tool, each execution event stands for an
/// allowed tool and for the result at the same position, and the executed
/// actions are the tool names of the execution events, no more and no
/// less.
pub open spec fn run_ok(run: RunView, rules: Rules) -> bool {
    &&& run.tool_rounds <= MAX_TOOL_ROUNDS
    &&& accounted(run, rules)
    &&& run.executed_action_events.len() == run.tool_results.len()
    &&& run.executed_actions.len() == run.executed_action_events.len()
    &&& forall|k: int|
        0 <= k < run.executed_actions.len() ==> (#[trigger] run.executed_actions[k])
            == run.executed_action_events[k].tool_name
    &&& forall|k: int|
        0 <= k < run.proposed_actions.len() ==> proposal_ok(#[trigger] run.proposed_actions[k], rules)
    &&& forall|k: int|
        0 <= k < run.executed_action_events.len() ==> execution_ok(
            #[trigger] run.executed_action_events[k],
            rules,
            run.tool_results[k].evidence.summary,
        )
}

/// What the first `upto` calls leave behind does not depend on later calls.
pub proof fn lemma_extended_prefix(
    run: RunView,
    calls: Seq<ToolCallView>,
    results: Seq<Option<ToolResultView>>,
    more_calls: Seq<ToolCallView>,
    more_results: Seq<Option<ToolResultView>>,
    rules: Rules,
    upto: int,
)
    requires
        0 <= upto <= calls.len(),
        upto <= results.len(),
        upto <= more_calls.len(),
        upto <= more_results.len(),
        forall|k: int| 0 <= k < upto ==> calls[k] == more_calls[k] && results[k] == more_results[k],
    ensures
        extended(run, calls, results, rules, upto) == extended(
            run,
            more_calls,
            more_results,
            rules,
            upto,
        ),
    decreases upto,
{
    if upto > 0 {
        lemma_extended_prefix(run, calls, results, more_calls, more_results, rules, upto - 1);
    }
}

/// Every call leaves its name among the requested calls, its proposal
/// event and its policy decision, in the order of the calls. The calls
/// that the rules allow to run, and no others, leave a result, an
/// execution event and their tool name among the executed actions: the
/// executed actions are the tool names of the execution events.
pub proof fn lemma_replayed_lists(
    calls: Seq<ToolCallView>,
    results: Seq<Option<ToolResultView>>,
    rules: Rules,
    upto: int,
)
    requires
        0 <= upto <= calls.len(),
        upto <= results.len(),
        forall|j: int|
            0 <= j < upto ==> ((#[trigger] results[j]) is Some <==> verdict_for(rules, calls[j].name) is Run),
    ensures
        ({
            let run = replayed(calls, results, rules, upto);
            &&& run.requested_tool_calls.len() == upto
            &&& run.proposed_actions.len() == upto
            &&& run.policy_decisions.len() == upto
            &&& run.executed_actions.len() == runs_upto(calls, upto, rules)
            &&& run.executed_action_events.len() == runs_upto(calls, upto, rules)
            &&& run.tool_results.len() == runs_upto(calls, upto, rules)
            &&& forall|k: int| 0 <= k < upto ==> (#[trigger] run.requested_tool_calls[k]) == calls[k].name
            &&& forall|k: int|
                0 <= k < upto ==> (#[trigger] run.proposed_actions[k]) == proposed_event(
                    calls[k],
                    verdict_for(rules, calls[k].name),
                )
            &&& forall|k: int|
                0 <= k < upto ==> (#[trigger] run.policy_decisions[k]) == decision_record(
                    calls[k],
                    verdict_for(rules, calls[k].name),
                )
            &&& forall|k: int|
                0 <= k < run.executed_actions.len() ==> (#[trigger] run.executed_actions[k])
                    == run.executed_action_events[k].tool_name
        }),
    decreases upto,
{
    if upto > 0 {
        lemma_replayed_lists(calls, results, rules, upto - 1);
        let before = replayed(calls, results, rules, upto - 1);
        let call = calls[upto - 1];
        let v = verdict_for(rules, call.name);
        let run = replayed(calls, results, rules, upto);
        assert(run == after_call(before, call, v, results[upto - 1]));
        assert(results[upto - 1] is Some <==> v is Run);
        assert forall|k: int| 0 <= k < upto implies (#[trigger] run.requested_tool_calls[k])
            == calls[k].name by {
            if k < upto - 1 {
                assert(run.requested_tool_calls[k] == before.requested_tool_calls[k]);
            }
        }
        assert forall|k: int| 0 <= k < upto implies (#[trigger] run.proposed_actions[k])
            == proposed_event(calls[k], verdict_for(rules, calls[k].name)) by {
            if k < upto - 1 {
                assert(run.proposed_actions[k] == before.proposed_actions[k]);
            }
        }
        assert forall|k: int| 0 <= k < upto implies (#[trigger] run.policy_decisions[k])
            == decision_record(calls[k], verdict_for(rules, calls[k].name)) by {
            if k < upto - 1 {
                assert(run.policy_decisions[k] == before.policy_decisions[k]);
            }
        }
        assert forall|k: int| 0 <= k < run.executed_actions.len() implies (
        #[trigger] run.executed_actions[k]) == run.executed_action_events[k].tool_name by {
            if k < before.executed_actions.len() {
                assert(run.executed_actions[k] == before.executed_actions[k]);
                assert(run.executed_action_events[k] == before.executed_action_events[k]);
            }
        }
    }
}

/// Rounds of calls add up: the calls of a second list, taken after those
/// of a first, leave behind what the calls of both lists in a row do.
pub proof fn lemma_extended_twice(
    run: RunView,
    calls: Seq<ToolCallView>,
    results: Seq<Option<ToolResultView>>,
    more_calls: Seq<ToolCallView>,
    more_results: Seq<Option<ToolResultView>>,
    rules: Rules,
    upto: int,
)
    requires
        results.len() == calls.len(),
        0 <= upto <= more_calls.len(),
        upto <= more_results.len(),
    ensures
        extended(
            extended(run, calls, results, rules, calls.len() as int),
            more_calls,
            more_results,
            rules,
            upto,
        ) == extended(run, calls + more_calls, results + more_results, rules, calls.len() + upto),
    decreases upto,
{
    if upto > 0 {
        lemma_extended_twice(run, calls, results, more_calls, more_results, rules, upto - 1);
        assert((calls + more_calls)[calls.len() + upto - 1] == more_calls[upto - 1]);
        assert((results + more_results)[calls.len() + upto - 1] == more_results[upto - 1]);
    } else {
        lemma_extended_prefix(
            run,
            calls,
            results,
            calls + more_calls,
            results + more_results,
            rules,
            calls.len() as int,
        );
    }
}

/// The number of rounds plays no part in what calls leave behind.
pub proof fn lemma_extended_gathered(
    run: RunView,
    calls: Seq<ToolCallView>,
    results: Seq<Option<ToolResultView>>,
    rules: Rules,
    upto: int,
)
    ensures
        gathered(extended(run, calls, results, rules, upto)) == extended(
            gathered(run),
            calls,
            results,
            rules,
            upto,
        ),
    decreases upto,
{
    if upto > 0 {
        lemma_extended_gathered(run, calls, results, rules, upto - 1);
    }
}

/// The calls of the first `upto` rounds, in a row.
pub open spec fn joined_calls(rounds: Seq<Seq<ToolCallView>>, upto: int) -> Seq<ToolCallView>
    decreases upto,
{
    if upto <= 0 {
        Seq::empty()
    } else {
        joined_calls(rounds, upto - 1) + rounds[upto - 1]
    }
}

/// The results of the first `upto` rounds, in a row.
pub open spec fn joined_results(outs: Seq<Seq<Option<ToolResultView>>>, upto: int) -> Seq<
    Option<ToolResultView>,
>
    decreases upto,
{
    if upto <= 0 {
        Seq::empty()
    } else {
        joined_results(outs, upto - 1) + outs[upto - 1]
    }
}

/// The run that the first `upto` rounds leave behind.
pub open spec fn run_after(
    rounds: Seq<Seq<ToolCallView>>,
    outs: Seq<Seq<Option<ToolResultView>>>,
    rules: Rules,
    upto: int,
) -> RunView {
    replayed(
        joined_calls(rounds, upto),
        joined_results(outs, upto),
        rules,
        joined_calls(rounds, upto).len() as int,
    )
}

/// Whether a round leaves the run waiting: one of its calls needs consent
/// and none of them is run.
pub open spec fn stalled(calls: Seq<ToolCallView>, rules: Rules) -> bool {
    any_waits(calls, calls.len() as int, rules) && runs_upto(calls, calls.len() as int, rules) == 0
}

/// What the first `upto` rounds hold does not depend on later rounds.
pub proof fn lemma_joined_prefix(
    rounds: Seq<Seq<ToolCallView>>,
    outs: Seq<Seq<Option<ToolResultView>>>,
    more_rounds: Seq<Seq<ToolCallView>>,
    more_outs: Seq<Seq<Option<ToolResultView>>>,
    upto: int,
)
    requires
        0 <= upto <= rounds.len(),
        upto <= outs.len(),
        upto <= more_rounds.len(),
        upto <= more_outs.len(),
        forall|k: int| 0 <= k < upto ==> rounds[k] == more_rounds[k] && outs[k] == more_outs[k],
    ensures
        joined_calls(rounds, upto) == joined_calls(more_rounds, upto),
        joined_results(outs, upto) == joined_results(more_outs, upto),
    decreases upto,
{
    if upto > 0 {
        lemma_joined_prefix(rounds, outs, more_rounds, more_outs, upto - 1);
    }
}

/// A run that has gathered nothing agrees with any rules.
pub proof fn lemma_fresh_run_ok(rules: Rules)
    ensures
        run_ok(fresh_run(), rules),
{
    assert(replays(fresh_run(), Seq::empty(), Seq::empty(), rules));
}

/// Another round changes nothing in what the run has gathered.
pub proof fn lemma_rounds_do_not_matter(run: RunView, other: RunView, rules: Rules)
    requires
        accounted(run, rules),
        gathered(other) == gathered(run),
    ensures
        accounted(other, rules),
{
    let (calls, results) = choose|calls: Seq<ToolCallView>, results: Seq<Option<ToolResultView>>| #[trigger]
        replays(run, calls, results, rules);
    assert(replays(other, calls, results, rules));
}

/// One more call, judged by the rules, keeps the run in agreement with them.
pub proof fn lemma_after_call_ok(
    run: RunView,
    call: ToolCallView,
    rules: Rules,
    result: Option<ToolResultView>,
)
    requires
        run_ok(run, rules),
        verdict_for(rules, call.name) is Run <==> result is Some,
    ensures
        run_ok(after_call(run, call, verdict_for(rules, call.name), result), rules),
{
    let (calls, results) = choose|calls: Seq<ToolCallView>, results: Seq<Option<ToolResultView>>| #[trigger]
        replays(run, calls, results, rules);
    let more_calls = calls.push(call);
    let more_results = results.push(result);
    let next = after_call(run, call, verdict_for(rules, call.name), result);
    lemma_extended_prefix(
        fresh_run(),
        calls,
        results,
        more_calls,
        more_results,
        rules,
        calls.len() as int,
    );
    assert(gathered(next) == after_call(gathered(run), call, verdict_for(rules, call.name), result));
    assert(replays(next, more_calls, more_results, rules));
}

/// Whether some call among the first `upto` has to wait for consent.
pub open spec fn any_waits(calls: Seq<ToolCallView>, upto: int, rules: Rules) -> bool {
    exists|j: int| 0 <= j < upto && j < calls.len() && verdict_for(rules, #[trigger] calls[j].name) is Ask
}

/// The proposal events of the first `upto` calls, in order.
pub open spec fn proposals_upto(calls: Seq<ToolCallView>, upto: int, rules: Rules) -> Seq<
    ActionEventView,
>
    decreases upto,
{
    if upto <= 0 {
        Seq::empty()
    } else {
        proposals_upto(calls, upto - 1, rules).push(
            proposed_event(calls[upto - 1], verdict_for(rules, calls[upto - 1].name)),
        )
    }
}

/// How many of the first `upto` calls the rules allow to run.
pub open spec fn runs_upto(calls: Seq<ToolCallView>, upto: int, rules: Rules) -> nat
    decreases upto,
{
    if upto <= 0 {
        0
    } else {
        runs_upto(calls, upto - 1, rules) + (if verdict_for(rules, calls[upto - 1].name) is Run {
            1nat
        } else {
            0nat
        })
    }
}

impl RunState {
    /// A run that has gathered nothing yet.
    pub fn new() -> (r: Self)
        ensures
            r@ == fresh_run(),
    {
        let r = RunState {
            tool_rounds: 0,
            executed_actions: Vec::new(),
            proposed_actions: Vec::new(),
            executed_action_events: Vec::new(),
            tool_results: Vec::new(),
            requested_tool_calls: Vec::new(),
            policy_decisions: Vec::new(),
        };
        assert(r@.executed_actions =~= Seq::empty());
        assert(r@.proposed_actions =~= Seq::empty());
        assert(r@.tool_results =~= Seq::empty());
        assert(r@.policy_decisions =~= Seq::empty());
        r
    }

    /// Records one judged call. `result` is the backend's result where the
    /// call was run, and absent otherwise.
    pub fn record_call(&mut self, call: &ToolCall, verdict: &Verdict, result: Option<ToolResult>)
        requires
            verdict@ is Run <==> result is Some,
        ensures
            final(self)@ == after_call(old(self)@, call@, verdict@, opt_view(result)),
    {
        let name = call.name.as_str();
        let preview = arguments_preview(call.arguments_json.as_str());
        let tier = match verdict {
            Verdict::Unknown => CapabilityTier::SystemActions,
            _ => tier_of_name(name),
        };
        let label = capability_tier_label(&tier);
        let (status, reason, decision_name) = match verdict {
            Verdict::Unknown => (
                "denied".to_string(),
                Some("unknown_tool".to_string()),
                "deny".to_string(),
            ),
            Verdict::Run => ("approved".to_string(), None, "allow".to_string()),
            Verdict::Ask { reason } => (
                "consent_required".to_string(),
                Some(reason.clone()),
                "require_confirmation".to_string(),
            ),
            Verdict::Refuse { reason } => (
                "denied".to_string(),
                Some(reason.clone()),
                "deny".to_string(),
            ),
        };
        let proposed = ActionEvent {
            tool_name: name.to_string(),
            capability_tier: label.clone(),
            status,
            reason: clone_opt_text(&reason),
            arguments_preview: Some(preview.clone()),
            evidence_summary: None,
        };
        let record = PolicyDecisionRecord {
            tool_name: name.to_string(),
            capability_tier: tier,
            decision: decision_name,
            reason,
        };
        proof {
            lemma_views_push(self.proposed_actions@, proposed);
            lemma_views_push(self.policy_decisions@, record);
        }
        self.requested_tool_calls.push(name.to_string());
        self.proposed_actions.push(proposed);
        self.policy_decisions.push(record);
        match result {
            Some(r) => {
                let executed = ActionEvent {
                    tool_name: name.to_string(),
                    capability_tier: label,
                    status: "executed".to_string(),
                    reason: None,
                    arguments_preview: Some(preview),
                    evidence_summary: Some(r.evidence.summary.clone()),
                };
                let ran = name.to_string();
                proof {
                    lemma_views_push(self.executed_action_events@, executed);
                    lemma_views_push(self.tool_results@, r);
                    lemma_texts_push(self.executed_actions@, ran);
                }
                self.executed_actions.push(ran);
                self.executed_action_events.push(executed);
                self.tool_results.push(r);
            },
            None => {},
        }
        assert(self@.requested_tool_calls =~= old(self)@.requested_tool_calls.push(call@.name));
    }
}

/// What the loop does with a provider's reply.
#[derive(Debug, PartialEq, Eq)]
pub enum NextStep {
    /// The run ends with this text.
    Finish(String),
    /// These calls are judged and, where allowed, run.
    RunRound(Vec<ToolCall>),
}

/// What contracts see of a [`NextStep`].
pub enum NextStepView {
    Finish(Seq<char>),
    RunRound(Seq<ToolCallView>),
}

impl View for NextStep {
    type V = NextStepView;

    open spec fn view(&self) -> NextStepView {
        match self {
            NextStep::Finish(text) => NextStepView::Finish(text@),
            NextStep::RunRound(calls) => NextStepView::RunRound(views(calls@)),
        }
    }
}

/// What follows a reply after `rounds_done` rounds of tool calls: a final
/// text ends the run; tool calls are granted a round unless the bound is
/// reached, in which case the run ends with the bound's message.
pub open spec fn step_after(rounds_done: nat, reply: ProviderReplyView) -> NextStepView {
    match reply {
        ProviderReplyView::FinalText(text) => NextStepView::Finish(text),
        ProviderReplyView::ToolCalls(calls) => if rounds_done >= MAX_TOOL_ROUNDS {
            NextStepView::Finish(too_many_rounds_text())
        } else {
            NextStepView::RunRound(calls)
        },
    }
}

/// Decides what follows a provider's reply.
pub fn next_step(rounds_done: usize, reply: ProviderReply) -> (step: NextStep)
    ensures
        step@ == step_after(rounds_done as nat, reply@),
{
    match reply {
        ProviderReply::FinalText(text) => NextStep::Finish(text),
        ProviderReply::ToolCalls(calls) => {
            if rounds_done >= MAX_TOOL_ROUNDS {
                NextStep::Finish(
                    "Provider requested more than 4 tool rounds; stopping for safety.".to_string(),
                )
            } else {
                NextStep::RunRound(calls)
            }
        },
    }
}

/// The loop never grants a round beyond the bound: once
/// [`MAX_TOOL_ROUNDS`] rounds are done, every reply ends the run, and a
/// reply that asks for more tool calls ends it with the bound's message.
pub proof fn lemma_rounds_are_bounded(rounds_done: nat, reply: ProviderReplyView)
    requires
        rounds_done >= MAX_TOOL_ROUNDS,
    ensures
        step_after(rounds_done, reply) is Finish,
        reply is ToolCalls ==> step_after(rounds_done, reply) == NextStepView::Finish(
            too_many_rounds_text(),
        ),
{
}


// ---------------------------------------------------------------------------
// The orchestrator
// ---------------------------------------------------------------------------

/// Couples a provider, the policy, the tool registry and an action backend.
pub struct Orchestrator<P, A> where P: Provider, A: ActionBackend {
    policy: Policy,
    tool_registry: ToolRegistry,
    provider: P,
    action_backend: A,
    audit_counter: u64,
    audit_log: AuditLog,
    last_tool_rounds: usize,
}

/// The identifier of the `n`-th audit event of an orchestrator.
pub open spec fn audit_id_text(n: nat) -> Seq<char> {
    "audit-"@ + padded_decimal(n, 6)
}

/// `awaiting_consent` where some proposal waits for consent, else `completed`.
pub open spec fn execution_state_of(proposed: Seq<ActionEventView>) -> Seq<char> {
    if exists|k: int| 0 <= k < proposed.len() && (#[trigger] proposed[k]).status == "consent_required"@ {
        "awaiting_consent"@
    } else {
        "completed"@
    }
}

/// The evidence summaries of a list of results, in order.
pub open spec fn summaries(results: Seq<ToolResultView>) -> Seq<Seq<char>> {
    Seq::new(results.len(), |i: int| results[i].evidence.summary)
}

/// The response of a finished run.
pub open spec fn response_of(
    run: RunView,
    final_text: Seq<char>,
    audit_id: Seq<char>,
    fingerprint: Seq<char>,
) -> ChatResponseView {
    ChatResponseView {
        final_text,
        audit_id,
        request_fingerprint: fingerprint,
        execution_state: execution_state_of(run.proposed_actions),
        consent_token: None,
        session_id: None,
        consent_request: None,
        actions_executed: run.executed_actions,
        proposed_actions: run.proposed_actions,
        executed_action_events: run.executed_action_events,
        action_events: run.proposed_actions + run.executed_action_events,
    }
}

/// The audit event of a finished run.
pub open spec fn audit_event_of(
    run: RunView,
    audit_id: Seq<char>,
    now_unix_seconds: u64,
    provider: Seq<char>,
) -> AuditEventView {
    AuditEventView {
        audit_id,
        timestamp_unix_seconds: now_unix_seconds,
        provider,
        tool_calls_requested: run.requested_tool_calls,
        tool_calls_executed: run.executed_actions,
        evidence_summaries: summaries(run.tool_results),
        policy_decisions: run.policy_decisions,
    }
}

/// Whether a finished run `run` accounts for `response` and `event`.
pub open spec fn run_explains(
    run: RunView,
    rules: Rules,
    response: ChatResponseView,
    event: AuditEventView,
    now_unix_seconds: u64,
    provider: Seq<char>,
) -> bool {
    &&& run_ok(run, rules)
    &&& response == response_of(
        run,
        response.final_text,
        response.audit_id,
        response.request_fingerprint,
    )
    &&& event == audit_event_of(run, response.audit_id, now_unix_seconds, provider)
}

/// The executed actions of a response are the tool names of its execution
/// events, in their order: a tool that was not allowed to run is named in
/// the proposals only. The audit event lists the same names.
pub proof fn lemma_executed_actions_are_the_events(
    run: RunView,
    rules: Rules,
    response: ChatResponseView,
    event: AuditEventView,
    now_unix_seconds: u64,
    provider: Seq<char>,
)
    requires
        run_explains(run, rules, response, event, now_unix_seconds, provider),
    ensures
        response.actions_executed.len() == response.executed_action_events.len(),
        forall|k: int|
            0 <= k < response.actions_executed.len() ==> (#[trigger] response.actions_executed[k])
                == response.executed_action_events[k].tool_name,
        forall|k: int|
            0 <= k < response.executed_action_events.len() ==> verdict_for(
                rules,
                (#[trigger] response.executed_action_events[k]).tool_name,
            ) is Run,
        event.tool_calls_executed == response.actions_executed,
{
    assert forall|k: int| 0 <= k < response.actions_executed.len() implies (
    #[trigger] response.actions_executed[k]) == response.executed_action_events[k].tool_name by {
        assert(run.executed_actions[k] == run.executed_action_events[k].tool_name);
    }
    assert forall|k: int| 0 <= k < response.executed_action_events.len() implies verdict_for(
        rules,
        (#[trigger] response.executed_action_events[k]).tool_name,
    ) is Run by {
        assert(execution_ok(run.executed_action_events[k], rules, run.tool_results[k].evidence.summary));
    }
}

/// The two event lists of a response, joined.
fn joined_events(a: &Vec<ActionEvent>, b: &Vec<ActionEvent>) -> (out: Vec<ActionEvent>)
    ensures
        views(out@) == views(a@) + views(b@),
{
    let mut out = clone_views(a);
    let mut i: usize = 0;
    while i < b.len()
        invariant
            i <= b.len(),
            views(out@) == views(a@) + views(b@).subrange(0, i as int),
        decreases b.len() - i,
    {
        let e = b[i].clone();
        proof {
            lemma_views_push(out@, e);
        }
        out.push(e);
        i = i + 1;
    }
    out
}

/// The evidence summaries of a list of results.
fn summaries_of(results: &Vec<ToolResult>) -> (out: Vec<String>)
    ensures
        texts(out@) == summaries(views(results@)),
{
    let mut out: Vec<String> = Vec::new();
    let mut i: usize = 0;
    while i < results.len()
        invariant
            i <= results.len(),
            out@.len() == i,
            forall|k: int| 0 <= k < i ==> out@[k]@ == results@[k]@.evidence.summary,
        decreases results.len() - i,
    {
        out.push(results[i].evidence.summary.clone());
        i = i + 1;
    }
    out
}

/// Whether some proposal waits for consent.
fn any_consent_required(proposed: &Vec<ActionEvent>) -> (r: bool)
    ensures
        r == (execution_state_of(views(proposed@)) == "awaiting_consent"@),
{
    proof {
        reveal_strlit("awaiting_consent");
        reveal_strlit("completed");
        assert("awaiting_consent"@ != "completed"@) by {
            assert("awaiting_consent"@.len() == 16);
        }
    }
    let wanted = chars_of("consent_required");
    let mut i: usize = 0;
    while i < proposed.len()
        invariant
            i <= proposed.len(),
            wanted@ == "consent_required"@,
            forall|k: int| 0 <= k < i ==> (#[trigger] views(proposed@)[k]).status != "consent_required"@,
        decreases proposed.len() - i,
    {
        if same_chars(&chars_of(proposed[i].status.as_str()), &wanted) {
            assert(views(proposed@)[i as int].status == "consent_required"@);
            return true;
        }
        i = i + 1;
    }
    false
}

impl<P, A> Orchestrator<P, A> where P: Provider, A: ActionBackend {
    /// The tools this orchestrator offers to its provider.
    pub closed spec fn registry(&self) -> Seq<ToolView> {
        self.tool_registry@
    }

    /// Whether the policy asks for consent even for read-only tools.
    pub closed spec fn always_ask(&self) -> bool {
        self.policy.default_require_confirmation
    }

    /// How many audit events this orchestrator has minted.
    pub closed spec fn audit_count(&self) -> u64 {
        self.audit_counter
    }

    /// The audit events of this orchestrator, oldest first.
    pub closed spec fn log(&self) -> Seq<AuditEventView> {
        self.audit_log@
    }

    /// The provider this orchestrator asks.
    pub closed spec fn provider_view(&self) -> P {
        self.provider
    }

    /// The backend of this orchestrator.
    pub closed spec fn backend_view(&self) -> A {
        self.action_backend
    }

    /// Whether the backend answered the call with the result.
    pub open spec fn executed_by(backend: A, call: ToolCallView, result: ToolResultView) -> bool {
        exists|c: ToolCall, r: ToolResult|
            c@ == call && r@ == result && #[trigger] call_ensures(A::execute_tool, (&backend, &c), r)
    }

    /// Whether every result is the backend's answer to its call.
    pub open spec fn results_by(
        backend: A,
        calls: Seq<ToolCallView>,
        results: Seq<Option<ToolResultView>>,
    ) -> bool {
        forall|j: int|
            0 <= j < calls.len() && j < results.len() && (#[trigger] results[j]) is Some
                ==> Self::executed_by(backend, calls[j], results[j]->Some_0)
    }

    /// Whether `reply` is the provider's answer to a turn with these
    /// messages, these tools on offer, these results so far and these
    /// settings.
    pub open spec fn answer_to(
        provider: P,
        messages: Seq<ChatMessageView>,
        tools: Seq<ToolView>,
        results: Seq<ToolResultView>,
        config: ProviderConfigView,
        reply: ProviderReplyView,
    ) -> bool {
        exists|
            m: &[ChatMessage],
            t: &[crate::ipc::Tool],
            r: &[ToolResult],
            c: &ProviderConfig,
            out: ProviderReply,
        |
            views(m@) == messages && views(t@) == tools && views(r@) == results && c@ == config
                && out@ == reply && #[trigger] call_ensures(P::chat, (&provider, m, t, r, c), out)
    }

    /// Whether the calls of round `i` are what the provider answered when
    /// it was shown the results of the rounds before.
    pub open spec fn round_asked(
        provider: P,
        messages: Seq<ChatMessageView>,
        tools: Seq<ToolView>,
        config: ProviderConfigView,
        rules: Rules,
        rounds: Seq<Seq<ToolCallView>>,
        outs: Seq<Seq<Option<ToolResultView>>>,
        i: int,
    ) -> bool {
        Self::answer_to(
            provider,
            messages,
            tools,
            run_after(rounds, outs, rules, i).tool_results,
            config,
            ProviderReplyView::ToolCalls(rounds[i]),
        )
    }

    /// Whether `rounds` is the course of a run that ends with `final_text`.
    /// The provider is asked once per round, each time with the results
    /// gathered so far, and answers with the calls of the round. No more
    /// than [`MAX_TOOL_ROUNDS`] rounds are run, and none after a round that
    /// leaves the run waiting for consent: such a round ends the run with
    /// the message that confirmation is required. Otherwise the provider is
    /// asked once more, and the run ends as [`step_after`] says of its
    /// answer: with its final text, or with the bound's message.
    pub open spec fn scripted(
        provider: P,
        messages: Seq<ChatMessageView>,
        tools: Seq<ToolView>,
        config: ProviderConfigView,
        rules: Rules,
        rounds: Seq<Seq<ToolCallView>>,
        outs: Seq<Seq<Option<ToolResultView>>>,
        final_text: Seq<char>,
    ) -> bool {
        let n = rounds.len() as int;
        &&& outs.len() == n
        &&& n <= MAX_TOOL_ROUNDS
        &&& forall|i: int|
            0 <= i < n ==> #[trigger] Self::round_asked(
                provider,
                messages,
                tools,
                config,
                rules,
                rounds,
                outs,
                i,
            )
        &&& forall|i: int| 0 <= i < n - 1 ==> !stalled(#[trigger] rounds[i], rules)
        &&& if n > 0 && stalled(rounds[n - 1], rules) {
            final_text == confirmation_required_text()
        } else {
            exists|last: ProviderReplyView| #[trigger]
                Self::answer_to(
                    provider,
                    messages,
                    tools,
                    run_after(rounds, outs, rules, n).tool_results,
                    config,
                    last,
                ) && step_after(n as nat, last) == NextStepView::Finish(final_text)
        }
    }

    /// How many rounds of tool calls the last run granted.
    pub closed spec fn last_rounds(&self) -> nat {
        self.last_tool_rounds as nat
    }

    /// The rules of a run in mode `mode`.
    pub open spec fn rules(&self, mode: ChatMode, user_confirmed: bool) -> Rules {
        Rules {
            registry: self.registry(),
            mode,
            user_confirmed,
            always_ask: self.always_ask(),
        }
    }

    /// An orchestrator that has run nothing yet.
    pub fn new(policy: Policy, tool_registry: ToolRegistry, provider: P, action_backend: A) -> (r:
        Self)
        ensures
            r.registry() == tool_registry@,
            r.always_ask() == policy.default_require_confirmation,
            r.provider_view() == provider,
            r.backend_view() == action_backend,
            r.audit_count() == 0,
            r.log() == Seq::<AuditEventView>::empty(),
            r.last_rounds() == 0,
    {
        Orchestrator {
            policy,
            tool_registry,
            provider,
            action_backend,
            audit_counter: 0,
            audit_log: AuditLog::default(),
            last_tool_rounds: 0,
        }
    }

    /// Runs the one-message conversation `user_message` without the user's
    /// confirmation.
    pub fn handle_user_message(
        &mut self,
        user_message: String,
        provider_config: ProviderConfig,
        mode: ChatMode,
        now_unix_seconds: u64,
    ) -> (response: ChatResponse)
        requires
            old(self).audit_count() < u64::MAX,
        ensures
            Self::outcome_ok(
                *old(self),
                *final(self),
                seq![ChatMessageView { role: "user"@, content: user_message@ }],
                provider_config@,
                mode,
                false,
                now_unix_seconds,
                response@,
            ),
    {
        let mut messages: Vec<ChatMessage> = Vec::new();
        messages.push(ChatMessage { role: "user".to_string(), content: user_message });
        assert(views(messages@) =~= seq![ChatMessageView { role: "user"@, content: user_message@ }]);
        self.run(messages, provider_config, mode, now_unix_seconds)
    }

    /// Runs a conversation without the user's confirmation.
    pub fn run(
        &mut self,
        messages: Vec<ChatMessage>,
        provider_config: ProviderConfig,
        mode: ChatMode,
        now_unix_seconds: u64,
    ) -> (response: ChatResponse)
        requires
            old(self).audit_count() < u64::MAX,
        ensures
            Self::outcome_ok(
                *old(self),
                *final(self),
                views(messages@),
                provider_config@,
                mode,
                false,
                now_unix_seconds,
                response@,
            ),
    {
        self.run_with_confirmation(messages, provider_config, mode, false, now_unix_seconds)
    }

    /// What every run guarantees, whatever the provider and the backend
    /// answered: some rounds of calls tell the whole run, the response and
    /// the new audit event are those of a run that agrees with the rules,
    /// the response carries the next audit identifier and the request's
    /// fingerprint, and no more than [`MAX_TOOL_ROUNDS`] rounds were
    /// granted.
    pub open spec fn outcome_ok(
        before: Self,
        after: Self,
        messages: Seq<ChatMessageView>,
        provider_config: ProviderConfigView,
        mode: ChatMode,
        user_confirmed: bool,
        now_unix_seconds: u64,
        response: ChatResponseView,
    ) -> bool {
        &&& after.registry() == before.registry()
        &&& after.always_ask() == before.always_ask()
        &&& after.provider_view() == before.provider_view()
        &&& after.backend_view() == before.backend_view()
        &&& after.audit_count() == before.audit_count() + 1
        &&& after.last_rounds() <= MAX_TOOL_ROUNDS
        &&& after.log().len() == before.log().len() + 1
        &&& after.log().subrange(0, before.log().len() as int) == before.log()
        &&& response.audit_id == audit_id_text(after.audit_count() as nat)
        &&& response.request_fingerprint == fingerprint_of(
            messages,
            provider_config.provider_name,
            provider_config.model,
            mode,
        )
        &&& exists|run: RunView| #[trigger]
            run_explains(
                run,
                before.rules(mode, user_confirmed),
                response,
                after.log().last(),
                now_unix_seconds,
                provider_config.provider_name,
            )
        &&& exists|rounds: Seq<Seq<ToolCallView>>, outs: Seq<Seq<Option<ToolResultView>>>| #[trigger]
            Self::told(
                before,
                before.rules(mode, user_confirmed),
                messages,
                provider_config,
                response,
                after.log().last(),
                now_unix_seconds,
                after.last_rounds(),
                rounds,
                outs,
            )
    }

    /// Whether `rounds`, with the results `outs` of their calls, tell the
    /// whole run: they are its course from the first question to the
    /// provider to the final text, the backend answered each call that the
    /// rules allow to run with its result, and the response and the event
    /// are those that the calls leave behind, in their order.
    pub open spec fn told(
        before: Self,
        rules: Rules,
        messages: Seq<ChatMessageView>,
        config: ProviderConfigView,
        response: ChatResponseView,
        event: AuditEventView,
        now_unix_seconds: u64,
        granted: nat,
        rounds: Seq<Seq<ToolCallView>>,
        outs: Seq<Seq<Option<ToolResultView>>>,
    ) -> bool {
        let n = rounds.len() as int;
        &&& granted == rounds.len()
        &&& Self::scripted(
            before.provider_view(),
            messages,
            before.registry(),
            config,
            rules,
            rounds,
            outs,
            response.final_text,
        )
        &&& results_fit(joined_calls(rounds, n), joined_results(outs, n), rules)
        &&& Self::results_by(before.backend_view(), joined_calls(rounds, n), joined_results(outs, n))
        &&& run_explains(
            run_after(rounds, outs, rules, n),
            rules,
            response,
            event,
            now_unix_seconds,
            config.provider_name,
        )
    }

    /// Judges one call by the registry and the policy.
    pub fn judge(&self, call: &ToolCall, mode: ChatMode, user_confirmed: bool) -> (verdict: Verdict)
        ensures
            verdict@ == verdict_for(self.rules(mode, user_confirmed), call.name@),
    {
        if !self.tool_registry.has_tool(call.name.as_str()) {
            return Verdict::Unknown;
        }
        match self.policy.authorize(call, &PolicyContext { mode, user_confirmed }) {
            Authorization::Allow => Verdict::Run,
            Authorization::RequireConfirmation { reason } => Verdict::Ask { reason },
            Authorization::Deny { reason } => Verdict::Refuse { reason },
        }
    }

    /// Judges the calls of one round in the order given and runs those the
    /// rules allow. Returns whether some call has to wait for consent.
    pub fn run_round(
        &self,
        state: &mut RunState,
        calls: &Vec<ToolCall>,
        mode: ChatMode,
        user_confirmed: bool,
    ) -> (pending: bool)
        requires
            run_ok(old(state)@, self.rules(mode, user_confirmed)),
        ensures
            run_ok(final(state)@, self.rules(mode, user_confirmed)),
            exists|results: Seq<Option<ToolResultView>>|
                results_fit(views(calls@), results, self.rules(mode, user_confirmed))
                    && Self::results_by(self.backend_view(), views(calls@), results) && final(state)@
                    == #[trigger] extended(
                    old(state)@,
                    views(calls@),
                    results,
                    self.rules(mode, user_confirmed),
                    calls.len() as int,
                ),
            final(state)@.tool_rounds == old(state)@.tool_rounds,
            pending == any_waits(views(calls@), calls.len() as int, self.rules(mode, user_confirmed)),
            final(state)@.proposed_actions == old(state)@.proposed_actions + proposals_upto(
                views(calls@),
                calls.len() as int,
                self.rules(mode, user_confirmed),
            ),
            final(state)@.tool_results.len() == old(state)@.tool_results.len() + runs_upto(
                views(calls@),
                calls.len() as int,
                self.rules(mode, user_confirmed),
            ),
    {
        let ghost rules = self.rules(mode, user_confirmed);
        let ghost mut results: Seq<Option<ToolResultView>> = Seq::empty();
        let mut pending = false;
        let mut i: usize = 0;
        while i < calls.len()
            invariant
                i <= calls.len(),
                rules == self.rules(mode, user_confirmed),
                run_ok(state@, rules),
                results.len() == i,
                forall|j: int|
                    0 <= j < i ==> ((#[trigger] results[j]) is Some <==> verdict_for(
                        rules,
                        calls@[j]@.name,
                    ) is Run),
                state@ == extended(old(state)@, views(calls@), results, rules, i as int),
                forall|j: int|
                    0 <= j < i && (#[trigger] results[j]) is Some ==> Self::executed_by(
                        self.backend_view(),
                        calls@[j]@,
                        results[j]->Some_0,
                    ),
                state@.tool_rounds == old(state)@.tool_rounds,
                pending == any_waits(views(calls@), i as int, rules),
                state@.proposed_actions == old(state)@.proposed_actions + proposals_upto(
                    views(calls@),
                    i as int,
                    rules,
                ),
                state@.tool_results.len() == old(state)@.tool_results.len() + runs_upto(
                    views(calls@),
                    i as int,
                    rules,
                ),
            decreases calls.len() - i,
        {
            let call = &calls[i];
            let verdict = self.judge(call, mode, user_confirmed);
            let result = match verdict {
                Verdict::Run => Some(self.action_backend.execute_tool(call)),
                _ => None,
            };
            proof {
                assert(views(calls@)[i as int] == call@);
                lemma_after_call_ok(state@, call@, rules, opt_view(result));
                lemma_extended_prefix(
                    old(state)@,
                    views(calls@),
                    results,
                    views(calls@),
                    results.push(opt_view(result)),
                    rules,
                    i as int,
                );
                results = results.push(opt_view(result));
            }
            if let Verdict::Ask { .. } = verdict {
                pending = true;
            }
            state.record_call(call, &verdict, result);
            i = i + 1;
        }
        proof {
            assert(results_fit(views(calls@), results, rules));
            assert(Self::results_by(self.backend_view(), views(calls@), results));
        }
        pending
    }

    /// Runs a conversation: asks the provider, judges and runs the tool
    /// calls it proposes round by round, and ends on a final text, on a
    /// round that only leaves calls awaiting consent, or at the bound.
    /// Appends one audit event and returns the response.
    pub fn run_with_confirmation(
        &mut self,
        messages: Vec<ChatMessage>,
        provider_config: ProviderConfig,
        mode: ChatMode,
        user_confirmed: bool,
        now_unix_seconds: u64,
    ) -> (response: ChatResponse)
        requires
            old(self).audit_count() < u64::MAX,
        ensures
            Self::outcome_ok(
                *old(self),
                *final(self),
                views(messages@),
                provider_config@,
                mode,
                user_confirmed,
                now_unix_seconds,
                response@,
            ),
    {
        let ghost rules = self.rules(mode, user_confirmed);
        let audit_id = self.next_audit_id();
        let fingerprint = request_fingerprint(&messages, &provider_config, &mode);
        let tools = self.tool_registry.list();
        let mut state = RunState::new();
        let ghost mut all_calls: Seq<ToolCallView> = Seq::empty();
        let ghost mut all_results: Seq<Option<ToolResultView>> = Seq::empty();
        let ghost mut rounds: Seq<Seq<ToolCallView>> = Seq::empty();
        let ghost mut outs: Seq<Seq<Option<ToolResultView>>> = Seq::empty();
        let ghost asked_of = self.provider_view();
        let ghost shown_messages = views(messages@);
        let ghost offered = self.registry();
        let ghost settings = provider_config@;
        proof {
            lemma_fresh_run_ok(rules);
        }
        let mut final_text = String::new();
        let mut reply = self.provider.chat(
            messages.as_slice(),
            tools.as_slice(),
            state.tool_results.as_slice(),
            &provider_config,
        );
        loop
            invariant_except_break
                Self::answer_to(
                    asked_of,
                    shown_messages,
                    offered,
                    state@.tool_results,
                    settings,
                    reply@,
                ),
                forall|i: int| 0 <= i < rounds.len() ==> !stalled(#[trigger] rounds[i], rules),
            invariant
                asked_of == self.provider_view(),
                shown_messages == views(messages@),
                offered == self.registry(),
                offered == views(tools@),
                settings == provider_config@,
                rounds.len() == state.tool_rounds,
                outs.len() == rounds.len(),
                all_calls == joined_calls(rounds, rounds.len() as int),
                all_results == joined_results(outs, rounds.len() as int),
                forall|i: int|
                    0 <= i < rounds.len() ==> #[trigger] Self::round_asked(
                        asked_of,
                        shown_messages,
                        offered,
                        settings,
                        rules,
                        rounds,
                        outs,
                        i,
                    ),
                rules == self.rules(mode, user_confirmed),
                run_ok(state@, rules),
                state.tool_rounds <= MAX_TOOL_ROUNDS,
                self.audit_count() == old(self).audit_count() + 1,
                self.registry() == old(self).registry(),
                self.always_ask() == old(self).always_ask(),
                self.provider_view() == old(self).provider_view(),
                self.backend_view() == old(self).backend_view(),
                self.log() == old(self).log(),
                results_fit(all_calls, all_results, rules),
                gathered(state@) == replayed(all_calls, all_results, rules, all_calls.len() as int),
                Self::results_by(self.backend_view(), all_calls, all_results),
            ensures
                Self::scripted(
                    asked_of,
                    shown_messages,
                    offered,
                    settings,
                    rules,
                    rounds,
                    outs,
                    final_text@,
                ),
            decreases MAX_TOOL_ROUNDS - state.tool_rounds,
        {
            let ghost asked = reply;
            match next_step(state.tool_rounds, reply) {
                NextStep::Finish(text) => {
                    final_text = text;
                    proof {
                        let n = rounds.len() as int;
                        assert(step_after(n as nat, asked@) == NextStepView::Finish(final_text@));
                        assert(run_after(rounds, outs, rules, n).tool_results == state@.tool_results);
                        assert(Self::answer_to(
                            asked_of,
                            shown_messages,
                            offered,
                            run_after(rounds, outs, rules, n).tool_results,
                            settings,
                            asked@,
                        ));
                        if n > 0 {
                            assert(!stalled(rounds[n - 1], rules));
                        }
                    }
                    break ;
                },
                NextStep::RunRound(calls) => {
                    let ghost before = state@;
                    state.tool_rounds = state.tool_rounds + 1;
                    proof {
                        lemma_rounds_do_not_matter(before, state@, rules);
                    }
                    let ghost started = state@;
                    let results_before: usize = state.tool_results.len();
                    let pending = self.run_round(&mut state, &calls, mode, user_confirmed);
                    proof {
                        let asked_calls = views(calls@);
                        let round = choose|results: Seq<Option<ToolResultView>>|
                            results_fit(asked_calls, results, rules) && Self::results_by(
                                self.backend_view(),
                                asked_calls,
                                results,
                            ) && state@ == #[trigger] extended(
                                started,
                                asked_calls,
                                results,
                                rules,
                                calls.len() as int,
                            );
                        lemma_extended_gathered(started, asked_calls, round, rules, calls.len() as int);
                        lemma_extended_twice(
                            fresh_run(),
                            all_calls,
                            all_results,
                            asked_calls,
                            round,
                            rules,
                            calls.len() as int,
                        );
                        let longer_calls = all_calls + asked_calls;
                        let longer_results = all_results + round;
                        assert(asked@ == ProviderReplyView::ToolCalls(asked_calls));
                        assert(started.tool_results == before.tool_results);
                        assert forall|j: int|
                            0 <= j < longer_calls.len() && (#[trigger] longer_results[j]) is Some
                            implies Self::executed_by(
                                self.backend_view(),
                                longer_calls[j],
                                longer_results[j]->Some_0,
                            )
                        by {
                            if j >= all_calls.len() {
                                assert(longer_calls[j] == asked_calls[j - all_calls.len()]);
                            } else {
                                assert(longer_results[j] == all_results[j]);
                            }
                        }
                        assert forall|j: int| 0 <= j < longer_calls.len()
                            implies ((#[trigger] longer_results[j]) is Some
                                <==> verdict_for(rules, longer_calls[j].name) is Run)
                        by {
                            if j >= all_calls.len() {
                                assert(longer_calls[j] == asked_calls[j - all_calls.len()]);
                            }
                        }
                        let more_rounds = rounds.push(asked_calls);
                        let more_outs = outs.push(round);
                        assert forall|i: int| 0 <= i < more_rounds.len() implies #[trigger] Self::round_asked(
                            asked_of,
                            shown_messages,
                            offered,
                            settings,
                            rules,
                            more_rounds,
                            more_outs,
                            i,
                        ) by {
                            lemma_joined_prefix(rounds, outs, more_rounds, more_outs, i);
                            if i < rounds.len() {
                                assert(Self::round_asked(
                                    asked_of,
                                    shown_messages,
                                    offered,
                                    settings,
                                    rules,
                                    rounds,
                                    outs,
                                    i,
                                ));
                            }
                        }
                        lemma_joined_prefix(rounds, outs, more_rounds, more_outs, rounds.len() as int);
                        all_calls = all_calls + asked_calls;
                        all_results = all_results + round;
                        rounds = more_rounds;
                        outs = more_outs;
                    }
                    if pending && state.tool_results.len() == results_before {
                        final_text =
                            "Confirmation required before executing requested tools.".to_string();
                        break ;
                    }
                    reply = self.provider.chat(
                        messages.as_slice(),
                        tools.as_slice(),
                        state.tool_results.as_slice(),
                        &provider_config,
                    );
                },
            }
        }
        self.last_tool_rounds = state.tool_rounds;
        let event = AuditEvent {
            audit_id: audit_id.clone(),
            timestamp_unix_seconds: now_unix_seconds,
            provider: provider_config.provider_name.clone(),
            tool_calls_requested: clone_texts(&state.requested_tool_calls),
            tool_calls_executed: clone_texts(&state.executed_actions),
            evidence_summaries: summaries_of(&state.tool_results),
            policy_decisions: clone_views(&state.policy_decisions),
        };
        self.audit_log.push(event);
        let action_events = joined_events(&state.proposed_actions, &state.executed_action_events);
        let execution_state = if any_consent_required(&state.proposed_actions) {
            "awaiting_consent".to_string()
        } else {
            "completed".to_string()
        };
        let response = ChatResponse {
            final_text,
            audit_id,
            request_fingerprint: fingerprint,
            execution_state,
            consent_token: None,
            session_id: None,
            consent_request: None,
            actions_executed: state.executed_actions,
            proposed_actions: state.proposed_actions,
            executed_action_events: state.executed_action_events,
            action_events,
        };
        proof {
            let run = state@;
            assert(self.log().subrange(0, old(self).log().len() as int) =~= old(self).log());
            assert(run_explains(
                run,
                old(self).rules(mode, user_confirmed),
                response@,
                self.log().last(),
                now_unix_seconds,
                provider_config@.provider_name,
            ));
            lemma_rounds_do_not_matter(run, gathered(run), rules);
            assert(Self::told(
                *old(self),
                rules,
                views(messages@),
                provider_config@,
                response@,
                self.log().last(),
                now_unix_seconds,
                self.last_rounds(),
                rounds,
                outs,
            ));
        }
        response
    }

    fn next_audit_id(&mut self) -> (id: String)
        requires
            old(self).audit_count() < u64::MAX,
        ensures
            final(self).audit_count() == old(self).audit_count() + 1,
            id@ == audit_id_text(final(self).audit_count() as nat),
            final(self).registry() == old(self).registry(),
            final(self).always_ask() == old(self).always_ask(),
            final(self).provider_view() == old(self).provider_view(),
            final(self).backend_view() == old(self).backend_view(),
            final(self).log() == old(self).log(),
            final(self).last_rounds() == old(self).last_rounds(),
    {
        self.audit_counter = self.audit_counter + 1;
        let mut id = chars_of("audit-");
        push_padded_decimal(&mut id, self.audit_counter, 6);
        string_of(&id)
    }

    /// How many audit identifiers this orchestrator has issued.
    pub fn audits_issued(&self) -> (n: u64)
        ensures
            n == self.audit_count(),
    {
        self.audit_counter
    }

    /// The audit events of this orchestrator, oldest first.
    pub fn audit_events(&self) -> (out: &[AuditEvent])
        ensures
            views(out@) == self.log(),
    {
        self.audit_log.events()
    }
}

/// A tool that runs without the user's confirmation is read-only: where the
/// rules hold no confirmation, every execution event carries the read-only
/// tier, and the mode is best-effort.
pub proof fn lemma_unconfirmed_runs_are_read_only(e: ActionEventView, rules: Rules, summary: Seq<char>)
    requires
        !rules.user_confirmed,
        execution_ok(e, rules, summary),
    ensures
        tier_of(e.tool_name) == CapabilityTier::ReadOnly,
        e.capability_tier == tier_label(CapabilityTier::ReadOnly),
        rules.mode == ChatMode::BestEffort,
{
}


} // verus!
