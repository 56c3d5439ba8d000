//! The data carried over the JSON-RPC surface and kept in the store.
//!
//! Each record comes with a view: the same fields with strings seen as
//! character sequences and lists as sequences. Contracts throughout the
//! crate are stated over these views.

use vstd::prelude::*;
use crate::model::{clone_opt_text, clone_opt_view, clone_texts, clone_views, opt_text, opt_view, views};
use crate::jsonrpc::{
    Error, ErrorView, Id, IdView, Request, Response, ResponseView, DOMAIN_ERROR, INTERNAL_ERROR,
    INVALID_PARAMS, METHOD_NOT_FOUND, PARSE_ERROR,
};
use crate::text::{join2, same_text, texts};

verus! {

/// A JSON document kept as text.
pub type JsonBlob = String;

/// How much a caller wants to be asked before tools run.
#[derive(Clone, Copy, Debug, PartialEq, Eq, Structural)]
pub enum ChatMode {
    /// Every tool call, read-only ones included, waits for consent.
    RequireConfirmation,
    /// Read-only tool calls run at once; all others wait for consent.
    BestEffort,
}

/// A tool descriptor: its dotted name, what it does, and the JSON Schema of its arguments.
#[derive(Debug, PartialEq, Eq)]
pub struct Tool {
    pub name: String,
    pub description: String,
    pub input_json_schema: String,
}

/// What contracts see of a [`Tool`].
pub struct ToolView {
    pub name: Seq<char>,
    pub description: Seq<char>,
    pub input_json_schema: Seq<char>,
}

impl View for Tool {
    type V = ToolView;

    open spec fn view(&self) -> ToolView {
        ToolView {
            name: self.name@,
            description: self.description@,
            input_json_schema: self.input_json_schema@,
        }
    }
}

impl Clone for Tool {
    fn clone(&self) -> (r: Self)
        ensures
            r@ == self@,
    {
        Tool {
            name: self.name.clone(),
            description: self.description.clone(),
            input_json_schema: self.input_json_schema.clone(),
        }
    }
}

/// A tool invocation proposed by a provider. `tool_call_id` is the provider's own
/// handle for the call, used to correlate the result on the next provider turn.
#[derive(Debug, PartialEq, Eq)]
pub struct ToolCall {
    pub name: String,
    pub arguments_json: String,
    pub tool_call_id: Option<String>,
}

/// What contracts see of a [`ToolCall`].
pub struct ToolCallView {
    pub name: Seq<char>,
    pub arguments_json: Seq<char>,
    pub tool_call_id: Option<Seq<char>>,
}

impl View for ToolCall {
    type V = ToolCallView;

    open spec fn view(&self) -> ToolCallView {
        ToolCallView {
            name: self.name@,
            arguments_json: self.arguments_json@,
            tool_call_id: opt_text(self.tool_call_id),
        }
    }
}

impl Clone for ToolCall {
    fn clone(&self) -> (r: Self)
        ensures
            r@ == self@,
    {
        ToolCall {
            name: self.name.clone(),
            arguments_json: self.arguments_json.clone(),
            tool_call_id: clone_opt_text(&self.tool_call_id),
        }
    }
}

/// A short human-readable summary of an executed action and its artifact locations.
#[derive(Debug, PartialEq, Eq)]
pub struct Evidence {
    pub summary: String,
    pub artifacts: Vec<String>,
}

/// What contracts see of a [`Evidence`].
pub struct EvidenceView {
    pub summary: Seq<char>,
    pub artifacts: Seq<Seq<char>>,
}

impl View for Evidence {
    type V = EvidenceView;

    open spec fn view(&self) -> EvidenceView {
        EvidenceView {
            summary: self.summary@,
            artifacts: texts(self.artifacts@),
        }
    }
}

impl Clone for Evidence {
    fn clone(&self) -> (r: Self)
        ensures
            r@ == self@,
    {
        Evidence {
            summary: self.summary.clone(),
            artifacts: clone_texts(&self.artifacts),
        }
    }
}

/// What an action backend returns for one executed tool call.
#[derive(Debug, PartialEq, Eq)]
pub struct ToolResult {
    pub tool_call_id: Option<String>,
    pub name: String,
    pub result_json: String,
    pub evidence: Evidence,
}

/// What contracts see of a [`ToolResult`].
pub struct ToolResultView {
    pub tool_call_id: Option<Seq<char>>,
    pub name: Seq<char>,
    pub result_json: Seq<char>,
    pub evidence: EvidenceView,
}

impl View for ToolResult {
    type V = ToolResultView;

    open spec fn view(&self) -> ToolResultView {
        ToolResultView {
            tool_call_id: opt_text(self.tool_call_id),
            name: self.name@,
            result_json: self.result_json@,
            evidence: self.evidence@,
        }
    }
}

impl Clone for ToolResult {
    fn clone(&self) -> (r: Self)
        ensures
            r@ == self@,
    {
        ToolResult {
            tool_call_id: clone_opt_text(&self.tool_call_id),
            name: self.name.clone(),
            result_json: self.result_json.clone(),
            evidence: self.evidence.clone(),
        }
    }
}

/// One message of a conversation; `role` is `user`, `assistant`, `system` or `tool`.
#[derive(Debug, PartialEq, Eq)]
pub struct ChatMessage {
    pub role: String,
    pub content: String,
}

/// What contracts see of a [`ChatMessage`].
pub struct ChatMessageView {
    pub role: Seq<char>,
    pub content: Seq<char>,
}

impl View for ChatMessage {
    type V = ChatMessageView;

    open spec fn view(&self) -> ChatMessageView {
        ChatMessageView {
            role: self.role@,
            content: self.content@,
        }
    }
}

impl Clone for ChatMessage {
    fn clone(&self) -> (r: Self)
        ensures
            r@ == self@,
    {
        ChatMessage {
            role: self.role.clone(),
            content: self.content.clone(),
        }
    }
}

/// Which provider serves a request, with an optional model and provider settings.
#[derive(Debug, PartialEq, Eq)]
pub struct ProviderConfig {
    pub provider_name: String,
    pub model: Option<String>,
    pub config_json: Option<String>,
}

/// What contracts see of a [`ProviderConfig`].
pub struct ProviderConfigView {
    pub provider_name: Seq<char>,
    pub model: Option<Seq<char>>,
    pub config_json: Option<Seq<char>>,
}

impl View for ProviderConfig {
    type V = ProviderConfigView;

    open spec fn view(&self) -> ProviderConfigView {
        ProviderConfigView {
            provider_name: self.provider_name@,
            model: opt_text(self.model),
            config_json: opt_text(self.config_json),
        }
    }
}

impl Clone for ProviderConfig {
    fn clone(&self) -> (r: Self)
        ensures
            r@ == self@,
    {
        ProviderConfig {
            provider_name: self.provider_name.clone(),
            model: clone_opt_text(&self.model),
            config_json: clone_opt_text(&self.config_json),
        }
    }
}

/// A chat turn as submitted by a caller.
#[derive(Debug, PartialEq, Eq)]
pub struct ChatRequest {
    pub session_id: Option<String>,
    pub messages: Vec<ChatMessage>,
    pub provider_config: ProviderConfig,
    pub mode: ChatMode,
}

/// What contracts see of a [`ChatRequest`].
pub struct ChatRequestView {
    pub session_id: Option<Seq<char>>,
    pub messages: Seq<ChatMessageView>,
    pub provider_config: ProviderConfigView,
    pub mode: ChatMode,
}

impl View for ChatRequest {
    type V = ChatRequestView;

    open spec fn view(&self) -> ChatRequestView {
        ChatRequestView {
            session_id: opt_text(self.session_id),
            messages: views(self.messages@),
            provider_config: self.provider_config@,
            mode: self.mode,
        }
    }
}

impl Clone for ChatRequest {
    fn clone(&self) -> (r: Self)
        ensures
            r@ == self@,
    {
        ChatRequest {
            session_id: clone_opt_text(&self.session_id),
            messages: clone_views(&self.messages),
            provider_config: self.provider_config.clone(),
            mode: self.mode,
        }
    }
}

/// Approves the consent named by `consent_token`.
#[derive(Debug, PartialEq, Eq)]
pub struct ChatApproveRequest {
    pub consent_token: String,
}

/// What contracts see of a [`ChatApproveRequest`].
pub struct ChatApproveRequestView {
    pub consent_token: Seq<char>,
}

impl View for ChatApproveRequest {
    type V = ChatApproveRequestView;

    open spec fn view(&self) -> ChatApproveRequestView {
        ChatApproveRequestView {
            consent_token: self.consent_token@,
        }
    }
}

impl Clone for ChatApproveRequest {
    fn clone(&self) -> (r: Self)
        ensures
            r@ == self@,
    {
        ChatApproveRequest {
            consent_token: self.consent_token.clone(),
        }
    }
}

/// Denies the consent named by `consent_token`.
#[derive(Debug, PartialEq, Eq)]
pub struct ChatDenyRequest {
    pub consent_token: String,
}

/// What contracts see of a [`ChatDenyRequest`].
pub struct ChatDenyRequestView {
    pub consent_token: Seq<char>,
}

impl View for ChatDenyRequest {
    type V = ChatDenyRequestView;

    open spec fn view(&self) -> ChatDenyRequestView {
        ChatDenyRequestView {
            consent_token: self.consent_token@,
        }
    }
}

impl Clone for ChatDenyRequest {
    fn clone(&self) -> (r: Self)
        ensures
            r@ == self@,
    {
        ChatDenyRequest {
            consent_token: self.consent_token.clone(),
        }
    }
}

/// A session as shown in listings.
#[derive(Debug, PartialEq, Eq)]
pub struct SessionSummary {
    pub id: String,
    pub title: String,
    pub created_at_unix_seconds: u64,
    pub updated_at_unix_seconds: u64,
    pub message_count: usize,
}

/// What contracts see of a [`SessionSummary`].
pub struct SessionSummaryView {
    pub id: Seq<char>,
    pub title: Seq<char>,
    pub created_at_unix_seconds: u64,
    pub updated_at_unix_seconds: u64,
    pub message_count: usize,
}

impl View for SessionSummary {
    type V = SessionSummaryView;

    open spec fn view(&self) -> SessionSummaryView {
        SessionSummaryView {
            id: self.id@,
            title: self.title@,
            created_at_unix_seconds: self.created_at_unix_seconds,
            updated_at_unix_seconds: self.updated_at_unix_seconds,
            message_count: self.message_count,
        }
    }
}

impl Clone for SessionSummary {
    fn clone(&self) -> (r: Self)
        ensures
            r@ == self@,
    {
        SessionSummary {
            id: self.id.clone(),
            title: self.title.clone(),
            created_at_unix_seconds: self.created_at_unix_seconds,
            updated_at_unix_seconds: self.updated_at_unix_seconds,
            message_count: self.message_count,
        }
    }
}

/// A stored conversation.
#[derive(Debug, PartialEq, Eq)]
pub struct Session {
    pub id: String,
    pub created_at_unix_seconds: u64,
    pub updated_at_unix_seconds: u64,
    pub title: String,
    pub messages: Vec<ChatMessage>,
}

/// What contracts see of a [`Session`].
pub struct SessionView {
    pub id: Seq<char>,
    pub created_at_unix_seconds: u64,
    pub updated_at_unix_seconds: u64,
    pub title: Seq<char>,
    pub messages: Seq<ChatMessageView>,
}

impl View for Session {
    type V = SessionView;

    open spec fn view(&self) -> SessionView {
        SessionView {
            id: self.id@,
            created_at_unix_seconds: self.created_at_unix_seconds,
            updated_at_unix_seconds: self.updated_at_unix_seconds,
            title: self.title@,
            messages: views(self.messages@),
        }
    }
}

impl Clone for Session {
    fn clone(&self) -> (r: Self)
        ensures
            r@ == self@,
    {
        Session {
            id: self.id.clone(),
            created_at_unix_seconds: self.created_at_unix_seconds,
            updated_at_unix_seconds: self.updated_at_unix_seconds,
            title: self.title.clone(),
            messages: clone_views(&self.messages),
        }
    }
}

/// Creates a session; a blank title is replaced by a numbered one.
#[derive(Debug, PartialEq, Eq)]
pub struct SessionCreateRequest {
    pub title: Option<String>,
}

/// What contracts see of a [`SessionCreateRequest`].
pub struct SessionCreateRequestView {
    pub title: Option<Seq<char>>,
}

impl View for SessionCreateRequest {
    type V = SessionCreateRequestView;

    open spec fn view(&self) -> SessionCreateRequestView {
        SessionCreateRequestView {
            title: opt_text(self.title),
        }
    }
}

impl Clone for SessionCreateRequest {
    fn clone(&self) -> (r: Self)
        ensures
            r@ == self@,
    {
        SessionCreateRequest {
            title: clone_opt_text(&self.title),
        }
    }
}

/// Names the session to fetch.
#[derive(Debug, PartialEq, Eq)]
pub struct SessionGetRequest {
    pub session_id: String,
}

/// What contracts see of a [`SessionGetRequest`].
pub struct SessionGetRequestView {
    pub session_id: Seq<char>,
}

impl View for SessionGetRequest {
    type V = SessionGetRequestView;

    open spec fn view(&self) -> SessionGetRequestView {
        SessionGetRequestView {
            session_id: self.session_id@,
        }
    }
}

impl Clone for SessionGetRequest {
    fn clone(&self) -> (r: Self)
        ensures
            r@ == self@,
    {
        SessionGetRequest {
            session_id: self.session_id.clone(),
        }
    }
}

/// Names the session to delete.
#[derive(Debug, PartialEq, Eq)]
pub struct SessionDeleteRequest {
    pub session_id: String,
}

/// What contracts see of a [`SessionDeleteRequest`].
pub struct SessionDeleteRequestView {
    pub session_id: Seq<char>,
}

impl View for SessionDeleteRequest {
    type V = SessionDeleteRequestView;

    open spec fn view(&self) -> SessionDeleteRequestView {
        SessionDeleteRequestView {
            session_id: self.session_id@,
        }
    }
}

impl Clone for SessionDeleteRequest {
    fn clone(&self) -> (r: Self)
        ensures
            r@ == self@,
    {
        SessionDeleteRequest {
            session_id: self.session_id.clone(),
        }
    }
}

/// Whether a delete removed anything.
#[derive(Debug, PartialEq, Eq)]
pub struct SessionDeleteResponse {
    pub deleted: bool,
}

/// What contracts see of a [`SessionDeleteResponse`].
pub struct SessionDeleteResponseView {
    pub deleted: bool,
}

impl View for SessionDeleteResponse {
    type V = SessionDeleteResponseView;

    open spec fn view(&self) -> SessionDeleteResponseView {
        SessionDeleteResponseView {
            deleted: self.deleted,
        }
    }
}

impl Clone for SessionDeleteResponse {
    fn clone(&self) -> (r: Self)
        ensures
            r@ == self@,
    {
        SessionDeleteResponse {
            deleted: self.deleted,
        }
    }
}

/// Messages to append to a session.
#[derive(Debug, PartialEq, Eq)]
pub struct SessionMessagesAppendRequest {
    pub session_id: String,
    pub messages: Vec<ChatMessage>,
}

/// What contracts see of a [`SessionMessagesAppendRequest`].
pub struct SessionMessagesAppendRequestView {
    pub session_id: Seq<char>,
    pub messages: Seq<ChatMessageView>,
}

impl View for SessionMessagesAppendRequest {
    type V = SessionMessagesAppendRequestView;

    open spec fn view(&self) -> SessionMessagesAppendRequestView {
        SessionMessagesAppendRequestView {
            session_id: self.session_id@,
            messages: views(self.messages@),
        }
    }
}

impl Clone for SessionMessagesAppendRequest {
    fn clone(&self) -> (r: Self)
        ensures
            r@ == self@,
    {
        SessionMessagesAppendRequest {
            session_id: self.session_id.clone(),
            messages: clone_views(&self.messages),
        }
    }
}

/// The session after an append.
#[derive(Debug, PartialEq, Eq)]
pub struct SessionMessagesAppendResponse {
    pub session: Session,
}

/// What contracts see of a [`SessionMessagesAppendResponse`].
pub struct SessionMessagesAppendResponseView {
    pub session: SessionView,
}

impl View for SessionMessagesAppendResponse {
    type V = SessionMessagesAppendResponseView;

    open spec fn view(&self) -> SessionMessagesAppendResponseView {
        SessionMessagesAppendResponseView {
            session: self.session@,
        }
    }
}

impl Clone for SessionMessagesAppendResponse {
    fn clone(&self) -> (r: Self)
        ensures
            r@ == self@,
    {
        SessionMessagesAppendResponse {
            session: self.session.clone(),
        }
    }
}

/// A provider as shown in listings.
#[derive(Debug, PartialEq, Eq)]
pub struct ProviderInfo {
    pub name: String,
    pub enabled: bool,
    pub is_active: bool,
    pub has_auth: bool,
    pub config_summary: String,
}

/// What contracts see of a [`ProviderInfo`].
pub struct ProviderInfoView {
    pub name: Seq<char>,
    pub enabled: bool,
    pub is_active: bool,
    pub has_auth: bool,
    pub config_summary: Seq<char>,
}

impl View for ProviderInfo {
    type V = ProviderInfoView;

    open spec fn view(&self) -> ProviderInfoView {
        ProviderInfoView {
            name: self.name@,
            enabled: self.enabled,
            is_active: self.is_active,
            has_auth: self.has_auth,
            config_summary: self.config_summary@,
        }
    }
}

impl Clone for ProviderInfo {
    fn clone(&self) -> (r: Self)
        ensures
            r@ == self@,
    {
        ProviderInfo {
            name: self.name.clone(),
            enabled: self.enabled,
            is_active: self.is_active,
            has_auth: self.has_auth,
            config_summary: self.config_summary.clone(),
        }
    }
}

/// Selects the active provider.
#[derive(Debug, PartialEq, Eq)]
pub struct ProvidersSetRequest {
    pub provider_name: String,
}

/// What contracts see of a [`ProvidersSetRequest`].
pub struct ProvidersSetRequestView {
    pub provider_name: Seq<char>,
}

impl View for ProvidersSetRequest {
    type V = ProvidersSetRequestView;

    open spec fn view(&self) -> ProvidersSetRequestView {
        ProvidersSetRequestView {
            provider_name: self.provider_name@,
        }
    }
}

impl Clone for ProvidersSetRequest {
    fn clone(&self) -> (r: Self)
        ensures
            r@ == self@,
    {
        ProvidersSetRequest {
            provider_name: self.provider_name.clone(),
        }
    }
}

/// Names the provider whose settings are wanted; the active one by default.
#[derive(Debug, PartialEq, Eq)]
pub struct ProviderConfigGetRequest {
    pub provider_name: Option<String>,
}

/// What contracts see of a [`ProviderConfigGetRequest`].
pub struct ProviderConfigGetRequestView {
    pub provider_name: Option<Seq<char>>,
}

impl View for ProviderConfigGetRequest {
    type V = ProviderConfigGetRequestView;

    open spec fn view(&self) -> ProviderConfigGetRequestView {
        ProviderConfigGetRequestView {
            provider_name: opt_text(self.provider_name),
        }
    }
}

impl Clone for ProviderConfigGetRequest {
    fn clone(&self) -> (r: Self)
        ensures
            r@ == self@,
    {
        ProviderConfigGetRequest {
            provider_name: clone_opt_text(&self.provider_name),
        }
    }
}

/// A provider's settings as shown to a caller, inline secrets masked.
#[derive(Debug, PartialEq, Eq)]
pub struct ProviderConfigRecord {
    pub provider_name: String,
    pub is_active: bool,
    pub config_json: String,
}

/// What contracts see of a [`ProviderConfigRecord`].
pub struct ProviderConfigRecordView {
    pub provider_name: Seq<char>,
    pub is_active: bool,
    pub config_json: Seq<char>,
}

impl View for ProviderConfigRecord {
    type V = ProviderConfigRecordView;

    open spec fn view(&self) -> ProviderConfigRecordView {
        ProviderConfigRecordView {
            provider_name: self.provider_name@,
            is_active: self.is_active,
            config_json: self.config_json@,
        }
    }
}

impl Clone for ProviderConfigRecord {
    fn clone(&self) -> (r: Self)
        ensures
            r@ == self@,
    {
        ProviderConfigRecord {
            provider_name: self.provider_name.clone(),
            is_active: self.is_active,
            config_json: self.config_json.clone(),
        }
    }
}

/// Stores settings for a provider, exactly as given.
#[derive(Debug, PartialEq, Eq)]
pub struct ProviderConfigSetRequest {
    pub provider_name: String,
    pub config_json: String,
}

/// What contracts see of a [`ProviderConfigSetRequest`].
pub struct ProviderConfigSetRequestView {
    pub provider_name: Seq<char>,
    pub config_json: Seq<char>,
}

impl View for ProviderConfigSetRequest {
    type V = ProviderConfigSetRequestView;

    open spec fn view(&self) -> ProviderConfigSetRequestView {
        ProviderConfigSetRequestView {
            provider_name: self.provider_name@,
            config_json: self.config_json@,
        }
    }
}

impl Clone for ProviderConfigSetRequest {
    fn clone(&self) -> (r: Self)
        ensures
            r@ == self@,
    {
        ProviderConfigSetRequest {
            provider_name: self.provider_name.clone(),
            config_json: self.config_json.clone(),
        }
    }
}

/// Acknowledges stored settings.
#[derive(Debug, PartialEq, Eq)]
pub struct ProviderConfigSetResponse {
    pub provider_name: String,
    pub has_auth: bool,
}

/// What contracts see of a [`ProviderConfigSetResponse`].
pub struct ProviderConfigSetResponseView {
    pub provider_name: Seq<char>,
    pub has_auth: bool,
}

impl View for ProviderConfigSetResponse {
    type V = ProviderConfigSetResponseView;

    open spec fn view(&self) -> ProviderConfigSetResponseView {
        ProviderConfigSetResponseView {
            provider_name: self.provider_name@,
            has_auth: self.has_auth,
        }
    }
}

impl Clone for ProviderConfigSetResponse {
    fn clone(&self) -> (r: Self)
        ensures
            r@ == self@,
    {
        ProviderConfigSetResponse {
            provider_name: self.provider_name.clone(),
            has_auth: self.has_auth,
        }
    }
}

/// A registered MCP server; `status` is `stopped` or `running`.
#[derive(Debug, PartialEq, Eq)]
pub struct McpServerRecord {
    pub id: String,
    pub name: String,
    pub command: String,
    pub args: Vec<String>,
    pub status: String,
}

/// What contracts see of a [`McpServerRecord`].
pub struct McpServerRecordView {
    pub id: Seq<char>,
    pub name: Seq<char>,
    pub command: Seq<char>,
    pub args: Seq<Seq<char>>,
    pub status: Seq<char>,
}

impl View for McpServerRecord {
    type V = McpServerRecordView;

    open spec fn view(&self) -> McpServerRecordView {
        McpServerRecordView {
            id: self.id@,
            name: self.name@,
            command: self.command@,
            args: texts(self.args@),
            status: self.status@,
        }
    }
}

impl Clone for McpServerRecord {
    fn clone(&self) -> (r: Self)
        ensures
            r@ == self@,
    {
        McpServerRecord {
            id: self.id.clone(),
            name: self.name.clone(),
            command: self.command.clone(),
            args: clone_texts(&self.args),
            status: self.status.clone(),
        }
    }
}

/// Registers an MCP server.
#[derive(Debug, PartialEq, Eq)]
pub struct McpServerAddRequest {
    pub name: String,
    pub command: String,
    pub args: Vec<String>,
}

/// What contracts see of a [`McpServerAddRequest`].
pub struct McpServerAddRequestView {
    pub name: Seq<char>,
    pub command: Seq<char>,
    pub args: Seq<Seq<char>>,
}

impl View for McpServerAddRequest {
    type V = McpServerAddRequestView;

    open spec fn view(&self) -> McpServerAddRequestView {
        McpServerAddRequestView {
            name: self.name@,
            command: self.command@,
            args: texts(self.args@),
        }
    }
}

impl Clone for McpServerAddRequest {
    fn clone(&self) -> (r: Self)
        ensures
            r@ == self@,
    {
        McpServerAddRequest {
            name: self.name.clone(),
            command: self.command.clone(),
            args: clone_texts(&self.args),
        }
    }
}

/// Names the MCP server to remove.
#[derive(Debug, PartialEq, Eq)]
pub struct McpServerRemoveRequest {
    pub server_id: String,
}

/// What contracts see of a [`McpServerRemoveRequest`].
pub struct McpServerRemoveRequestView {
    pub server_id: Seq<char>,
}

impl View for McpServerRemoveRequest {
    type V = McpServerRemoveRequestView;

    open spec fn view(&self) -> McpServerRemoveRequestView {
        McpServerRemoveRequestView {
            server_id: self.server_id@,
        }
    }
}

impl Clone for McpServerRemoveRequest {
    fn clone(&self) -> (r: Self)
        ensures
            r@ == self@,
    {
        McpServerRemoveRequest {
            server_id: self.server_id.clone(),
        }
    }
}

/// Names the MCP server to start or stop.
#[derive(Debug, PartialEq, Eq)]
pub struct McpServerStateRequest {
    pub server_id: String,
}

/// What contracts see of a [`McpServerStateRequest`].
pub struct McpServerStateRequestView {
    pub server_id: Seq<char>,
}

impl View for McpServerStateRequest {
    type V = McpServerStateRequestView;

    open spec fn view(&self) -> McpServerStateRequestView {
        McpServerStateRequestView {
            server_id: self.server_id@,
        }
    }
}

impl Clone for McpServerStateRequest {
    fn clone(&self) -> (r: Self)
        ensures
            r@ == self@,
    {
        McpServerStateRequest {
            server_id: self.server_id.clone(),
        }
    }
}

/// The record an MCP operation touched, if it found one.
#[derive(Debug, PartialEq, Eq)]
pub struct McpServerMutationResponse {
    pub ok: bool,
    pub server: Option<McpServerRecord>,
}

/// What contracts see of a [`McpServerMutationResponse`].
pub struct McpServerMutationResponseView {
    pub ok: bool,
    pub server: Option<McpServerRecordView>,
}

impl View for McpServerMutationResponse {
    type V = McpServerMutationResponseView;

    open spec fn view(&self) -> McpServerMutationResponseView {
        McpServerMutationResponseView {
            ok: self.ok,
            server: opt_view(self.server),
        }
    }
}

impl Clone for McpServerMutationResponse {
    fn clone(&self) -> (r: Self)
        ensures
            r@ == self@,
    {
        McpServerMutationResponse {
            ok: self.ok,
            server: clone_opt_view(&self.server),
        }
    }
}

/// Names the directory to open as the project root.
#[derive(Debug, PartialEq, Eq)]
pub struct ProjectOpenRequest {
    pub path: String,
}

/// What contracts see of a [`ProjectOpenRequest`].
pub struct ProjectOpenRequestView {
    pub path: Seq<char>,
}

impl View for ProjectOpenRequest {
    type V = ProjectOpenRequestView;

    open spec fn view(&self) -> ProjectOpenRequestView {
        ProjectOpenRequestView {
            path: self.path@,
        }
    }
}

impl Clone for ProjectOpenRequest {
    fn clone(&self) -> (r: Self)
        ensures
            r@ == self@,
    {
        ProjectOpenRequest {
            path: self.path.clone(),
        }
    }
}

/// What was found at the requested project path.
#[derive(Debug, PartialEq, Eq)]
pub struct ProjectOpenResponse {
    pub path: String,
    pub exists: bool,
    pub is_dir: bool,
}

/// What contracts see of a [`ProjectOpenResponse`].
pub struct ProjectOpenResponseView {
    pub path: Seq<char>,
    pub exists: bool,
    pub is_dir: bool,
}

impl View for ProjectOpenResponse {
    type V = ProjectOpenResponseView;

    open spec fn view(&self) -> ProjectOpenResponseView {
        ProjectOpenResponseView {
            path: self.path@,
            exists: self.exists,
            is_dir: self.is_dir,
        }
    }
}

impl Clone for ProjectOpenResponse {
    fn clone(&self) -> (r: Self)
        ensures
            r@ == self@,
    {
        ProjectOpenResponse {
            path: self.path.clone(),
            exists: self.exists,
            is_dir: self.is_dir,
        }
    }
}

/// Names the path to inspect; the open project by default.
#[derive(Debug, PartialEq, Eq)]
pub struct ProjectStatusRequest {
    pub path: Option<String>,
}

/// What contracts see of a [`ProjectStatusRequest`].
pub struct ProjectStatusRequestView {
    pub path: Option<Seq<char>>,
}

impl View for ProjectStatusRequest {
    type V = ProjectStatusRequestView;

    open spec fn view(&self) -> ProjectStatusRequestView {
        ProjectStatusRequestView {
            path: opt_text(self.path),
        }
    }
}

impl Clone for ProjectStatusRequest {
    fn clone(&self) -> (r: Self)
        ensures
            r@ == self@,
    {
        ProjectStatusRequest {
            path: clone_opt_text(&self.path),
        }
    }
}

/// What was found at the inspected path.
#[derive(Debug, PartialEq, Eq)]
pub struct ProjectStatusResponse {
    pub path: String,
    pub exists: bool,
    pub is_dir: bool,
    pub entry_count: usize,
}

/// What contracts see of a [`ProjectStatusResponse`].
pub struct ProjectStatusResponseView {
    pub path: Seq<char>,
    pub exists: bool,
    pub is_dir: bool,
    pub entry_count: usize,
}

impl View for ProjectStatusResponse {
    type V = ProjectStatusResponseView;

    open spec fn view(&self) -> ProjectStatusResponseView {
        ProjectStatusResponseView {
            path: self.path@,
            exists: self.exists,
            is_dir: self.is_dir,
            entry_count: self.entry_count,
        }
    }
}

impl Clone for ProjectStatusResponse {
    fn clone(&self) -> (r: Self)
        ensures
            r@ == self@,
    {
        ProjectStatusResponse {
            path: self.path.clone(),
            exists: self.exists,
            is_dir: self.is_dir,
            entry_count: self.entry_count,
        }
    }
}

/// One persisted audit record. Entries are appended and never changed.
#[derive(Debug, PartialEq, Eq)]
pub struct AuditEntry {
    pub audit_id: String,
    pub timestamp_unix_seconds: u64,
    pub session_id: Option<String>,
    pub provider: String,
    pub policy_decisions: Vec<String>,
    pub proposed_tool_calls: Vec<String>,
    pub executed_actions: Vec<String>,
    pub evidence_summaries: Vec<String>,
}

/// What contracts see of a [`AuditEntry`].
pub struct AuditEntryView {
    pub audit_id: Seq<char>,
    pub timestamp_unix_seconds: u64,
    pub session_id: Option<Seq<char>>,
    pub provider: Seq<char>,
    pub policy_decisions: Seq<Seq<char>>,
    pub proposed_tool_calls: Seq<Seq<char>>,
    pub executed_actions: Seq<Seq<char>>,
    pub evidence_summaries: Seq<Seq<char>>,
}

impl View for AuditEntry {
    type V = AuditEntryView;

    open spec fn view(&self) -> AuditEntryView {
        AuditEntryView {
            audit_id: self.audit_id@,
            timestamp_unix_seconds: self.timestamp_unix_seconds,
            session_id: opt_text(self.session_id),
            provider: self.provider@,
            policy_decisions: texts(self.policy_decisions@),
            proposed_tool_calls: texts(self.proposed_tool_calls@),
            executed_actions: texts(self.executed_actions@),
            evidence_summaries: texts(self.evidence_summaries@),
        }
    }
}

impl Clone for AuditEntry {
    fn clone(&self) -> (r: Self)
        ensures
            r@ == self@,
    {
        AuditEntry {
            audit_id: self.audit_id.clone(),
            timestamp_unix_seconds: self.timestamp_unix_seconds,
            session_id: clone_opt_text(&self.session_id),
            provider: self.provider.clone(),
            policy_decisions: clone_texts(&self.policy_decisions),
            proposed_tool_calls: clone_texts(&self.proposed_tool_calls),
            executed_actions: clone_texts(&self.executed_actions),
            evidence_summaries: clone_texts(&self.evidence_summaries),
        }
    }
}

/// Filters and bounds an audit listing.
#[derive(Debug, PartialEq, Eq)]
pub struct AuditListRequest {
    pub session_id: Option<String>,
    pub limit: Option<usize>,
}

/// What contracts see of a [`AuditListRequest`].
pub struct AuditListRequestView {
    pub session_id: Option<Seq<char>>,
    pub limit: Option<usize>,
}

impl View for AuditListRequest {
    type V = AuditListRequestView;

    open spec fn view(&self) -> AuditListRequestView {
        AuditListRequestView {
            session_id: opt_text(self.session_id),
            limit: self.limit,
        }
    }
}

impl Clone for AuditListRequest {
    fn clone(&self) -> (r: Self)
        ensures
            r@ == self@,
    {
        AuditListRequest {
            session_id: clone_opt_text(&self.session_id),
            limit: self.limit,
        }
    }
}

/// Names the audit entry to fetch.
#[derive(Debug, PartialEq, Eq)]
pub struct AuditGetRequest {
    pub audit_id: String,
}

/// What contracts see of a [`AuditGetRequest`].
pub struct AuditGetRequestView {
    pub audit_id: Seq<char>,
}

impl View for AuditGetRequest {
    type V = AuditGetRequestView;

    open spec fn view(&self) -> AuditGetRequestView {
        AuditGetRequestView {
            audit_id: self.audit_id@,
        }
    }
}

impl Clone for AuditGetRequest {
    fn clone(&self) -> (r: Self)
        ensures
            r@ == self@,
    {
        AuditGetRequest {
            audit_id: self.audit_id.clone(),
        }
    }
}

/// An aggregate report on the service's state.
#[derive(Debug, PartialEq, Eq)]
pub struct SystemHealthResponse {
    pub ok: bool,
    pub active_provider: Option<String>,
    pub provider_count: usize,
    pub pending_consents: usize,
    pub mcp_servers_total: usize,
    pub mcp_servers_running: usize,
    pub project_path: Option<String>,
    pub warnings: Vec<String>,
}

/// What contracts see of a [`SystemHealthResponse`].
pub struct SystemHealthResponseView {
    pub ok: bool,
    pub active_provider: Option<Seq<char>>,
    pub provider_count: usize,
    pub pending_consents: usize,
    pub mcp_servers_total: usize,
    pub mcp_servers_running: usize,
    pub project_path: Option<Seq<char>>,
    pub warnings: Seq<Seq<char>>,
}

impl View for SystemHealthResponse {
    type V = SystemHealthResponseView;

    open spec fn view(&self) -> SystemHealthResponseView {
        SystemHealthResponseView {
            ok: self.ok,
            active_provider: opt_text(self.active_provider),
            provider_count: self.provider_count,
            pending_consents: self.pending_consents,
            mcp_servers_total: self.mcp_servers_total,
            mcp_servers_running: self.mcp_servers_running,
            project_path: opt_text(self.project_path),
            warnings: texts(self.warnings@),
        }
    }
}

impl Clone for SystemHealthResponse {
    fn clone(&self) -> (r: Self)
        ensures
            r@ == self@,
    {
        SystemHealthResponse {
            ok: self.ok,
            active_provider: clone_opt_text(&self.active_provider),
            provider_count: self.provider_count,
            pending_consents: self.pending_consents,
            mcp_servers_total: self.mcp_servers_total,
            mcp_servers_running: self.mcp_servers_running,
            project_path: clone_opt_text(&self.project_path),
            warnings: clone_texts(&self.warnings),
        }
    }
}

/// A consent request awaiting, or past, its resolution. `status` is `pending`,
/// `approved`, `denied` or `expired`.
#[derive(Debug, PartialEq, Eq)]
pub struct PendingConsentRecord {
    pub consent_id: String,
    pub session_id: Option<String>,
    pub requested_at_unix_seconds: u64,
    pub expires_at_unix_seconds: u64,
    pub tool_name: String,
    pub capability_tier: String,
    pub status: String,
    pub rationale: String,
    pub arguments_preview: Option<String>,
    pub request_fingerprint: String,
}

/// What contracts see of a [`PendingConsentRecord`].
pub struct PendingConsentRecordView {
    pub consent_id: Seq<char>,
    pub session_id: Option<Seq<char>>,
    pub requested_at_unix_seconds: u64,
    pub expires_at_unix_seconds: u64,
    pub tool_name: Seq<char>,
    pub capability_tier: Seq<char>,
    pub status: Seq<char>,
    pub rationale: Seq<char>,
    pub arguments_preview: Option<Seq<char>>,
    pub request_fingerprint: Seq<char>,
}

impl View for PendingConsentRecord {
    type V = PendingConsentRecordView;

    open spec fn view(&self) -> PendingConsentRecordView {
        PendingConsentRecordView {
            consent_id: self.consent_id@,
            session_id: opt_text(self.session_id),
            requested_at_unix_seconds: self.requested_at_unix_seconds,
            expires_at_unix_seconds: self.expires_at_unix_seconds,
            tool_name: self.tool_name@,
            capability_tier: self.capability_tier@,
            status: self.status@,
            rationale: self.rationale@,
            arguments_preview: opt_text(self.arguments_preview),
            request_fingerprint: self.request_fingerprint@,
        }
    }
}

impl Clone for PendingConsentRecord {
    fn clone(&self) -> (r: Self)
        ensures
            r@ == self@,
    {
        PendingConsentRecord {
            consent_id: self.consent_id.clone(),
            session_id: clone_opt_text(&self.session_id),
            requested_at_unix_seconds: self.requested_at_unix_seconds,
            expires_at_unix_seconds: self.expires_at_unix_seconds,
            tool_name: self.tool_name.clone(),
            capability_tier: self.capability_tier.clone(),
            status: self.status.clone(),
            rationale: self.rationale.clone(),
            arguments_preview: clone_opt_text(&self.arguments_preview),
            request_fingerprint: self.request_fingerprint.clone(),
        }
    }
}

/// Filters a consent listing.
#[derive(Debug, PartialEq, Eq)]
pub struct ConsentListRequest {
    pub status: Option<String>,
    pub session_id: Option<String>,
}

/// What contracts see of a [`ConsentListRequest`].
pub struct ConsentListRequestView {
    pub status: Option<Seq<char>>,
    pub session_id: Option<Seq<char>>,
}

impl View for ConsentListRequest {
    type V = ConsentListRequestView;

    open spec fn view(&self) -> ConsentListRequestView {
        ConsentListRequestView {
            status: opt_text(self.status),
            session_id: opt_text(self.session_id),
        }
    }
}

impl Clone for ConsentListRequest {
    fn clone(&self) -> (r: Self)
        ensures
            r@ == self@,
    {
        ConsentListRequest {
            status: clone_opt_text(&self.status),
            session_id: clone_opt_text(&self.session_id),
        }
    }
}

/// Names the consent to approve or deny.
#[derive(Debug, PartialEq, Eq)]
pub struct ConsentActionRequest {
    pub consent_id: String,
}

/// What contracts see of a [`ConsentActionRequest`].
pub struct ConsentActionRequestView {
    pub consent_id: Seq<char>,
}

impl View for ConsentActionRequest {
    type V = ConsentActionRequestView;

    open spec fn view(&self) -> ConsentActionRequestView {
        ConsentActionRequestView {
            consent_id: self.consent_id@,
        }
    }
}

impl Clone for ConsentActionRequest {
    fn clone(&self) -> (r: Self)
        ensures
            r@ == self@,
    {
        ConsentActionRequest {
            consent_id: self.consent_id.clone(),
        }
    }
}

/// A nested request carried by `rpc.raw`.
#[derive(Debug, PartialEq, Eq)]
pub struct RawRpcRequest {
    pub id: Option<u64>,
    pub method: String,
    pub params_json: String,
}

/// What contracts see of a [`RawRpcRequest`].
pub struct RawRpcRequestView {
    pub id: Option<u64>,
    pub method: Seq<char>,
    pub params_json: Seq<char>,
}

impl View for RawRpcRequest {
    type V = RawRpcRequestView;

    open spec fn view(&self) -> RawRpcRequestView {
        RawRpcRequestView {
            id: self.id,
            method: self.method@,
            params_json: self.params_json@,
        }
    }
}

impl Clone for RawRpcRequest {
    fn clone(&self) -> (r: Self)
        ensures
            r@ == self@,
    {
        RawRpcRequest {
            id: self.id,
            method: self.method.clone(),
            params_json: self.params_json.clone(),
        }
    }
}

/// What happened to one proposed tool call. `status` is `approved`, `executed`,
/// `consent_required` or `denied`.
#[derive(Debug, PartialEq, Eq)]
pub struct ActionEvent {
    pub tool_name: String,
    pub capability_tier: String,
    pub status: String,
    pub reason: Option<String>,
    pub arguments_preview: Option<String>,
    pub evidence_summary: Option<String>,
}

/// What contracts see of a [`ActionEvent`].
pub struct ActionEventView {
    pub tool_name: Seq<char>,
    pub capability_tier: Seq<char>,
    pub status: Seq<char>,
    pub reason: Option<Seq<char>>,
    pub arguments_preview: Option<Seq<char>>,
    pub evidence_summary: Option<Seq<char>>,
}

impl View for ActionEvent {
    type V = ActionEventView;

    open spec fn view(&self) -> ActionEventView {
        ActionEventView {
            tool_name: self.tool_name@,
            capability_tier: self.capability_tier@,
            status: self.status@,
            reason: opt_text(self.reason),
            arguments_preview: opt_text(self.arguments_preview),
            evidence_summary: opt_text(self.evidence_summary),
        }
    }
}

impl Clone for ActionEvent {
    fn clone(&self) -> (r: Self)
        ensures
            r@ == self@,
    {
        ActionEvent {
            tool_name: self.tool_name.clone(),
            capability_tier: self.capability_tier.clone(),
            status: self.status.clone(),
            reason: clone_opt_text(&self.reason),
            arguments_preview: clone_opt_text(&self.arguments_preview),
            evidence_summary: clone_opt_text(&self.evidence_summary),
        }
    }
}

/// What a user is asked to approve.
#[derive(Debug, PartialEq, Eq)]
pub struct ConsentRequest {
    pub scope: String,
    pub human_summary: String,
    pub risk_factors: Vec<String>,
    pub requires_extra_confirmation_click: bool,
    pub expires_at_unix_seconds: Option<u64>,
    pub ttl_seconds: Option<u64>,
}

/// What contracts see of a [`ConsentRequest`].
pub struct ConsentRequestView {
    pub scope: Seq<char>,
    pub human_summary: Seq<char>,
    pub risk_factors: Seq<Seq<char>>,
    pub requires_extra_confirmation_click: bool,
    pub expires_at_unix_seconds: Option<u64>,
    pub ttl_seconds: Option<u64>,
}

impl View for ConsentRequest {
    type V = ConsentRequestView;

    open spec fn view(&self) -> ConsentRequestView {
        ConsentRequestView {
            scope: self.scope@,
            human_summary: self.human_summary@,
            risk_factors: texts(self.risk_factors@),
            requires_extra_confirmation_click: self.requires_extra_confirmation_click,
            expires_at_unix_seconds: self.expires_at_unix_seconds,
            ttl_seconds: self.ttl_seconds,
        }
    }
}

impl Clone for ConsentRequest {
    fn clone(&self) -> (r: Self)
        ensures
            r@ == self@,
    {
        ConsentRequest {
            scope: self.scope.clone(),
            human_summary: self.human_summary.clone(),
            risk_factors: clone_texts(&self.risk_factors),
            requires_extra_confirmation_click: self.requires_extra_confirmation_click,
            expires_at_unix_seconds: self.expires_at_unix_seconds,
            ttl_seconds: self.ttl_seconds,
        }
    }
}

/// The outcome of a chat turn, an approval or a denial.
#[derive(Debug, PartialEq, Eq)]
pub struct ChatResponse {
    pub final_text: String,
    pub audit_id: String,
    pub request_fingerprint: String,
    pub execution_state: String,
    pub consent_token: Option<String>,
    pub session_id: Option<String>,
    pub consent_request: Option<ConsentRequest>,
    pub actions_executed: Vec<String>,
    pub proposed_actions: Vec<ActionEvent>,
    pub executed_action_events: Vec<ActionEvent>,
    pub action_events: Vec<ActionEvent>,
}

/// What contracts see of a [`ChatResponse`].
pub struct ChatResponseView {
    pub final_text: Seq<char>,
    pub audit_id: Seq<char>,
    pub request_fingerprint: Seq<char>,
    pub execution_state: Seq<char>,
    pub consent_token: Option<Seq<char>>,
    pub session_id: Option<Seq<char>>,
    pub consent_request: Option<ConsentRequestView>,
    pub actions_executed: Seq<Seq<char>>,
    pub proposed_actions: Seq<ActionEventView>,
    pub executed_action_events: Seq<ActionEventView>,
    pub action_events: Seq<ActionEventView>,
}

impl View for ChatResponse {
    type V = ChatResponseView;

    open spec fn view(&self) -> ChatResponseView {
        ChatResponseView {
            final_text: self.final_text@,
            audit_id: self.audit_id@,
            request_fingerprint: self.request_fingerprint@,
            execution_state: self.execution_state@,
            consent_token: opt_text(self.consent_token),
            session_id: opt_text(self.session_id),
            consent_request: opt_view(self.consent_request),
            actions_executed: texts(self.actions_executed@),
            proposed_actions: views(self.proposed_actions@),
            executed_action_events: views(self.executed_action_events@),
            action_events: views(self.action_events@),
        }
    }
}

impl Clone for ChatResponse {
    fn clone(&self) -> (r: Self)
        ensures
            r@ == self@,
    {
        ChatResponse {
            final_text: self.final_text.clone(),
            audit_id: self.audit_id.clone(),
            request_fingerprint: self.request_fingerprint.clone(),
            execution_state: self.execution_state.clone(),
            consent_token: clone_opt_text(&self.consent_token),
            session_id: clone_opt_text(&self.session_id),
            consent_request: clone_opt_view(&self.consent_request),
            actions_executed: clone_texts(&self.actions_executed),
            proposed_actions: clone_views(&self.proposed_actions),
            executed_action_events: clone_views(&self.executed_action_events),
            action_events: clone_views(&self.action_events),
        }
    }
}

/// The parameters of a method that takes none.
#[derive(Debug, PartialEq, Eq)]
pub struct EmptyParams {}

/// What contracts see of a [`EmptyParams`].
pub struct EmptyParamsView {}

impl View for EmptyParams {
    type V = EmptyParamsView;

    open spec fn view(&self) -> EmptyParamsView {
        EmptyParamsView {}
    }
}

impl Clone for EmptyParams {
    fn clone(&self) -> (r: Self)
        ensures
            r@ == self@,
    {
        EmptyParams {}
    }
}

// ---------------------------------------------------------------------------
// The service behind the JSON-RPC surface
// ---------------------------------------------------------------------------

/// The operations of the service, one per method of the surface. A failure
/// is a message that carries a stable code. Nothing is assumed of an
/// implementation.
pub trait ChatService {
    fn chat_request(&mut self, params: ChatRequest) -> ChatResponse;

    fn chat_approve(&mut self, params: ChatApproveRequest) -> Result<ChatResponse, String>;

    fn chat_deny(&mut self, params: ChatDenyRequest) -> Result<ChatResponse, String>;

    fn sessions_create(&mut self, params: SessionCreateRequest) -> Result<Session, String>;

    fn sessions_list(&self) -> Result<Vec<SessionSummary>, String>;

    fn sessions_get(&self, params: SessionGetRequest) -> Result<Session, String>;

    fn sessions_delete(&mut self, params: SessionDeleteRequest) -> Result<SessionDeleteResponse, String>;

    fn sessions_messages_append(&mut self, params: SessionMessagesAppendRequest) -> Result<
        SessionMessagesAppendResponse,
        String,
    >;

    fn providers_list(&self) -> Result<Vec<ProviderInfo>, String>;

    fn providers_set(&mut self, params: ProvidersSetRequest) -> Result<ProviderInfo, String>;

    fn providers_config_get(&self, params: ProviderConfigGetRequest) -> Result<ProviderConfigRecord, String>;

    fn providers_config_set(&mut self, params: ProviderConfigSetRequest) -> Result<
        ProviderConfigSetResponse,
        String,
    >;

    fn mcp_servers_list(&self) -> Result<Vec<McpServerRecord>, String>;

    fn mcp_servers_add(&mut self, params: McpServerAddRequest) -> Result<McpServerMutationResponse, String>;

    fn mcp_servers_remove(&mut self, params: McpServerRemoveRequest) -> Result<
        McpServerMutationResponse,
        String,
    >;

    fn mcp_servers_start(&mut self, params: McpServerStateRequest) -> Result<
        McpServerMutationResponse,
        String,
    >;

    fn mcp_servers_stop(&mut self, params: McpServerStateRequest) -> Result<
        McpServerMutationResponse,
        String,
    >;

    fn project_open(&mut self, params: ProjectOpenRequest) -> Result<ProjectOpenResponse, String>;

    fn project_status(&self, params: ProjectStatusRequest) -> Result<ProjectStatusResponse, String>;

    fn audit_list(&self, params: AuditListRequest) -> Result<Vec<AuditEntry>, String>;

    fn audit_get(&self, params: AuditGetRequest) -> Result<AuditEntry, String>;

    fn consent_list(&self, params: ConsentListRequest) -> Result<Vec<PendingConsentRecord>, String>;

    fn consent_approve(&mut self, params: ConsentActionRequest) -> Result<ChatResponse, String>;

    fn consent_deny(&mut self, params: ConsentActionRequest) -> Result<ChatResponse, String>;

    fn tools_list(&self) -> Vec<Tool>;

    fn system_health(&self) -> Result<SystemHealthResponse, String>;
}

/// The methods of the surface.
#[derive(Clone, Copy, Debug, PartialEq, Eq, Structural)]
pub enum RpcMethod {
    /// `tools.list`
    ToolsList,
    /// `chat.request`
    ChatRequest,
    /// `chat.approve`
    ChatApprove,
    /// `chat.deny`
    ChatDeny,
    /// `sessions.create`
    SessionsCreate,
    /// `sessions.list`
    SessionsList,
    /// `sessions.get`
    SessionsGet,
    /// `sessions.delete`
    SessionsDelete,
    /// `sessions.messages.append`
    SessionsMessagesAppend,
    /// `providers.list`
    ProvidersList,
    /// `providers.set`
    ProvidersSet,
    /// `providers.config.get`
    ProvidersConfigGet,
    /// `providers.config.set`
    ProvidersConfigSet,
    /// `mcp.servers.list`
    McpServersList,
    /// `mcp.servers.add`
    McpServersAdd,
    /// `mcp.servers.remove`
    McpServersRemove,
    /// `mcp.servers.start`
    McpServersStart,
    /// `mcp.servers.stop`
    McpServersStop,
    /// `project.open`
    ProjectOpen,
    /// `project.status`
    ProjectStatus,
    /// `audit.list`
    AuditList,
    /// `audit.get`
    AuditGet,
    /// `consent.list`
    ConsentList,
    /// `consent.approve`
    ConsentApprove,
    /// `consent.deny`
    ConsentDeny,
    /// `system.health`
    SystemHealth,
    /// `rpc.raw`
    RpcRaw,
}

/// The method that a wire name stands for.
pub open spec fn method_of(name: Seq<char>) -> Option<RpcMethod> {
    if name == "tools.list"@ {
        Some(RpcMethod::ToolsList)
    } else if name == "chat.request"@ {
        Some(RpcMethod::ChatRequest)
    } else if name == "chat.approve"@ {
        Some(RpcMethod::ChatApprove)
    } else if name == "chat.deny"@ {
        Some(RpcMethod::ChatDeny)
    } else if name == "sessions.create"@ {
        Some(RpcMethod::SessionsCreate)
    } else if name == "sessions.list"@ {
        Some(RpcMethod::SessionsList)
    } else if name == "sessions.get"@ {
        Some(RpcMethod::SessionsGet)
    } else if name == "sessions.delete"@ {
        Some(RpcMethod::SessionsDelete)
    } else if name == "sessions.messages.append"@ {
        Some(RpcMethod::SessionsMessagesAppend)
    } else if name == "providers.list"@ {
        Some(RpcMethod::ProvidersList)
    } else if name == "providers.set"@ {
        Some(RpcMethod::ProvidersSet)
    } else if name == "providers.config.get"@ {
        Some(RpcMethod::ProvidersConfigGet)
    } else if name == "providers.config.set"@ {
        Some(RpcMethod::ProvidersConfigSet)
    } else if name == "mcp.servers.list"@ {
        Some(RpcMethod::McpServersList)
    } else if name == "mcp.servers.add"@ {
        Some(RpcMethod::McpServersAdd)
    } else if name == "mcp.servers.remove"@ {
        Some(RpcMethod::McpServersRemove)
    } else if name == "mcp.servers.start"@ {
        Some(RpcMethod::McpServersStart)
    } else if name == "mcp.servers.stop"@ {
        Some(RpcMethod::McpServersStop)
    } else if name == "project.open"@ {
        Some(RpcMethod::ProjectOpen)
    } else if name == "project.status"@ {
        Some(RpcMethod::ProjectStatus)
    } else if name == "audit.list"@ {
        Some(RpcMethod::AuditList)
    } else if name == "audit.get"@ {
        Some(RpcMethod::AuditGet)
    } else if name == "consent.list"@ {
        Some(RpcMethod::ConsentList)
    } else if name == "consent.approve"@ {
        Some(RpcMethod::ConsentApprove)
    } else if name == "consent.deny"@ {
        Some(RpcMethod::ConsentDeny)
    } else if name == "system.health"@ {
        Some(RpcMethod::SystemHealth)
    } else if name == "rpc.raw"@ {
        Some(RpcMethod::RpcRaw)
    } else {
        None
    }
}

/// The method that a wire name stands for; `None` for a name that is no method.
pub fn method_named(name: &str) -> (out: Option<RpcMethod>)
    ensures
        out == method_of(name@),
{
    if same_text(name, "tools.list") {
        Some(RpcMethod::ToolsList)
    } else if same_text(name, "chat.request") {
        Some(RpcMethod::ChatRequest)
    } else if same_text(name, "chat.approve") {
        Some(RpcMethod::ChatApprove)
    } else if same_text(name, "chat.deny") {
        Some(RpcMethod::ChatDeny)
    } else if same_text(name, "sessions.create") {
        Some(RpcMethod::SessionsCreate)
    } else if same_text(name, "sessions.list") {
        Some(RpcMethod::SessionsList)
    } else if same_text(name, "sessions.get") {
        Some(RpcMethod::SessionsGet)
    } else if same_text(name, "sessions.delete") {
        Some(RpcMethod::SessionsDelete)
    } else if same_text(name, "sessions.messages.append") {
        Some(RpcMethod::SessionsMessagesAppend)
    } else if same_text(name, "providers.list") {
        Some(RpcMethod::ProvidersList)
    } else if same_text(name, "providers.set") {
        Some(RpcMethod::ProvidersSet)
    } else if same_text(name, "providers.config.get") {
        Some(RpcMethod::ProvidersConfigGet)
    } else if same_text(name, "providers.config.set") {
        Some(RpcMethod::ProvidersConfigSet)
    } else if same_text(name, "mcp.servers.list") {
        Some(RpcMethod::McpServersList)
    } else if same_text(name, "mcp.servers.add") {
        Some(RpcMethod::McpServersAdd)
    } else if same_text(name, "mcp.servers.remove") {
        Some(RpcMethod::McpServersRemove)
    } else if same_text(name, "mcp.servers.start") {
        Some(RpcMethod::McpServersStart)
    } else if same_text(name, "mcp.servers.stop") {
        Some(RpcMethod::McpServersStop)
    } else if same_text(name, "project.open") {
        Some(RpcMethod::ProjectOpen)
    } else if same_text(name, "project.status") {
        Some(RpcMethod::ProjectStatus)
    } else if same_text(name, "audit.list") {
        Some(RpcMethod::AuditList)
    } else if same_text(name, "audit.get") {
        Some(RpcMethod::AuditGet)
    } else if same_text(name, "consent.list") {
        Some(RpcMethod::ConsentList)
    } else if same_text(name, "consent.approve") {
        Some(RpcMethod::ConsentApprove)
    } else if same_text(name, "consent.deny") {
        Some(RpcMethod::ConsentDeny)
    } else if same_text(name, "system.health") {
        Some(RpcMethod::SystemHealth)
    } else if same_text(name, "rpc.raw") {
        Some(RpcMethod::RpcRaw)
    } else {
        None
    }
}

/// A call of a method with its parameters already read.
#[derive(Debug, PartialEq, Eq)]
pub enum RpcCall {
    ToolsList,
    ChatRequest(ChatRequest),
    ChatApprove(ChatApproveRequest),
    ChatDeny(ChatDenyRequest),
    SessionsCreate(SessionCreateRequest),
    SessionsList,
    SessionsGet(SessionGetRequest),
    SessionsDelete(SessionDeleteRequest),
    SessionsMessagesAppend(SessionMessagesAppendRequest),
    ProvidersList,
    ProvidersSet(ProvidersSetRequest),
    ProvidersConfigGet(ProviderConfigGetRequest),
    ProvidersConfigSet(ProviderConfigSetRequest),
    McpServersList,
    McpServersAdd(McpServerAddRequest),
    McpServersRemove(McpServerRemoveRequest),
    McpServersStart(McpServerStateRequest),
    McpServersStop(McpServerStateRequest),
    ProjectOpen(ProjectOpenRequest),
    ProjectStatus(ProjectStatusRequest),
    AuditList(AuditListRequest),
    AuditGet(AuditGetRequest),
    ConsentList(ConsentListRequest),
    ConsentApprove(ConsentActionRequest),
    ConsentDeny(ConsentActionRequest),
    SystemHealth,
    /// A nested call; the reply carries the outer identifier.
    RpcRaw(Box<RpcCall>),
}

/// The result of a call, before it is written as JSON.
#[derive(Debug, PartialEq, Eq)]
pub enum RpcResult {
    Tools(Vec<Tool>),
    Chat(ChatResponse),
    Session(Session),
    Sessions(Vec<SessionSummary>),
    SessionDeleted(SessionDeleteResponse),
    SessionAppended(SessionMessagesAppendResponse),
    Providers(Vec<ProviderInfo>),
    Provider(ProviderInfo),
    ProviderConfig(ProviderConfigRecord),
    ProviderConfigStored(ProviderConfigSetResponse),
    McpServers(Vec<McpServerRecord>),
    McpMutation(McpServerMutationResponse),
    ProjectOpened(ProjectOpenResponse),
    ProjectStatus(ProjectStatusResponse),
    Audits(Vec<AuditEntry>),
    Audit(AuditEntry),
    Consents(Vec<PendingConsentRecord>),
    Health(SystemHealthResponse),
}

/// The kinds of result; each method has one.
#[derive(Clone, Copy, Debug, PartialEq, Eq, Structural)]
pub enum RpcResultKind {
    Tools,
    Chat,
    Session,
    Sessions,
    SessionDeleted,
    SessionAppended,
    Providers,
    Provider,
    ProviderConfig,
    ProviderConfigStored,
    McpServers,
    McpMutation,
    ProjectOpened,
    ProjectStatus,
    Audits,
    Audit,
    Consents,
    Health,
}

/// The kind of a result.
pub open spec fn kind_of(result: RpcResult) -> RpcResultKind {
    match result {
        RpcResult::Tools(_) => RpcResultKind::Tools,
        RpcResult::Chat(_) => RpcResultKind::Chat,
        RpcResult::Session(_) => RpcResultKind::Session,
        RpcResult::Sessions(_) => RpcResultKind::Sessions,
        RpcResult::SessionDeleted(_) => RpcResultKind::SessionDeleted,
        RpcResult::SessionAppended(_) => RpcResultKind::SessionAppended,
        RpcResult::Providers(_) => RpcResultKind::Providers,
        RpcResult::Provider(_) => RpcResultKind::Provider,
        RpcResult::ProviderConfig(_) => RpcResultKind::ProviderConfig,
        RpcResult::ProviderConfigStored(_) => RpcResultKind::ProviderConfigStored,
        RpcResult::McpServers(_) => RpcResultKind::McpServers,
        RpcResult::McpMutation(_) => RpcResultKind::McpMutation,
        RpcResult::ProjectOpened(_) => RpcResultKind::ProjectOpened,
        RpcResult::ProjectStatus(_) => RpcResultKind::ProjectStatus,
        RpcResult::Audits(_) => RpcResultKind::Audits,
        RpcResult::Audit(_) => RpcResultKind::Audit,
        RpcResult::Consents(_) => RpcResultKind::Consents,
        RpcResult::Health(_) => RpcResultKind::Health,
    }
}

/// The kind of result a call answers with where it succeeds; a nested
/// call answers as the call it carries.
pub open spec fn kind_answered(call: RpcCall) -> RpcResultKind
    decreases call,
{
    match call {
        RpcCall::ToolsList => RpcResultKind::Tools,
        RpcCall::ChatRequest(_) => RpcResultKind::Chat,
        RpcCall::ChatApprove(_) => RpcResultKind::Chat,
        RpcCall::ChatDeny(_) => RpcResultKind::Chat,
        RpcCall::SessionsCreate(_) => RpcResultKind::Session,
        RpcCall::SessionsList => RpcResultKind::Sessions,
        RpcCall::SessionsGet(_) => RpcResultKind::Session,
        RpcCall::SessionsDelete(_) => RpcResultKind::SessionDeleted,
        RpcCall::SessionsMessagesAppend(_) => RpcResultKind::SessionAppended,
        RpcCall::ProvidersList => RpcResultKind::Providers,
        RpcCall::ProvidersSet(_) => RpcResultKind::Provider,
        RpcCall::ProvidersConfigGet(_) => RpcResultKind::ProviderConfig,
        RpcCall::ProvidersConfigSet(_) => RpcResultKind::ProviderConfigStored,
        RpcCall::McpServersList => RpcResultKind::McpServers,
        RpcCall::McpServersAdd(_) => RpcResultKind::McpMutation,
        RpcCall::McpServersRemove(_) => RpcResultKind::McpMutation,
        RpcCall::McpServersStart(_) => RpcResultKind::McpMutation,
        RpcCall::McpServersStop(_) => RpcResultKind::McpMutation,
        RpcCall::ProjectOpen(_) => RpcResultKind::ProjectOpened,
        RpcCall::ProjectStatus(_) => RpcResultKind::ProjectStatus,
        RpcCall::AuditList(_) => RpcResultKind::Audits,
        RpcCall::AuditGet(_) => RpcResultKind::Audit,
        RpcCall::ConsentList(_) => RpcResultKind::Consents,
        RpcCall::ConsentApprove(_) => RpcResultKind::Chat,
        RpcCall::ConsentDeny(_) => RpcResultKind::Chat,
        RpcCall::SystemHealth => RpcResultKind::Health,
        RpcCall::RpcRaw(inner) => kind_answered(*inner),
    }
}

/// Whether a call can fail. A chat request and a tool listing always succeed;
/// a nested call fails as the call it carries.
pub open spec fn can_fail(call: RpcCall) -> bool
    decreases call,
{
    match call {
        RpcCall::ToolsList => false,
        RpcCall::ChatRequest(_) => false,
        RpcCall::RpcRaw(inner) => can_fail(*inner),
        _ => true,
    }
}

/// What a call came to: a result of the kind its method answers with, or
/// a domain error with the service's message.
pub open spec fn answers(call: RpcCall, outcome: Result<RpcResult, Error>) -> bool {
    match outcome {
        Ok(result) => kind_of(result) == kind_answered(call),
        Err(e) => can_fail(call) && e.code == DOMAIN_ERROR,
    }
}

/// The call that is served in the end: a nested call stands for the call
/// it carries.
pub open spec fn carried(call: RpcCall) -> RpcCall
    decreases call,
{
    match call {
        RpcCall::RpcRaw(inner) => carried(*inner),
        _ => call,
    }
}

/// Whether the operation behind a call only looks at the service.
pub open spec fn reads_only(call: RpcCall) -> bool {
    match call {
        RpcCall::ToolsList => true,
        RpcCall::SessionsList => true,
        RpcCall::SessionsGet(_) => true,
        RpcCall::ProvidersList => true,
        RpcCall::ProvidersConfigGet(_) => true,
        RpcCall::McpServersList => true,
        RpcCall::ProjectStatus(_) => true,
        RpcCall::AuditList(_) => true,
        RpcCall::AuditGet(_) => true,
        RpcCall::ConsentList(_) => true,
        RpcCall::SystemHealth => true,
        _ => false,
    }
}

/// What a service's answer becomes on its way out: a result of the
/// method's kind, or a domain error with the service's message.
pub open spec fn wrapped<T>(answer: Result<T, String>, kind: spec_fn(T) -> RpcResult) -> Result<
    RpcResult,
    Error,
> {
    match answer {
        Ok(value) => Ok(kind(value)),
        Err(message) => Err(Error { code: DOMAIN_ERROR, message }),
    }
}

/// Whether `outcome` is what the service behind `service` made of `call`:
/// the operation of the call's method was run on the call's parameters and
/// its answer was wrapped.
pub open spec fn answered<S: ChatService>(
    service: &mut S,
    call: RpcCall,
    outcome: Result<RpcResult, Error>,
) -> bool {
    match call {
        RpcCall::ToolsList => exists|answer: Vec<Tool>|
            (#[trigger] call_ensures(S::tools_list, (&*service,), answer)) && outcome == Ok::<RpcResult, Error>(RpcResult::Tools(answer)),
        RpcCall::ChatRequest(params) => exists|answer: ChatResponse|
            (#[trigger] call_ensures(S::chat_request, (service, params), answer)) && outcome == Ok::<RpcResult, Error>(RpcResult::Chat(answer)),
        RpcCall::ChatApprove(params) => exists|answer: Result<ChatResponse, String>|
            (#[trigger] call_ensures(S::chat_approve, (service, params), answer)) && outcome == wrapped(answer, |x: ChatResponse| RpcResult::Chat(x)),
        RpcCall::ChatDeny(params) => exists|answer: Result<ChatResponse, String>|
            (#[trigger] call_ensures(S::chat_deny, (service, params), answer)) && outcome == wrapped(answer, |x: ChatResponse| RpcResult::Chat(x)),
        RpcCall::SessionsCreate(params) => exists|answer: Result<Session, String>|
            (#[trigger] call_ensures(S::sessions_create, (service, params), answer)) && outcome == wrapped(answer, |x: Session| RpcResult::Session(x)),
        RpcCall::SessionsList => exists|answer: Result<Vec<SessionSummary>, String>|
            (#[trigger] call_ensures(S::sessions_list, (&*service,), answer)) && outcome == wrapped(answer, |x: Vec<SessionSummary>| RpcResult::Sessions(x)),
        RpcCall::SessionsGet(params) => exists|answer: Result<Session, String>|
            (#[trigger] call_ensures(S::sessions_get, (&*service, params), answer)) && outcome == wrapped(answer, |x: Session| RpcResult::Session(x)),
        RpcCall::SessionsDelete(params) => exists|answer: Result<SessionDeleteResponse, String>|
            (#[trigger] call_ensures(S::sessions_delete, (service, params), answer)) && outcome == wrapped(answer, |x: SessionDeleteResponse| RpcResult::SessionDeleted(x)),
        RpcCall::SessionsMessagesAppend(params) => exists|answer: Result<SessionMessagesAppendResponse, String>|
            (#[trigger] call_ensures(S::sessions_messages_append, (service, params), answer)) && outcome == wrapped(answer, |x: SessionMessagesAppendResponse| RpcResult::SessionAppended(x)),
        RpcCall::ProvidersList => exists|answer: Result<Vec<ProviderInfo>, String>|
            (#[trigger] call_ensures(S::providers_list, (&*service,), answer)) && outcome == wrapped(answer, |x: Vec<ProviderInfo>| RpcResult::Providers(x)),
        RpcCall::ProvidersSet(params) => exists|answer: Result<ProviderInfo, String>|
            (#[trigger] call_ensures(S::providers_set, (service, params), answer)) && outcome == wrapped(answer, |x: ProviderInfo| RpcResult::Provider(x)),
        RpcCall::ProvidersConfigGet(params) => exists|answer: Result<ProviderConfigRecord, String>|
            (#[trigger] call_ensures(S::providers_config_get, (&*service, params), answer)) && outcome == wrapped(answer, |x: ProviderConfigRecord| RpcResult::ProviderConfig(x)),
        RpcCall::ProvidersConfigSet(params) => exists|answer: Result<ProviderConfigSetResponse, String>|
            (#[trigger] call_ensures(S::providers_config_set, (service, params), answer)) && outcome == wrapped(answer, |x: ProviderConfigSetResponse| RpcResult::ProviderConfigStored(x)),
        RpcCall::McpServersList => exists|answer: Result<Vec<McpServerRecord>, String>|
            (#[trigger] call_ensures(S::mcp_servers_list, (&*service,), answer)) && outcome == wrapped(answer, |x: Vec<McpServerRecord>| RpcResult::McpServers(x)),
        RpcCall::McpServersAdd(params) => exists|answer: Result<McpServerMutationResponse, String>|
            (#[trigger] call_ensures(S::mcp_servers_add, (service, params), answer)) && outcome == wrapped(answer, |x: McpServerMutationResponse| RpcResult::McpMutation(x)),
        RpcCall::McpServersRemove(params) => exists|answer: Result<McpServerMutationResponse, String>|
            (#[trigger] call_ensures(S::mcp_servers_remove, (service, params), answer)) && outcome == wrapped(answer, |x: McpServerMutationResponse| RpcResult::McpMutation(x)),
        RpcCall::McpServersStart(params) => exists|answer: Result<McpServerMutationResponse, String>|
            (#[trigger] call_ensures(S::mcp_servers_start, (service, params), answer)) && outcome == wrapped(answer, |x: McpServerMutationResponse| RpcResult::McpMutation(x)),
        RpcCall::McpServersStop(params) => exists|answer: Result<McpServerMutationResponse, String>|
            (#[trigger] call_ensures(S::mcp_servers_stop, (service, params), answer)) && outcome == wrapped(answer, |x: McpServerMutationResponse| RpcResult::McpMutation(x)),
        RpcCall::ProjectOpen(params) => exists|answer: Result<ProjectOpenResponse, String>|
            (#[trigger] call_ensures(S::project_open, (service, params), answer)) && outcome == wrapped(answer, |x: ProjectOpenResponse| RpcResult::ProjectOpened(x)),
        RpcCall::ProjectStatus(params) => exists|answer: Result<ProjectStatusResponse, String>|
            (#[trigger] call_ensures(S::project_status, (&*service, params), answer)) && outcome == wrapped(answer, |x: ProjectStatusResponse| RpcResult::ProjectStatus(x)),
        RpcCall::AuditList(params) => exists|answer: Result<Vec<AuditEntry>, String>|
            (#[trigger] call_ensures(S::audit_list, (&*service, params), answer)) && outcome == wrapped(answer, |x: Vec<AuditEntry>| RpcResult::Audits(x)),
        RpcCall::AuditGet(params) => exists|answer: Result<AuditEntry, String>|
            (#[trigger] call_ensures(S::audit_get, (&*service, params), answer)) && outcome == wrapped(answer, |x: AuditEntry| RpcResult::Audit(x)),
        RpcCall::ConsentList(params) => exists|answer: Result<Vec<PendingConsentRecord>, String>|
            (#[trigger] call_ensures(S::consent_list, (&*service, params), answer)) && outcome == wrapped(answer, |x: Vec<PendingConsentRecord>| RpcResult::Consents(x)),
        RpcCall::ConsentApprove(params) => exists|answer: Result<ChatResponse, String>|
            (#[trigger] call_ensures(S::consent_approve, (service, params), answer)) && outcome == wrapped(answer, |x: ChatResponse| RpcResult::Chat(x)),
        RpcCall::ConsentDeny(params) => exists|answer: Result<ChatResponse, String>|
            (#[trigger] call_ensures(S::consent_deny, (service, params), answer)) && outcome == wrapped(answer, |x: ChatResponse| RpcResult::Chat(x)),
        RpcCall::SystemHealth => exists|answer: Result<SystemHealthResponse, String>|
            (#[trigger] call_ensures(S::system_health, (&*service,), answer)) && outcome == wrapped(answer, |x: SystemHealthResponse| RpcResult::Health(x)),
        RpcCall::RpcRaw(_) => false,
    }
}

/// A JSON-RPC server in front of a service.
pub struct JsonRpcServer<S> {
    service: S,
}

/// A reply to a call: the identifier of the call and what it came to.
#[derive(Debug, PartialEq, Eq)]
pub struct RpcReply {
    pub id: Id,
    pub outcome: Result<RpcResult, Error>,
}

impl<S> JsonRpcServer<S> where S: ChatService {
    /// The service behind this server.
    pub closed spec fn service_view(&self) -> S {
        self.service
    }

    /// A server in front of `service`.
    pub fn new(service: S) -> (r: Self)
        ensures
            r.service_view() == service,
    {
        JsonRpcServer { service }
    }

    /// Hands a call to the operation of its method and wraps what comes
    /// back: a result of the method's kind, or the service's failure as a
    /// domain error. The operation is run once, on the call's own
    /// parameters; an operation that only looks at the service leaves it
    /// as it was.
    pub fn dispatch(&mut self, call: RpcCall) -> (outcome: Result<RpcResult, Error>)
        ensures
            exists|service: &mut S|
                {
                    &&& *service == old(self).service_view()
                    &&& *final(service) == final(self).service_view()
                    &&& #[trigger] answered(service, carried(call), outcome)
                },
            reads_only(carried(call)) ==> final(self).service_view() == old(self).service_view(),
            answers(call, outcome),
        decreases call,
    {
        match call {
            RpcCall::ToolsList => {
                let ghost before = self.service;
                let r = &mut self.service;
                let answer = r.tools_list();
                let ghost given = answer;
                let outcome: Result<RpcResult, Error> = Ok(RpcResult::Tools(answer));
                proof {
                    let after = self.service;
                    let witness = choose|service: &mut S|
                        *service == before && *final(service) == after && #[trigger] call_ensures(
                            S::tools_list,
                            (&*service,),
                            given,
                        );
                    assert(answered(witness, RpcCall::ToolsList, outcome));
                }
                outcome
            },
            RpcCall::ChatRequest(params) => {
                let ghost before = self.service;
                let ghost asked = params;
                let r = &mut self.service;
                let answer = r.chat_request(params);
                let ghost given = answer;
                let outcome: Result<RpcResult, Error> = Ok(RpcResult::Chat(answer));
                proof {
                    let after = self.service;
                    let witness = choose|service: &mut S|
                        *service == before && *final(service) == after && #[trigger] call_ensures(
                            S::chat_request,
                            (service, asked),
                            given,
                        );
                    assert(answered(witness, RpcCall::ChatRequest(asked), outcome));
                }
                outcome
            },
            RpcCall::ChatApprove(params) => {
                let ghost before = self.service;
                let ghost asked = params;
                let r = &mut self.service;
                let answer = r.chat_approve(params);
                let ghost given = answer;
                let outcome: Result<RpcResult, Error> = match answer {
                    Ok(value) => Ok(RpcResult::Chat(value)),
                    Err(message) => Err(Error { code: DOMAIN_ERROR, message }),
                };
                proof {
                    let after = self.service;
                    let witness = choose|service: &mut S|
                        *service == before && *final(service) == after && #[trigger] call_ensures(
                            S::chat_approve,
                            (service, asked),
                            given,
                        );
                    assert(answered(witness, RpcCall::ChatApprove(asked), outcome));
                }
                outcome
            },
            RpcCall::ChatDeny(params) => {
                let ghost before = self.service;
                let ghost asked = params;
                let r = &mut self.service;
                let answer = r.chat_deny(params);
                let ghost given = answer;
                let outcome: Result<RpcResult, Error> = match answer {
                    Ok(value) => Ok(RpcResult::Chat(value)),
                    Err(message) => Err(Error { code: DOMAIN_ERROR, message }),
                };
                proof {
                    let after = self.service;
                    let witness = choose|service: &mut S|
                        *service == before && *final(service) == after && #[trigger] call_ensures(
                            S::chat_deny,
                            (service, asked),
                            given,
                        );
                    assert(answered(witness, RpcCall::ChatDeny(asked), outcome));
                }
                outcome
            },
            RpcCall::SessionsCreate(params) => {
                let ghost before = self.service;
                let ghost asked = params;
                let r = &mut self.service;
                let answer = r.sessions_create(params);
                let ghost given = answer;
                let outcome: Result<RpcResult, Error> = match answer {
                    Ok(value) => Ok(RpcResult::Session(value)),
                    Err(message) => Err(Error { code: DOMAIN_ERROR, message }),
                };
                proof {
                    let after = self.service;
                    let witness = choose|service: &mut S|
                        *service == before && *final(service) == after && #[trigger] call_ensures(
                            S::sessions_create,
                            (service, asked),
                            given,
                        );
                    assert(answered(witness, RpcCall::SessionsCreate(asked), outcome));
                }
                outcome
            },
            RpcCall::SessionsList => {
                let ghost before = self.service;
                let r = &mut self.service;
                let answer = r.sessions_list();
                let ghost given = answer;
                let outcome: Result<RpcResult, Error> = match answer {
                    Ok(value) => Ok(RpcResult::Sessions(value)),
                    Err(message) => Err(Error { code: DOMAIN_ERROR, message }),
                };
                proof {
                    let after = self.service;
                    let witness = choose|service: &mut S|
                        *service == before && *final(service) == after && #[trigger] call_ensures(
                            S::sessions_list,
                            (&*service,),
                            given,
                        );
                    assert(answered(witness, RpcCall::SessionsList, outcome));
                }
                outcome
            },
            RpcCall::SessionsGet(params) => {
                let ghost before = self.service;
                let ghost asked = params;
                let r = &mut self.service;
                let answer = r.sessions_get(params);
                let ghost given = answer;
                let outcome: Result<RpcResult, Error> = match answer {
                    Ok(value) => Ok(RpcResult::Session(value)),
                    Err(message) => Err(Error { code: DOMAIN_ERROR, message }),
                };
                proof {
                    let after = self.service;
                    let witness = choose|service: &mut S|
                        *service == before && *final(service) == after && #[trigger] call_ensures(
                            S::sessions_get,
                            (&*service, asked),
                            given,
                        );
                    assert(answered(witness, RpcCall::SessionsGet(asked), outcome));
                }
                outcome
            },
            RpcCall::SessionsDelete(params) => {
                let ghost before = self.service;
                let ghost asked = params;
                let r = &mut self.service;
                let answer = r.sessions_delete(params);
                let ghost given = answer;
                let outcome: Result<RpcResult, Error> = match answer {
                    Ok(value) => Ok(RpcResult::SessionDeleted(value)),
                    Err(message) => Err(Error { code: DOMAIN_ERROR, message }),
                };
                proof {
                    let after = self.service;
                    let witness = choose|service: &mut S|
                        *service == before && *final(service) == after && #[trigger] call_ensures(
                            S::sessions_delete,
                            (service, asked),
                            given,
                        );
                    assert(answered(witness, RpcCall::SessionsDelete(asked), outcome));
                }
                outcome
            },
            RpcCall::SessionsMessagesAppend(params) => {
                let ghost before = self.service;
                let ghost asked = params;
                let r = &mut self.service;
                let answer = r.sessions_messages_append(params);
                let ghost given = answer;
                let outcome: Result<RpcResult, Error> = match answer {
                    Ok(value) => Ok(RpcResult::SessionAppended(value)),
                    Err(message) => Err(Error { code: DOMAIN_ERROR, message }),
                };
                proof {
                    let after = self.service;
                    let witness = choose|service: &mut S|
                        *service == before && *final(service) == after && #[trigger] call_ensures(
                            S::sessions_messages_append,
                            (service, asked),
                            given,
                        );
                    assert(answered(witness, RpcCall::SessionsMessagesAppend(asked), outcome));
                }
                outcome
            },
            RpcCall::ProvidersList => {
                let ghost before = self.service;
                let r = &mut self.service;
                let answer = r.providers_list();
                let ghost given = answer;
                let outcome: Result<RpcResult, Error> = match answer {
                    Ok(value) => Ok(RpcResult::Providers(value)),
                    Err(message) => Err(Error { code: DOMAIN_ERROR, message }),
                };
                proof {
                    let after = self.service;
                    let witness = choose|service: &mut S|
                        *service == before && *final(service) == after && #[trigger] call_ensures(
                            S::providers_list,
                            (&*service,),
                            given,
                        );
                    assert(answered(witness, RpcCall::ProvidersList, outcome));
                }
                outcome
            },
            RpcCall::ProvidersSet(params) => {
                let ghost before = self.service;
                let ghost asked = params;
                let r = &mut self.service;
                let answer = r.providers_set(params);
                let ghost given = answer;
                let outcome: Result<RpcResult, Error> = match answer {
                    Ok(value) => Ok(RpcResult::Provider(value)),
                    Err(message) => Err(Error { code: DOMAIN_ERROR, message }),
                };
                proof {
                    let after = self.service;
                    let witness = choose|service: &mut S|
                        *service == before && *final(service) == after && #[trigger] call_ensures(
                            S::providers_set,
                            (service, asked),
                            given,
                        );
                    assert(answered(witness, RpcCall::ProvidersSet(asked), outcome));
                }
                outcome
            },
            RpcCall::ProvidersConfigGet(params) => {
                let ghost before = self.service;
                let ghost asked = params;
                let r = &mut self.service;
                let answer = r.providers_config_get(params);
                let ghost given = answer;
                let outcome: Result<RpcResult, Error> = match answer {
                    Ok(value) => Ok(RpcResult::ProviderConfig(value)),
                    Err(message) => Err(Error { code: DOMAIN_ERROR, message }),
                };
                proof {
                    let after = self.service;
                    let witness = choose|service: &mut S|
                        *service == before && *final(service) == after && #[trigger] call_ensures(
                            S::providers_config_get,
                            (&*service, asked),
                            given,
                        );
                    assert(answered(witness, RpcCall::ProvidersConfigGet(asked), outcome));
                }
                outcome
            },
            RpcCall::ProvidersConfigSet(params) => {
                let ghost before = self.service;
                let ghost asked = params;
                let r = &mut self.service;
                let answer = r.providers_config_set(params);
                let ghost given = answer;
                let outcome: Result<RpcResult, Error> = match answer {
                    Ok(value) => Ok(RpcResult::ProviderConfigStored(value)),
                    Err(message) => Err(Error { code: DOMAIN_ERROR, message }),
                };
                proof {
                    let after = self.service;
                    let witness = choose|service: &mut S|
                        *service == before && *final(service) == after && #[trigger] call_ensures(
                            S::providers_config_set,
                            (service, asked),
                            given,
                        );
                    assert(answered(witness, RpcCall::ProvidersConfigSet(asked), outcome));
                }
                outcome
            },
            RpcCall::McpServersList => {
                let ghost before = self.service;
                let r = &mut self.service;
                let answer = r.mcp_servers_list();
                let ghost given = answer;
                let outcome: Result<RpcResult, Error> = match answer {
                    Ok(value) => Ok(RpcResult::McpServers(value)),
                    Err(message) => Err(Error { code: DOMAIN_ERROR, message }),
                };
                proof {
                    let after = self.service;
                    let witness = choose|service: &mut S|
                        *service == before && *final(service) == after && #[trigger] call_ensures(
                            S::mcp_servers_list,
                            (&*service,),
                            given,
                        );
                    assert(answered(witness, RpcCall::McpServersList, outcome));
                }
                outcome
            },
            RpcCall::McpServersAdd(params) => {
                let ghost before = self.service;
                let ghost asked = params;
                let r = &mut self.service;
                let answer = r.mcp_servers_add(params);
                let ghost given = answer;
                let outcome: Result<RpcResult, Error> = match answer {
                    Ok(value) => Ok(RpcResult::McpMutation(value)),
                    Err(message) => Err(Error { code: DOMAIN_ERROR, message }),
                };
                proof {
                    let after = self.service;
                    let witness = choose|service: &mut S|
                        *service == before && *final(service) == after && #[trigger] call_ensures(
                            S::mcp_servers_add,
                            (service, asked),
                            given,
                        );
                    assert(answered(witness, RpcCall::McpServersAdd(asked), outcome));
                }
                outcome
            },
            RpcCall::McpServersRemove(params) => {
                let ghost before = self.service;
                let ghost asked = params;
                let r = &mut self.service;
                let answer = r.mcp_servers_remove(params);
                let ghost given = answer;
                let outcome: Result<RpcResult, Error> = match answer {
                    Ok(value) => Ok(RpcResult::McpMutation(value)),
                    Err(message) => Err(Error { code: DOMAIN_ERROR, message }),
                };
                proof {
                    let after = self.service;
                    let witness = choose|service: &mut S|
                        *service == before && *final(service) == after && #[trigger] call_ensures(
                            S::mcp_servers_remove,
                            (service, asked),
                            given,
                        );
                    assert(answered(witness, RpcCall::McpServersRemove(asked), outcome));
                }
                outcome
            },
            RpcCall::McpServersStart(params) => {
                let ghost before = self.service;
                let ghost asked = params;
                let r = &mut self.service;
                let answer = r.mcp_servers_start(params);
                let ghost given = answer;
                let outcome: Result<RpcResult, Error> = match answer {
                    Ok(value) => Ok(RpcResult::McpMutation(value)),
                    Err(message) => Err(Error { code: DOMAIN_ERROR, message }),
                };
                proof {
                    let after = self.service;
                    let witness = choose|service: &mut S|
                        *service == before && *final(service) == after && #[trigger] call_ensures(
                            S::mcp_servers_start,
                            (service, asked),
                            given,
                        );
                    assert(answered(witness, RpcCall::McpServersStart(asked), outcome));
                }
                outcome
            },
            RpcCall::McpServersStop(params) => {
                let ghost before = self.service;
                let ghost asked = params;
                let r = &mut self.service;
                let answer = r.mcp_servers_stop(params);
                let ghost given = answer;
                let outcome: Result<RpcResult, Error> = match answer {
                    Ok(value) => Ok(RpcResult::McpMutation(value)),
                    Err(message) => Err(Error { code: DOMAIN_ERROR, message }),
                };
                proof {
                    let after = self.service;
                    let witness = choose|service: &mut S|
                        *service == before && *final(service) == after && #[trigger] call_ensures(
                            S::mcp_servers_stop,
                            (service, asked),
                            given,
                        );
                    assert(answered(witness, RpcCall::McpServersStop(asked), outcome));
                }
                outcome
            },
            RpcCall::ProjectOpen(params) => {
                let ghost before = self.service;
                let ghost asked = params;
                let r = &mut self.service;
                let answer = r.project_open(params);
                let ghost given = answer;
                let outcome: Result<RpcResult, Error> = match answer {
                    Ok(value) => Ok(RpcResult::ProjectOpened(value)),
                    Err(message) => Err(Error { code: DOMAIN_ERROR, message }),
                };
                proof {
                    let after = self.service;
                    let witness = choose|service: &mut S|
                        *service == before && *final(service) == after && #[trigger] call_ensures(
                            S::project_open,
                            (service, asked),
                            given,
                        );
                    assert(answered(witness, RpcCall::ProjectOpen(asked), outcome));
                }
                outcome
            },
            RpcCall::ProjectStatus(params) => {
                let ghost before = self.service;
                let ghost asked = params;
                let r = &mut self.service;
                let answer = r.project_status(params);
                let ghost given = answer;
                let outcome: Result<RpcResult, Error> = match answer {
                    Ok(value) => Ok(RpcResult::ProjectStatus(value)),
                    Err(message) => Err(Error { code: DOMAIN_ERROR, message }),
                };
                proof {
                    let after = self.service;
                    let witness = choose|service: &mut S|
                        *service == before && *final(service) == after && #[trigger] call_ensures(
                            S::project_status,
                            (&*service, asked),
                            given,
                        );
                    assert(answered(witness, RpcCall::ProjectStatus(asked), outcome));
                }
                outcome
            },
            RpcCall::AuditList(params) => {
                let ghost before = self.service;
                let ghost asked = params;
                let r = &mut self.service;
                let answer = r.audit_list(params);
                let ghost given = answer;
                let outcome: Result<RpcResult, Error> = match answer {
                    Ok(value) => Ok(RpcResult::Audits(value)),
                    Err(message) => Err(Error { code: DOMAIN_ERROR, message }),
                };
                proof {
                    let after = self.service;
                    let witness = choose|service: &mut S|
                        *service == before && *final(service) == after && #[trigger] call_ensures(
                            S::audit_list,
                            (&*service, asked),
                            given,
                        );
                    assert(answered(witness, RpcCall::AuditList(asked), outcome));
                }
                outcome
            },
            RpcCall::AuditGet(params) => {
                let ghost before = self.service;
                let ghost asked = params;
                let r = &mut self.service;
                let answer = r.audit_get(params);
                let ghost given = answer;
                let outcome: Result<RpcResult, Error> = match answer {
                    Ok(value) => Ok(RpcResult::Audit(value)),
                    Err(message) => Err(Error { code: DOMAIN_ERROR, message }),
                };
                proof {
                    let after = self.service;
                    let witness = choose|service: &mut S|
                        *service == before && *final(service) == after && #[trigger] call_ensures(
                            S::audit_get,
                            (&*service, asked),
                            given,
                        );
                    assert(answered(witness, RpcCall::AuditGet(asked), outcome));
                }
                outcome
            },
            RpcCall::ConsentList(params) => {
                let ghost before = self.service;
                let ghost asked = params;
                let r = &mut self.service;
                let answer = r.consent_list(params);
                let ghost given = answer;
                let outcome: Result<RpcResult, Error> = match answer {
                    Ok(value) => Ok(RpcResult::Consents(value)),
                    Err(message) => Err(Error { code: DOMAIN_ERROR, message }),
                };
                proof {
                    let after = self.service;
                    let witness = choose|service: &mut S|
                        *service == before && *final(service) == after && #[trigger] call_ensures(
                            S::consent_list,
                            (&*service, asked),
                            given,
                        );
                    assert(answered(witness, RpcCall::ConsentList(asked), outcome));
                }
                outcome
            },
            RpcCall::ConsentApprove(params) => {
                let ghost before = self.service;
                let ghost asked = params;
                let r = &mut self.service;
                let answer = r.consent_approve(params);
                let ghost given = answer;
                let outcome: Result<RpcResult, Error> = match answer {
                    Ok(value) => Ok(RpcResult::Chat(value)),
                    Err(message) => Err(Error { code: DOMAIN_ERROR, message }),
                };
                proof {
                    let after = self.service;
                    let witness = choose|service: &mut S|
                        *service == before && *final(service) == after && #[trigger] call_ensures(
                            S::consent_approve,
                            (service, asked),
                            given,
                        );
                    assert(answered(witness, RpcCall::ConsentApprove(asked), outcome));
                }
                outcome
            },
            RpcCall::ConsentDeny(params) => {
                let ghost before = self.service;
                let ghost asked = params;
                let r = &mut self.service;
                let answer = r.consent_deny(params);
                let ghost given = answer;
                let outcome: Result<RpcResult, Error> = match answer {
                    Ok(value) => Ok(RpcResult::Chat(value)),
                    Err(message) => Err(Error { code: DOMAIN_ERROR, message }),
                };
                proof {
                    let after = self.service;
                    let witness = choose|service: &mut S|
                        *service == before && *final(service) == after && #[trigger] call_ensures(
                            S::consent_deny,
                            (service, asked),
                            given,
                        );
                    assert(answered(witness, RpcCall::ConsentDeny(asked), outcome));
                }
                outcome
            },
            RpcCall::SystemHealth => {
                let ghost before = self.service;
                let r = &mut self.service;
                let answer = r.system_health();
                let ghost given = answer;
                let outcome: Result<RpcResult, Error> = match answer {
                    Ok(value) => Ok(RpcResult::Health(value)),
                    Err(message) => Err(Error { code: DOMAIN_ERROR, message }),
                };
                proof {
                    let after = self.service;
                    let witness = choose|service: &mut S|
                        *service == before && *final(service) == after && #[trigger] call_ensures(
                            S::system_health,
                            (&*service,),
                            given,
                        );
                    assert(answered(witness, RpcCall::SystemHealth, outcome));
                }
                outcome
            },
            RpcCall::RpcRaw(inner) => self.dispatch(*inner),
        }
    }

    /// Serves one call and replies under the call's identifier. A nested
    /// call is served like the call it carries and answered under the outer
    /// identifier.
    pub fn handle(&mut self, id: Id, call: RpcCall) -> (reply: RpcReply)
        ensures
            reply.id == id,
            exists|service: &mut S|
                {
                    &&& *service == old(self).service_view()
                    &&& *final(service) == final(self).service_view()
                    &&& #[trigger] answered(service, carried(call), reply.outcome)
                },
            reads_only(carried(call)) ==> final(self).service_view() == old(self).service_view(),
            answers(call, reply.outcome),
    {
        let outcome = self.dispatch(call);
        RpcReply { id, outcome }
    }

    /// The service, to change it.
    pub fn service_mut(&mut self) -> (s: &mut S)
        ensures
            *s == old(self).service_view(),
            final(self).service_view() == *final(s),
    {
        &mut self.service
    }

    /// The service, to look at it.
    pub fn service(&self) -> (s: &S)
        ensures
            *s == self.service_view(),
    {
        &self.service
    }
}

/// The reply to a request for a method that does not exist.
pub fn method_not_found(id: Id) -> (r: Response)
    ensures
        r@ == (ResponseView {
            jsonrpc: "2.0"@,
            id: id@,
            result_json: None,
            error: Some(ErrorView { code: METHOD_NOT_FOUND, message: "method not found"@ }),
        }),
{
    Response::error(id, METHOD_NOT_FOUND, "method not found")
}

/// The reply to a request whose parameters do not fit its method;
/// `detail` says why.
pub fn invalid_params(id: Id, detail: &str) -> (r: Response)
    ensures
        r@ == (ResponseView {
            jsonrpc: "2.0"@,
            id: id@,
            result_json: None,
            error: Some(ErrorView { code: INVALID_PARAMS, message: "invalid params: "@ + detail@ }),
        }),
{
    Response::error(id, INVALID_PARAMS, join2("invalid params: ", detail).as_str())
}

/// The reply to a request whose result could not be written; `detail`
/// says why.
pub fn serialization_failed(id: Id, detail: &str) -> (r: Response)
    ensures
        r@ == (ResponseView {
            jsonrpc: "2.0"@,
            id: id@,
            result_json: None,
            error: Some(
                ErrorView { code: INTERNAL_ERROR, message: "serialization error: "@ + detail@ },
            ),
        }),
{
    Response::error(id, INTERNAL_ERROR, join2("serialization error: ", detail).as_str())
}

/// The reply to a request that is no valid JSON; `detail` says why.
pub fn parse_failed(detail: &str) -> (r: Response)
    ensures
        r@ == (ResponseView {
            jsonrpc: "2.0"@,
            id: IdView::Null,
            result_json: None,
            error: Some(ErrorView { code: PARSE_ERROR, message: "parse error: "@ + detail@ }),
        }),
{
    Response::error(Id::Null, PARSE_ERROR, join2("parse error: ", detail).as_str())
}

/// The wire response for a reply: the result as written by `payload` where
/// the call succeeded, else the error.
pub fn respond(id: Id, outcome: Result<String, Error>) -> (r: Response)
    ensures
        r@ == (match outcome {
            Ok(payload) => ResponseView {
                jsonrpc: "2.0"@,
                id: id@,
                result_json: Some(payload@),
                error: None,
            },
            Err(e) => ResponseView {
                jsonrpc: "2.0"@,
                id: id@,
                result_json: None,
                error: Some(e@),
            },
        }),
{
    match outcome {
        Ok(payload) => Response::success(id, payload.as_str()),
        Err(e) => Response::error(id, e.code, e.message.as_str()),
    }
}

// ---------------------------------------------------------------------------
// From a request to its reply
// ---------------------------------------------------------------------------

/// What a request comes to before its parameters are read.
#[derive(Debug, PartialEq, Eq)]
pub enum Routed {
    /// The request names no method: this is its reply.
    Reply(Response),
    /// The parameters are to be read as those of this method.
    Decode(RpcMethod),
}

/// The reply to a request that names no method, under the request's
/// identifier.
pub open spec fn not_found_reply(id: IdView) -> ResponseView {
    ResponseView {
        jsonrpc: "2.0"@,
        id,
        result_json: None,
        error: Some(ErrorView { code: METHOD_NOT_FOUND, message: "method not found"@ }),
    }
}

/// What the method name `method` of a request with the identifier `id`
/// comes to: a name that is no method is answered at once with `method
/// not found` under that identifier, and nothing is asked of the service.
pub fn route_named(id: &Id, method: &str) -> (out: Routed)
    ensures
        match method_of(method@) {
            Some(m) => out == Routed::Decode(m),
            None => out is Reply && out->Reply_0@ == not_found_reply(id@),
        },
{
    match method_named(method) {
        Some(m) => Routed::Decode(m),
        None => Routed::Reply(method_not_found(id.clone())),
    }
}

/// What a request comes to before its parameters are read.
pub fn route(request: &Request) -> (out: Routed)
    ensures
        match method_of(request.method@) {
            Some(m) => out == Routed::Decode(m),
            None => out is Reply && out->Reply_0@ == not_found_reply(request.id@),
        },
{
    route_named(&request.id, request.method.as_str())
}

/// What is left of a request once the service has been asked.
#[derive(Debug, PartialEq, Eq)]
pub enum Served {
    /// The reply is ready.
    Reply(Response),
    /// The call succeeded: its result is to be written as JSON and sent
    /// under this identifier.
    Write { id: Id, result: RpcResult },
}

/// What a call's outcome leaves to do: a result is to be written, a
/// failure is replied as it is.
pub open spec fn served_as(id: Id, outcome: Result<RpcResult, Error>, out: Served) -> bool {
    match outcome {
        Ok(result) => out == (Served::Write { id, result }),
        Err(e) => out is Reply && out->Reply_0@ == (ResponseView {
            jsonrpc: "2.0"@,
            id: id@,
            result_json: None,
            error: Some(e@),
        }),
    }
}

impl<S> JsonRpcServer<S> where S: ChatService {
    /// Serves a request whose parameters were read. Parameters that do not
    /// fit are answered with `invalid params` and the reader's words, and
    /// the service is not asked. A call is served once; its failure is
    /// replied under the request's identifier, its result is handed back to
    /// be written.
    pub fn answer(&mut self, id: Id, decoded: Result<RpcCall, String>) -> (out: Served)
        ensures
            match decoded {
                Err(detail) => {
                    &&& out is Reply
                    &&& out->Reply_0@ == (ResponseView {
                        jsonrpc: "2.0"@,
                        id: id@,
                        result_json: None,
                        error: Some(
                            ErrorView { code: INVALID_PARAMS, message: "invalid params: "@ + detail@ },
                        ),
                    })
                    &&& final(self).service_view() == old(self).service_view()
                },
                Ok(call) => {
                    &&& exists|service: &mut S, outcome: Result<RpcResult, Error>|
                        {
                            &&& *service == old(self).service_view()
                            &&& *final(service) == final(self).service_view()
                            &&& #[trigger] answered(service, carried(call), outcome)
                            &&& answers(call, outcome)
                            &&& served_as(id, outcome, out)
                        }
                    &&& reads_only(carried(call)) ==> final(self).service_view() == old(
                        self,
                    ).service_view()
                },
            },
    {
        match decoded {
            Err(detail) => Served::Reply(invalid_params(id, detail.as_str())),
            Ok(call) => {
                let ghost before = self.service;
                let reply = self.handle(id, call);
                proof {
                    let witness = choose|service: &mut S|
                        {
                            &&& *service == before
                            &&& *final(service) == self.service_view()
                            &&& #[trigger] answered(service, carried(call), reply.outcome)
                        };
                    assert(answered(witness, carried(call), reply.outcome));
                }
                match reply.outcome {
                    Ok(result) => Served::Write { id: reply.id, result },
                    Err(error) => Served::Reply(respond(reply.id, Err(error))),
                }
            },
        }
    }

    /// Serves a request, given what the host read of its parameters. A
    /// request that names no method is answered with `method not found`
    /// under its identifier, whatever was read, and the service is not
    /// asked; any other request is served as [`JsonRpcServer::answer`]
    /// serves what was read.
    pub fn serve(&mut self, request: &Request, decoded: Result<RpcCall, String>) -> (out: Served)
        ensures
            match (method_of(request.method@), decoded) {
                (None, _) => {
                    &&& out is Reply
                    &&& out->Reply_0@ == not_found_reply(request.id@)
                    &&& final(self).service_view() == old(self).service_view()
                },
                (Some(_), Err(detail)) => {
                    &&& out is Reply
                    &&& out->Reply_0@ == (ResponseView {
                        jsonrpc: "2.0"@,
                        id: request.id@,
                        result_json: None,
                        error: Some(
                            ErrorView { code: INVALID_PARAMS, message: "invalid params: "@ + detail@ },
                        ),
                    })
                    &&& final(self).service_view() == old(self).service_view()
                },
                (Some(_), Ok(call)) => {
                    &&& exists|service: &mut S, outcome: Result<RpcResult, Error>, id: Id|
                        {
                            &&& *service == old(self).service_view()
                            &&& *final(service) == final(self).service_view()
                            &&& #[trigger] answered(service, carried(call), outcome)
                            &&& answers(call, outcome)
                            &&& id@ == request.id@
                            &&& #[trigger] served_as(id, outcome, out)
                        }
                    &&& reads_only(carried(call)) ==> final(self).service_view() == old(
                        self,
                    ).service_view()
                },
            },
    {
        match route(request) {
            Routed::Reply(reply) => Served::Reply(reply),
            Routed::Decode(_) => {
                let id = request.id.clone();
                let ghost before = self.service;
                let ghost read = decoded;
                let out = self.answer(id, decoded);
                proof {
                    match read {
                        Ok(call) => {
                            let (witness, outcome) = choose|
                                service: &mut S,
                                outcome: Result<RpcResult, Error>,
                            |
                                {
                                    &&& *service == before
                                    &&& *final(service) == self.service_view()
                                    &&& #[trigger] answered(service, carried(call), outcome)
                                    &&& answers(call, outcome)
                                    &&& served_as(id, outcome, out)
                                };
                            assert(answered(witness, carried(call), outcome) && served_as(
                                id,
                                outcome,
                                out,
                            ));
                        },
                        Err(_) => {},
                    }
                }
                out
            },
        }
    }
}

/// The reply that carries a result: the result as the host wrote it, or,
/// where it could not be written, a serialization error with the writer's
/// words.
pub fn finish(id: Id, payload: Result<String, String>) -> (r: Response)
    ensures
        r@ == (match payload {
            Ok(text) => ResponseView {
                jsonrpc: "2.0"@,
                id: id@,
                result_json: Some(text@),
                error: None,
            },
            Err(detail) => ResponseView {
                jsonrpc: "2.0"@,
                id: id@,
                result_json: None,
                error: Some(
                    ErrorView { code: INTERNAL_ERROR, message: "serialization error: "@ + detail@ },
                ),
            },
        }),
{
    match payload {
        Ok(text) => respond(id, Ok(text)),
        Err(detail) => serialization_failed(id, detail.as_str()),
    }
}

/// A caller of a server that lives in the same process.
pub struct JsonRpcClient<'a, S> {
    server: &'a mut JsonRpcServer<S>,
}

impl<'a, S> JsonRpcClient<'a, S> where S: ChatService {
    /// The service behind the server this client calls.
    pub closed spec fn service_view(&self) -> S {
        self.server.service_view()
    }

    /// A client of `server`.
    pub fn new(server: &'a mut JsonRpcServer<S>) -> (r: Self)
        ensures
            r.service_view() == old(server).service_view(),
    {
        JsonRpcClient { server }
    }

    /// Submits a chat turn to the service and returns its answer.
    pub fn chat_request(&mut self, params: ChatRequest) -> (out: ChatResponse)
        ensures
            exists|service: &mut S|
                {
                    &&& *service == old(self).service_view()
                    &&& *final(service) == final(self).service_view()
                    &&& #[trigger] call_ensures(S::chat_request, (service, params), out)
                },
    {
        let r = self.server.service_mut();
        r.chat_request(params)
    }

    /// Approves a consent through the service and returns its answer.
    pub fn chat_approve(&mut self, params: ChatApproveRequest) -> (out: Result<ChatResponse, String>)
        ensures
            exists|service: &mut S|
                {
                    &&& *service == old(self).service_view()
                    &&& *final(service) == final(self).service_view()
                    &&& #[trigger] call_ensures(S::chat_approve, (service, params), out)
                },
    {
        let r = self.server.service_mut();
        r.chat_approve(params)
    }

    /// Denies a consent through the service and returns its answer.
    pub fn chat_deny(&mut self, params: ChatDenyRequest) -> (out: Result<ChatResponse, String>)
        ensures
            exists|service: &mut S|
                {
                    &&& *service == old(self).service_view()
                    &&& *final(service) == final(self).service_view()
                    &&& #[trigger] call_ensures(S::chat_deny, (service, params), out)
                },
    {
        let r = self.server.service_mut();
        r.chat_deny(params)
    }

    /// Lists the tools the service offers; the service is left as it was.
    pub fn tools_list(&mut self) -> (out: Vec<Tool>)
        ensures
            call_ensures(S::tools_list, (&old(self).service_view(),), out),
            final(self).service_view() == old(self).service_view(),
    {
        self.server.service().tools_list()
    }

    /// Serves one call through the server.
    pub fn call_raw(&mut self, id: Id, call: RpcCall) -> (reply: RpcReply)
        ensures
            reply.id == id,
            exists|service: &mut S|
                {
                    &&& *service == old(self).service_view()
                    &&& *final(service) == final(self).service_view()
                    &&& #[trigger] answered(service, carried(call), reply.outcome)
                },
            reads_only(carried(call)) ==> final(self).service_view() == old(self).service_view(),
            answers(call, reply.outcome),
    {
        self.server.handle(id, call)
    }
}

/// A conversation holding the single user message `user_message`.
pub fn sample_messages(user_message: &str) -> (out: Vec<ChatMessage>)
    ensures
        views(out@) == seq![ChatMessageView { role: "user"@, content: user_message@ }],
{
    let mut out: Vec<ChatMessage> = Vec::new();
    out.push(ChatMessage { role: "user".to_string(), content: user_message.to_string() });
    out
}

} // verus!
