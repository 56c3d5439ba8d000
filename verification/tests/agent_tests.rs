use std::cell::RefCell;
use std::collections::BTreeMap;

use cmnd_n_ctrl::actions::traits::{ActionBackend, DirEntry, StubActionBackend, ToolStep};
use cmnd_n_ctrl::agent::{
    build_consent_request, build_system_health_warnings, mask_settings, member_names_something,
    provider_config_auth_source, provider_config_env_ref, provider_config_has_auth,
    redact_provider_config_json, settings_auth_source, settings_env_ref, settings_have_auth,
    AgentService, HealthProbe, PathProbe, CONSENT_TTL_SECS,
};
use cmnd_n_ctrl::ipc::{
    ActionEvent, AuditEntry, AuditGetRequest, AuditListRequest, ChatApproveRequest,
    ChatDenyRequest, ChatMessage, ChatMode, ChatRequest, ChatResponse, ChatService,
    ConsentActionRequest, ConsentListRequest, JsonRpcClient, JsonRpcServer, McpServerAddRequest,
    McpServerMutationResponse, McpServerRecord, McpServerRemoveRequest, McpServerStateRequest,
    PendingConsentRecord, ProjectOpenRequest, ProjectOpenResponse, ProjectStatusRequest,
    ProjectStatusResponse, ProviderConfig, ProviderConfigGetRequest, ProviderConfigRecord,
    ProviderConfigSetRequest, ProviderConfigSetResponse, ProviderInfo, ProvidersSetRequest,
    RpcCall, RpcResult, Served, Session, SessionCreateRequest, SessionDeleteRequest,
    SessionDeleteResponse, SessionGetRequest, SessionMessagesAppendRequest,
    SessionMessagesAppendResponse, SessionSummary, SystemHealthResponse, Tool, ToolCall,
    ToolResult,
};
use cmnd_n_ctrl::jsonrpc::{Id, Request, Response};
use cmnd_n_ctrl::orchestrator::Orchestrator;
use cmnd_n_ctrl::policy::Policy;
use cmnd_n_ctrl::providers::openai_stub::{OpenAiStubProvider, StubReply, StubSelection};
use cmnd_n_ctrl::providers::provider_trait::{Provider, ProviderReply};
use cmnd_n_ctrl::storage::{
    lock_step, LockAttempt, LockStep, PendingConsentState, ProjectState, ProviderState, Store,
};

/// The stand-in provider with its numeric command completed.
struct StandIn;

impl Provider for StandIn {
    fn name(&self) -> &'static str {
        "openai-stub"
    }

    fn chat(
        &self,
        messages: &[ChatMessage],
        tools: &[Tool],
        tool_results: &[ToolResult],
        config: &ProviderConfig,
    ) -> ProviderReply {
        match OpenAiStubProvider.plan(messages, tools, tool_results, config) {
            StubReply::Text(text) => ProviderReply::FinalText(text),
            StubReply::Pick(StubSelection::Call(call)) => ProviderReply::ToolCalls(vec![call]),
            StubReply::Pick(StubSelection::Sum(rest)) => {
                let mut numbers = rest.split_whitespace().filter_map(|s| s.parse::<f64>().ok());
                let a = numbers.next().unwrap_or(2.0);
                let b = numbers.next().unwrap_or(3.0);
                ProviderReply::ToolCalls(vec![ToolCall {
                    name: "math.add".to_string(),
                    arguments_json: format!("{{\"a\":{a:?},\"b\":{b:?}}}"),
                    tool_call_id: None,
                }])
            }
        }
    }
}

/// The built-in backend over files kept in memory.
struct MemoryBackend {
    inner: StubActionBackend,
    files: RefCell<BTreeMap<String, String>>,
}

impl ActionBackend for MemoryBackend {
    fn platform_name(&self) -> &'static str {
        self.inner.platform_name()
    }

    fn execute_tool(&self, tool_call: &ToolCall) -> ToolResult {
        let name = tool_call.name.as_str();
        match self.inner.plan_tool(tool_call, 1_700_000_000, Some("/cwd")) {
            ToolStep::Done(result) => result,
            ToolStep::Add { a, b } => {
                let a: f64 = a.and_then(|t| t.parse().ok()).unwrap_or(0.0);
                let b: f64 = b.and_then(|t| t.parse().ok()).unwrap_or(0.0);
                self.inner.add_result(&format!("{a:?}"), &format!("{b:?}"), &format!("{:?}", a + b))
            }
            ToolStep::ListDir { path } => {
                let prefix = format!("{path}/");
                let entries: Vec<DirEntry> = self
                    .files
                    .borrow()
                    .keys()
                    .filter_map(|k| k.strip_prefix(&prefix))
                    .filter(|rest| !rest.contains('/'))
                    .map(|n| DirEntry { name: n.to_string(), is_dir: false })
                    .collect();
                self.inner.list_result(&path, &entries)
            }
            ToolStep::ReadText { path } => match self.files.borrow().get(&path) {
                Some(raw) => self.inner.read_text_result(&path, raw),
                None => self.inner.io_failure(name, "read_failed", "No such file", &path),
            },
            ToolStep::ReadCsv { path, limit } => match self.files.borrow().get(&path) {
                Some(raw) => self.inner.read_csv_result(&path, raw, limit),
                None => self.inner.io_failure(name, "read_failed", "No such file", &path),
            },
            ToolStep::ReadJson { path } => match self.files.borrow().get(&path) {
                Some(raw) => self.inner.read_json_result(&path, raw),
                None => self.inner.io_failure(name, "read_failed", "No such file", &path),
            },
            ToolStep::SearchText { root, query, limit } => {
                let mut matches = Vec::new();
                let mut scanned = 0usize;
                for (path, raw) in self.files.borrow().iter() {
                    if path.starts_with(&format!("{root}/")) && matches.len() < limit {
                        scanned += 1;
                        cmnd_n_ctrl::actions::traits::search_lines(
                            &mut matches,
                            path,
                            raw,
                            &query,
                            limit,
                        );
                    }
                }
                self.inner.search_result(&root, &query, limit, scanned, matches)
            }
            ToolStep::Stat { path } => match self.files.borrow().get(&path) {
                Some(raw) => self.inner.stat_result(&path, false, true, raw.len() as u64, None),
                None => self.inner.io_failure(name, "stat_failed", "No such file", &path),
            },
            ToolStep::WriteText { path, content } => {
                self.files.borrow_mut().insert(path.clone(), content.clone());
                self.inner.write_result(&path, &content)
            }
            ToolStep::AppendText { path, content } => {
                let mut files = self.files.borrow_mut();
                let entry = files.entry(path.clone()).or_default();
                entry.push_str(&content);
                let total = entry.len() as u64;
                self.inner.append_result(&path, &content, total)
            }
            ToolStep::MakeDir { path } => self.inner.mkdir_result(&path),
        }
    }
}

/// A host around the service: it keeps the clock, the files and the
/// children that are said to run.
struct Host {
    service: AgentService,
    clock: u64,
    files: BTreeMap<String, String>,
    dirs: Vec<String>,
    exited: RefCell<Vec<String>>,
    env: BTreeMap<String, String>,
}

impl Host {
    fn new() -> Self {
        Host::over(Store::default())
    }

    fn over(store: Store) -> Self {
        Host {
            service: AgentService::new("test", store),
            clock: 1_000,
            files: BTreeMap::new(),
            dirs: vec!["/tmp/proj".to_string()],
            exited: RefCell::new(Vec::new()),
            env: BTreeMap::new(),
        }
    }

    fn orchestrator(&self) -> Orchestrator<StandIn, MemoryBackend> {
        Orchestrator::new(
            Policy::default(),
            self.service.tool_registry.clone(),
            StandIn,
            MemoryBackend {
                inner: StubActionBackend::with_project_root(
                    "test",
                    self.service.store.project.open_path.clone(),
                ),
                files: RefCell::new(self.files.clone()),
            },
        )
    }

    fn probe(&self, path: &str) -> PathProbe {
        let is_dir = self.dirs.iter().any(|d| d == path);
        let exists = is_dir || self.files.contains_key(path);
        let prefix = format!("{path}/");
        let entry_count = self.files.keys().filter(|k| k.starts_with(&prefix)).count();
        PathProbe { exists, is_dir, entry_count }
    }

    fn health_probe(&self) -> HealthProbe {
        let env_value = self.service.health_env_ref().and_then(|n| self.env.get(&n).cloned());
        let project = match &self.service.store.project.open_path {
            Some(p) => self.probe(p),
            None => PathProbe { exists: false, is_dir: false, entry_count: 0 },
        };
        HealthProbe { env_value, project }
    }

    fn copy(&self) -> AgentService {
        AgentService {
            store: self.service.store.clone(),
            tool_registry: self.service.tool_registry.clone(),
            platform: self.service.platform.clone(),
            synthetic_audit_counter: self.service.synthetic_audit_counter,
            consent_counter: self.service.consent_counter,
            session_counter: self.service.session_counter,
            mcp_counter: self.service.mcp_counter,
        }
    }
}

impl ChatService for Host {
    fn chat_request(&mut self, params: ChatRequest) -> ChatResponse {
        let mut orchestrator = self.orchestrator();
        self.service.chat_request(&mut orchestrator, params, self.clock)
    }

    fn chat_approve(&mut self, params: ChatApproveRequest) -> Result<ChatResponse, String> {
        let mut orchestrator = self.orchestrator();
        self.service.chat_approve(&mut orchestrator, params, self.clock)
    }

    fn chat_deny(&mut self, params: ChatDenyRequest) -> Result<ChatResponse, String> {
        self.service.chat_deny(params, self.clock)
    }

    fn sessions_create(&mut self, params: SessionCreateRequest) -> Result<Session, String> {
        Ok(self.service.sessions_create(params, self.clock))
    }

    fn sessions_list(&self) -> Result<Vec<SessionSummary>, String> {
        Ok(self.service.sessions_list())
    }

    fn sessions_get(&self, params: SessionGetRequest) -> Result<Session, String> {
        self.service.sessions_get(params)
    }

    fn sessions_delete(&mut self, params: SessionDeleteRequest) -> Result<SessionDeleteResponse, String> {
        Ok(self.service.sessions_delete(params))
    }

    fn sessions_messages_append(
        &mut self,
        params: SessionMessagesAppendRequest,
    ) -> Result<SessionMessagesAppendResponse, String> {
        self.service.sessions_messages_append(params, self.clock)
    }

    fn providers_list(&self) -> Result<Vec<ProviderInfo>, String> {
        Ok(self.service.providers_list())
    }

    fn providers_set(&mut self, params: ProvidersSetRequest) -> Result<ProviderInfo, String> {
        self.service.providers_set(params)
    }

    fn providers_config_get(&self, params: ProviderConfigGetRequest) -> Result<ProviderConfigRecord, String> {
        Ok(self.service.providers_config_get(params))
    }

    fn providers_config_set(
        &mut self,
        params: ProviderConfigSetRequest,
    ) -> Result<ProviderConfigSetResponse, String> {
        Ok(self.service.providers_config_set(params))
    }

    fn mcp_servers_list(&self) -> Result<Vec<McpServerRecord>, String> {
        let exited = self.exited.borrow().clone();
        Ok(self.copy().mcp_servers_list(&exited))
    }

    fn mcp_servers_add(&mut self, params: McpServerAddRequest) -> Result<McpServerMutationResponse, String> {
        Ok(self.service.mcp_servers_add(params))
    }

    fn mcp_servers_remove(
        &mut self,
        params: McpServerRemoveRequest,
    ) -> Result<McpServerMutationResponse, String> {
        Ok(self.service.mcp_servers_remove(params))
    }

    fn mcp_servers_start(&mut self, params: McpServerStateRequest) -> Result<McpServerMutationResponse, String> {
        self.service.mcp_server_named(&params.server_id)?;
        self.service.mcp_server_started(&params.server_id, Ok(()))
    }

    fn mcp_servers_stop(&mut self, params: McpServerStateRequest) -> Result<McpServerMutationResponse, String> {
        self.service.mcp_server_stopped(&params.server_id, Ok(()))
    }

    fn project_open(&mut self, params: ProjectOpenRequest) -> Result<ProjectOpenResponse, String> {
        let probe = self.probe(&params.path);
        Ok(self.service.project_open(params, probe))
    }

    fn project_status(&self, params: ProjectStatusRequest) -> Result<ProjectStatusResponse, String> {
        let probe = self.probe(&self.service.project_status_path(&params));
        Ok(self.service.project_status(params, probe))
    }

    fn audit_list(&self, params: AuditListRequest) -> Result<Vec<AuditEntry>, String> {
        Ok(self.service.audit_list(params))
    }

    fn audit_get(&self, params: AuditGetRequest) -> Result<AuditEntry, String> {
        self.service.audit_get(params)
    }

    fn consent_list(&self, params: ConsentListRequest) -> Result<Vec<PendingConsentRecord>, String> {
        Ok(self.service.consent_list(params, self.clock))
    }

    fn consent_approve(&mut self, params: ConsentActionRequest) -> Result<ChatResponse, String> {
        self.chat_approve(ChatApproveRequest { consent_token: params.consent_id })
    }

    fn consent_deny(&mut self, params: ConsentActionRequest) -> Result<ChatResponse, String> {
        self.chat_deny(ChatDenyRequest { consent_token: params.consent_id })
    }

    fn tools_list(&self) -> Vec<Tool> {
        self.service.tools_list()
    }

    fn system_health(&self) -> Result<SystemHealthResponse, String> {
        let exited = self.exited.borrow().clone();
        let probe = self.health_probe();
        Ok(self.copy().system_health(&exited, &probe))
    }
}

fn request(content: &str, mode: ChatMode) -> ChatRequest {
    ChatRequest {
        session_id: None,
        messages: vec![ChatMessage { role: "user".to_string(), content: content.to_string() }],
        provider_config: ProviderConfig {
            provider_name: "openai-stub".to_string(),
            model: None,
            config_json: None,
        },
        mode,
    }
}

fn chat(reply: cmnd_n_ctrl::ipc::RpcReply) -> ChatResponse {
    match reply.outcome {
        Ok(RpcResult::Chat(response)) => response,
        other => panic!("no chat response: {other:?}"),
    }
}

fn opened() -> Host {
    let mut host = Host::new();
    host.files.insert("/tmp/proj/notes.txt".to_string(), "hello project\n".to_string());
    host.project_open(ProjectOpenRequest { path: "/tmp/proj".to_string() }).expect("project open");
    host
}

#[test]
fn consent_lifecycle_approve_continues_and_records_audit() {
    let mut server = JsonRpcServer::new(Host::new());

    let chat_req = ChatRequest {
        session_id: None,
        messages: vec![ChatMessage {
            role: "user".to_string(),
            content: "tool:activate Browser".to_string(),
        }],
        provider_config: ProviderConfig {
            provider_name: "openai-stub".to_string(),
            model: None,
            config_json: None,
        },
        mode: ChatMode::RequireConfirmation,
    };
    let first = chat(server.handle(Id::Number(1), RpcCall::ChatRequest(chat_req)));
    let consent_id = first.consent_token.clone().expect("consent token");
    assert!(first.proposed_actions.iter().any(|a| a.status == "consent_required"));

    let second = chat(server.handle(
        Id::Number(2),
        RpcCall::ChatApprove(ChatApproveRequest { consent_token: consent_id }),
    ));
    assert!(second.executed_action_events.iter().any(|a| a.status == "executed"));

    let audits = server
        .service()
        .audit_list(AuditListRequest { session_id: None, limit: Some(10) })
        .expect("audit list");
    assert!(audits.len() >= 2);
}

#[test]
fn consent_approve_replay_returns_explicit_not_pending_error() {
    let mut server = JsonRpcServer::new(Host::new());
    let first = chat(server.handle(
        Id::Number(1),
        RpcCall::ChatRequest(request("tool:activate Browser", ChatMode::RequireConfirmation)),
    ));
    let consent_id = first.consent_token.expect("consent token");

    let _approved = server.handle(
        Id::Number(2),
        RpcCall::ChatApprove(ChatApproveRequest { consent_token: consent_id.clone() }),
    );

    let replay = server.handle(
        Id::Number(3),
        RpcCall::ChatApprove(ChatApproveRequest { consent_token: consent_id }),
    );
    let err = replay.outcome.expect_err("json-rpc error");
    assert!(err.message.contains("consent_not_pending:approved"));
    assert_eq!(err.code, -32000);
    assert_eq!(replay.id, Id::Number(3));
}

#[test]
fn consent_approve_expired_returns_explicit_error() {
    let mut server = JsonRpcServer::new(Host::new());
    let first = chat(server.handle(
        Id::Number(1),
        RpcCall::ChatRequest(request("tool:activate Browser", ChatMode::RequireConfirmation)),
    ));
    let consent_id = first.consent_token.expect("consent token");

    let target = server
        .service_mut()
        .service
        .store
        .pending_consents
        .iter_mut()
        .find(|p| p.record.consent_id == consent_id)
        .expect("pending record");
    target.record.expires_at_unix_seconds = 1;

    let expired = server.handle(
        Id::Number(2),
        RpcCall::ChatApprove(ChatApproveRequest { consent_token: consent_id.clone() }),
    );
    let err = expired.outcome.expect_err("json-rpc error");
    assert!(err.message.contains("consent_expired"));
    let stored = &server.service().service.store.pending_consents[0];
    assert_eq!(stored.record.status, "expired");
    let again = server.handle(
        Id::Number(3),
        RpcCall::ChatDeny(ChatDenyRequest { consent_token: consent_id }),
    );
    assert_eq!(again.outcome.expect_err("error").message, "consent_not_pending:expired");
}

#[test]
fn file_read_text_uses_project_scope() {
    let mut service = opened();

    let response = service.chat_request(request("tool:cat notes.txt", ChatMode::BestEffort));

    assert!(response
        .executed_action_events
        .iter()
        .any(|a| a.tool_name == "file.read_text" && a.status == "executed"));
    assert_eq!(
        response.executed_action_events[0].evidence_summary.as_deref(),
        Some("Read text file /tmp/proj/notes.txt")
    );
}

#[test]
fn file_write_text_requires_consent_in_best_effort() {
    let mut service = opened();

    let response =
        service.chat_request(request("tool:write notes/out.txt :: hello", ChatMode::BestEffort));

    assert!(response
        .proposed_actions
        .iter()
        .any(|a| a.tool_name == "file.write_text" && a.status == "consent_required"));
    assert!(response.consent_token.is_some());
}

#[test]
fn file_append_and_mkdir_require_consent_in_best_effort() {
    let mut service = opened();

    for prompt in ["tool:append notes/out.txt :: hello", "tool:mkdir notes/subdir"] {
        let response = service.chat_request(request(prompt, ChatMode::BestEffort));
        assert!(response.proposed_actions.iter().any(|a| a.status == "consent_required"));
        assert!(response.consent_token.is_some());
    }
}

#[test]
fn session_history_persists_assistant_response() {
    let mut service = Host::new();
    let session = service
        .sessions_create(SessionCreateRequest { title: Some("Test Session".to_string()) })
        .expect("create session");

    let response = service.chat_request(ChatRequest {
        session_id: Some(session.id.clone()),
        messages: vec![ChatMessage { role: "user".to_string(), content: "hello".to_string() }],
        provider_config: ProviderConfig {
            provider_name: "openai-stub".to_string(),
            model: None,
            config_json: None,
        },
        mode: ChatMode::BestEffort,
    });

    let stored =
        service.sessions_get(SessionGetRequest { session_id: session.id }).expect("get session");
    assert_eq!(stored.messages.len(), 2);
    assert_eq!(stored.messages[0].role, "user");
    assert_eq!(stored.messages[0].content, "hello");
    assert_eq!(stored.messages[1].role, "assistant");
    assert_eq!(stored.messages[1].content, response.final_text);
}

#[test]
fn mcp_server_start_stop_spawns_process_and_updates_status() {
    let mut service = Host::new();

    let added = service
        .mcp_servers_add(McpServerAddRequest {
            name: "sleepy".to_string(),
            command: "/bin/sh".to_string(),
            args: vec!["-c".to_string(), "sleep 30".to_string()],
        })
        .expect("add mcp server");
    let server = added.server.expect("server record");

    let started = service
        .mcp_servers_start(McpServerStateRequest { server_id: server.id.clone() })
        .expect("start server");
    assert!(started.ok);
    assert_eq!(started.server.as_ref().map(|s| s.status.as_str()), Some("running"));

    let stopped = service
        .mcp_servers_stop(McpServerStateRequest { server_id: server.id })
        .expect("stop server");
    assert!(stopped.ok);
    assert_eq!(stopped.server.as_ref().map(|s| s.status.as_str()), Some("stopped"));
}

#[test]
fn mcp_servers_list_marks_exited_processes_stopped() {
    let mut service = Host::new();

    let added = service
        .mcp_servers_add(McpServerAddRequest {
            name: "short-lived".to_string(),
            command: "/bin/sh".to_string(),
            args: vec!["-c".to_string(), "sleep 0.1".to_string()],
        })
        .expect("add mcp server");
    let server = added.server.expect("server record");

    service
        .mcp_servers_start(McpServerStateRequest { server_id: server.id.clone() })
        .expect("start server");

    service.exited.borrow_mut().push(server.id.clone());

    let listed = service.mcp_servers_list().expect("list servers");
    let record = listed.iter().find(|s| s.id == server.id).expect("server in list");
    assert_eq!(record.status, "stopped");
}

#[test]
fn startup_normalizes_persisted_running_mcp_statuses() {
    let store = {
        let mut service = Host::new();
        let added = service
            .mcp_servers_add(McpServerAddRequest {
                name: "persisted".to_string(),
                command: "echo".to_string(),
                args: vec!["hi".to_string()],
            })
            .expect("add mcp server");
        let id = added.server.expect("server").id;
        let item = service
            .service
            .store
            .mcp_servers
            .iter_mut()
            .find(|s| s.id == id)
            .expect("server exists");
        item.status = "running".to_string();
        service.service.store.clone()
    };

    let service = Host::over(store);
    let listed = service.mcp_servers_list().expect("list servers");
    assert_eq!(listed.len(), 1);
    assert_eq!(listed[0].status, "stopped");
}

#[test]
fn providers_list_recognizes_env_based_auth_config() {
    let mut service = Host::new();
    service
        .providers_config_set(ProviderConfigSetRequest {
            provider_name: "openai".to_string(),
            config_json: r#"{"api_key_env":"OPENAI_API_KEY"}"#.to_string(),
        })
        .expect("set provider config");

    let providers = service.providers_list().expect("providers list");
    let openai = providers.iter().find(|p| p.name == "openai").expect("openai provider");
    assert!(openai.has_auth);
    assert_eq!(openai.config_summary, "configured (env)");
}

#[test]
fn providers_list_includes_custom_provider_aliases() {
    let mut service = Host::new();
    service
        .providers_config_set(ProviderConfigSetRequest {
            provider_name: "ollama-local".to_string(),
            config_json: r#"{"api_key_env":"OLLAMA_TOKEN"}"#.to_string(),
        })
        .expect("set custom provider config");

    let providers = service.providers_list().expect("providers list");
    let custom =
        providers.iter().find(|p| p.name == "ollama-local").expect("custom provider present");
    assert!(custom.has_auth);
    assert_eq!(custom.config_summary, "configured (env)");

    let active = service
        .providers_set(ProvidersSetRequest { provider_name: "ollama-local".to_string() })
        .expect("set custom provider active");
    assert_eq!(active.name, "ollama-local");
    assert!(active.is_active);
}

#[test]
fn providers_config_get_redacts_inline_secret_values() {
    let mut service = Host::new();
    service
        .providers_config_set(ProviderConfigSetRequest {
            provider_name: "openai".to_string(),
            config_json: r#"{"api_key":"sk-test","api_key_env":"OPENAI_API_KEY"}"#.to_string(),
        })
        .expect("set provider config");

    let record = service
        .providers_config_get(ProviderConfigGetRequest { provider_name: Some("openai".to_string()) })
        .expect("config get");
    assert!(record.config_json.contains("\"api_key\":\"[REDACTED]\""));
    assert!(record.config_json.contains("\"api_key_env\":\"OPENAI_API_KEY\""));
    assert!(!record.config_json.contains("sk-test"));
}

#[test]
fn system_health_reports_basic_runtime_state() {
    let mut service = Host::new();
    let _ = service.providers_config_set(ProviderConfigSetRequest {
        provider_name: "openai".to_string(),
        config_json: r#"{"api_key":"test-key"}"#.to_string(),
    });
    let _ = service.providers_set(ProvidersSetRequest { provider_name: "openai".to_string() });
    let _ = service.project_open(ProjectOpenRequest { path: "/tmp/proj".to_string() });

    let health = service.system_health().expect("system health");
    assert!(health.ok);
    assert_eq!(health.active_provider.as_deref(), Some("openai"));
    assert_eq!(health.provider_count, 1);
    assert_eq!(health.mcp_servers_total, 0);
    assert_eq!(health.mcp_servers_running, 0);
    assert_eq!(health.pending_consents, 0);
    assert!(health.project_path.is_some());
    assert!(health.warnings.is_empty());
}

#[test]
fn system_health_warns_when_provider_env_ref_missing() {
    let mut service = Host::new();
    service
        .providers_config_set(ProviderConfigSetRequest {
            provider_name: "openai".to_string(),
            config_json: r#"{"api_key_env":"CMND_N_CTRL_TEST_MISSING_KEY"}"#.to_string(),
        })
        .expect("config set");
    service
        .providers_set(ProvidersSetRequest { provider_name: "openai".to_string() })
        .expect("provider set");

    let health = service.system_health().expect("system health");
    assert!(!health.ok);
    assert!(health.warnings.iter().any(|w| w.contains("CMND_N_CTRL_TEST_MISSING_KEY")));
}

// ---------------------------------------------------------------------------
// Scenarios
// ---------------------------------------------------------------------------

#[test]
fn consent_happy_path() {
    let mut host = Host::new();
    let first = host.chat_request(request("activate Browser", ChatMode::RequireConfirmation));
    assert_eq!(first.execution_state, "awaiting_consent");
    assert_eq!(first.final_text, "Confirmation required before executing requested tools.");
    assert_eq!(first.proposed_actions.len(), 1);
    let proposed = &first.proposed_actions[0];
    assert_eq!(proposed.tool_name, "desktop.app.activate");
    assert_eq!(proposed.status, "consent_required");
    assert_eq!(proposed.capability_tier, "SystemActions");
    assert!(first.executed_action_events.is_empty());
    assert_eq!(first.audit_id, "audit-000001");
    let token = first.consent_token.clone().expect("token");
    assert_eq!(token, "consent-000001");
    let asked = first.consent_request.clone().expect("consent request");
    assert_eq!(asked.scope, "once_exact_request");
    assert_eq!(
        asked.human_summary,
        "Approve execution of 'desktop.app.activate' once for this exact request."
    );
    assert_eq!(asked.risk_factors, vec!["system_level_action", "external_arguments_present"]);
    assert!(asked.requires_extra_confirmation_click);
    assert_eq!(asked.expires_at_unix_seconds, Some(1_000 + CONSENT_TTL_SECS));
    assert_eq!(asked.ttl_seconds, Some(300));

    host.clock = 1_300;
    let second = host.chat_approve(ChatApproveRequest { consent_token: token.clone() }).expect("approve");
    assert_eq!(second.execution_state, "completed");
    assert_eq!(second.consent_token, None);
    assert!(second.consent_request.is_none());
    assert_eq!(second.executed_action_events.len(), 1);
    assert_eq!(second.executed_action_events[0].tool_name, "desktop.app.activate");
    assert_eq!(second.executed_action_events[0].status, "executed");
    assert_eq!(second.audit_id, "audit-000002");
    assert_eq!(second.request_fingerprint, first.request_fingerprint);

    let third = host.chat_approve(ChatApproveRequest { consent_token: token });
    assert_eq!(third, Err("consent_not_pending:approved".to_string()));
}

#[test]
fn anti_replay_across_denial() {
    let mut host = Host::new();
    let first = host.chat_request(request("activate Browser", ChatMode::RequireConfirmation));
    let token = first.consent_token.expect("token");
    let denied = host.chat_deny(ChatDenyRequest { consent_token: token.clone() }).expect("deny");
    assert_eq!(denied.execution_state, "denied");
    assert!(denied.final_text.contains("denied"));
    assert_eq!(denied.final_text, "User denied consent for requested actions.");
    assert_eq!(denied.proposed_actions.len(), 1);
    assert_eq!(denied.proposed_actions[0].status, "denied");
    assert_eq!(denied.action_events, denied.proposed_actions);
    assert!(denied.executed_action_events.is_empty());
    assert_eq!(
        denied.actions_executed,
        vec!["denied:desktop.app.activate:Tool 'desktop.app.activate' requires explicit user consent"]
    );
    assert_eq!(denied.request_fingerprint, first.request_fingerprint);
    assert_eq!(
        host.chat_approve(ChatApproveRequest { consent_token: token.clone() }),
        Err("consent_not_pending:denied".to_string())
    );
    assert_eq!(
        host.chat_deny(ChatDenyRequest { consent_token: token }),
        Err("consent_not_pending:denied".to_string())
    );
    assert_eq!(
        host.consent_deny(ConsentActionRequest { consent_id: "consent-000009".to_string() }),
        Err("consent_not_found".to_string())
    );
}

#[test]
fn path_containment_holds_on_approval() {
    let mut host = opened();
    host.files.insert("/etc/passwd".to_string(), "root:x:0:0".to_string());
    let first = host.chat_request(request("tool:cat ../../etc/passwd", ChatMode::RequireConfirmation));
    let token = first.consent_token.expect("token");
    assert_eq!(
        first.proposed_actions[0].arguments_preview.as_deref(),
        Some("{\"path\":\"../../etc/passwd\"}")
    );
    let mut orchestrator = host.orchestrator();
    let second = host
        .service
        .chat_approve(&mut orchestrator, ChatApproveRequest { consent_token: token }, host.clock)
        .expect("approve");
    assert_eq!(second.executed_action_events.len(), 1);
    assert_eq!(
        second.executed_action_events[0].evidence_summary.as_deref(),
        Some("file.read_text failed on test: path_outside_project_scope")
    );
    let events = orchestrator.audit_events();
    assert_eq!(
        events[0].evidence_summaries,
        vec!["file.read_text failed on test: path_outside_project_scope"]
    );
}

#[test]
fn read_only_tools_run_without_consent_in_best_effort() {
    let mut host = Host::new();
    let response = host.chat_request(request("what time is it", ChatMode::BestEffort));
    assert_eq!(response.execution_state, "completed");
    assert_eq!(response.consent_token, None);
    assert_eq!(response.executed_action_events.len(), 1);
    assert_eq!(response.executed_action_events[0].tool_name, "time.now");
    assert_eq!(response.executed_action_events[0].status, "executed");
    assert_eq!(response.executed_action_events[0].capability_tier, "ReadOnly");
    assert_eq!(response.actions_executed, vec!["time.now"]);
    assert_eq!(
        response.final_text,
        "OpenAI stub response (tool results incorporated). TODO: integrate real API client without embedding keys."
    );
    assert!(host.service.store.pending_consents.is_empty());
    let sum = host.chat_request(request("tool:add 2 x 3.5", ChatMode::BestEffort));
    assert_eq!(sum.executed_action_events[0].tool_name, "math.add");
}

// ---------------------------------------------------------------------------
// The laws on concrete values
// ---------------------------------------------------------------------------

#[test]
fn a_consent_is_resolved_once() {
    for (first_approves, second_approves) in [(true, true), (true, false), (false, true), (false, false)] {
        let mut host = Host::new();
        let token = host
            .chat_request(request("tool:mkdir x", ChatMode::BestEffort))
            .consent_token
            .expect("token");
        let resolve = |host: &mut Host, approve: bool| {
            if approve {
                host.chat_approve(ChatApproveRequest { consent_token: token.clone() })
            } else {
                host.chat_deny(ChatDenyRequest { consent_token: token.clone() })
            }
        };
        resolve(&mut host, first_approves).expect("first resolution");
        let before = host.service.store.clone();
        let status = if first_approves { "approved" } else { "denied" };
        assert_eq!(
            resolve(&mut host, second_approves),
            Err(format!("consent_not_pending:{status}"))
        );
        assert_eq!(host.service.store, before);
    }
}

#[test]
fn an_approval_replays_the_request_as_minted() {
    let mut host = Host::new();
    let session = host.sessions_create(SessionCreateRequest { title: None }).expect("session");
    host.providers_set(ProvidersSetRequest { provider_name: "openai-stub".to_string() }).expect("set");
    let mut asked = request("tool:write a.txt :: first", ChatMode::BestEffort);
    asked.session_id = Some(session.id.clone());
    asked.provider_config.provider_name = "  ".to_string();
    let first = host.chat_request(asked.clone());
    let token = first.consent_token.expect("token");
    let bound = host.service.store.pending_consents[0].chat_request.clone();
    assert_eq!(bound.provider_config.provider_name, "openai-stub");
    assert_eq!(bound.messages, asked.messages);
    assert_eq!(bound.session_id, asked.session_id);
    assert_eq!(bound.mode, asked.mode);
    // What happens to the session and the providers later does not reach the bound request.
    host.sessions_messages_append(SessionMessagesAppendRequest {
        session_id: session.id.clone(),
        messages: vec![ChatMessage { role: "user".to_string(), content: "tool:write b.txt :: later".to_string() }],
    })
    .expect("append");
    host.providers_set(ProvidersSetRequest { provider_name: "gemini-stub".to_string() }).expect("set");
    let second = host.chat_approve(ChatApproveRequest { consent_token: token }).expect("approve");
    assert_eq!(host.service.store.pending_consents[0].chat_request, bound);
    assert_eq!(second.request_fingerprint, first.request_fingerprint);
    assert_eq!(second.executed_action_events.len(), 1);
    assert_eq!(
        second.executed_action_events[0].evidence_summary.as_deref(),
        Some("Wrote text file /cwd/a.txt (5 bytes)")
    );
    assert_eq!(second.session_id, Some(session.id));
    let audit = host.audit_get(AuditGetRequest { audit_id: second.audit_id }).expect("audit");
    assert_eq!(audit.provider, "openai-stub");
}

#[test]
fn expiry_is_seen_when_a_consent_is_read() {
    let mut host = Host::new();
    let token = host
        .chat_request(request("tool:mkdir x", ChatMode::BestEffort))
        .consent_token
        .expect("token");
    let all = ConsentListRequest { status: None, session_id: None };
    host.clock = 1_300;
    assert_eq!(host.consent_list(all.clone()).expect("list")[0].status, "pending");
    host.clock = 1_301;
    let seen = host.consent_list(all.clone()).expect("list");
    assert_eq!(seen[0].status, "expired");
    assert_eq!(host.service.store.pending_consents[0].record.status, "pending");
    assert_eq!(
        host.consent_list(ConsentListRequest { status: Some("pending".to_string()), session_id: None })
            .expect("list")
            .len(),
        0
    );
    assert_eq!(
        host.consent_approve(ConsentActionRequest { consent_id: token.clone() }),
        Err("consent_expired".to_string())
    );
    assert_eq!(host.service.store.pending_consents[0].record.status, "expired");
    assert_eq!(host.service.store.audit_entries.len(), 1);
    host.clock = 0;
    assert_eq!(
        host.consent_approve(ConsentActionRequest { consent_id: token }),
        Err("consent_not_pending:expired".to_string())
    );
}

#[test]
fn consents_last_exactly_their_lifetime() {
    let mut host = Host::new();
    let token = host
        .chat_request(request("tool:mkdir x", ChatMode::BestEffort))
        .consent_token
        .expect("token");
    assert_eq!(host.service.store.pending_consents[0].record.requested_at_unix_seconds, 1_000);
    assert_eq!(host.service.store.pending_consents[0].record.expires_at_unix_seconds, 1_300);
    host.clock = 1_300;
    assert!(host.chat_approve(ChatApproveRequest { consent_token: token }).is_ok());
    let mut late = Host::new();
    late.clock = u64::MAX - 5;
    late.chat_request(request("tool:mkdir x", ChatMode::BestEffort));
    assert_eq!(late.service.store.pending_consents[0].record.expires_at_unix_seconds, u64::MAX);
}

#[test]
fn gated_tools_run_only_through_approval() {
    let mut host = Host::new();
    for prompt in [
        "tool:write a :: b",
        "tool:append a :: b",
        "tool:mkdir d",
        "tool:apps",
        "tool:activate X",
        "tool:open https://example.com",
        "tool:mcp a :: b :: {}",
    ] {
        for mode in [ChatMode::BestEffort, ChatMode::RequireConfirmation] {
            let response = host.chat_request(request(prompt, mode));
            assert!(response.executed_action_events.is_empty(), "{prompt}");
            assert_eq!(response.execution_state, "awaiting_consent", "{prompt}");
            let token = response.consent_token.expect("token");
            let approved = host.chat_approve(ChatApproveRequest { consent_token: token }).expect("ok");
            assert_eq!(approved.executed_action_events.len(), 1, "{prompt}");
            assert_ne!(approved.executed_action_events[0].capability_tier, "ReadOnly");
        }
    }
    for prompt in ["tool:time", "tool:echo x", "tool:upper x", "tool:ls", "tool:cat a"] {
        let response = host.chat_request(request(prompt, ChatMode::BestEffort));
        assert_eq!(response.executed_action_events.len(), 1, "{prompt}");
        assert_eq!(response.executed_action_events[0].capability_tier, "ReadOnly");
        let gated = host.chat_request(request(prompt, ChatMode::RequireConfirmation));
        assert!(gated.executed_action_events.is_empty(), "{prompt}");
        assert!(gated.consent_token.is_some());
    }
}

#[test]
fn every_response_is_audited() {
    let mut host = Host::new();
    let session = host.sessions_create(SessionCreateRequest { title: None }).expect("session");
    let mut asked = request("tool:mkdir x", ChatMode::BestEffort);
    asked.session_id = Some(session.id.clone());
    let first = host.chat_request(asked.clone());
    let second = host
        .chat_approve(ChatApproveRequest { consent_token: first.consent_token.clone().expect("t") })
        .expect("approve");
    let third_token = host.chat_request(asked).consent_token.expect("token");
    let third = host.chat_deny(ChatDenyRequest { consent_token: third_token }).expect("deny");
    for response in [&first, &second, &third] {
        let entry =
            host.audit_get(AuditGetRequest { audit_id: response.audit_id.clone() }).expect("audit");
        assert_eq!(entry.audit_id, response.audit_id);
        assert_eq!(entry.session_id, response.session_id);
        assert_eq!(entry.session_id, Some(session.id.clone()));
        assert_eq!(entry.provider, "openai-stub");
        assert_eq!(entry.timestamp_unix_seconds, 1_000);
        assert_eq!(entry.executed_actions, response.actions_executed);
    }
    let entry = host.audit_get(AuditGetRequest { audit_id: first.audit_id.clone() }).expect("audit");
    assert_eq!(
        entry.policy_decisions,
        vec!["file.mkdir:consent_required:Tool 'file.mkdir' requires explicit user consent"]
    );
    assert_eq!(entry.proposed_tool_calls, vec!["file.mkdir"]);
    assert!(entry.evidence_summaries.is_empty());
    let executed = host.audit_get(AuditGetRequest { audit_id: second.audit_id.clone() }).expect("audit");
    assert_eq!(executed.policy_decisions, vec!["file.mkdir:approved:"]);
    assert_eq!(executed.evidence_summaries, vec!["Created directory /cwd/x"]);
    assert_eq!(
        host.audit_get(AuditGetRequest { audit_id: "audit-999999".to_string() }),
        Err("audit entry not found".to_string())
    );
    let ids: Vec<String> = host.service.store.audit_entries.iter().map(|a| a.audit_id.clone()).collect();
    assert_eq!(ids, vec!["audit-000001", "audit-000002", "audit-000003", "audit-000004"]);
}

#[test]
fn counters_take_up_after_the_highest_stored_number() {
    let mut host = Host::new();
    host.sessions_create(SessionCreateRequest { title: None }).expect("s");
    host.sessions_create(SessionCreateRequest { title: Some(" ".to_string()) }).expect("s");
    host.chat_request(request("tool:mkdir x", ChatMode::BestEffort));
    host.mcp_servers_add(McpServerAddRequest { name: "n".to_string(), command: "c".to_string(), args: vec![] })
        .expect("add");
    let mut store = host.service.store.clone();
    store.sessions[0].id = "sess-000041".to_string();
    store.sessions[1].id = "sess-x".to_string();
    store.audit_entries[0].audit_id = "run-7-0012".to_string();
    store.pending_consents[0].record.consent_id = "consent-+9".to_string();
    store.mcp_servers[0].id = "mcp-99999999999999999999".to_string();
    let restarted = AgentService::new("test", store);
    assert_eq!(restarted.session_counter, 41);
    assert_eq!(restarted.synthetic_audit_counter, 12);
    assert_eq!(restarted.consent_counter, 9);
    assert_eq!(restarted.mcp_counter, 0);
    let fresh = AgentService::new("test", Store::default());
    assert_eq!(
        (fresh.session_counter, fresh.synthetic_audit_counter, fresh.consent_counter, fresh.mcp_counter),
        (0, 0, 0, 0)
    );
    assert_eq!(fresh.platform, "test");
    assert_eq!(fresh.tools_list().len(), 17);
}

#[test]
fn identifiers_are_numbered_in_six_digits() {
    let mut service = AgentService::new("test", Store::default());
    assert_eq!(service.next_session_id(), "sess-000001");
    assert_eq!(service.next_session_id(), "sess-000002");
    assert_eq!(service.next_consent_id(), "consent-000001");
    assert_eq!(service.next_mcp_id(), "mcp-000001");
    assert_eq!(service.next_synthetic_audit_id(), "audit-000001");
    service.session_counter = 1_234_566;
    assert_eq!(service.next_session_id(), "sess-1234567");
}

// ---------------------------------------------------------------------------
// Sessions, providers, servers, project, health
// ---------------------------------------------------------------------------

#[test]
fn sessions_keep_the_order_of_their_messages() {
    let mut host = Host::new();
    let titled = host.sessions_create(SessionCreateRequest { title: Some("Mine".to_string()) }).expect("s");
    assert_eq!(titled.id, "sess-000001");
    assert_eq!(titled.title, "Mine");
    assert_eq!((titled.created_at_unix_seconds, titled.updated_at_unix_seconds), (1_000, 1_000));
    assert!(titled.messages.is_empty());
    let untitled = host.sessions_create(SessionCreateRequest { title: Some("  ".to_string()) }).expect("s");
    assert_eq!(untitled.title, "Session 2");
    let messages: Vec<ChatMessage> = ["a", "b", "c"]
        .iter()
        .map(|c| ChatMessage { role: "user".to_string(), content: c.to_string() })
        .collect();
    host.clock = 2_000;
    let appended = host
        .sessions_messages_append(SessionMessagesAppendRequest {
            session_id: titled.id.clone(),
            messages: messages[..2].to_vec(),
        })
        .expect("append");
    assert_eq!(appended.session.updated_at_unix_seconds, 2_000);
    host.sessions_messages_append(SessionMessagesAppendRequest {
        session_id: titled.id.clone(),
        messages: messages[2..].to_vec(),
    })
    .expect("append");
    let stored = host.sessions_get(SessionGetRequest { session_id: titled.id.clone() }).expect("get");
    assert_eq!(stored.messages, messages);
    assert_eq!(stored.created_at_unix_seconds, 1_000);
    assert_eq!(
        host.sessions_messages_append(SessionMessagesAppendRequest {
            session_id: "sess-x".to_string(),
            messages: vec![],
        }),
        Err("session not found".to_string())
    );
    assert_eq!(
        host.sessions_get(SessionGetRequest { session_id: "sess-x".to_string() }),
        Err("session not found".to_string())
    );
    let listed = host.sessions_list().expect("list");
    assert_eq!(
        listed.iter().map(|s| (s.id.as_str(), s.message_count)).collect::<Vec<_>>(),
        vec![("sess-000001", 3), ("sess-000002", 0)]
    );
    assert!(host.sessions_delete(SessionDeleteRequest { session_id: titled.id.clone() }).expect("d").deleted);
    assert!(!host.sessions_delete(SessionDeleteRequest { session_id: titled.id }).expect("d").deleted);
    assert_eq!(host.sessions_list().expect("list").len(), 1);
}

#[test]
fn listings_show_the_newest_first() {
    let mut host = Host::new();
    for (clock, title) in [(5, "a"), (9, "b"), (5, "c"), (7, "d")] {
        host.clock = clock;
        host.sessions_create(SessionCreateRequest { title: Some(title.to_string()) }).expect("s");
    }
    let titles: Vec<String> = host.sessions_list().expect("list").into_iter().map(|s| s.title).collect();
    assert_eq!(titles, vec!["b", "d", "c", "a"]);

    let session = host.service.store.sessions[0].id.clone();
    for (clock, with_session) in [(3, true), (8, false), (8, true), (1, true)] {
        host.clock = clock;
        let mut asked = request("hello", ChatMode::BestEffort);
        if with_session {
            asked.session_id = Some(session.clone());
        }
        host.chat_request(asked);
    }
    let all = host.audit_list(AuditListRequest { session_id: None, limit: None }).expect("list");
    assert_eq!(
        all.iter().map(|a| a.audit_id.as_str()).collect::<Vec<_>>(),
        vec!["audit-000003", "audit-000002", "audit-000001", "audit-000004"]
    );
    let two = host.audit_list(AuditListRequest { session_id: Some(session.clone()), limit: Some(2) }).expect("l");
    assert_eq!(
        two.iter().map(|a| a.audit_id.as_str()).collect::<Vec<_>>(),
        vec!["audit-000003", "audit-000001"]
    );
    assert!(host.audit_list(AuditListRequest { session_id: None, limit: Some(0) }).expect("l").is_empty());
    assert!(host
        .audit_list(AuditListRequest { session_id: Some("none".to_string()), limit: None })
        .expect("l")
        .is_empty());

    for (clock, with_session) in [(10, true), (30, false), (20, true)] {
        host.clock = clock;
        let mut asked = request("tool:mkdir x", ChatMode::BestEffort);
        if with_session {
            asked.session_id = Some(session.clone());
        }
        host.chat_request(asked);
    }
    host.clock = 40;
    host.consent_deny(ConsentActionRequest { consent_id: "consent-000002".to_string() }).expect("deny");
    let ids = |list: Vec<PendingConsentRecord>| list.into_iter().map(|c| c.consent_id).collect::<Vec<_>>();
    assert_eq!(
        ids(host.consent_list(ConsentListRequest { status: None, session_id: None }).expect("l")),
        vec!["consent-000002", "consent-000003", "consent-000001"]
    );
    assert_eq!(
        ids(host
            .consent_list(ConsentListRequest { status: Some("pending".to_string()), session_id: Some(session) })
            .expect("l")),
        vec!["consent-000003", "consent-000001"]
    );
    assert_eq!(
        ids(host
            .consent_list(ConsentListRequest { status: Some("denied".to_string()), session_id: None })
            .expect("l")),
        vec!["consent-000002"]
    );
}

#[test]
fn providers_are_listed_in_dictionary_order() {
    let mut host = Host::new();
    let names = |host: &Host| {
        host.providers_list().expect("list").into_iter().map(|p| p.name).collect::<Vec<_>>()
    };
    assert_eq!(names(&host), vec!["anthropic-stub", "gemini-stub", "openai", "openai-stub"]);
    assert!(host.providers_list().expect("l").iter().all(|p| p.enabled && !p.is_active && !p.has_auth));
    let stored = host
        .providers_config_set(ProviderConfigSetRequest {
            provider_name: "zeta".to_string(),
            config_json: r#"{"token":" t "}"#.to_string(),
        })
        .expect("set");
    assert_eq!((stored.provider_name.as_str(), stored.has_auth), ("zeta", true));
    host.providers_config_set(ProviderConfigSetRequest {
        provider_name: "Alpha".to_string(),
        config_json: "not json".to_string(),
    })
    .expect("set");
    host.providers_config_set(ProviderConfigSetRequest {
        provider_name: "zeta".to_string(),
        config_json: r#"{"token":""}"#.to_string(),
    })
    .expect("set");
    assert_eq!(
        names(&host),
        vec!["Alpha", "anthropic-stub", "gemini-stub", "openai", "openai-stub", "zeta"]
    );
    assert_eq!(host.service.store.providers.configs.len(), 2);
    assert_eq!(host.service.store.providers.active_provider.as_deref(), Some("zeta"));
    let listed = host.providers_list().expect("l");
    let zeta = listed.iter().find(|p| p.name == "zeta").expect("zeta");
    assert!(zeta.is_active && !zeta.has_auth);
    assert_eq!(zeta.config_summary, "not configured");
    let active = host.providers_set(ProvidersSetRequest { provider_name: "new-one".to_string() }).expect("set");
    assert_eq!((active.name.as_str(), active.is_active), ("new-one", true));
    assert_eq!(names(&host).len(), 7);
    let shown = host.providers_config_get(ProviderConfigGetRequest { provider_name: None }).expect("get");
    assert_eq!((shown.provider_name.as_str(), shown.is_active, shown.config_json.as_str()), ("new-one", true, "{}"));
    let alpha = host
        .providers_config_get(ProviderConfigGetRequest { provider_name: Some("Alpha".to_string()) })
        .expect("get");
    assert_eq!((alpha.is_active, alpha.config_json.as_str()), (false, "not json"));
    assert_eq!(
        Host::new().providers_config_get(ProviderConfigGetRequest { provider_name: None }).expect("g").provider_name,
        "openai-stub"
    );
}

#[test]
fn provider_settings_are_masked_and_classified() {
    assert_eq!(
        redact_provider_config_json(r#"{"token":"t","Api_Key":"kept","password":1,"secret":null,"nested":{"api_key":"kept too"},"api_key":"k","model":"m"}"#),
        r#"{"Api_Key":"kept","api_key":"[REDACTED]","model":"m","nested":{"api_key":"kept too"},"password":"[REDACTED]","secret":"[REDACTED]","token":"[REDACTED]"}"#
    );
    assert_eq!(redact_provider_config_json("[1]"), "[1]");
    assert_eq!(redact_provider_config_json("nope"), "nope");
    assert_eq!(redact_provider_config_json("{ }"), "{}");
    let cases = [
        (r#"{"api_key":"k"}"#, true, Some("inline"), None),
        (r#"{"token":"k","token_env":"T"}"#, true, Some("env"), Some("T")),
        (r#"{"api_key_env":"A","token_env":"T"}"#, true, Some("env"), Some("A")),
        (r#"{"api_key_env":" ","token_env":"T"}"#, true, Some("env"), Some("T")),
        (r#"{"api_key":" ","token":7}"#, false, None, None),
        ("{}", false, None, None),
        ("[]", false, None, None),
        ("", false, None, None),
    ];
    for (json, auth, source, env) in cases {
        assert_eq!(provider_config_has_auth("any", json), auth, "{json}");
        assert_eq!(provider_config_auth_source(json).as_deref(), source, "{json}");
        assert_eq!(provider_config_env_ref(json).as_deref(), env, "{json}");
    }
}

#[test]
fn servers_are_registered_and_removed() {
    let mut host = Host::new();
    let add = |host: &mut Host, name: &str| {
        host.mcp_servers_add(McpServerAddRequest {
            name: name.to_string(),
            command: "/bin/true".to_string(),
            args: vec!["-v".to_string()],
        })
        .expect("add")
    };
    let first = add(&mut host, "one");
    assert!(first.ok);
    assert_eq!(
        first.server,
        Some(McpServerRecord {
            id: "mcp-000001".to_string(),
            name: "one".to_string(),
            command: "/bin/true".to_string(),
            args: vec!["-v".to_string()],
            status: "stopped".to_string(),
        })
    );
    add(&mut host, "two");
    assert_eq!(
        host.mcp_servers_start(McpServerStateRequest { server_id: "mcp-7".to_string() }),
        Err("mcp server not found".to_string())
    );
    let missing = host.mcp_servers_stop(McpServerStateRequest { server_id: "mcp-7".to_string() }).expect("stop");
    assert_eq!((missing.ok, missing.server), (false, None));
    host.mcp_servers_start(McpServerStateRequest { server_id: "mcp-000002".to_string() }).expect("start");
    host.exited.borrow_mut().push("mcp-000001".to_string());
    let listed = host.mcp_servers_list().expect("list");
    assert_eq!(
        listed.iter().map(|s| (s.id.as_str(), s.status.as_str())).collect::<Vec<_>>(),
        vec![("mcp-000001", "stopped"), ("mcp-000002", "running")]
    );
    let health = host.system_health().expect("health");
    assert_eq!((health.mcp_servers_total, health.mcp_servers_running), (2, 1));
    assert!(health
        .warnings
        .contains(&"MCP servers marked running are in-process only and will stop on service restart".to_string()));
    let removed = host
        .mcp_servers_remove(McpServerRemoveRequest { server_id: "mcp-000002".to_string() })
        .expect("remove");
    assert!(removed.ok);
    assert_eq!(removed.server.map(|s| s.name), Some("two".to_string()));
    let again = host
        .mcp_servers_remove(McpServerRemoveRequest { server_id: "mcp-000002".to_string() })
        .expect("remove");
    assert_eq!((again.ok, again.server), (false, None));
    assert_eq!(host.service.store.mcp_servers.len(), 1);
}

#[test]
fn a_project_opens_only_on_a_directory() {
    let mut host = Host::new();
    host.files.insert("/tmp/proj/a.txt".to_string(), "a".to_string());
    host.files.insert("/tmp/proj/b.txt".to_string(), "b".to_string());
    let file = host.project_open(ProjectOpenRequest { path: "/tmp/proj/a.txt".to_string() }).expect("open");
    assert_eq!((file.exists, file.is_dir), (true, false));
    assert_eq!(host.service.store.project, ProjectState { open_path: None });
    let gone = host.project_open(ProjectOpenRequest { path: "/nowhere".to_string() }).expect("open");
    assert_eq!((gone.path.as_str(), gone.exists, gone.is_dir), ("/nowhere", false, false));
    let status = host.project_status(ProjectStatusRequest { path: None }).expect("status");
    assert_eq!(status.path, ".");
    let dir = host.project_open(ProjectOpenRequest { path: "/tmp/proj".to_string() }).expect("open");
    assert_eq!((dir.exists, dir.is_dir), (true, true));
    assert_eq!(host.service.store.project.open_path.as_deref(), Some("/tmp/proj"));
    let status = host.project_status(ProjectStatusRequest { path: None }).expect("status");
    assert_eq!(
        (status.path.as_str(), status.exists, status.is_dir, status.entry_count),
        ("/tmp/proj", true, true, 2)
    );
    let of_file = host
        .project_status(ProjectStatusRequest { path: Some("/tmp/proj/a.txt".to_string()) })
        .expect("status");
    assert_eq!((of_file.exists, of_file.is_dir, of_file.entry_count), (true, false, 0));
}

#[test]
fn health_warnings_come_in_a_fixed_order() {
    let providers = ProviderState { active_provider: None, configs: vec![] };
    let project = ProjectState { open_path: Some("/gone".to_string()) };
    let probe = |exists: bool, is_dir: bool, env: Option<&str>| HealthProbe {
        env_value: env.map(|s| s.to_string()),
        project: PathProbe { exists, is_dir, entry_count: 0 },
    };
    let running = vec![McpServerRecord {
        id: "mcp-1".to_string(),
        name: "n".to_string(),
        command: "c".to_string(),
        args: vec![],
        status: "running".to_string(),
    }];
    assert_eq!(
        build_system_health_warnings(&providers, &project, &running, &probe(false, false, None)),
        vec![
            "no active provider selected",
            "project path does not exist: /gone",
            "MCP servers marked running are in-process only and will stop on service restart",
        ]
    );
    let mut host = Host::new();
    host.providers_config_set(ProviderConfigSetRequest {
        provider_name: "p".to_string(),
        config_json: r#"{"token_env":"P_TOKEN"}"#.to_string(),
    })
    .expect("set");
    assert_eq!(host.service.health_env_ref().as_deref(), Some("P_TOKEN"));
    let state = host.service.store.providers.clone();
    assert_eq!(
        build_system_health_warnings(&state, &project, &vec![], &probe(true, false, Some(" "))),
        vec![
            "provider auth env var 'P_TOKEN' is not set or empty",
            "project path is not a directory: /gone",
        ]
    );
    assert!(build_system_health_warnings(
        &state,
        &ProjectState { open_path: None },
        &vec![],
        &probe(false, false, Some("value"))
    )
    .is_empty());
    host.providers_set(ProvidersSetRequest { provider_name: "bare".to_string() }).expect("set");
    assert_eq!(
        build_system_health_warnings(
            &host.service.store.providers,
            &ProjectState { open_path: None },
            &vec![],
            &probe(false, false, None)
        ),
        vec!["active provider 'bare' has no configured auth"]
    );
    assert_eq!(host.service.health_env_ref(), None);
}

#[test]
fn consent_requests_name_their_risks() {
    let event = |tool: &str, tier: &str, status: &str, preview: Option<&str>| ActionEvent {
        tool_name: tool.to_string(),
        capability_tier: tier.to_string(),
        status: status.to_string(),
        reason: None,
        arguments_preview: preview.map(|s| s.to_string()),
        evidence_summary: None,
    };
    let none = build_consent_request(&vec![event("echo", "ReadOnly", "approved", Some("{}"))], None, None);
    assert_eq!(none.human_summary, "No consent-required actions pending.");
    assert!(none.risk_factors.is_empty());
    assert!(!none.requires_extra_confirmation_click);
    assert_eq!((none.expires_at_unix_seconds, none.ttl_seconds), (None, None));
    let read_only = build_consent_request(
        &vec![event("echo", "ReadOnly", "consent_required", Some(""))],
        Some(5),
        Some(300),
    );
    assert_eq!(read_only.human_summary, "Approve execution of 'echo' once for this exact request.");
    assert!(read_only.risk_factors.is_empty());
    assert!(!read_only.requires_extra_confirmation_click);
    let many = build_consent_request(
        &vec![
            event("echo", "ReadOnly", "approved", Some("{}")),
            event("desktop.app.activate", "SystemActions", "consent_required", None),
            event("file.mkdir", "LocalActions", "consent_required", Some("{}")),
            event("file.mkdir", "LocalActions", "denied", Some("{}")),
        ],
        Some(5),
        Some(300),
    );
    assert_eq!(many.human_summary, "Approve execution of 2 actions once for this exact request.");
    assert_eq!(
        many.risk_factors,
        vec![
            "local_device_action",
            "system_level_action",
            "multiple_actions_requested",
            "external_arguments_present",
        ]
    );
    assert!(many.requires_extra_confirmation_click);
    assert_eq!(many.scope, "once_exact_request");
}

#[test]
fn calls_reach_the_operation_of_their_method() {
    let mut server = JsonRpcServer::new(Host::new());
    match server.handle(Id::Number(1), RpcCall::ToolsList).outcome {
        Ok(RpcResult::Tools(tools)) => assert_eq!(tools.len(), 17),
        other => panic!("{other:?}"),
    }
    let raw = server.handle(
        Id::String("outer".to_string()),
        RpcCall::RpcRaw(Box::new(RpcCall::SessionsCreate(SessionCreateRequest { title: None }))),
    );
    assert_eq!(raw.id, Id::String("outer".to_string()));
    match raw.outcome {
        Ok(RpcResult::Session(s)) => assert_eq!(s.title, "Session 1"),
        other => panic!("{other:?}"),
    }
    let failed = server.handle(
        Id::Null,
        RpcCall::SessionsGet(SessionGetRequest { session_id: "x".to_string() }),
    );
    let err = failed.outcome.expect_err("error");
    assert_eq!((err.code, err.message.as_str()), (-32000, "session not found"));
    match server.handle(Id::Number(2), RpcCall::ProvidersList).outcome {
        Ok(RpcResult::Providers(p)) => assert_eq!(p.len(), 4),
        other => panic!("{other:?}"),
    }
    match server.handle(Id::Number(3), RpcCall::SystemHealth).outcome {
        Ok(RpcResult::Health(h)) => assert_eq!(h.warnings, vec!["no active provider selected"]),
        other => panic!("{other:?}"),
    }
    let mut client = JsonRpcClient::new(&mut server);
    assert_eq!(client.tools_list().len(), 17);
    let response = client.chat_request(request("tool:mkdir x", ChatMode::BestEffort));
    let token = response.consent_token.expect("token");
    assert!(client.chat_deny(ChatDenyRequest { consent_token: token.clone() }).is_ok());
    assert_eq!(
        client.chat_approve(ChatApproveRequest { consent_token: token }),
        Err("consent_not_pending:denied".to_string())
    );
    let reply = client.call_raw(Id::Number(9), RpcCall::SessionsList);
    assert!(matches!(reply.outcome, Ok(RpcResult::Sessions(s)) if s.len() == 1));
    let _ = PendingConsentState {
        record: server.service().service.store.pending_consents[0].record.clone(),
        chat_request: request("x", ChatMode::BestEffort),
    };
}

#[test]
fn decoded_requests_are_served_once() {
    let mut server = JsonRpcServer::new(Host::new());
    assert_eq!(
        server.answer(Id::Number(9), Err("missing field `session_id`".to_string())),
        Served::Reply(Response::error(Id::Number(9), -32602, "invalid params: missing field `session_id`"))
    );
    match server.answer(Id::Number(10), Ok(RpcCall::SessionsCreate(SessionCreateRequest { title: None }))) {
        Served::Write { id, result: RpcResult::Session(session) } => {
            assert_eq!(id, Id::Number(10));
            assert_eq!(session.id, "sess-000001");
        }
        other => panic!("unexpected {other:?}"),
    }
    assert_eq!(
        server.answer(
            Id::Number(11),
            Ok(RpcCall::RpcRaw(Box::new(RpcCall::SessionsGet(SessionGetRequest {
                session_id: "sess-000404".to_string()
            }))))
        ),
        Served::Reply(Response::error(Id::Number(11), -32000, "session not found"))
    );
    match server.answer(Id::Number(12), Ok(RpcCall::SessionsList)) {
        Served::Write { id: Id::Number(12), result: RpcResult::Sessions(list) } => assert_eq!(list.len(), 1),
        other => panic!("unexpected {other:?}"),
    }
}

#[test]
fn settings_are_judged_on_the_document() {
    let doc = cmnd_n_ctrl::json::parse_json(r#"{"api_key":"k","token_env":"TOK","note":"n","secret":1}"#)
        .expect("json");
    assert!(settings_have_auth(&doc));
    assert_eq!(settings_auth_source(&doc).as_deref(), Some("env"));
    assert_eq!(settings_env_ref(&doc).as_deref(), Some("TOK"));
    assert!(member_names_something(&doc, "note"));
    assert!(!member_names_something(&doc, "secret"));
    assert!(!member_names_something(&doc, "absent"));
    let masked = mask_settings(doc);
    assert_eq!(masked.get("api_key").and_then(|v| v.as_text()).map(String::as_str), Some("[REDACTED]"));
    assert_eq!(masked.get("secret").and_then(|v| v.as_text()).map(String::as_str), Some("[REDACTED]"));
    assert_eq!(masked.get("note").and_then(|v| v.as_text()).map(String::as_str), Some("n"));
    assert_eq!(masked.get("token_env").and_then(|v| v.as_text()).map(String::as_str), Some("TOK"));

    let inline = cmnd_n_ctrl::json::parse_json(r#"{"token":"t","api_key_env":"  "}"#).expect("json");
    assert_eq!(settings_auth_source(&inline).as_deref(), Some("inline"));
    assert_eq!(settings_env_ref(&inline), None);
    let list = cmnd_n_ctrl::json::parse_json("[1]").expect("json");
    assert!(!settings_have_auth(&list));
    assert_eq!(settings_auth_source(&list), None);
    assert_eq!(mask_settings(cmnd_n_ctrl::json::parse_json("[1]").expect("json")), list);
}

#[test]
fn the_orchestrator_is_built_for_the_right_provider_and_root() {
    let mut host = Host::new();
    let mut asked = request("activate Browser", ChatMode::RequireConfirmation);
    asked.provider_config.provider_name = "  ".to_string();
    assert_eq!(host.service.provider_for_chat(&asked), "  ");
    host.service.store.providers.active_provider = Some("gemini-stub".to_string());
    assert_eq!(host.service.provider_for_chat(&asked), "gemini-stub");
    asked.provider_config.provider_name = "openai-stub".to_string();
    assert_eq!(host.service.provider_for_chat(&asked), "openai-stub");

    let token = host.chat_request(asked).consent_token.expect("token");
    assert_eq!(host.service.provider_for_approval(&token), "openai-stub");
    assert_eq!(host.service.provider_for_approval("consent-999999"), "");

    assert_eq!(host.service.project_root_for_tools(), None);
    host.service.store.project.open_path = Some(" ".to_string());
    assert_eq!(host.service.project_root_for_tools(), None);
    host.service.store.project.open_path = Some("/tmp/proj".to_string());
    assert_eq!(host.service.project_root_for_tools().as_deref(), Some("/tmp/proj"));
}

#[test]
fn a_held_lock_is_waited_for_five_seconds() {
    assert_eq!(lock_step(LockAttempt::Created, 0), LockStep::Proceed);
    assert_eq!(lock_step(LockAttempt::Created, 9_000), LockStep::Proceed);
    assert_eq!(lock_step(LockAttempt::Held, 0), LockStep::Retry { sleep_millis: 10 });
    assert_eq!(lock_step(LockAttempt::Held, 4_999), LockStep::Retry { sleep_millis: 10 });
    assert_eq!(lock_step(LockAttempt::Held, 5_000), LockStep::TimedOut);
    assert_eq!(lock_step(LockAttempt::Held, u64::MAX), LockStep::TimedOut);
    assert_eq!(lock_step(LockAttempt::Failed, 0), LockStep::Fail);
    assert_eq!(lock_step(LockAttempt::Failed, 6_000), LockStep::Fail);
}

#[test]
fn every_response_gets_a_new_audit_entry() {
    let mut host = Host::new();
    let first = host.chat_request(request("what time is it", ChatMode::BestEffort));
    let kept = host.audit_get(AuditGetRequest { audit_id: first.audit_id.clone() }).expect("audit");
    let gated = host.chat_request(request("activate Browser", ChatMode::RequireConfirmation));
    let approved = host
        .chat_approve(ChatApproveRequest { consent_token: gated.consent_token.clone().expect("token") })
        .expect("approve");
    let ids = [first.audit_id.clone(), gated.audit_id.clone(), approved.audit_id.clone()];
    assert_eq!(ids, ["audit-000001", "audit-000002", "audit-000003"]);
    for response in [&first, &gated, &approved] {
        let entry =
            host.audit_get(AuditGetRequest { audit_id: response.audit_id.clone() }).expect("audit");
        assert_eq!(entry.audit_id, response.audit_id);
        assert_eq!(entry.session_id, response.session_id);
        assert_eq!(entry.provider, "openai-stub");
        assert_eq!(entry.executed_actions, response.actions_executed);
    }
    assert_eq!(host.audit_get(AuditGetRequest { audit_id: first.audit_id.clone() }), Ok(kept));
    assert_eq!(host.service.store.audit_entries.len(), 3);
    assert_eq!(approved.actions_executed, vec!["desktop.app.activate"]);
    assert!(gated.actions_executed.is_empty());
}

#[test]
fn an_unknown_method_never_reaches_the_service() {
    let mut server = JsonRpcServer::new(Host::new());
    let unknown = Request::new(Id::Number(7), "no.such.method", "{}");
    let create = Ok(RpcCall::SessionsCreate(SessionCreateRequest { title: None }));
    assert_eq!(
        server.serve(&unknown, create),
        Served::Reply(Response::error(Id::Number(7), -32601, "method not found"))
    );
    assert_eq!(
        server.serve(&unknown, Err("unread".to_string())),
        Served::Reply(Response::error(Id::Number(7), -32601, "method not found"))
    );
    assert!(server.service().service.store.sessions.is_empty());
    let known = Request::new(Id::String("a".to_string()), "sessions.create", "{}");
    assert_eq!(
        server.serve(&known, Err("missing field `title`".to_string())),
        Served::Reply(Response::error(
            Id::String("a".to_string()),
            -32602,
            "invalid params: missing field `title`"
        ))
    );
    match server.serve(&known, Ok(RpcCall::SessionsCreate(SessionCreateRequest { title: None }))) {
        Served::Write { id, result: RpcResult::Session(_) } => assert_eq!(id, Id::String("a".to_string())),
        other => panic!("unexpected {other:?}"),
    }
    assert_eq!(server.service().service.store.sessions.len(), 1);
}

#[test]
fn a_server_is_marked_as_its_process_fares() {
    let mut host = Host::new();
    let added = host
        .mcp_servers_add(McpServerAddRequest {
            name: "sleepy".to_string(),
            command: "/bin/sh".to_string(),
            args: vec![],
        })
        .expect("add");
    let id = added.server.expect("record").id;
    let status = |host: &Host| host.service.store.mcp_servers[0].status.clone();
    assert_eq!(status(&host), "stopped");
    assert_eq!(
        host.service.mcp_server_started(&id, Err("No such file or directory".to_string())),
        Err("No such file or directory".to_string())
    );
    assert_eq!(status(&host), "stopped");
    let started = host.service.mcp_server_started(&id, Ok(())).expect("started");
    assert!(started.ok);
    assert_eq!(started.server.expect("record").status, "running");
    assert_eq!(status(&host), "running");
    assert_eq!(host.service.mcp_server_stopped(&id, Err("busy".to_string())), Err("busy".to_string()));
    assert_eq!(status(&host), "running");
    assert!(host.service.mcp_server_stopped(&id, Ok(())).expect("stopped").ok);
    assert_eq!(status(&host), "stopped");
    let missing = host.service.mcp_server_started("mcp-000404", Ok(())).expect("reply");
    assert!(!missing.ok && missing.server.is_none());
}
