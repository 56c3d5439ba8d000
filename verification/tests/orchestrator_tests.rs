use cmnd_n_ctrl::actions::traits::ActionBackend;
use cmnd_n_ctrl::ipc::{
    ChatMessage, ChatMode, Evidence, ProviderConfig, Tool, ToolCall, ToolResult,
};
use cmnd_n_ctrl::orchestrator::{
    arguments_preview, capability_tier_label, is_sensitive_key, next_step, request_fingerprint,
    NextStep, Orchestrator,
};
use cmnd_n_ctrl::policy::{CapabilityTier, Policy};
use cmnd_n_ctrl::providers::provider_trait::{Provider, ProviderReply};
use cmnd_n_ctrl::tool_registry::ToolRegistry;

struct MultiRoundProvider;

impl Provider for MultiRoundProvider {
    fn name(&self) -> &'static str {
        "multi-round-test"
    }

    fn chat(
        &self,
        _messages: &[ChatMessage],
        _tools: &[Tool],
        tool_results: &[ToolResult],
        _config: &ProviderConfig,
    ) -> ProviderReply {
        match tool_results.len() {
            0 => ProviderReply::ToolCalls(vec![ToolCall {
                name: "echo".to_string(),
                arguments_json: "{\"input\":\"one\"}".to_string(),
                tool_call_id: None,
            }]),
            1 => ProviderReply::ToolCalls(vec![ToolCall {
                name: "math.add".to_string(),
                arguments_json: "{\"a\":2,\"b\":3}".to_string(),
                tool_call_id: None,
            }]),
            _ => ProviderReply::FinalText("done after two rounds".to_string()),
        }
    }
}

struct TestActionBackend;

impl ActionBackend for TestActionBackend {
    fn platform_name(&self) -> &'static str {
        "test"
    }

    fn execute_tool(&self, tool_call: &ToolCall) -> ToolResult {
        ToolResult {
            tool_call_id: None,
            name: tool_call.name.clone(),
            result_json: format!("{{\"ok\":true,\"tool\":\"{}\"}}", tool_call.name),
            evidence: Evidence { summary: format!("executed {}", tool_call.name), artifacts: vec![] },
        }
    }
}

/// Asks for the same calls in every round, for ever.
struct Insatiable(Vec<&'static str>);

impl Provider for Insatiable {
    fn name(&self) -> &'static str {
        "insatiable"
    }

    fn chat(
        &self,
        _messages: &[ChatMessage],
        _tools: &[Tool],
        _tool_results: &[ToolResult],
        _config: &ProviderConfig,
    ) -> ProviderReply {
        ProviderReply::ToolCalls(
            self.0
                .iter()
                .map(|n| ToolCall {
                    name: n.to_string(),
                    arguments_json: "{\"token\":\"abc123\",\"path\":\"a.txt\"}".to_string(),
                    tool_call_id: None,
                })
                .collect(),
        )
    }
}

fn user(content: &str) -> Vec<ChatMessage> {
    vec![ChatMessage { role: "user".to_string(), content: content.to_string() }]
}

fn config(name: &str) -> ProviderConfig {
    ProviderConfig { provider_name: name.to_string(), model: None, config_json: None }
}

#[test]
fn orchestrator_supports_multiple_tool_rounds() {
    let mut orchestrator = Orchestrator::new(
        Policy::default(),
        ToolRegistry::new_default(),
        MultiRoundProvider,
        TestActionBackend,
    );

    let response = orchestrator.run(
        vec![ChatMessage { role: "user".to_string(), content: "do thing".to_string() }],
        ProviderConfig {
            provider_name: "multi-round-test".to_string(),
            model: None,
            config_json: None,
        },
        ChatMode::BestEffort,
        0,
    );

    assert_eq!(response.final_text, "done after two rounds");
    assert_eq!(response.executed_action_events.len(), 2);
    assert_eq!(response.executed_action_events[0].tool_name, "echo");
    assert_eq!(response.executed_action_events[1].tool_name, "math.add");
}

#[test]
fn arguments_preview_redacts_sensitive_fields() {
    let preview = arguments_preview(
        r#"{"path":"notes/out.txt","content":"super secret body","token":"abc123","nested":{"api_key":"k","safe":"ok"}}"#,
    );
    assert!(preview.contains("\"path\":\"notes/out.txt\""));
    assert!(preview.contains("\"content\":\"[REDACTED]\""));
    assert!(preview.contains("\"token\":\"[REDACTED]\""));
    assert!(preview.contains("\"api_key\":\"[REDACTED]\""));
    assert!(preview.contains("\"safe\":\"ok\""));
    assert!(!preview.contains("super secret body"));
    assert!(!preview.contains("abc123"));
}

#[test]
fn previews_are_exact() {
    assert_eq!(
        arguments_preview(r#"{"b":[{"Password":"p","n":1.5}],"a":null,"Token":"t"}"#),
        r#"{"Token":"[REDACTED]","a":null,"b":[{"Password":"[REDACTED]","n":1.5}]}"#
    );
    assert_eq!(arguments_preview("not json\r\nat all"), "not json  at all");
    assert_eq!(arguments_preview("{}"), "{}");
    let long = format!("\"{}\"", "x".repeat(300));
    let preview = arguments_preview(&long);
    assert_eq!(preview.chars().count(), 180);
    assert_eq!(preview, &long[..180]);
    let exact = format!("\"{}\"", "y".repeat(178));
    assert_eq!(arguments_preview(&exact), exact);
    let one_more = format!("\"{}\"", "z".repeat(179));
    assert_eq!(arguments_preview(&one_more), &one_more[..180]);
    let wide = "\u{e9}\n".repeat(200);
    let shown = arguments_preview(&wide);
    assert_eq!(shown.chars().count(), 180);
    assert_eq!(shown, "\u{e9} ".repeat(90));
}

#[test]
fn sensitive_keys_are_matched_whatever_their_case() {
    for key in ["api_key", "apikey", "token", "authorization", "password", "secret", "content"] {
        assert!(is_sensitive_key(key), "{key}");
        assert!(is_sensitive_key(&key.to_uppercase()), "{key}");
    }
    for key in ["api_key_env", "path", "tokens", "", "my_token", "secret "] {
        assert!(!is_sensitive_key(key), "{key}");
    }
}

#[test]
fn tier_labels_are_the_tier_names() {
    assert_eq!(capability_tier_label(&CapabilityTier::ReadOnly), "ReadOnly");
    assert_eq!(capability_tier_label(&CapabilityTier::LocalActions), "LocalActions");
    assert_eq!(capability_tier_label(&CapabilityTier::SystemActions), "SystemActions");
}

#[test]
fn fingerprints_depend_on_the_named_fields_only() {
    let a = request_fingerprint(&user("hi"), &config("openai-stub"), &ChatMode::BestEffort);
    let same = request_fingerprint(
        &user("hi"),
        &ProviderConfig {
            provider_name: "openai-stub".to_string(),
            model: None,
            config_json: Some("{\"api_key\":\"k\"}".to_string()),
        },
        &ChatMode::BestEffort,
    );
    assert_eq!(a, same);
    assert_eq!(a.len(), 20);
    assert!(a.starts_with("req-"));
    assert!(a[4..].chars().all(|c| c.is_ascii_hexdigit() && !c.is_ascii_uppercase()));
    // The seed alone: no fields mixed in would give the offset basis.
    assert_eq!(
        request_fingerprint(&vec![], &config(""), &ChatMode::BestEffort),
        format!("req-{:016x}", expected_fingerprint("", None, "BestEffort", &[]))
    );
    assert_eq!(
        a,
        format!(
            "req-{:016x}",
            expected_fingerprint("openai-stub", None, "BestEffort", &[("user", "hi")])
        )
    );
    let others = [
        request_fingerprint(&user("hi!"), &config("openai-stub"), &ChatMode::BestEffort),
        request_fingerprint(&user("hi"), &config("openai"), &ChatMode::BestEffort),
        request_fingerprint(&user("hi"), &config("openai-stub"), &ChatMode::RequireConfirmation),
        request_fingerprint(
            &user("hi"),
            &ProviderConfig {
                provider_name: "openai-stub".to_string(),
                model: Some("m".to_string()),
                config_json: None,
            },
            &ChatMode::BestEffort,
        ),
        request_fingerprint(
            &vec![ChatMessage { role: "system".to_string(), content: "hi".to_string() }],
            &config("openai-stub"),
            &ChatMode::BestEffort,
        ),
    ];
    for other in others {
        assert_ne!(a, other);
    }
}

fn mix(h: u64, word: u64) -> u64 {
    (h ^ word).wrapping_mul(0x100000001b3)
}

fn mix_text(mut h: u64, s: &str) -> u64 {
    for c in s.chars() {
        h = mix(h, c as u64);
    }
    mix(h, 0x110000)
}

fn expected_fingerprint(
    provider: &str,
    model: Option<&str>,
    mode: &str,
    messages: &[(&str, &str)],
) -> u64 {
    let mut h = mix_text(0xcbf29ce484222325, provider);
    h = match model {
        Some(m) => mix_text(mix(h, 0x110002), m),
        None => mix(h, 0x110001),
    };
    h = mix_text(h, mode);
    for (role, content) in messages {
        h = mix_text(h, role);
        h = mix_text(h, content);
    }
    h
}

#[test]
fn a_fifth_round_is_never_granted() {
    let mut orchestrator = Orchestrator::new(
        Policy::default(),
        ToolRegistry::new_default(),
        Insatiable(vec!["echo"]),
        TestActionBackend,
    );
    let response = orchestrator.run(user("go"), config("insatiable"), ChatMode::BestEffort, 5);
    assert_eq!(
        response.final_text,
        "Provider requested more than 4 tool rounds; stopping for safety."
    );
    assert_eq!(response.executed_action_events.len(), 4);
    assert_eq!(response.proposed_actions.len(), 4);
    assert_eq!(response.actions_executed, vec!["echo"; 4]);
    assert_eq!(response.execution_state, "completed");
}

#[test]
fn the_step_function_stops_at_the_bound() {
    let calls = || {
        ProviderReply::ToolCalls(vec![ToolCall {
            name: "echo".to_string(),
            arguments_json: "{}".to_string(),
            tool_call_id: None,
        }])
    };
    for done in 0..4 {
        assert!(matches!(next_step(done, calls()), NextStep::RunRound(c) if c.len() == 1));
    }
    for done in [4usize, 5, 100] {
        match next_step(done, calls()) {
            NextStep::Finish(text) => assert_eq!(
                text,
                "Provider requested more than 4 tool rounds; stopping for safety."
            ),
            NextStep::RunRound(_) => panic!("round {done} granted"),
        }
    }
    assert!(matches!(
        next_step(9, ProviderReply::FinalText("bye".to_string())),
        NextStep::Finish(t) if t == "bye"
    ));
}

#[test]
fn gated_calls_wait_and_nothing_runs() {
    let mut orchestrator = Orchestrator::new(
        Policy::default(),
        ToolRegistry::new_default(),
        Insatiable(vec!["file.write_text", "desktop.app.activate"]),
        TestActionBackend,
    );
    let response = orchestrator.run(user("go"), config("p"), ChatMode::BestEffort, 5);
    assert_eq!(response.final_text, "Confirmation required before executing requested tools.");
    assert_eq!(response.execution_state, "awaiting_consent");
    assert!(response.executed_action_events.is_empty());
    assert_eq!(response.proposed_actions.len(), 2);
    let first = &response.proposed_actions[0];
    assert_eq!(first.tool_name, "file.write_text");
    assert_eq!(first.capability_tier, "LocalActions");
    assert_eq!(first.status, "consent_required");
    assert_eq!(
        first.reason.as_deref(),
        Some("Tool 'file.write_text' requires explicit user consent")
    );
    assert_eq!(
        first.arguments_preview.as_deref(),
        Some("{\"path\":\"a.txt\",\"token\":\"[REDACTED]\"}")
    );
    assert_eq!(first.evidence_summary, None);
    assert_eq!(response.proposed_actions[1].capability_tier, "SystemActions");
    assert!(response.actions_executed.is_empty());
    assert_eq!(response.action_events, response.proposed_actions);
    assert_eq!(response.audit_id, "audit-000001");
    assert_eq!(response.consent_token, None);
    assert_eq!(response.session_id, None);
    assert!(response.consent_request.is_none());
}

#[test]
fn confirmed_runs_execute_gated_calls() {
    let mut orchestrator = Orchestrator::new(
        Policy::default(),
        ToolRegistry::new_default(),
        Insatiable(vec!["file.write_text"]),
        TestActionBackend,
    );
    let response = orchestrator.run_with_confirmation(
        user("go"),
        config("p"),
        ChatMode::RequireConfirmation,
        true,
        9,
    );
    assert_eq!(response.executed_action_events.len(), 4);
    let e = &response.executed_action_events[0];
    assert_eq!(e.status, "executed");
    assert_eq!(e.capability_tier, "LocalActions");
    assert_eq!(e.evidence_summary.as_deref(), Some("executed file.write_text"));
    assert_eq!(response.proposed_actions[0].status, "approved");
    assert_eq!(response.action_events.len(), 8);
    assert_eq!(&response.action_events[..4], &response.proposed_actions[..]);
    assert_eq!(&response.action_events[4..], &response.executed_action_events[..]);
}

#[test]
fn unknown_and_reserved_tools_are_denied_and_the_run_goes_on() {
    struct Mystery;
    impl Provider for Mystery {
        fn name(&self) -> &'static str {
            "mystery"
        }
        fn chat(
            &self,
            _m: &[ChatMessage],
            _t: &[Tool],
            results: &[ToolResult],
            _c: &ProviderConfig,
        ) -> ProviderReply {
            if results.is_empty() {
                ProviderReply::ToolCalls(
                    ["mystery.op", "internal.secret", "echo"]
                        .iter()
                        .map(|n| ToolCall {
                            name: n.to_string(),
                            arguments_json: "{}".to_string(),
                            tool_call_id: None,
                        })
                        .collect(),
                )
            } else {
                ProviderReply::FinalText("after".to_string())
            }
        }
    }
    let mut tools = ToolRegistry::new_default().list();
    tools.push(Tool {
        name: "internal.secret".to_string(),
        description: String::new(),
        input_json_schema: "{}".to_string(),
    });
    let mut orchestrator =
        Orchestrator::new(Policy::default(), ToolRegistry::from_tools(tools), Mystery, TestActionBackend);
    let response = orchestrator.run(user("go"), config("mystery"), ChatMode::BestEffort, 1);
    assert_eq!(response.final_text, "after");
    let statuses: Vec<(&str, &str, Option<&str>, &str)> = response
        .proposed_actions
        .iter()
        .map(|e| {
            (e.tool_name.as_str(), e.status.as_str(), e.reason.as_deref(), e.capability_tier.as_str())
        })
        .collect();
    assert_eq!(
        statuses,
        vec![
            ("mystery.op", "denied", Some("unknown_tool"), "SystemActions"),
            ("internal.secret", "denied", Some("internal.* tools are reserved"), "SystemActions"),
            ("echo", "approved", None, "ReadOnly"),
        ]
    );
    assert_eq!(response.actions_executed, vec!["echo"]);
    assert_eq!(response.executed_action_events.len(), 1);
    assert_eq!(response.executed_action_events[0].tool_name, "echo");
}

#[test]
fn every_run_leaves_one_audit_event() {
    let mut orchestrator = Orchestrator::new(
        Policy::default(),
        ToolRegistry::new_default(),
        MultiRoundProvider,
        TestActionBackend,
    );
    let first = orchestrator.handle_user_message(
        "do thing".to_string(),
        config("multi-round-test"),
        ChatMode::BestEffort,
        77,
    );
    let second = orchestrator.run(user("again"), config("multi-round-test"), ChatMode::BestEffort, 78);
    assert_eq!(first.audit_id, "audit-000001");
    assert_eq!(second.audit_id, "audit-000002");
    let events = orchestrator.audit_events();
    assert_eq!(events.len(), 2);
    assert_eq!(events[0].audit_id, "audit-000001");
    assert_eq!(events[0].timestamp_unix_seconds, 77);
    assert_eq!(events[0].provider, "multi-round-test");
    assert_eq!(events[0].tool_calls_requested, vec!["echo", "math.add"]);
    assert_eq!(events[0].tool_calls_executed, vec!["echo", "math.add"]);
    assert_eq!(events[0].evidence_summaries, vec!["executed echo", "executed math.add"]);
    assert_eq!(events[0].policy_decisions.len(), 2);
    assert_eq!(events[0].policy_decisions[0].decision, "allow");
    assert_eq!(events[0].policy_decisions[0].capability_tier, CapabilityTier::ReadOnly);
    assert_eq!(events[1].timestamp_unix_seconds, 78);
    assert_eq!(orchestrator.audits_issued(), 2);
}

type Questions = std::rc::Rc<std::cell::RefCell<Vec<(usize, usize, String)>>>;

/// Records what it is asked: how many results each question carried, how
/// many tools were on offer, and the last message. It asks for `echo` and
/// an unknown tool in each of its first `rounds` answers, and for a gated
/// tool in place of `echo` from answer `gated_from` on.
struct Recording {
    seen: Questions,
    rounds: usize,
    gated_from: usize,
}

impl Provider for Recording {
    fn name(&self) -> &'static str {
        "recording"
    }

    fn chat(
        &self,
        messages: &[ChatMessage],
        tools: &[Tool],
        tool_results: &[ToolResult],
        config: &ProviderConfig,
    ) -> ProviderReply {
        assert_eq!(config.provider_name, "recording");
        let last = messages.last().map(|m| m.content.clone()).unwrap_or_default();
        let asked = self.seen.borrow().len();
        self.seen.borrow_mut().push((tool_results.len(), tools.len(), last));
        if asked >= self.rounds {
            return ProviderReply::FinalText(format!("done after {asked}"));
        }
        let name = if asked >= self.gated_from { "file.write_text" } else { "echo" };
        ProviderReply::ToolCalls(vec![
            ToolCall { name: name.to_string(), arguments_json: "{}".to_string(), tool_call_id: None },
            ToolCall { name: "nowhere".to_string(), arguments_json: "{}".to_string(), tool_call_id: None },
        ])
    }
}

fn recorded(rounds: usize, gated_from: usize) -> (String, Vec<usize>, usize) {
    let seen = Questions::default();
    let mut orchestrator = Orchestrator::new(
        Policy::default(),
        ToolRegistry::new_default(),
        Recording { seen: seen.clone(), rounds, gated_from },
        TestActionBackend,
    );
    let response = orchestrator.run(user("go on"), config("recording"), ChatMode::BestEffort, 1);
    let offered = ToolRegistry::new_default().list().len();
    for (_, tools, last) in seen.borrow().iter() {
        assert_eq!((*tools, last.as_str()), (offered, "go on"));
    }
    let ran: Vec<&str> = response.executed_action_events.iter().map(|e| e.tool_name.as_str()).collect();
    assert_eq!(response.actions_executed, ran);
    let results = seen.borrow().iter().map(|q| q.0).collect();
    (response.final_text, results, response.executed_action_events.len())
}

#[test]
fn the_provider_is_asked_once_per_round_with_the_results_so_far() {
    assert_eq!(recorded(0, 9), ("done after 0".to_string(), vec![0], 0));
    assert_eq!(recorded(2, 9), ("done after 2".to_string(), vec![0, 1, 2], 2));
    assert_eq!(recorded(4, 9), ("done after 4".to_string(), vec![0, 1, 2, 3, 4], 4));
    assert_eq!(
        recorded(7, 9),
        (
            "Provider requested more than 4 tool rounds; stopping for safety.".to_string(),
            vec![0, 1, 2, 3, 4],
            4
        )
    );
}

#[test]
fn a_round_that_only_waits_ends_the_run() {
    let waiting = "Confirmation required before executing requested tools.".to_string();
    assert_eq!(recorded(3, 0), (waiting.clone(), vec![0], 0));
    assert_eq!(recorded(3, 2), (waiting, vec![0, 1, 2], 2));
}
