use cmnd_n_ctrl::ipc::{ChatMessage, ProviderConfig, Tool, ToolCall, ToolResult, Evidence};
use cmnd_n_ctrl::json::{parse_json, Json};
use cmnd_n_ctrl::providers::anthropic_stub::AnthropicStubProvider;
use cmnd_n_ctrl::providers::gemini_stub::GeminiStubProvider;
use cmnd_n_ctrl::providers::openai_http::{
    build_openai_messages, build_openai_tools, build_request_body, endpoint,
    extract_message_text, interpret_chat_completion_payload, model_name, resolve_api_key,
    ChatEnvironment, KeySources, OpenAiHttpProvider, ProviderRuntimeConfig,
};
use cmnd_n_ctrl::providers::openai_stub::{
    select_legacy_tool_syntax_call, select_natural_language_tool_call, select_stub_tool_call,
    OpenAiStubProvider, StubReply, StubSelection,
};
use cmnd_n_ctrl::providers::provider_trait::{Provider, ProviderReply};
use cmnd_n_ctrl::providers::{ProviderChoice, ProviderKind};
use cmnd_n_ctrl::tool_registry::ToolRegistry;

fn value_of(doc: &Json) -> serde_json::Value {
    match doc {
        Json::Null => serde_json::Value::Null,
        Json::Bool(b) => serde_json::Value::Bool(*b),
        Json::Number(n) => serde_json::Value::Number(n.parse().expect("number")),
        Json::Text(s) => serde_json::Value::String(s.clone()),
        Json::Array(items) => serde_json::Value::Array(items.iter().map(value_of).collect()),
        Json::Object(members) => serde_json::Value::Object(
            members.iter().map(|(k, v)| (k.clone(), value_of(v))).collect(),
        ),
    }
}

fn render_json(doc: &Json) -> String {
    value_of(doc).to_string()
}

fn tool(name: &str) -> Tool {
    Tool { name: name.to_string(), description: "".to_string(), input_json_schema: "{}".to_string() }
}

fn picked(prompt: &str, tools: &[Tool]) -> ToolCall {
    match select_stub_tool_call(prompt, tools).expect("tool call") {
        StubSelection::Call(call) => call,
        StubSelection::Sum(rest) => panic!("unexpected sum: {rest}"),
    }
}

fn all_tools() -> Vec<Tool> {
    ToolRegistry::new_default().list()
}

fn config(json: Option<&str>) -> ProviderConfig {
    ProviderConfig {
        provider_name: "openai".to_string(),
        model: None,
        config_json: json.map(|s| s.to_string()),
    }
}

fn no_keys() -> KeySources {
    KeySources { named_env_value: None, openai_api_key: None, key_file_text: None }
}

#[test]
fn natural_language_open_url_maps_to_desktop_tool() {
    let tools = vec![tool("desktop.open_url")];
    let call = picked("Please open https://example.com for me", &tools);
    assert_eq!(call.name, "desktop.open_url");
    assert!(call.arguments_json.contains("https://example.com"));
}

#[test]
fn legacy_tool_syntax_still_supported_for_non_ui_callers() {
    let tools = vec![tool("desktop.open_url")];
    let call = picked("tool:open https://example.com", &tools);
    assert_eq!(call.name, "desktop.open_url");
}

#[test]
fn plain_requests_pick_exact_calls() {
    let tools = all_tools();
    let cases = [
        ("Please open (https://example.com), thanks", "desktop.open_url", r#"{"url":"https://example.com"}"#),
        ("LAUNCH http://a.b/c?d=1!", "desktop.open_url", r#"{"url":"http://a.b/c?d=1"}"#),
        ("please Activate  Browser  ", "desktop.app.activate", r#"{"app":"Browser"}"#),
        ("focus Editor", "desktop.app.activate", r#"{"app":"Editor"}"#),
        ("can you List Files here", "file.list", r#"{"path":"."}"#),
        ("what files are there", "file.list", r#"{"path":"."}"#),
        ("read file 'notes.txt', please", "file.read_text", r#"{"path":"notes.txt"}"#),
        ("create directory  a/b ", "file.mkdir", r#"{"path":"a/b"}"#),
        ("create folder docs", "file.mkdir", r#"{"path":"docs"}"#),
        (
            "on the mcp server mcp-7 run tool lookup now",
            "mcp.tool_call",
            r#"{"arguments":{},"server_id":"mcp-7","tool_name":"lookup"}"#,
        ),
        (
            "mcp server tool",
            "mcp.tool_call",
            r#"{"arguments":{},"server_id":"tool","tool_name":"echo"}"#,
        ),
        ("What Time is it", "time.now", "{}"),
    ];
    for (prompt, name, arguments) in cases {
        let call = select_natural_language_tool_call(prompt, &tools).expect(prompt);
        assert_eq!(call.name, name, "{prompt}");
        assert_eq!(call.arguments_json, arguments, "{prompt}");
        assert_eq!(call.tool_call_id, None);
    }
    for prompt in ["hello", "https://example.com", "activate   ", "read file ", "open the door"] {
        assert_eq!(select_natural_language_tool_call(prompt, &tools), None, "{prompt}");
    }
}

#[test]
fn commands_pick_exact_calls() {
    let tools = all_tools();
    let cases = [
        ("tool:open", "desktop.open_url", r#"{"url":"https://example.com"}"#),
        ("tool:ls  src ", "file.list", r#"{"path":"src"}"#),
        ("tool:ls", "file.list", r#"{"path":"."}"#),
        ("TOOL:CAT ../../etc/passwd", "file.read_text", r#"{"path":"../../etc/passwd"}"#),
        ("tool:cat", "file.read_text", r#"{"path":"README.md"}"#),
        ("tool:csv", "file.read_csv", r#"{"limit":10,"path":"data.csv"}"#),
        ("tool:json cfg.json", "file.read_json", r#"{"path":"cfg.json"}"#),
        ("tool:stat", "file.stat", r#"{"path":"."}"#),
        ("tool:grep needle in src/lib ", "file.search_text", r#"{"limit":25,"path":"src/lib","query":"needle"}"#),
        ("tool:grep needle", "file.search_text", r#"{"limit":25,"path":".","query":"needle"}"#),
        ("tool:grep", "file.search_text", r#"{"limit":25,"path":".","query":"TODO"}"#),
        ("tool:write notes/out.txt :: hello", "file.write_text", r#"{"content":"hello","path":"notes/out.txt"}"#),
        ("tool:write just text", "file.write_text", r#"{"content":"just text","path":"notes/generated.txt"}"#),
        ("tool:write ::", "file.write_text", r#"{"content":"stub content","path":"notes/generated.txt"}"#),
        ("tool:append a.txt :: more :: text", "file.append_text", r#"{"content":"more :: text","path":"a.txt"}"#),
        ("tool:append", "file.append_text", r#"{"content":"stub append","path":"notes/generated.txt"}"#),
        ("tool:mkdir notes/subdir", "file.mkdir", r#"{"path":"notes/subdir"}"#),
        ("tool:mkdir", "file.mkdir", r#"{"path":"notes"}"#),
        ("tool:apps", "desktop.app.list", r#"{"filter":""}"#),
        (
            "tool:mcp mcp-000002 :: search :: {\"q\":[1,2]}",
            "mcp.tool_call",
            r#"{"arguments":{"q":[1,2]},"server_id":"mcp-000002","tool_name":"search"}"#,
        ),
        (
            "tool:mcp only-one :: part",
            "mcp.tool_call",
            r#"{"arguments":{},"server_id":"mcp-000001","tool_name":"echo"}"#,
        ),
        (
            "tool:mcp :: :: not json",
            "mcp.tool_call",
            r#"{"arguments":{},"server_id":"mcp-000001","tool_name":"echo"}"#,
        ),
        ("tool:activate", "desktop.app.activate", r#"{"app":"Browser"}"#),
        ("tool:activate Mail", "desktop.app.activate", r#"{"app":"Mail"}"#),
        ("tool:upper hi there", "text.uppercase", r#"{"text":"hi there"}"#),
        ("tool:upper", "text.uppercase", r#"{"text":"stub"}"#),
        ("tool:echo \"q\"", "echo", r#"{"input":"\"q\""}"#),
        ("tool:time", "time.now", "{}"),
    ];
    for (prompt, name, arguments) in cases {
        match select_legacy_tool_syntax_call(prompt, &tools).expect(prompt) {
            StubSelection::Call(call) => {
                assert_eq!(call.name, name, "{prompt}");
                assert_eq!(call.arguments_json, arguments, "{prompt}");
            }
            StubSelection::Sum(_) => panic!("{prompt}"),
        }
    }
    assert_eq!(
        select_legacy_tool_syntax_call("tool:add 2 x 3.5", &tools),
        None.or(Some(StubSelection::Sum(" 2 x 3.5".to_string())))
    );
    assert_eq!(select_legacy_tool_syntax_call("tool:nothing", &tools), None);
}

#[test]
fn a_command_needs_its_tool() {
    let only_echo = vec![tool("echo")];
    assert_eq!(select_stub_tool_call("tool:open https://example.com", &only_echo), None);
    assert_eq!(picked("tool:open x tool:echo y", &only_echo).name, "echo");
    assert_eq!(select_stub_tool_call("what time is it", &only_echo), None);
    assert_eq!(select_stub_tool_call("echo hello", &only_echo), None);
    assert_eq!(select_stub_tool_call("tool:add 1 2", &only_echo), None);
}

#[test]
fn the_stand_in_answers_once_results_are_there() {
    let tools = all_tools();
    let messages = vec![ChatMessage { role: "user".to_string(), content: "tool:time".to_string() }];
    let cfg = config(None);
    match OpenAiStubProvider.plan(&messages, &tools, &[], &cfg) {
        StubReply::Pick(StubSelection::Call(c)) => assert_eq!(c.name, "time.now"),
        other => panic!("{other:?}"),
    }
    let result = ToolResult {
        tool_call_id: None,
        name: "time.now".to_string(),
        result_json: "{}".to_string(),
        evidence: Evidence { summary: String::new(), artifacts: vec![] },
    };
    match OpenAiStubProvider.plan(&messages, &tools, &[result], &cfg) {
        StubReply::Text(t) => assert_eq!(
            t,
            "OpenAI stub response (tool results incorporated). TODO: integrate real API client without embedding keys."
        ),
        other => panic!("{other:?}"),
    }
    match OpenAiStubProvider.plan(&[], &tools, &[], &cfg) {
        StubReply::Text(t) => assert_eq!(
            t,
            "OpenAI stub response (no tools used). TODO: integrate real API client without embedding keys."
        ),
        other => panic!("{other:?}"),
    }
    assert_eq!(OpenAiStubProvider.name(), "openai-stub");
}

#[test]
fn fixed_stand_ins_answer_with_their_text() {
    let cfg = config(None);
    match AnthropicStubProvider.chat(&[], &[], &[], &cfg) {
        ProviderReply::FinalText(t) => assert_eq!(
            t,
            "Anthropic stub provider TODO: add SDK/plugin integration via JSON-RPC process plugin."
        ),
        other => panic!("{other:?}"),
    }
    match GeminiStubProvider.chat(&[], &[], &[], &cfg) {
        ProviderReply::FinalText(t) => assert_eq!(
            t,
            "Gemini stub provider TODO: add real implementation with policy-aware tool calling."
        ),
        other => panic!("{other:?}"),
    }
    assert_eq!(AnthropicStubProvider.name(), "anthropic-stub");
    assert_eq!(GeminiStubProvider.name(), "gemini-stub");
}

#[test]
fn providers_are_chosen_by_name() {
    let cases = [
        ("openai", "openai"),
        ("anthropic", "anthropic-stub"),
        ("anthropic-stub", "anthropic-stub"),
        ("gemini", "gemini-stub"),
        ("gemini-stub", "gemini-stub"),
        ("openai-stub", "openai-stub"),
        ("ollama-local", "openai-stub"),
        ("", "openai-stub"),
        ("OpenAI", "openai-stub"),
    ];
    for (asked, name) in cases {
        assert_eq!(ProviderChoice::by_name(asked).name(), name, "{asked}");
    }
    assert!(matches!(ProviderChoice::by_name("openai"), ProviderChoice::OpenAi(_)));
    assert_ne!(ProviderKind::OpenAi, ProviderKind::OpenAiStub);
}

#[test]
fn interprets_tool_calls_from_chat_completions_payload() {
    let payload = parse_json(
        r#"{"choices":[{"message":{"role":"assistant","content":null,"tool_calls":[{"id":"call_1","type":"function","function":{"name":"file.list","arguments":"{\"path\":\".\"}"}}]}}]}"#,
    )
    .expect("payload");

    match interpret_chat_completion_payload(&payload) {
        ProviderReply::ToolCalls(calls) => {
            assert_eq!(calls.len(), 1);
            assert_eq!(calls[0].tool_call_id.as_deref(), Some("call_1"));
            assert_eq!(calls[0].name, "file.list");
            assert_eq!(calls[0].arguments_json, "{\"path\":\".\"}");
        }
        ProviderReply::FinalText(text) => panic!("expected tool calls, got text: {text}"),
    }
}

#[test]
fn interprets_text_from_chat_completions_payload() {
    let payload = parse_json(
        r#"{"choices":[{"message":{"role":"assistant","content":"hello world"}}]}"#,
    )
    .expect("payload");

    match interpret_chat_completion_payload(&payload) {
        ProviderReply::FinalText(text) => assert_eq!(text, "hello world"),
        ProviderReply::ToolCalls(_) => panic!("expected final text"),
    }
}

#[test]
fn provider_runtime_config_reads_alias_settings() {
    let cfg = ProviderConfig {
        provider_name: "ollama-local".to_string(),
        model: None,
        config_json: Some(
            r#"{"base_url":"http://127.0.0.1:11434/v1","model":"qwen","api_key_env":"OLLAMA_TOKEN"}"#
                .to_string(),
        ),
    };
    let parsed = ProviderRuntimeConfig::from_provider_config(&cfg);
    assert_eq!(parsed.base_url.as_deref(), Some("http://127.0.0.1:11434/v1"));
    assert_eq!(parsed.model.as_deref(), Some("qwen"));
    assert_eq!(parsed.api_key_env.as_deref(), Some("OLLAMA_TOKEN"));
}

#[test]
fn runtime_config_edge_cases() {
    let none = ProviderRuntimeConfig::from_provider_config(&config(None));
    assert_eq!((none.base_url, none.model, none.api_key, none.api_key_env), (None, None, None, None));
    let bad = ProviderRuntimeConfig::from_provider_config(&config(Some("not json")));
    assert_eq!(bad.api_key, None);
    let token = ProviderRuntimeConfig::from_provider_config(&config(Some(
        r#"{"token_env":"T","api_key":7,"model":"m"}"#,
    )));
    assert_eq!(token.api_key_env.as_deref(), Some("T"));
    assert_eq!(token.api_key, None);
    let shadowed = ProviderRuntimeConfig::from_provider_config(&config(Some(
        r#"{"token_env":"T","api_key_env":null}"#,
    )));
    assert_eq!(shadowed.api_key_env, None);
}

#[test]
fn replies_without_calls_or_text_get_fixed_texts() {
    let reply = |text: &str| match interpret_chat_completion_payload(&parse_json(text).expect("json")) {
        ProviderReply::FinalText(t) => t,
        ProviderReply::ToolCalls(c) => panic!("{c:?}"),
    };
    assert_eq!(reply("{}"), "OpenAI provider returned no choices.");
    assert_eq!(reply(r#"{"choices":[]}"#), "OpenAI provider returned no choices.");
    assert_eq!(reply(r#"{"choices":[{}]}"#), "OpenAI provider returned no choices.");
    assert_eq!(
        reply(r#"{"choices":[{"message":{"content":"  "}}]}"#),
        "OpenAI provider returned no text content and no tool calls."
    );
    assert_eq!(
        reply(r#"{"choices":[{"message":{"tool_calls":[{"id":"x"},{"function":{}}],"content":[{"text":"a"},{"x":1},{"text":"b"}]}}]}"#),
        "a\nb"
    );
    assert_eq!(
        reply(r#"{"choices":[{"message":{"content":[{"text":" "}]}}]}"#),
        "OpenAI provider returned no text content and no tool calls."
    );
    match interpret_chat_completion_payload(
        &parse_json(r#"{"choices":[{"message":{"content":"ignored","tool_calls":[{"function":{"name":"echo"}},{"id":7,"function":{"name":"b","arguments":{}}}]}}]}"#)
            .expect("json"),
    ) {
        ProviderReply::ToolCalls(calls) => {
            assert_eq!(
                calls,
                vec![
                    ToolCall { name: "echo".to_string(), arguments_json: "{}".to_string(), tool_call_id: None },
                    ToolCall { name: "b".to_string(), arguments_json: "{}".to_string(), tool_call_id: None },
                ]
            );
        }
        other => panic!("{other:?}"),
    }
    assert_eq!(
        extract_message_text(&parse_json(r#"{"content":"hi"}"#).expect("json")).as_deref(),
        Some("hi")
    );
    assert_eq!(extract_message_text(&Json::Null), None);
}

#[test]
fn keys_are_taken_from_the_first_source_that_has_one() {
    let all = KeySources {
        named_env_value: Some("from-named".to_string()),
        openai_api_key: Some("from-env".to_string()),
        key_file_text: Some("  from-file\n".to_string()),
    };
    let inline = config(Some(r#"{"api_key":"inline","api_key_env":"X"}"#));
    assert_eq!(resolve_api_key(&inline, &all).as_deref(), Some("inline"));
    let named = config(Some(r#"{"api_key":" ","api_key_env":"X"}"#));
    assert_eq!(resolve_api_key(&named, &all).as_deref(), Some("from-named"));
    let unnamed = config(Some(r#"{"model":"m"}"#));
    assert_eq!(resolve_api_key(&unnamed, &all).as_deref(), Some("from-env"));
    let file_only = KeySources {
        named_env_value: Some(" ".to_string()),
        openai_api_key: Some("".to_string()),
        key_file_text: Some("  from-file\n".to_string()),
    };
    assert_eq!(resolve_api_key(&named, &file_only).as_deref(), Some("from-file"));
    assert_eq!(resolve_api_key(&named, &no_keys()), None);
    let blank_file =
        KeySources { named_env_value: None, openai_api_key: None, key_file_text: Some(" \n".to_string()) };
    assert_eq!(resolve_api_key(&config(None), &blank_file), None);
}

#[test]
fn endpoint_and_model_follow_settings_then_environment() {
    let runtime = |json: &str| ProviderRuntimeConfig::from_provider_config(&config(Some(json)));
    assert_eq!(
        endpoint(&runtime(r#"{"base_url":"http://h:1/v1///"}"#), &Some("http://env".to_string())),
        "http://h:1/v1/v1/chat/completions"
    );
    assert_eq!(
        endpoint(&runtime("{}"), &Some("http://env/".to_string())),
        "http://env/v1/chat/completions"
    );
    assert_eq!(endpoint(&runtime("{}"), &None), "https://api.openai.com/v1/chat/completions");
    let with_model = ProviderConfig {
        provider_name: "openai".to_string(),
        model: Some("from-config".to_string()),
        config_json: None,
    };
    let none = ProviderRuntimeConfig::from_provider_config(&with_model);
    assert_eq!(model_name(&runtime(r#"{"model":"m1"}"#), &with_model, &None), "m1");
    assert_eq!(model_name(&none, &with_model, &Some("env".to_string())), "from-config");
    assert_eq!(model_name(&none, &config(None), &Some("env".to_string())), "env");
    assert_eq!(model_name(&none, &config(None), &None), "gpt-4.1-mini");
    assert_eq!(model_name(&runtime(r#"{"model":" "}"#), &with_model, &None), "gpt-4.1-mini");
}

#[test]
fn requests_recall_tool_calls_under_their_handles() {
    let messages = vec![ChatMessage { role: "user".to_string(), content: "hi".to_string() }];
    let results = vec![
        ToolResult {
            tool_call_id: Some("call_9".to_string()),
            name: "echo".to_string(),
            result_json: "{\"ok\":true}".to_string(),
            evidence: Evidence { summary: "s".to_string(), artifacts: vec![] },
        },
        ToolResult {
            tool_call_id: None,
            name: "time.now".to_string(),
            result_json: "{}".to_string(),
            evidence: Evidence { summary: "s".to_string(), artifacts: vec![] },
        },
    ];
    let rendered: Vec<String> =
        build_openai_messages(&messages, &results).iter().map(render_json).collect();
    assert_eq!(
        rendered,
        vec![
            r#"{"content":"hi","role":"user"}"#,
            r#"{"content":null,"role":"assistant","tool_calls":[{"function":{"arguments":"{}","name":"echo"},"id":"call_9","type":"function"},{"function":{"arguments":"{}","name":"time.now"},"id":"call_stub_1","type":"function"}]}"#,
            r#"{"content":"{\"ok\":true}","role":"tool","tool_call_id":"call_9"}"#,
            r#"{"content":"{}","role":"tool","tool_call_id":"call_stub_1"}"#,
        ]
    );
    let plain: Vec<String> = build_openai_messages(&messages, &[]).iter().map(render_json).collect();
    assert_eq!(plain, vec![r#"{"content":"hi","role":"user"}"#]);
    let tools = vec![
        Tool {
            name: "echo".to_string(),
            description: "Echo".to_string(),
            input_json_schema: "{\"type\":\"object\",\"required\":[\"input\"]}".to_string(),
        },
        Tool { name: "bad".to_string(), description: "".to_string(), input_json_schema: "oops".to_string() },
    ];
    let described: Vec<String> = build_openai_tools(&tools).iter().map(render_json).collect();
    assert_eq!(
        described,
        vec![
            r#"{"function":{"description":"Echo","name":"echo","parameters":{"required":["input"],"type":"object"}},"type":"function"}"#,
            r#"{"function":{"description":"","name":"bad","parameters":{"type":"object"}},"type":"function"}"#,
        ]
    );
    assert_eq!(
        build_request_body("m", &messages, &[], &[]),
        r#"{"messages":[{"content":"hi","role":"user"}],"model":"m","tool_choice":"auto","tools":[]}"#
    );
}

#[test]
fn a_turn_is_prepared_or_ends_without_a_key() {
    let provider = OpenAiHttpProvider;
    assert_eq!(provider.name(), "openai");
    let messages = vec![ChatMessage { role: "user".to_string(), content: "hi".to_string() }];
    let env = ChatEnvironment { keys: no_keys(), base_url: None, model: None };
    match provider.prepare(&messages, &[], &[], &config(None), &env) {
        Err(ProviderReply::FinalText(t)) => assert_eq!(
            t,
            "OpenAI-compatible provider is selected but no API key was found in provider config or environment."
        ),
        other => panic!("{other:?}"),
    }
    let exchange = provider
        .prepare(&messages, &[], &[], &config(Some(r#"{"api_key":"sk-1","model":"m"}"#)), &env)
        .expect("exchange");
    assert_eq!(exchange.url, "https://api.openai.com/v1/chat/completions");
    assert_eq!(exchange.authorization, "Bearer sk-1");
    assert_eq!(
        exchange.body_json,
        r#"{"messages":[{"content":"hi","role":"user"}],"model":"m","tool_choice":"auto","tools":[]}"#
    );
    match provider.request_failed("timed out") {
        ProviderReply::FinalText(t) => assert_eq!(
            t,
            "OpenAI provider request failed: timed out. Use 'openai-stub' for offline testing."
        ),
        other => panic!("{other:?}"),
    }
    match provider.interpret("<html>") {
        ProviderReply::FinalText(t) => {
            assert_eq!(
                t,
                "OpenAI provider returned invalid JSON: expected value at line 1 column 1"
            )
        }
        other => panic!("{other:?}"),
    }
    match provider.interpret(r#"{"choices":[{"message":{"content":"ok"}}]}"#) {
        ProviderReply::FinalText(t) => assert_eq!(t, "ok"),
        other => panic!("{other:?}"),
    }
}

#[test]
fn runtime_settings_are_read_from_documents() {
    let doc = Json::Object(vec![
        ("base_url".to_string(), Json::Text("http://h/v1".to_string())),
        ("model".to_string(), Json::Number("4".to_string())),
        ("api_key".to_string(), Json::Text("k".to_string())),
        ("token_env".to_string(), Json::Text("TOK".to_string())),
    ]);
    let read = ProviderRuntimeConfig::from_document(&doc);
    assert_eq!(read.base_url.as_deref(), Some("http://h/v1"));
    assert_eq!(read.model, None);
    assert_eq!(read.api_key.as_deref(), Some("k"));
    assert_eq!(read.api_key_env.as_deref(), Some("TOK"));
    let shadowed = Json::Object(vec![
        ("api_key_env".to_string(), Json::Null),
        ("token_env".to_string(), Json::Text("TOK".to_string())),
    ]);
    assert_eq!(ProviderRuntimeConfig::from_document(&shadowed).api_key_env, None);
    let empty = ProviderRuntimeConfig::from_document(&Json::Null);
    assert_eq!((empty.base_url, empty.model, empty.api_key, empty.api_key_env), (None, None, None, None));
}
