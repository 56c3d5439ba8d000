use cmnd_n_ctrl::ipc::{
    finish, invalid_params, method_named, method_not_found, parse_failed, respond, route,
    route_named, sample_messages, serialization_failed, Routed, RpcMethod,
};
use cmnd_n_ctrl::jsonrpc::{Error, Id, Request, Response};

#[test]
fn request_and_response_constructors() {
    let req = Request::new(Id::Number(7), "tools.list", "{}");
    assert_eq!(req.jsonrpc, "2.0");
    assert_eq!(req.method, "tools.list");

    let ok = Response::success(Id::Number(7), "[]");
    assert!(ok.error.is_none());
    assert_eq!(ok.result_json.as_deref(), Some("[]"));

    let err = Response::error(Id::Number(7), -32601, "method not found");
    assert!(err.result_json.is_none());
    assert_eq!(err.error.as_ref().map(|e| e.code), Some(-32601));
}

#[test]
fn constructors_keep_what_they_are_given() {
    let req = Request::new(Id::String("a".to_string()), "chat.request", "{\"x\":1}");
    assert_eq!(req.id, Id::String("a".to_string()));
    assert_eq!(req.params_json, "{\"x\":1}");
    let err = Response::error(Id::Null, -32000, "consent_not_found");
    assert_eq!(err.jsonrpc, "2.0");
    assert_eq!(err.id, Id::Null);
    assert_eq!(err.error, Some(Error { code: -32000, message: "consent_not_found".to_string() }));
}

#[test]
fn every_method_name_is_known() {
    let names = [
        ("tools.list", RpcMethod::ToolsList),
        ("chat.request", RpcMethod::ChatRequest),
        ("chat.approve", RpcMethod::ChatApprove),
        ("chat.deny", RpcMethod::ChatDeny),
        ("sessions.create", RpcMethod::SessionsCreate),
        ("sessions.list", RpcMethod::SessionsList),
        ("sessions.get", RpcMethod::SessionsGet),
        ("sessions.delete", RpcMethod::SessionsDelete),
        ("sessions.messages.append", RpcMethod::SessionsMessagesAppend),
        ("providers.list", RpcMethod::ProvidersList),
        ("providers.set", RpcMethod::ProvidersSet),
        ("providers.config.get", RpcMethod::ProvidersConfigGet),
        ("providers.config.set", RpcMethod::ProvidersConfigSet),
        ("mcp.servers.list", RpcMethod::McpServersList),
        ("mcp.servers.add", RpcMethod::McpServersAdd),
        ("mcp.servers.remove", RpcMethod::McpServersRemove),
        ("mcp.servers.start", RpcMethod::McpServersStart),
        ("mcp.servers.stop", RpcMethod::McpServersStop),
        ("project.open", RpcMethod::ProjectOpen),
        ("project.status", RpcMethod::ProjectStatus),
        ("audit.list", RpcMethod::AuditList),
        ("audit.get", RpcMethod::AuditGet),
        ("consent.list", RpcMethod::ConsentList),
        ("consent.approve", RpcMethod::ConsentApprove),
        ("consent.deny", RpcMethod::ConsentDeny),
        ("system.health", RpcMethod::SystemHealth),
        ("rpc.raw", RpcMethod::RpcRaw),
    ];
    for (name, method) in names {
        assert_eq!(method_named(name), Some(method), "{name}");
    }
    assert_eq!(method_named("tools.List"), None);
    assert_eq!(method_named(""), None);
    assert_eq!(method_named("chat"), None);
}

#[test]
fn error_replies_carry_the_codes_of_the_surface() {
    let e = method_not_found(Id::Number(3)).error.expect("error");
    assert_eq!((e.code, e.message.as_str()), (-32601, "method not found"));
    let e = invalid_params(Id::Number(3), "missing field `path`").error.expect("error");
    assert_eq!((e.code, e.message.as_str()), (-32602, "invalid params: missing field `path`"));
    let e = serialization_failed(Id::Number(3), "boom").error.expect("error");
    assert_eq!((e.code, e.message.as_str()), (-32603, "serialization error: boom"));
    let r = parse_failed("expected value");
    assert_eq!(r.id, Id::Null);
    let e = r.error.expect("error");
    assert_eq!((e.code, e.message.as_str()), (-32700, "parse error: expected value"));
}

#[test]
fn respond_wraps_results_and_errors() {
    let ok = respond(Id::Number(1), Ok("{\"a\":1}".to_string()));
    assert_eq!(ok.result_json.as_deref(), Some("{\"a\":1}"));
    assert!(ok.error.is_none());
    let err = respond(
        Id::Number(2),
        Err(Error { code: -32000, message: "consent_expired".to_string() }),
    );
    assert!(err.result_json.is_none());
    assert_eq!(err.id, Id::Number(2));
    assert_eq!(err.error, Some(Error { code: -32000, message: "consent_expired".to_string() }));
}

#[test]
fn sample_messages_hold_one_user_message() {
    let messages = sample_messages("hello");
    assert_eq!(messages.len(), 1);
    assert_eq!(messages[0].role, "user");
    assert_eq!(messages[0].content, "hello");
}

#[test]
fn an_unknown_method_is_answered_under_the_request_id() {
    let request = Request::new(Id::Number(7), "no.such.method", "{}");
    assert_eq!(
        route(&request),
        Routed::Reply(Response::error(Id::Number(7), -32601, "method not found"))
    );
    let named = Id::String("abc".to_string());
    assert_eq!(
        route_named(&named, ""),
        Routed::Reply(Response::error(Id::String("abc".to_string()), -32601, "method not found"))
    );
    assert_eq!(
        route_named(&Id::Null, "Tools.List"),
        Routed::Reply(Response::error(Id::Null, -32601, "method not found"))
    );
    assert_eq!(route(&Request::new(Id::Number(1), "tools.list", "{}")), Routed::Decode(RpcMethod::ToolsList));
    assert_eq!(route_named(&Id::Number(2), "rpc.raw"), Routed::Decode(RpcMethod::RpcRaw));
}

#[test]
fn a_result_is_sent_as_written_or_as_a_serialization_error() {
    assert_eq!(finish(Id::Number(4), Ok("[1]".to_string())), Response::success(Id::Number(4), "[1]"));
    assert_eq!(
        finish(Id::Number(4), Err("key must be a string".to_string())),
        Response::error(Id::Number(4), -32603, "serialization error: key must be a string")
    );
}
