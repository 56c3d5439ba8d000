use cmnd_n_ctrl::ipc::{ChatMode, ToolCall};
use cmnd_n_ctrl::policy::{Authorization, CapabilityTier, Policy, PolicyContext};

fn call(name: &str) -> ToolCall {
    ToolCall { name: name.to_string(), arguments_json: "{}".to_string(), tool_call_id: None }
}

fn best_effort() -> PolicyContext {
    PolicyContext { mode: ChatMode::BestEffort, user_confirmed: false }
}

#[test]
fn authorize_allows_readonly_in_best_effort() {
    let policy = Policy::default();
    let result = policy.authorize(
        &call("time.now"),
        &PolicyContext { mode: ChatMode::BestEffort, user_confirmed: false },
    );
    assert!(matches!(result, Authorization::Allow));
}

#[test]
fn authorize_requires_confirmation_for_local_action() {
    let policy = Policy::default();
    let result = policy.authorize(
        &call("desktop.app.list"),
        &PolicyContext { mode: ChatMode::BestEffort, user_confirmed: false },
    );
    assert!(matches!(result, Authorization::RequireConfirmation { .. }));
}

#[test]
fn file_write_text_is_local_action_and_requires_confirmation() {
    let policy = Policy::default();
    assert!(matches!(
        policy.capability_tier(&call("file.write_text")),
        CapabilityTier::LocalActions
    ));
    let result = policy.authorize(
        &call("file.write_text"),
        &PolicyContext { mode: ChatMode::BestEffort, user_confirmed: false },
    );
    assert!(matches!(result, Authorization::RequireConfirmation { .. }));
}

#[test]
fn file_append_and_mkdir_require_confirmation() {
    let policy = Policy::default();
    for name in ["file.append_text", "file.mkdir"] {
        assert!(matches!(policy.capability_tier(&call(name)), CapabilityTier::LocalActions));
        let result = policy.authorize(
            &call(name),
            &PolicyContext { mode: ChatMode::BestEffort, user_confirmed: false },
        );
        assert!(matches!(result, Authorization::RequireConfirmation { .. }));
    }
}

#[test]
fn authorize_denies_internal_tools() {
    let policy = Policy::default();
    let result = policy.authorize(
        &call("internal.secret"),
        &PolicyContext { mode: ChatMode::BestEffort, user_confirmed: false },
    );
    assert!(matches!(result, Authorization::Deny { .. }));
}

#[test]
fn tiers_follow_the_rules_in_order() {
    let policy = Policy::default();
    let cases = [
        ("desktop.app.activate", CapabilityTier::SystemActions),
        ("desktop.app.list", CapabilityTier::LocalActions),
        ("file.write_text", CapabilityTier::LocalActions),
        ("file.append_text", CapabilityTier::LocalActions),
        ("file.mkdir", CapabilityTier::LocalActions),
        ("file.read_text", CapabilityTier::ReadOnly),
        ("time.now", CapabilityTier::ReadOnly),
        ("math.add", CapabilityTier::ReadOnly),
        ("text.uppercase", CapabilityTier::ReadOnly),
        ("echo", CapabilityTier::ReadOnly),
        ("desktop.open_url", CapabilityTier::LocalActions),
        ("android.tap", CapabilityTier::LocalActions),
        ("ios.tap", CapabilityTier::LocalActions),
        ("mcp.tool_call", CapabilityTier::SystemActions),
        ("mystery.op", CapabilityTier::SystemActions),
        ("echoes", CapabilityTier::SystemActions),
        ("", CapabilityTier::SystemActions),
    ];
    for (name, tier) in cases {
        assert_eq!(policy.capability_tier(&call(name)), tier, "{name}");
    }
}

#[test]
fn reasons_are_worded_exactly() {
    let policy = Policy::default();
    assert_eq!(
        policy.authorize(&call("internal.x"), &best_effort()),
        Authorization::Deny { reason: "internal.* tools are reserved".to_string() }
    );
    assert_eq!(
        policy.authorize(&call("file.mkdir"), &best_effort()),
        Authorization::RequireConfirmation {
            reason: "Tool 'file.mkdir' requires explicit user consent".to_string()
        }
    );
}

#[test]
fn internal_tools_are_denied_even_when_confirmed() {
    let policy = Policy::default();
    let result = policy.authorize(
        &call("internal.secret"),
        &PolicyContext { mode: ChatMode::RequireConfirmation, user_confirmed: true },
    );
    assert!(matches!(result, Authorization::Deny { .. }));
}

#[test]
fn readonly_waits_in_require_confirmation_mode() {
    let policy = Policy::default();
    let waiting = policy.authorize(
        &call("time.now"),
        &PolicyContext { mode: ChatMode::RequireConfirmation, user_confirmed: false },
    );
    assert!(matches!(waiting, Authorization::RequireConfirmation { .. }));
    let confirmed = policy.authorize(
        &call("time.now"),
        &PolicyContext { mode: ChatMode::RequireConfirmation, user_confirmed: true },
    );
    assert_eq!(confirmed, Authorization::Allow);
}

#[test]
fn confirmed_actions_are_allowed() {
    let policy = Policy::default();
    for name in ["desktop.app.activate", "file.write_text", "mystery.op"] {
        let result = policy.authorize(
            &call(name),
            &PolicyContext { mode: ChatMode::BestEffort, user_confirmed: true },
        );
        assert_eq!(result, Authorization::Allow, "{name}");
    }
}

#[test]
fn a_policy_that_always_asks_gates_readonly_tools() {
    let policy = Policy { default_require_confirmation: true };
    let result = policy.authorize(&call("echo"), &best_effort());
    assert!(matches!(result, Authorization::RequireConfirmation { .. }));
}
