use cmnd_n_ctrl::bridge::{autospawn_enabled, backend_addr, bridge_step, BackendMode, BridgeStep};
use cmnd_n_ctrl::cli::{
    compact_status, contains_tool_syntax, has_flag, humanize_consent_error, move_selection,
    pane_title, parse_addr_flag, positional_without_flags, string_flag, truncate_inline,
    FocusPane, Key, UiAction, UiState,
};

fn args(list: &[&str]) -> Vec<String> {
    list.iter().map(|s| s.to_string()).collect()
}

#[test]
fn flags_are_found_by_name() {
    let a = args(&["chat", "--addr", "127.0.0.1:7", "--json", "--provider", "p", "--addr", "x"]);
    assert_eq!(parse_addr_flag(&a).as_deref(), Some("127.0.0.1:7"));
    assert_eq!(string_flag(&a, "--provider").as_deref(), Some("p"));
    assert_eq!(string_flag(&a, "--session"), None);
    assert_eq!(string_flag(&args(&["x", "--addr"]), "--addr"), None);
    assert_eq!(parse_addr_flag(&args(&[])), None);
    assert!(has_flag(&a, "--json"));
    assert!(!has_flag(&a, "--JSON"));
    assert!(!has_flag(&args(&[]), "--json"));
}

#[test]
fn positionals_skip_flags_and_their_values() {
    let a = args(&[
        "send", "--json", "hello", "--addr", "h:1", "there", "--raw", "--args", "a b", "--limit",
        "5", "--unknown", "tail", "--title",
    ]);
    assert_eq!(positional_without_flags(&a), args(&["send", "hello", "there", "--unknown", "tail"]));
    assert_eq!(positional_without_flags(&args(&["--strict"])), args(&[]));
    assert_eq!(positional_without_flags(&args(&["--key"])), args(&[]));
    assert_eq!(positional_without_flags(&args(&["--key", "k", "x"])), args(&["x"]));
    assert_eq!(positional_without_flags(&args(&[])), args(&[]));
}

#[test]
fn labels_are_shortened() {
    assert_eq!(compact_status("completed"), "done");
    assert_eq!(compact_status("denied"), "blocked");
    assert_eq!(compact_status("error"), "failed");
    assert_eq!(compact_status("awaiting_consent"), "awaiting_consent");
    assert_eq!(truncate_inline("abcdef", 4), "abcd...");
    assert_eq!(truncate_inline("abcd", 4), "abcd");
    assert_eq!(pane_title("Chat", true), "[Chat]");
    assert_eq!(pane_title("Chat", false), "Chat");
    assert!(contains_tool_syntax("please Tool:ls"));
    assert!(!contains_tool_syntax("tool ls"));
}

#[test]
fn consent_errors_are_put_in_words() {
    let cases = [
        ("json-rpc -32000: consent_expired", "consent request expired"),
        ("consent_not_pending:approved", "consent already approved"),
        ("consent_not_pending:denied", "consent already denied"),
        ("consent_not_pending:expired", "consent request expired"),
        ("consent_not_found", "consent request not found"),
        ("consent_not_pending:pending", "consent_not_pending:pending"),
        ("boom", "boom"),
    ];
    for (err, words) in cases {
        assert_eq!(humanize_consent_error(err), words, "{err}");
    }
}

#[test]
fn the_focus_goes_round() {
    assert_eq!(FocusPane::Sessions.next(), FocusPane::Chat);
    assert_eq!(FocusPane::Chat.next(), FocusPane::Consents);
    assert_eq!(FocusPane::Consents.next(), FocusPane::Audit);
    assert_eq!(FocusPane::Audit.next(), FocusPane::Sessions);
}

#[test]
fn selections_stop_at_both_ends() {
    assert_eq!(move_selection(0, 0, 1), 0);
    assert_eq!(move_selection(3, 0, -1), 3);
    assert_eq!(move_selection(0, 5, 1), 1);
    assert_eq!(move_selection(4, 5, 1), 4);
    assert_eq!(move_selection(0, 5, -1), 0);
    assert_eq!(move_selection(2, 5, -2), 0);
    assert_eq!(move_selection(2, 5, 10), 4);
    assert_eq!(move_selection(9, 5, 0), 4);
    assert_eq!(move_selection(9, 5, -6), 3);
    assert_eq!(move_selection(2, 5, isize::MIN), 0);
    assert_eq!(move_selection(usize::MAX, 5, isize::MAX), 4);
    assert_eq!(move_selection(usize::MAX, usize::MAX, isize::MIN), usize::MAX / 2);
}

#[test]
fn keys_drive_the_interface() {
    let mut ui = UiState::new();
    assert_eq!((ui.focus, ui.require_confirmation, ui.status.as_str()), (FocusPane::Chat, true, "Ready"));
    for c in "hi!".chars() {
        assert_eq!(ui.on_key(Key::Char(c), false), UiAction::Nothing);
    }
    assert_eq!(ui.chat_input, "hi!");
    assert_eq!(ui.on_key(Key::Char('z'), true), UiAction::Nothing);
    assert_eq!(ui.on_key(Key::Backspace, false), UiAction::Nothing);
    assert_eq!(ui.chat_input, "hi");
    assert_eq!(ui.on_key(Key::Enter, false), UiAction::SendChat);
    assert_eq!(ui.on_key(Key::Char('c'), false), UiAction::Nothing);
    assert_eq!((ui.require_confirmation, ui.status.as_str()), (false, "Require confirmation: off"));
    assert_eq!(ui.on_key(Key::Char('v'), false), UiAction::Nothing);
    assert_eq!((ui.show_execution_details, ui.status.as_str()), (true, "Execution details expanded"));
    assert_eq!(ui.on_key(Key::Char('a'), false), UiAction::Nothing);
    assert_eq!(ui.chat_input, "hia");
    assert_eq!(ui.on_key(Key::Esc, false), UiAction::Nothing);
    assert_eq!(ui.chat_input, "");
    assert_eq!(ui.on_key(Key::Backspace, false), UiAction::Nothing);

    assert_eq!(ui.on_key(Key::Tab, false), UiAction::Nothing);
    assert_eq!(ui.focus, FocusPane::Consents);
    ui.consents = 3;
    assert_eq!(ui.on_key(Key::Down, false), UiAction::Nothing);
    assert_eq!(ui.on_key(Key::Char('j'), false), UiAction::Nothing);
    assert_eq!(ui.on_key(Key::Char('j'), false), UiAction::Nothing);
    assert_eq!(ui.selected_consent, 2);
    assert_eq!(ui.on_key(Key::Char('k'), false), UiAction::Nothing);
    assert_eq!(ui.selected_consent, 1);
    assert_eq!(ui.on_key(Key::Char('a'), false), UiAction::ApproveConsent);
    assert_eq!(ui.on_key(Key::Char('d'), false), UiAction::DenyConsent);
    assert_eq!(ui.on_key(Key::Enter, false), UiAction::ApproveConsent);
    assert_eq!(ui.on_key(Key::Esc, false), UiAction::Nothing);

    assert_eq!(ui.on_key(Key::Tab, false), UiAction::Nothing);
    assert_eq!(ui.focus, FocusPane::Audit);
    assert_eq!(ui.on_key(Key::Enter, false), UiAction::Nothing);
    assert_eq!(ui.on_key(Key::Up, false), UiAction::Nothing);
    assert_eq!(ui.selected_audit, 0);
    assert_eq!(ui.on_key(Key::Tab, false), UiAction::Nothing);
    assert_eq!(ui.focus, FocusPane::Sessions);
    assert_eq!(ui.on_key(Key::Char('x'), false), UiAction::DeleteSession);
    assert_eq!(ui.on_key(Key::Enter, false), UiAction::LoadSession);
    assert_eq!(ui.on_key(Key::Char('n'), false), UiAction::CreateSession);
    assert_eq!(ui.on_key(Key::Char('r'), true), UiAction::Refresh);
    assert_eq!(ui.on_key(Key::Other, false), UiAction::Nothing);
    assert_eq!(ui.on_key(Key::Char('d'), false), UiAction::Nothing);
    assert_eq!((ui.focus, ui.chat_input.as_str()), (FocusPane::Chat, "d"));
    assert_eq!(ui.on_key(Key::Char('q'), false), UiAction::Quit);
    assert_eq!(ui.chat_input, "d");
}

#[test]
fn the_bridge_starts_a_backend_as_the_last_resort() {
    assert_eq!(backend_addr(None), "127.0.0.1:7777");
    assert_eq!(backend_addr(Some("10.0.0.1:9")), "10.0.0.1:9");
    for (setting, allowed) in [
        (None, true),
        (Some("1"), true),
        (Some(""), true),
        (Some("00"), true),
        (Some("0"), false),
        (Some("false"), false),
        (Some("FALSE"), false),
        (Some("False"), false),
        (Some("no"), true),
    ] {
        assert_eq!(autospawn_enabled(setting), allowed, "{setting:?}");
    }
    let http = BackendMode::HttpDev;
    assert_eq!(bridge_step(http, true, false, false), BridgeStep::Ready);
    assert_eq!(bridge_step(http, true, true, true), BridgeStep::Ready);
    assert_eq!(bridge_step(http, false, true, false), BridgeStep::Wait);
    assert_eq!(bridge_step(http, false, true, true), BridgeStep::Wait);
    assert_eq!(bridge_step(http, false, false, true), BridgeStep::Spawn);
    assert_eq!(bridge_step(http, false, false, false), BridgeStep::Refuse);
    for reachable in [false, true] {
        assert_eq!(bridge_step(BackendMode::StdioMcp, reachable, true, true), BridgeStep::Unsupported);
    }
}
