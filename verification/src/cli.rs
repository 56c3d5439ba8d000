//! What the command line and the terminal interface decide without
//! touching a terminal: flags, positions, labels and selection.

use vstd::prelude::*;
use crate::text::{
    chars_of, clipped, contains, has_substring, join3, mentions, same_text, slice_of, string_of,
    texts, truncate_chars,
};

verus! {

/// Whether an input uses the `tool:` command syntax, whatever its case.
pub fn contains_tool_syntax(input: &str) -> (r: bool)
    ensures
        r == mentions(input@, "tool:"@),
{
    crate::text::has_keyword(&chars_of(input), "tool:")
}

/// The first position at or after `from` that holds `flag`.
pub open spec fn flag_position(args: Seq<Seq<char>>, flag: Seq<char>, from: int) -> Option<int>
    decreases args.len() - from,
{
    if from < 0 || from >= args.len() {
        None
    } else if args[from] == flag {
        Some(from)
    } else {
        flag_position(args, flag, from + 1)
    }
}

/// The argument after the first `flag`, where there is one.
pub open spec fn flag_value(args: Seq<Seq<char>>, flag: Seq<char>) -> Option<Seq<char>> {
    match flag_position(args, flag, 0) {
        Some(i) => if i + 1 < args.len() {
            Some(args[i + 1])
        } else {
            None
        },
        None => None,
    }
}

fn find_flag(args: &Vec<String>, flag: &str) -> (out: Option<usize>)
    ensures
        match out {
            Some(i) => flag_position(texts(args@), flag@, 0) == Some(i as int) && i < args.len(),
            None => flag_position(texts(args@), flag@, 0) is None,
        },
{
    let mut i: usize = 0;
    while i < args.len()
        invariant
            i <= args.len(),
            flag_position(texts(args@), flag@, 0) == flag_position(texts(args@), flag@, i as int),
        decreases args.len() - i,
    {
        if same_text(args[i].as_str(), flag) {
            return Some(i);
        }
        i = i + 1;
    }
    None
}

/// Whether `flag` is among the arguments.
pub fn has_flag(args: &Vec<String>, flag: &str) -> (r: bool)
    ensures
        r == (flag_position(texts(args@), flag@, 0) is Some),
{
    find_flag(args, flag).is_some()
}

/// The argument after the first `flag`.
pub fn string_flag(args: &Vec<String>, flag: &str) -> (out: Option<String>)
    ensures
        crate::model::opt_text(out) == flag_value(texts(args@), flag@),
{
    match find_flag(args, flag) {
        Some(i) => {
            if i + 1 < args.len() {
                Some(args[i + 1].clone())
            } else {
                None
            }
        },
        None => None,
    }
}

/// The argument after the first `--addr`.
pub fn parse_addr_flag(args: &Vec<String>) -> (out: Option<String>)
    ensures
        crate::model::opt_text(out) == flag_value(texts(args@), "--addr"@),
{
    string_flag(args, "--addr")
}

/// How many arguments a flag takes up, itself included; zero for an
/// argument that is no flag.
pub open spec fn flag_width(arg: Seq<char>) -> int {
    if arg == "--json"@ || arg == "--raw"@ || arg == "--strict"@ {
        1
    } else if arg == "--addr"@ || arg == "--key"@ || arg == "--env"@ || arg == "--provider"@ || arg
        == "--session"@ || arg == "--title"@ || arg == "--path"@ || arg == "--command"@ || arg
        == "--name"@ || arg == "--status"@ || arg == "--limit"@ || arg == "--args"@ {
        2
    } else {
        0
    }
}

/// The arguments from `from` on that are neither flags nor flag values.
pub open spec fn positionals(args: Seq<Seq<char>>, from: int) -> Seq<Seq<char>>
    decreases args.len() + 2 - from,
{
    if from < 0 || from >= args.len() {
        Seq::empty()
    } else if flag_width(args[from]) == 0 {
        seq![args[from]] + positionals(args, from + 1)
    } else {
        positionals(args, from + flag_width(args[from]))
    }
}

fn width_of_flag(arg: &str) -> (w: usize)
    ensures
        w == flag_width(arg@),
{
    if same_text(arg, "--json") || same_text(arg, "--raw") || same_text(arg, "--strict") {
        1
    } else if same_text(arg, "--addr") || same_text(arg, "--key") || same_text(arg, "--env")
        || same_text(arg, "--provider") || same_text(arg, "--session") || same_text(arg, "--title")
        || same_text(arg, "--path") || same_text(arg, "--command") || same_text(arg, "--name")
        || same_text(arg, "--status") || same_text(arg, "--limit") || same_text(arg, "--args") {
        2
    } else {
        0
    }
}

/// The arguments that are neither flags nor flag values, in order.
pub fn positional_without_flags(args: &Vec<String>) -> (out: Vec<String>)
    ensures
        texts(out@) == positionals(texts(args@), 0),
{
    let mut out: Vec<String> = Vec::new();
    let mut i: usize = 0;
    while i < args.len()
        invariant
            positionals(texts(args@), 0) == texts(out@) + positionals(texts(args@), i as int),
        decreases args.len() - i,
    {
        let w = width_of_flag(args[i].as_str());
        if w == 0 {
            let a = args[i].clone();
            out.push(a);
            i = i + 1;
        } else if w >= args.len() - i {
            assert(positionals(texts(args@), i + flag_width(texts(args@)[i as int])) =~= Seq::<
                Seq<char>,
            >::empty());
            return out;
        } else {
            i = i + w;
        }
    }
    out
}

/// A text cut to `max` characters for a one-line display.
pub fn truncate_inline(input: &str, max: usize) -> (out: String)
    ensures
        out@ == clipped(input@, max as int),
{
    truncate_chars(input, max)
}

/// The short label of an execution status.
pub open spec fn status_label(status: Seq<char>) -> Seq<char> {
    if status == "completed"@ {
        "done"@
    } else if status == "denied"@ {
        "blocked"@
    } else if status == "error"@ {
        "failed"@
    } else {
        status
    }
}

/// The short label of an execution status.
pub fn compact_status(status: &str) -> (out: String)
    ensures
        out@ == status_label(status@),
{
    if same_text(status, "completed") {
        "done".to_string()
    } else if same_text(status, "denied") {
        "blocked".to_string()
    } else if same_text(status, "error") {
        "failed".to_string()
    } else {
        status.to_string()
    }
}

/// What a user is told about a failed consent resolution.
pub open spec fn consent_error_text(err: Seq<char>) -> Seq<char> {
    if contains(err, "consent_expired"@) {
        "consent request expired"@
    } else if contains(err, "consent_not_pending:approved"@) {
        "consent already approved"@
    } else if contains(err, "consent_not_pending:denied"@) {
        "consent already denied"@
    } else if contains(err, "consent_not_pending:expired"@) {
        "consent request expired"@
    } else if contains(err, "consent_not_found"@) {
        "consent request not found"@
    } else {
        err
    }
}

/// Turns the stable code of a failed consent resolution into words.
pub fn humanize_consent_error(err: &str) -> (out: String)
    ensures
        out@ == consent_error_text(err@),
{
    let text = chars_of(err);
    if has_substring(&text, &chars_of("consent_expired")) {
        "consent request expired".to_string()
    } else if has_substring(&text, &chars_of("consent_not_pending:approved")) {
        "consent already approved".to_string()
    } else if has_substring(&text, &chars_of("consent_not_pending:denied")) {
        "consent already denied".to_string()
    } else if has_substring(&text, &chars_of("consent_not_pending:expired")) {
        "consent request expired".to_string()
    } else if has_substring(&text, &chars_of("consent_not_found")) {
        "consent request not found".to_string()
    } else {
        err.to_string()
    }
}

/// The panes of the terminal interface.
#[derive(Clone, Copy, Debug, PartialEq, Eq, Structural)]
pub enum FocusPane {
    Sessions,
    Chat,
    Consents,
    Audit,
}

impl FocusPane {
    /// The pane that takes the focus next.
    pub open spec fn following(self) -> FocusPane {
        match self {
            FocusPane::Sessions => FocusPane::Chat,
            FocusPane::Chat => FocusPane::Consents,
            FocusPane::Consents => FocusPane::Audit,
            FocusPane::Audit => FocusPane::Sessions,
        }
    }

    /// The pane that takes the focus next.
    pub fn next(self) -> (out: FocusPane)
        ensures
            out == self.following(),
    {
        match self {
            FocusPane::Sessions => FocusPane::Chat,
            FocusPane::Chat => FocusPane::Consents,
            FocusPane::Consents => FocusPane::Audit,
            FocusPane::Audit => FocusPane::Sessions,
        }
    }
}

/// The focus comes back to a pane after four steps.
pub proof fn lemma_focus_cycles(pane: FocusPane)
    ensures
        pane.following().following().following().following() == pane,
{
}

/// The title of a pane; the focused pane's title stands in brackets.
pub fn pane_title(base: &str, focused: bool) -> (out: String)
    ensures
        out@ == (if focused {
            "["@ + base@ + "]"@
        } else {
            base@
        }),
{
    if focused {
        join3("[", base, "]")
    } else {
        base.to_string()
    }
}

/// The selected position in a list of `len` items after a move by
/// `delta`: the move stops at both ends, and an empty list keeps the
/// position it has.
pub open spec fn selection_after(selected: usize, len: usize, delta: isize) -> usize {
    if len == 0 {
        selected
    } else if selected + delta < 0 {
        0
    } else if selected + delta > len - 1 {
        (len - 1) as usize
    } else {
        (selected + delta) as usize
    }
}

/// Moves a selection by `delta` within a list of `len` items.
pub fn move_selection(selected: usize, len: usize, delta: isize) -> (out: usize)
    ensures
        out == selection_after(selected, len, delta),
        len > 0 ==> out < len,
{
    if len == 0 {
        return selected;
    }
    if delta < 0 {
        let back: usize = if delta == isize::MIN {
            usize::MAX / 2 + 1
        } else {
            (-delta) as usize
        };
        if back > selected {
            0
        } else if selected - back > len - 1 {
            len - 1
        } else {
            selected - back
        }
    } else {
        let forth: usize = delta as usize;
        if selected > len - 1 || forth > len - 1 - selected {
            len - 1
        } else {
            selected + forth
        }
    }
}

// ---------------------------------------------------------------------------
// Keys
// ---------------------------------------------------------------------------

/// A key press, as far as the interface tells keys apart.
#[derive(Clone, Copy, Debug, PartialEq, Eq, Structural)]
pub enum Key {
    Char(char),
    Tab,
    Enter,
    Backspace,
    Esc,
    Up,
    Down,
    Other,
}

/// What the host has to do after a key press.
#[derive(Clone, Copy, Debug, PartialEq, Eq, Structural)]
pub enum UiAction {
    Nothing,
    Quit,
    Refresh,
    CreateSession,
    DeleteSession,
    LoadSession,
    SendChat,
    ApproveConsent,
    DenyConsent,
}

/// What the interface remembers between key presses: the focus, the two
/// switches, the input line, the status line, and for each list the
/// selected position and the number of items.
#[derive(Debug, PartialEq, Eq)]
pub struct UiState {
    pub focus: FocusPane,
    pub require_confirmation: bool,
    pub show_execution_details: bool,
    pub chat_input: String,
    pub status: String,
    pub selected_session: usize,
    pub sessions: usize,
    pub selected_consent: usize,
    pub consents: usize,
    pub selected_audit: usize,
    pub audits: usize,
    pub selected_execution: usize,
    pub executions: usize,
}

/// What contracts see of a [`UiState`].
pub struct UiStateView {
    pub focus: FocusPane,
    pub require_confirmation: bool,
    pub show_execution_details: bool,
    pub chat_input: Seq<char>,
    pub status: Seq<char>,
    pub selected_session: usize,
    pub sessions: usize,
    pub selected_consent: usize,
    pub consents: usize,
    pub selected_audit: usize,
    pub audits: usize,
    pub selected_execution: usize,
    pub executions: usize,
}

impl View for UiState {
    type V = UiStateView;

    open spec fn view(&self) -> UiStateView {
        UiStateView {
            focus: self.focus,
            require_confirmation: self.require_confirmation,
            show_execution_details: self.show_execution_details,
            chat_input: self.chat_input@,
            status: self.status@,
            selected_session: self.selected_session,
            sessions: self.sessions,
            selected_consent: self.selected_consent,
            consents: self.consents,
            selected_audit: self.selected_audit,
            audits: self.audits,
            selected_execution: self.selected_execution,
            executions: self.executions,
        }
    }
}

/// The interface as it starts: the focus on the chat, confirmation
/// required, nothing typed, nothing listed.
pub open spec fn initial_ui() -> UiStateView {
    UiStateView {
        focus: FocusPane::Chat,
        require_confirmation: true,
        show_execution_details: false,
        chat_input: Seq::empty(),
        status: "Ready"@,
        selected_session: 0,
        sessions: 0,
        selected_consent: 0,
        consents: 0,
        selected_audit: 0,
        audits: 0,
        selected_execution: 0,
        executions: 0,
    }
}

/// The state after the selection of the focused list has moved by `delta`.
pub open spec fn moved(state: UiStateView, delta: isize) -> UiStateView {
    match state.focus {
        FocusPane::Sessions => UiStateView {
            selected_session: selection_after(state.selected_session, state.sessions, delta),
            ..state
        },
        FocusPane::Consents => UiStateView {
            selected_consent: selection_after(state.selected_consent, state.consents, delta),
            ..state
        },
        FocusPane::Audit => UiStateView {
            selected_audit: selection_after(state.selected_audit, state.audits, delta),
            ..state
        },
        FocusPane::Chat => UiStateView {
            selected_execution: selection_after(state.selected_execution, state.executions, delta),
            ..state
        },
    }
}

/// The state after a character was typed: it goes to the input line, and
/// the focus to the chat; a character typed with a modifier is ignored.
pub open spec fn typed(state: UiStateView, c: char, modified: bool) -> UiStateView {
    if modified {
        state
    } else {
        UiStateView { focus: FocusPane::Chat, chat_input: state.chat_input.push(c), ..state }
    }
}

/// What a key press comes to: the next state, and what the host has to do.
///
/// `q` quits, `r` refreshes, `c` switches confirmation, `n` creates a
/// session, `j` and `k` move the selection like the arrows, Tab moves the
/// focus; `x` deletes the selected session, `a` and `d` resolve the
/// selected consent and `v` switches the execution details, each in its
/// own pane only. Enter acts on the focused pane. Backspace and Esc edit
/// the input line while the chat has the focus. Any other character is
/// typed.
pub open spec fn after_key(state: UiStateView, key: Key, modified: bool) -> (UiStateView, UiAction) {
    match key {
        Key::Char(c) => if c == 'q' {
            (state, UiAction::Quit)
        } else if c == 'r' {
            (state, UiAction::Refresh)
        } else if c == 'c' {
            (
                UiStateView {
                    require_confirmation: !state.require_confirmation,
                    status: if state.require_confirmation {
                        "Require confirmation: off"@
                    } else {
                        "Require confirmation: on"@
                    },
                    ..state
                },
                UiAction::Nothing,
            )
        } else if c == 'n' {
            (state, UiAction::CreateSession)
        } else if c == 'x' && state.focus == FocusPane::Sessions {
            (state, UiAction::DeleteSession)
        } else if c == 'a' && state.focus == FocusPane::Consents {
            (state, UiAction::ApproveConsent)
        } else if c == 'd' && state.focus == FocusPane::Consents {
            (state, UiAction::DenyConsent)
        } else if c == 'j' {
            (moved(state, 1isize), UiAction::Nothing)
        } else if c == 'k' {
            (moved(state, -1isize), UiAction::Nothing)
        } else if c == 'v' && state.focus == FocusPane::Chat {
            (
                UiStateView {
                    show_execution_details: !state.show_execution_details,
                    status: if state.show_execution_details {
                        "Execution details collapsed"@
                    } else {
                        "Execution details expanded"@
                    },
                    ..state
                },
                UiAction::Nothing,
            )
        } else {
            (typed(state, c, modified), UiAction::Nothing)
        },
        Key::Tab => (UiStateView { focus: state.focus.following(), ..state }, UiAction::Nothing),
        Key::Down => (moved(state, 1isize), UiAction::Nothing),
        Key::Up => (moved(state, -1isize), UiAction::Nothing),
        Key::Enter => (
            state,
            match state.focus {
                FocusPane::Sessions => UiAction::LoadSession,
                FocusPane::Chat => UiAction::SendChat,
                FocusPane::Consents => UiAction::ApproveConsent,
                FocusPane::Audit => UiAction::Nothing,
            },
        ),
        Key::Backspace => if state.focus == FocusPane::Chat && state.chat_input.len() > 0 {
            (UiStateView { chat_input: state.chat_input.drop_last(), ..state }, UiAction::Nothing)
        } else {
            (state, UiAction::Nothing)
        },
        Key::Esc => if state.focus == FocusPane::Chat {
            (UiStateView { chat_input: Seq::empty(), ..state }, UiAction::Nothing)
        } else {
            (state, UiAction::Nothing)
        },
        Key::Other => (state, UiAction::Nothing),
    }
}

impl UiState {
    /// The interface as it starts.
    pub fn new() -> (r: Self)
        ensures
            r@ == initial_ui(),
    {
        UiState {
            focus: FocusPane::Chat,
            require_confirmation: true,
            show_execution_details: false,
            chat_input: String::new(),
            status: "Ready".to_string(),
            selected_session: 0,
            sessions: 0,
            selected_consent: 0,
            consents: 0,
            selected_audit: 0,
            audits: 0,
            selected_execution: 0,
            executions: 0,
        }
    }

    /// Moves the selection of the focused list by `delta`.
    pub fn move_focused(&mut self, delta: isize)
        ensures
            final(self)@ == moved(old(self)@, delta),
    {
        match self.focus {
            FocusPane::Sessions => {
                self.selected_session = move_selection(self.selected_session, self.sessions, delta);
            },
            FocusPane::Consents => {
                self.selected_consent = move_selection(self.selected_consent, self.consents, delta);
            },
            FocusPane::Audit => {
                self.selected_audit = move_selection(self.selected_audit, self.audits, delta);
            },
            FocusPane::Chat => {
                self.selected_execution = move_selection(
                    self.selected_execution,
                    self.executions,
                    delta,
                );
            },
        }
    }

    /// Takes one key press: changes the state and says what the host has
    /// to do. `modified` tells whether Control or Alt was held.
    pub fn on_key(&mut self, key: Key, modified: bool) -> (action: UiAction)
        ensures
            (final(self)@, action) == after_key(old(self)@, key, modified),
    {
        match key {
            Key::Char(c) => {
                if c == 'q' {
                    UiAction::Quit
                } else if c == 'r' {
                    UiAction::Refresh
                } else if c == 'c' {
                    self.require_confirmation = !self.require_confirmation;
                    self.status = if self.require_confirmation {
                        "Require confirmation: on".to_string()
                    } else {
                        "Require confirmation: off".to_string()
                    };
                    UiAction::Nothing
                } else if c == 'n' {
                    UiAction::CreateSession
                } else if c == 'x' && self.focus == FocusPane::Sessions {
                    UiAction::DeleteSession
                } else if c == 'a' && self.focus == FocusPane::Consents {
                    UiAction::ApproveConsent
                } else if c == 'd' && self.focus == FocusPane::Consents {
                    UiAction::DenyConsent
                } else if c == 'j' {
                    self.move_focused(1);
                    UiAction::Nothing
                } else if c == 'k' {
                    self.move_focused(-1);
                    UiAction::Nothing
                } else if c == 'v' && self.focus == FocusPane::Chat {
                    self.show_execution_details = !self.show_execution_details;
                    self.status = if self.show_execution_details {
                        "Execution details expanded".to_string()
                    } else {
                        "Execution details collapsed".to_string()
                    };
                    UiAction::Nothing
                } else {
                    if !modified {
                        let mut line = chars_of(self.chat_input.as_str());
                        line.push(c);
                        self.chat_input = string_of(&line);
                        self.focus = FocusPane::Chat;
                    }
                    UiAction::Nothing
                }
            },
            Key::Tab => {
                self.focus = self.focus.next();
                UiAction::Nothing
            },
            Key::Down => {
                self.move_focused(1);
                UiAction::Nothing
            },
            Key::Up => {
                self.move_focused(-1);
                UiAction::Nothing
            },
            Key::Enter => match self.focus {
                FocusPane::Sessions => UiAction::LoadSession,
                FocusPane::Chat => UiAction::SendChat,
                FocusPane::Consents => UiAction::ApproveConsent,
                FocusPane::Audit => UiAction::Nothing,
            },
            Key::Backspace => {
                if self.focus == FocusPane::Chat {
                    let line = chars_of(self.chat_input.as_str());
                    if line.len() > 0 {
                        self.chat_input = string_of(&slice_of(&line, 0, line.len() - 1));
                    }
                }
                UiAction::Nothing
            },
            Key::Esc => {
                if self.focus == FocusPane::Chat {
                    self.chat_input = String::new();
                }
                UiAction::Nothing
            },
            Key::Other => UiAction::Nothing,
        }
    }
}

/// Quitting, refreshing and asking the service change nothing in the
/// interface: a key that gives the host something to do leaves the state
/// as it was.
pub proof fn lemma_actions_leave_the_state(state: UiStateView, key: Key, modified: bool)
    requires
        after_key(state, key, modified).1 != UiAction::Nothing,
    ensures
        after_key(state, key, modified).0 == state,
{
}

} // verus!
