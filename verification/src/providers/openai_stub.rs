//! The offline stand-in for an OpenAI-compatible provider.
//!
//! It proposes at most one tool call per turn, picked from the last message
//! by fixed rules: first the phrases of plain requests, then the `tool:`
//! commands. Once a tool result is there it answers with a fixed text.

use vstd::prelude::*;
use crate::ipc::{ChatMessage, ProviderConfig, Tool, ToolCall, ToolCallView, ToolResult, ToolView};
use crate::json::{
    no_members, number, number_of, object, object_of, parse_json, parsed_json, push_member,
    push_text_member, render_json, render_text_object, rendered_json, text, Json, JsonView,
};
use crate::model::{opt_view, views};
use crate::text::{
    after_keyword, buffers, chars_of, find, find_chars, first_word, has_keyword, has_prefix,
    mentions, next_word, slice_after_case_insensitive, slice_of, split_words, starts_with,
    string_of, strip_set, stripped, trim, trimmed, words,
};
use crate::tool_registry::lists_tool;

verus! {

/// The stand-in provider.
#[derive(Clone, Copy, Debug)]
pub struct OpenAiStubProvider;

/// What the stand-in picks for a prompt: a tool call, or the request to
/// add the numbers written in `operands`.
#[derive(Debug, PartialEq, Eq)]
pub enum StubSelection {
    Call(ToolCall),
    Sum(String),
}

/// What contracts see of a [`StubSelection`].
pub enum StubSelectionView {
    Call(ToolCallView),
    Sum(Seq<char>),
}

impl View for StubSelection {
    type V = StubSelectionView;

    open spec fn view(&self) -> StubSelectionView {
        match self {
            StubSelection::Call(call) => StubSelectionView::Call(call@),
            StubSelection::Sum(operands) => StubSelectionView::Sum(operands@),
        }
    }
}

/// `a` where it is there, else `b`.
pub open spec fn or_else<T>(a: Option<T>, b: Option<T>) -> Option<T> {
    match a {
        Some(_) => a,
        None => b,
    }
}

/// `s` unless it is empty, else `fallback`.
pub open spec fn or_default(s: Seq<char>, fallback: Seq<char>) -> Seq<char> {
    if s.len() == 0 {
        fallback
    } else {
        s
    }
}

/// A call of `name` without a provider handle.
pub open spec fn call_of(name: Seq<char>, arguments_json: Seq<char>) -> ToolCallView {
    ToolCallView { name, arguments_json, tool_call_id: None }
}

/// The JSON text of an object with one string member.
pub open spec fn one_text(key: Seq<char>, value: Seq<char>) -> Seq<char> {
    rendered_json(object(seq![(key, text(value))]))
}

/// The characters stripped from the ends of a word.
pub open spec fn punctuation() -> Seq<char> {
    ",.!?\"'()[]{}"@
}

/// Whether a word is a web address.
pub open spec fn is_url(word: Seq<char>) -> bool {
    starts_with(word, "https://"@) || starts_with(word, "http://"@)
}

/// The first word at or after position `from`, stripped of punctuation,
/// that is a web address.
pub open spec fn url_among(list: Seq<Seq<char>>, from: int) -> Option<Seq<char>>
    decreases list.len() - from,
{
    if from < 0 || from >= list.len() {
        None
    } else if is_url(strip_set(list[from], punctuation())) {
        Some(strip_set(list[from], punctuation()))
    } else {
        url_among(list, from + 1)
    }
}

/// The first web address written in a text.
pub open spec fn url_in(input: Seq<char>) -> Option<Seq<char>> {
    url_among(words(input), 0)
}

/// The first word of a text, stripped of punctuation; empty where there is none.
pub open spec fn first_token_of(input: Seq<char>) -> Seq<char> {
    match first_word(input, 0) {
        Some(w) => strip_set(w, punctuation()),
        None => Seq::empty(),
    }
}

/// The word that follows `keyword` and a blank, where the text, case
/// ignored, holds them.
pub open spec fn word_after(input: Seq<char>, keyword: Seq<char>) -> Option<Seq<char>> {
    match find(crate::text::lower(input), keyword + " "@) {
        Some(at) => first_word(input.subrange(at + keyword.len() + 1, input.len() as int), 0),
        None => None,
    }
}

/// Whether some descriptor in `tools` is named `name`.
pub fn has_tool(tools: &[Tool], name: &str) -> (r: bool)
    ensures
        r == lists_tool(views(tools@), name@),
{
    let mut i: usize = 0;
    while i < tools.len()
        invariant
            i <= tools.len(),
            forall|k: int| 0 <= k < i ==> (#[trigger] views(tools@)[k]).name != name@,
        decreases tools.len() - i,
    {
        if crate::text::same_text(tools[i].name.as_str(), name) {
            assert(views(tools@)[i as int].name == name@);
            return true;
        }
        i = i + 1;
    }
    false
}

/// The first web address written in a text.
pub fn extract_url(input: &Vec<char>) -> (out: Option<Vec<char>>)
    ensures
        match out {
            Some(url) => url_in(input@) == Some(url@),
            None => url_in(input@) is None,
        },
{
    let list = split_words(input);
    let marks = chars_of(",.!?\"'()[]{}");
    let mut i: usize = 0;
    while i < list.len()
        invariant
            i <= list.len(),
            marks@ == punctuation(),
            buffers(list@) == words(input@),
            url_among(words(input@), 0) == url_among(words(input@), i as int),
        decreases list.len() - i,
    {
        let bare = stripped(&list[i], &marks);
        if has_prefix(&bare, &chars_of("https://")) || has_prefix(&bare, &chars_of("http://")) {
            return Some(bare);
        }
        i = i + 1;
    }
    None
}

/// The first word of a text, stripped of punctuation.
pub fn first_token(input: &Vec<char>) -> (out: Vec<char>)
    ensures
        out@ == first_token_of(input@),
{
    match next_word(input, 0) {
        Some((a, b)) => stripped(&slice_of(input, a, b), &chars_of(",.!?\"'()[]{}")),
        None => Vec::new(),
    }
}

/// The word that follows `keyword` and a blank.
pub fn token_after(input: &Vec<char>, keyword: &str) -> (out: Option<Vec<char>>)
    ensures
        match out {
            Some(w) => word_after(input@, keyword@) == Some(w@),
            None => word_after(input@, keyword@) is None,
        },
{
    let low = crate::text::to_lower(input);
    let mut needle = chars_of(keyword);
    needle.push(' ');
    proof {
        reveal_strlit(" ");
        assert(needle@ =~= keyword@ + " "@);
    }
    match find_chars(&low, &needle) {
        Some(at) => {
            let rest = slice_of(input, at + needle.len(), input.len());
            match next_word(&rest, 0) {
                Some((a, b)) => Some(slice_of(&rest, a, b)),
                None => None,
            }
        },
        None => None,
    }
}

/// A call of `name` without a provider handle.
fn call(name: &str, arguments_json: String) -> (c: ToolCall)
    ensures
        c@ == call_of(name@, arguments_json@),
{
    ToolCall { name: name.to_string(), arguments_json, tool_call_id: None }
}

/// `s` unless it is empty, else `fallback`.
fn text_or(s: &Vec<char>, fallback: &str) -> (out: String)
    ensures
        out@ == or_default(s@, fallback@),
{
    if s.len() == 0 {
        fallback.to_string()
    } else {
        string_of(s)
    }
}

// ---------------------------------------------------------------------------
// Plain requests
// ---------------------------------------------------------------------------

/// "open", "launch", "navigate" or "visit" with a web address.
pub open spec fn asks_to_open(prompt: Seq<char>, tools: Seq<ToolView>) -> Option<ToolCallView> {
    if lists_tool(tools, "desktop.open_url"@) && url_in(prompt) is Some && (mentions(prompt, "open"@)
        || mentions(prompt, "launch"@) || mentions(prompt, "navigate"@) || mentions(
        prompt,
        "visit"@,
    )) {
        Some(call_of("desktop.open_url"@, one_text("url"@, url_in(prompt)->Some_0)))
    } else {
        None
    }
}

/// A phrase followed by what it is about: `keyword` and then a text that
/// is not blank, made the member `key` of a call of `tool`.
pub open spec fn asks_for(
    prompt: Seq<char>,
    tools: Seq<ToolView>,
    keyword: Seq<char>,
    tool: Seq<char>,
    key: Seq<char>,
) -> Option<ToolCallView> {
    match after_keyword(prompt, keyword) {
        Some(rest) => if lists_tool(tools, tool) && trim(rest).len() > 0 {
            Some(call_of(tool, one_text(key, trim(rest))))
        } else {
            None
        },
        None => None,
    }
}

/// "list files", "show files" or "what files".
pub open spec fn asks_to_list(prompt: Seq<char>, tools: Seq<ToolView>) -> Option<ToolCallView> {
    if lists_tool(tools, "file.list"@) && (mentions(prompt, "list files"@) || mentions(
        prompt,
        "show files"@,
    ) || mentions(prompt, "what files"@)) {
        Some(call_of("file.list"@, one_text("path"@, "."@)))
    } else {
        None
    }
}

/// "read file" and a path.
pub open spec fn asks_to_read(prompt: Seq<char>, tools: Seq<ToolView>) -> Option<ToolCallView> {
    match after_keyword(prompt, "read file "@) {
        Some(rest) => if lists_tool(tools, "file.read_text"@) && first_token_of(rest).len() > 0 {
            Some(call_of("file.read_text"@, one_text("path"@, first_token_of(rest))))
        } else {
            None
        },
        None => None,
    }
}

/// The arguments of a call to an MCP server.
pub open spec fn mcp_arguments(server_id: Seq<char>, tool_name: Seq<char>, arguments: JsonView) -> Seq<char> {
    rendered_json(
        object(
            seq![
                ("server_id"@, text(server_id)),
                ("tool_name"@, text(tool_name)),
                ("arguments"@, arguments),
            ],
        ),
    )
}

/// "mcp", "server" and "tool" in one request.
pub open spec fn asks_for_mcp(prompt: Seq<char>, tools: Seq<ToolView>) -> Option<ToolCallView> {
    if lists_tool(tools, "mcp.tool_call"@) && mentions(prompt, "mcp"@) && mentions(prompt, "server"@)
        && mentions(prompt, "tool"@) {
        Some(
            call_of(
                "mcp.tool_call"@,
                mcp_arguments(
                    match word_after(prompt, "server"@) {
                        Some(w) => w,
                        None => "mcp-000001"@,
                    },
                    match word_after(prompt, "tool"@) {
                        Some(w) => w,
                        None => "echo"@,
                    },
                    object(Seq::empty()),
                ),
            ),
        )
    } else {
        None
    }
}

/// "what time".
pub open spec fn asks_the_time(prompt: Seq<char>, tools: Seq<ToolView>) -> Option<ToolCallView> {
    if mentions(prompt, "what time"@) && lists_tool(tools, "time.now"@) {
        Some(call_of("time.now"@, "{}"@))
    } else {
        None
    }
}

/// The call a plain request stands for: the first of the phrase rules
/// that applies, in this order.
pub open spec fn natural_call(prompt: Seq<char>, tools: Seq<ToolView>) -> Option<ToolCallView> {
    or_else(
        asks_to_open(prompt, tools),
        or_else(
            asks_for(prompt, tools, "activate "@, "desktop.app.activate"@, "app"@),
            or_else(
                asks_for(prompt, tools, "focus "@, "desktop.app.activate"@, "app"@),
                or_else(
                    asks_to_list(prompt, tools),
                    or_else(
                        asks_to_read(prompt, tools),
                        or_else(
                            asks_for(prompt, tools, "create directory "@, "file.mkdir"@, "path"@),
                            or_else(
                                asks_for(prompt, tools, "create folder "@, "file.mkdir"@, "path"@),
                                or_else(asks_for_mcp(prompt, tools), asks_the_time(prompt, tools)),
                            ),
                        ),
                    ),
                ),
            ),
        ),
    )
}

fn phrase_call(prompt: &Vec<char>, tools: &[Tool], keyword: &str, tool: &str, key: &str) -> (out:
    Option<ToolCall>)
    ensures
        opt_view(out) == asks_for(prompt@, views(tools@), keyword@, tool@, key@),
{
    match slice_after_case_insensitive(prompt, keyword) {
        Some(rest) => {
            let about = trimmed(&rest);
            if has_tool(tools, tool) && about.len() > 0 {
                Some(call(tool, render_text_object(key, string_of(&about).as_str())))
            } else {
                None
            }
        },
        None => None,
    }
}

fn mcp_call(server_id: &str, tool_name: &str, arguments: Json) -> (out: ToolCall)
    ensures
        out@ == call_of("mcp.tool_call"@, mcp_arguments(server_id@, tool_name@, arguments@)),
{
    let mut members = no_members();
    push_text_member(&mut members, "server_id", server_id);
    push_text_member(&mut members, "tool_name", tool_name);
    let ghost doc = arguments@;
    push_member(&mut members, "arguments", arguments);
    assert(crate::json::member_views(members@) =~= seq![
        ("server_id"@, text(server_id@)),
        ("tool_name"@, text(tool_name@)),
        ("arguments"@, doc),
    ]);
    call("mcp.tool_call", render_json(&object_of(members)))
}

/// The call a plain request stands for.
pub fn select_natural_language_tool_call(prompt: &str, tools: &[Tool]) -> (out: Option<ToolCall>)
    ensures
        opt_view(out) == natural_call(prompt@, views(tools@)),
{
    let text = chars_of(prompt);
    if has_tool(tools, "desktop.open_url") {
        match extract_url(&text) {
            Some(url) => {
                if has_keyword(&text, "open") || has_keyword(&text, "launch") || has_keyword(
                    &text,
                    "navigate",
                ) || has_keyword(&text, "visit") {
                    return Some(
                        call(
                            "desktop.open_url",
                            render_text_object("url", string_of(&url).as_str()),
                        ),
                    );
                }
            },
            None => {},
        }
    }
    match phrase_call(&text, tools, "activate ", "desktop.app.activate", "app") {
        Some(c) => {
            return Some(c);
        },
        None => {},
    }
    match phrase_call(&text, tools, "focus ", "desktop.app.activate", "app") {
        Some(c) => {
            return Some(c);
        },
        None => {},
    }
    if has_tool(tools, "file.list") && (has_keyword(&text, "list files") || has_keyword(
        &text,
        "show files",
    ) || has_keyword(&text, "what files")) {
        return Some(call("file.list", render_text_object("path", ".")));
    }
    match slice_after_case_insensitive(&text, "read file ") {
        Some(rest) => {
            let path = first_token(&rest);
            if has_tool(tools, "file.read_text") && path.len() > 0 {
                return Some(
                    call("file.read_text", render_text_object("path", string_of(&path).as_str())),
                );
            }
        },
        None => {},
    }
    match phrase_call(&text, tools, "create directory ", "file.mkdir", "path") {
        Some(c) => {
            return Some(c);
        },
        None => {},
    }
    match phrase_call(&text, tools, "create folder ", "file.mkdir", "path") {
        Some(c) => {
            return Some(c);
        },
        None => {},
    }
    if has_tool(tools, "mcp.tool_call") && has_keyword(&text, "mcp") && has_keyword(&text, "server")
        && has_keyword(&text, "tool") {
        let server_id = match token_after(&text, "server") {
            Some(w) => string_of(&w),
            None => "mcp-000001".to_string(),
        };
        let tool_name = match token_after(&text, "tool") {
            Some(w) => string_of(&w),
            None => "echo".to_string(),
        };
        return Some(mcp_call(server_id.as_str(), tool_name.as_str(), object_of(no_members())));
    }
    if has_keyword(&text, "what time") && has_tool(tools, "time.now") {
        return Some(call("time.now", "{}".to_string()));
    }
    None
}

// ---------------------------------------------------------------------------
// `tool:` commands
// ---------------------------------------------------------------------------

/// A command with one argument: `keyword` and then the argument, trimmed,
/// or `fallback` where none is given.
pub open spec fn command(
    prompt: Seq<char>,
    tools: Seq<ToolView>,
    keyword: Seq<char>,
    tool: Seq<char>,
    key: Seq<char>,
    fallback: Seq<char>,
) -> Option<ToolCallView> {
    match after_keyword(prompt, keyword) {
        Some(rest) => if lists_tool(tools, tool) {
            Some(call_of(tool, one_text(key, or_default(trim(rest), fallback))))
        } else {
            None
        },
        None => None,
    }
}

/// `tool:csv` and a path.
pub open spec fn csv_command(prompt: Seq<char>, tools: Seq<ToolView>) -> Option<ToolCallView> {
    match after_keyword(prompt, "tool:csv"@) {
        Some(rest) => if lists_tool(tools, "file.read_csv"@) {
            Some(
                call_of(
                    "file.read_csv"@,
                    rendered_json(
                        object(
                            seq![
                                ("path"@, text(or_default(trim(rest), "data.csv"@))),
                                ("limit"@, number(10)),
                            ],
                        ),
                    ),
                ),
            )
        } else {
            None
        },
        None => None,
    }
}

/// What `tool:grep` looks for: what stands before the first ` in `.
pub open spec fn grep_query(rest: Seq<char>) -> Seq<char> {
    let t = trim(rest);
    match find(t, " in "@) {
        Some(at) => trim(t.subrange(0, at)),
        None => trim(t),
    }
}

/// Where `tool:grep` looks: what stands after the first ` in `.
pub open spec fn grep_path(rest: Seq<char>) -> Seq<char> {
    let t = trim(rest);
    match find(t, " in "@) {
        Some(at) => trim(t.subrange(at + 4, t.len() as int)),
        None => "."@,
    }
}

/// `tool:grep`, a query and, after ` in `, a path.
pub open spec fn grep_command(prompt: Seq<char>, tools: Seq<ToolView>) -> Option<ToolCallView> {
    match after_keyword(prompt, "tool:grep"@) {
        Some(rest) => if lists_tool(tools, "file.search_text"@) {
            Some(
                call_of(
                    "file.search_text"@,
                    rendered_json(
                        object(
                            seq![
                                ("query"@, text(or_default(grep_query(rest), "TODO"@))),
                                ("path"@, text(or_default(grep_path(rest), "."@))),
                                ("limit"@, number(25)),
                            ],
                        ),
                    ),
                ),
            )
        } else {
            None
        },
        None => None,
    }
}

/// The path a write command names: what stands before the first `::`.
pub open spec fn write_path(rest: Seq<char>) -> Seq<char> {
    match find(rest, "::"@) {
        Some(at) => trim(rest.subrange(0, at)),
        None => "notes/generated.txt"@,
    }
}

/// The content a write command carries: what stands after the first `::`,
/// or everything where there is no `::`.
pub open spec fn write_content(rest: Seq<char>) -> Seq<char> {
    match find(rest, "::"@) {
        Some(at) => trim(rest.subrange(at + 2, rest.len() as int)),
        None => trim(rest),
    }
}

/// `tool:write` or `tool:append`: a path, `::`, and the content.
pub open spec fn write_command(
    prompt: Seq<char>,
    tools: Seq<ToolView>,
    keyword: Seq<char>,
    tool: Seq<char>,
    fallback: Seq<char>,
) -> Option<ToolCallView> {
    match after_keyword(prompt, keyword) {
        Some(rest) => if lists_tool(tools, tool) {
            Some(
                call_of(
                    tool,
                    rendered_json(
                        object(
                            seq![
                                ("path"@, text(or_default(write_path(rest), "notes/generated.txt"@))),
                                ("content"@, text(or_default(write_content(rest), fallback))),
                            ],
                        ),
                    ),
                ),
            )
        } else {
            None
        },
        None => None,
    }
}

/// `tool:apps`.
pub open spec fn apps_command(prompt: Seq<char>, tools: Seq<ToolView>) -> Option<ToolCallView> {
    if mentions(prompt, "tool:apps"@) && lists_tool(tools, "desktop.app.list"@) {
        Some(call_of("desktop.app.list"@, one_text("filter"@, Seq::empty())))
    } else {
        None
    }
}

/// The three fields of `tool:mcp`: server, tool and arguments, separated
/// by `::`; `None` where fewer than two `::` are there.
pub open spec fn mcp_fields(rest: Seq<char>) -> Option<(Seq<char>, Seq<char>, Seq<char>)> {
    let t = trim(rest);
    match find(t, "::"@) {
        Some(a) => {
            let tail = t.subrange(a + 2, t.len() as int);
            match find(tail, "::"@) {
                Some(b) => Some(
                    (
                        trim(t.subrange(0, a)),
                        trim(tail.subrange(0, b)),
                        trim(tail.subrange(b + 2, tail.len() as int)),
                    ),
                ),
                None => None,
            }
        },
        None => None,
    }
}

/// `tool:mcp server :: tool :: arguments`.
pub open spec fn mcp_command(prompt: Seq<char>, tools: Seq<ToolView>) -> Option<ToolCallView> {
    match after_keyword(prompt, "tool:mcp"@) {
        Some(rest) => if lists_tool(tools, "mcp.tool_call"@) {
            let (server_id, tool_name, arguments) = match mcp_fields(rest) {
                Some(f) => f,
                None => ("mcp-000001"@, "echo"@, "{}"@),
            };
            Some(
                call_of(
                    "mcp.tool_call"@,
                    mcp_arguments(
                        or_default(server_id, "mcp-000001"@),
                        or_default(tool_name, "echo"@),
                        match parsed_json(arguments) {
                            Some(doc) => doc,
                            None => object(Seq::empty()),
                        },
                    ),
                ),
            )
        } else {
            None
        },
        None => None,
    }
}

/// `tool:add` and the numbers to add.
pub open spec fn add_command(prompt: Seq<char>, tools: Seq<ToolView>) -> Option<Seq<char>> {
    match after_keyword(prompt, "tool:add"@) {
        Some(rest) => if lists_tool(tools, "math.add"@) {
            Some(rest)
        } else {
            None
        },
        None => None,
    }
}

/// `tool:time`.
pub open spec fn time_command(prompt: Seq<char>, tools: Seq<ToolView>) -> Option<ToolCallView> {
    if mentions(prompt, "tool:time"@) && lists_tool(tools, "time.now"@) {
        Some(call_of("time.now"@, "{}"@))
    } else {
        None
    }
}

/// The calls that the commands before `tool:add` stand for.
pub open spec fn early_commands(prompt: Seq<char>, tools: Seq<ToolView>) -> Option<ToolCallView> {
    or_else(
        command(prompt, tools, "tool:open"@, "desktop.open_url"@, "url"@, "https://example.com"@),
        or_else(
            command(prompt, tools, "tool:ls"@, "file.list"@, "path"@, "."@),
            or_else(
                command(prompt, tools, "tool:cat"@, "file.read_text"@, "path"@, "README.md"@),
                or_else(
                    csv_command(prompt, tools),
                    or_else(
                        command(prompt, tools, "tool:json"@, "file.read_json"@, "path"@, "package.json"@),
                        or_else(
                            command(prompt, tools, "tool:stat"@, "file.stat"@, "path"@, "."@),
                            or_else(
                                grep_command(prompt, tools),
                                or_else(
                                    write_command(
                                        prompt,
                                        tools,
                                        "tool:write"@,
                                        "file.write_text"@,
                                        "stub content"@,
                                    ),
                                    or_else(
                                        write_command(
                                            prompt,
                                            tools,
                                            "tool:append"@,
                                            "file.append_text"@,
                                            "stub append"@,
                                        ),
                                        or_else(
                                            command(
                                                prompt,
                                                tools,
                                                "tool:mkdir"@,
                                                "file.mkdir"@,
                                                "path"@,
                                                "notes"@,
                                            ),
                                            or_else(
                                                apps_command(prompt, tools),
                                                or_else(
                                                    mcp_command(prompt, tools),
                                                    command(
                                                        prompt,
                                                        tools,
                                                        "tool:activate"@,
                                                        "desktop.app.activate"@,
                                                        "app"@,
                                                        "Browser"@,
                                                    ),
                                                ),
                                            ),
                                        ),
                                    ),
                                ),
                            ),
                        ),
                    ),
                ),
            ),
        ),
    )
}

/// The calls that the commands after `tool:add` stand for.
pub open spec fn late_commands(prompt: Seq<char>, tools: Seq<ToolView>) -> Option<ToolCallView> {
    or_else(
        command(prompt, tools, "tool:upper"@, "text.uppercase"@, "text"@, "stub"@),
        or_else(
            command(prompt, tools, "tool:echo"@, "echo"@, "input"@, "stub"@),
            time_command(prompt, tools),
        ),
    )
}

/// What a `tool:` command stands for: the first of the command rules that
/// applies, in this order.
pub open spec fn legacy_selection(prompt: Seq<char>, tools: Seq<ToolView>) -> Option<StubSelectionView> {
    match early_commands(prompt, tools) {
        Some(c) => Some(StubSelectionView::Call(c)),
        None => match add_command(prompt, tools) {
            Some(operands) => Some(StubSelectionView::Sum(operands)),
            None => match late_commands(prompt, tools) {
                Some(c) => Some(StubSelectionView::Call(c)),
                None => None,
            },
        },
    }
}

/// What the stand-in picks for a prompt: the call of a plain request, else,
/// where the prompt holds `tool:`, what the command stands for.
pub open spec fn stub_selection(prompt: Seq<char>, tools: Seq<ToolView>) -> Option<StubSelectionView> {
    match natural_call(prompt, tools) {
        Some(c) => Some(StubSelectionView::Call(c)),
        None => if mentions(prompt, "tool:"@) {
            legacy_selection(prompt, tools)
        } else {
            None
        },
    }
}

fn command_call(
    prompt: &Vec<char>,
    tools: &[Tool],
    keyword: &str,
    tool: &str,
    key: &str,
    fallback: &str,
) -> (out: Option<ToolCall>)
    ensures
        opt_view(out) == command(prompt@, views(tools@), keyword@, tool@, key@, fallback@),
{
    match slice_after_case_insensitive(prompt, keyword) {
        Some(rest) => {
            if has_tool(tools, tool) {
                let value = text_or(&trimmed(&rest), fallback);
                Some(call(tool, render_text_object(key, value.as_str())))
            } else {
                None
            }
        },
        None => None,
    }
}

fn csv_call(prompt: &Vec<char>, tools: &[Tool]) -> (out: Option<ToolCall>)
    ensures
        opt_view(out) == csv_command(prompt@, views(tools@)),
{
    match slice_after_case_insensitive(prompt, "tool:csv") {
        Some(rest) => {
            if has_tool(tools, "file.read_csv") {
                let mut members = no_members();
                push_text_member(
                    &mut members,
                    "path",
                    text_or(&trimmed(&rest), "data.csv").as_str(),
                );
                push_member(&mut members, "limit", number_of(10));
                assert(crate::json::member_views(members@) =~= seq![
                    ("path"@, text(or_default(trim(rest@), "data.csv"@))),
                    ("limit"@, number(10)),
                ]);
                Some(call("file.read_csv", render_json(&object_of(members))))
            } else {
                None
            }
        },
        None => None,
    }
}

fn grep_call(prompt: &Vec<char>, tools: &[Tool]) -> (out: Option<ToolCall>)
    ensures
        opt_view(out) == grep_command(prompt@, views(tools@)),
{
    match slice_after_case_insensitive(prompt, "tool:grep") {
        Some(rest) => {
            if has_tool(tools, "file.search_text") {
                let t = trimmed(&rest);
                proof {
                    reveal_strlit(" in ");
                }
                let (query, path) = match find_chars(&t, &chars_of(" in ")) {
                    Some(at) => (
                        trimmed(&slice_of(&t, 0, at)),
                        trimmed(&slice_of(&t, at + 4, t.len())),
                    ),
                    None => (trimmed(&t), chars_of(".")),
                };
                let mut members = no_members();
                push_text_member(&mut members, "query", text_or(&query, "TODO").as_str());
                push_text_member(&mut members, "path", text_or(&path, ".").as_str());
                push_member(&mut members, "limit", number_of(25));
                assert(crate::json::member_views(members@) =~= seq![
                    ("query"@, text(or_default(grep_query(rest@), "TODO"@))),
                    ("path"@, text(or_default(grep_path(rest@), "."@))),
                    ("limit"@, number(25)),
                ]);
                Some(call("file.search_text", render_json(&object_of(members))))
            } else {
                None
            }
        },
        None => None,
    }
}

fn write_call(prompt: &Vec<char>, tools: &[Tool], keyword: &str, tool: &str, fallback: &str) -> (out:
    Option<ToolCall>)
    ensures
        opt_view(out) == write_command(prompt@, views(tools@), keyword@, tool@, fallback@),
{
    match slice_after_case_insensitive(prompt, keyword) {
        Some(rest) => {
            if has_tool(tools, tool) {
                proof {
                    reveal_strlit("::");
                }
                let (path, content) = match find_chars(&rest, &chars_of("::")) {
                    Some(at) => (
                        trimmed(&slice_of(&rest, 0, at)),
                        trimmed(&slice_of(&rest, at + 2, rest.len())),
                    ),
                    None => (chars_of("notes/generated.txt"), trimmed(&rest)),
                };
                let mut members = no_members();
                push_text_member(
                    &mut members,
                    "path",
                    text_or(&path, "notes/generated.txt").as_str(),
                );
                push_text_member(&mut members, "content", text_or(&content, fallback).as_str());
                assert(crate::json::member_views(members@) =~= seq![
                    ("path"@, text(or_default(write_path(rest@), "notes/generated.txt"@))),
                    ("content"@, text(or_default(write_content(rest@), fallback@))),
                ]);
                Some(call(tool, render_json(&object_of(members))))
            } else {
                None
            }
        },
        None => None,
    }
}

fn mcp_command_call(prompt: &Vec<char>, tools: &[Tool]) -> (out: Option<ToolCall>)
    ensures
        opt_view(out) == mcp_command(prompt@, views(tools@)),
{
    match slice_after_case_insensitive(prompt, "tool:mcp") {
        Some(rest) => {
            if has_tool(tools, "mcp.tool_call") {
                let t = trimmed(&rest);
                proof {
                    reveal_strlit("::");
                }
                let sep = chars_of("::");
                let mut fields: Option<(Vec<char>, Vec<char>, Vec<char>)> = None;
                match find_chars(&t, &sep) {
                    Some(a) => {
                        let tail = slice_of(&t, a + 2, t.len());
                        match find_chars(&tail, &sep) {
                            Some(b) => {
                                fields = Some(
                                    (
                                        trimmed(&slice_of(&t, 0, a)),
                                        trimmed(&slice_of(&tail, 0, b)),
                                        trimmed(&slice_of(&tail, b + 2, tail.len())),
                                    ),
                                );
                            },
                            None => {},
                        }
                    },
                    None => {},
                }
                let (server_id, tool_name, arguments) = match fields {
                    Some(f) => f,
                    None => (chars_of("mcp-000001"), chars_of("echo"), chars_of("{}")),
                };
                let doc = match parse_json(string_of(&arguments).as_str()) {
                    Some(doc) => doc,
                    None => object_of(no_members()),
                };
                Some(
                    mcp_call(
                        text_or(&server_id, "mcp-000001").as_str(),
                        text_or(&tool_name, "echo").as_str(),
                        doc,
                    ),
                )
            } else {
                None
            }
        },
        None => None,
    }
}

fn early_command_call(prompt: &Vec<char>, tools: &[Tool]) -> (out: Option<ToolCall>)
    ensures
        opt_view(out) == early_commands(prompt@, views(tools@)),
{
    match command_call(prompt, tools, "tool:open", "desktop.open_url", "url", "https://example.com") {
        Some(c) => {
            return Some(c);
        },
        None => {},
    }
    match command_call(prompt, tools, "tool:ls", "file.list", "path", ".") {
        Some(c) => {
            return Some(c);
        },
        None => {},
    }
    match command_call(prompt, tools, "tool:cat", "file.read_text", "path", "README.md") {
        Some(c) => {
            return Some(c);
        },
        None => {},
    }
    match csv_call(prompt, tools) {
        Some(c) => {
            return Some(c);
        },
        None => {},
    }
    match command_call(prompt, tools, "tool:json", "file.read_json", "path", "package.json") {
        Some(c) => {
            return Some(c);
        },
        None => {},
    }
    match command_call(prompt, tools, "tool:stat", "file.stat", "path", ".") {
        Some(c) => {
            return Some(c);
        },
        None => {},
    }
    match grep_call(prompt, tools) {
        Some(c) => {
            return Some(c);
        },
        None => {},
    }
    match write_call(prompt, tools, "tool:write", "file.write_text", "stub content") {
        Some(c) => {
            return Some(c);
        },
        None => {},
    }
    match write_call(prompt, tools, "tool:append", "file.append_text", "stub append") {
        Some(c) => {
            return Some(c);
        },
        None => {},
    }
    match command_call(prompt, tools, "tool:mkdir", "file.mkdir", "path", "notes") {
        Some(c) => {
            return Some(c);
        },
        None => {},
    }
    if has_keyword(prompt, "tool:apps") && has_tool(tools, "desktop.app.list") {
        proof {
            reveal_strlit("");
            assert(""@ =~= Seq::<char>::empty());
        }
        return Some(call("desktop.app.list", render_text_object("filter", "")));
    }
    match mcp_command_call(prompt, tools) {
        Some(c) => {
            return Some(c);
        },
        None => {},
    }
    command_call(prompt, tools, "tool:activate", "desktop.app.activate", "app", "Browser")
}

/// What a `tool:` command stands for.
pub fn select_legacy_tool_syntax_call(prompt: &str, tools: &[Tool]) -> (out: Option<StubSelection>)
    ensures
        opt_view(out) == legacy_selection(prompt@, views(tools@)),
{
    let text = chars_of(prompt);
    match early_command_call(&text, tools) {
        Some(c) => {
            return Some(StubSelection::Call(c));
        },
        None => {},
    }
    match slice_after_case_insensitive(&text, "tool:add") {
        Some(rest) => {
            if has_tool(tools, "math.add") {
                return Some(StubSelection::Sum(string_of(&rest)));
            }
        },
        None => {},
    }
    match command_call(&text, tools, "tool:upper", "text.uppercase", "text", "stub") {
        Some(c) => {
            return Some(StubSelection::Call(c));
        },
        None => {},
    }
    match command_call(&text, tools, "tool:echo", "echo", "input", "stub") {
        Some(c) => {
            return Some(StubSelection::Call(c));
        },
        None => {},
    }
    if has_keyword(&text, "tool:time") && has_tool(tools, "time.now") {
        return Some(StubSelection::Call(call("time.now", "{}".to_string())));
    }
    None
}

/// What the stand-in picks for a prompt.
pub fn select_stub_tool_call(prompt: &str, tools: &[Tool]) -> (out: Option<StubSelection>)
    ensures
        opt_view(out) == stub_selection(prompt@, views(tools@)),
{
    match select_natural_language_tool_call(prompt, tools) {
        Some(c) => {
            return Some(StubSelection::Call(c));
        },
        None => {},
    }
    if has_keyword(&chars_of(prompt), "tool:") {
        return select_legacy_tool_syntax_call(prompt, tools);
    }
    None
}

// ---------------------------------------------------------------------------
// Replies
// ---------------------------------------------------------------------------

/// What the stand-in answers once no tool call is picked.
pub open spec fn stub_text(used_tools: bool) -> Seq<char> {
    "OpenAI stub response "@ + (if used_tools {
        "(tool results incorporated)"@
    } else {
        "(no tools used)"@
    }) + ". TODO: integrate real API client without embedding keys."@
}

/// What the stand-in does with a turn.
#[derive(Debug, PartialEq, Eq)]
pub enum StubReply {
    /// The turn ends with this text.
    Text(String),
    /// This is picked for the last message.
    Pick(StubSelection),
}

/// What contracts see of a [`StubReply`].
pub enum StubReplyView {
    Text(Seq<char>),
    Pick(StubSelectionView),
}

impl View for StubReply {
    type V = StubReplyView;

    open spec fn view(&self) -> StubReplyView {
        match self {
            StubReply::Text(t) => StubReplyView::Text(t@),
            StubReply::Pick(s) => StubReplyView::Pick(s@),
        }
    }
}

/// What the stand-in does with a turn: before any tool result, what it
/// picks for the last message, where it picks anything; else the fixed text.
pub open spec fn stub_reply(
    messages: Seq<crate::ipc::ChatMessageView>,
    tools: Seq<ToolView>,
    results: nat,
) -> StubReplyView {
    if results == 0 && messages.len() > 0 && stub_selection(messages.last().content, tools) is Some {
        StubReplyView::Pick(stub_selection(messages.last().content, tools)->Some_0)
    } else {
        StubReplyView::Text(stub_text(results > 0))
    }
}

impl OpenAiStubProvider {
    /// The name of the stand-in.
    pub fn name(&self) -> (n: &'static str)
        ensures
            n@ == "openai-stub"@,
    {
        "openai-stub"
    }

    /// What the stand-in does with a turn.
    pub fn plan(
        &self,
        messages: &[ChatMessage],
        tools: &[Tool],
        tool_results: &[ToolResult],
        _config: &ProviderConfig,
    ) -> (out: StubReply)
        ensures
            out@ == stub_reply(views(messages@), views(tools@), tool_results@.len()),
    {
        if tool_results.len() == 0 && messages.len() > 0 {
            let last = &messages[messages.len() - 1];
            match select_stub_tool_call(last.content.as_str(), tools) {
                Some(s) => {
                    return StubReply::Pick(s);
                },
                None => {},
            }
        }
        let suffix = if tool_results.len() == 0 {
            "(no tools used)"
        } else {
            "(tool results incorporated)"
        };
        StubReply::Text(
            crate::text::join3(
                "OpenAI stub response ",
                suffix,
                ". TODO: integrate real API client without embedding keys.",
            ),
        )
    }
}

} // verus!
