//! What the orchestrator asks of an action backend, and the built-in backend.

use vstd::prelude::*;
use crate::actions::evidence::action_evidence;
use crate::actions::paths::{
    clean, in_scope, lemma_scoped_path_is_contained, outside_code, requested_view, scoped_path,
    shown, target,
};
use crate::ipc::{EvidenceView, ToolCall, ToolCallView, ToolResult, ToolResultView};
use crate::json::{
    array_of, count_of, field, item_views, member_views, no_members, number, number_of, object,
    object_of, parse_json, parse_json_or_error, parse_error, parsed_json, push_member,
    push_text_member, render_json, rendered_json, text, text_field, Json, JsonView,
};
use crate::model::{opt_text, opt_view};
use crate::mcp::{byte_len, encoded_len};
use crate::text::{
    buffers, chars_of, clipped, contains, decimal, decimal_text, has_substring, join2, join3,
    join4, join5, lex_less, lines, lines_of, same_text, split, split_on, string_of, strip_set,
    stripped, text_less, to_upper, trim, trimmed, truncate_chars, truncated, uppercased,
};

verus! {

/// An action backend: it carries out one approved tool call and reports a
/// result with evidence. Nothing is assumed of what an implementation returns.
pub trait ActionBackend {
    fn platform_name(&self) -> &'static str;

    fn execute_tool(&self, tool_call: &ToolCall) -> ToolResult;
}

// ---------------------------------------------------------------------------
// The stub backend
// ---------------------------------------------------------------------------

/// The built-in backend. It answers the tools that need nothing from the
/// machine by itself, and confines file tools to the project root. What a
/// file tool needs done on the file system is handed to the host as a
/// [`ToolStep`]; the host reports what happened and gets the result.
#[derive(Debug)]
pub struct StubActionBackend {
    platform: &'static str,
    project_root: Option<String>,
}

impl Clone for StubActionBackend {
    fn clone(&self) -> (r: Self)
        ensures
            r.platform() == self.platform(),
            r.root() == self.root(),
    {
        StubActionBackend {
            platform: self.platform,
            project_root: crate::model::clone_opt_text(&self.project_root),
        }
    }
}

/// A result without a provider handle and with one artifact.
pub open spec fn result_of(
    name: Seq<char>,
    result_json: Seq<char>,
    summary: Seq<char>,
    artifact: Seq<char>,
) -> ToolResultView {
    ToolResultView {
        tool_call_id: None,
        name,
        result_json,
        evidence: EvidenceView { summary, artifacts: seq![artifact] },
    }
}

/// Where the stub backend files the evidence of a tool.
pub open spec fn stub_artifact(platform: Seq<char>, tool: Seq<char>) -> Seq<char> {
    "stub://"@ + platform + "/"@ + tool
}

/// The members every successful result starts with.
pub open spec fn ok_members(platform: Seq<char>) -> Seq<(Seq<char>, JsonView)> {
    seq![("status"@, text("ok"@)), ("platform"@, text(platform))]
}

/// The members every successful result of a file tool starts with.
pub open spec fn scoped_members(platform: Seq<char>, root: Seq<char>, path: Seq<char>) -> Seq<
    (Seq<char>, JsonView),
> {
    ok_members(platform) + seq![("project_root"@, text(root)), ("path"@, text(path))]
}

/// The result of a tool that failed with `code` while doing `op`.
pub open spec fn error_result(
    name: Seq<char>,
    platform: Seq<char>,
    code: Seq<char>,
    op: Seq<char>,
    artifact: Seq<char>,
) -> ToolResultView {
    result_of(
        name,
        rendered_json(
            object(
                seq![
                    ("status"@, text("error"@)),
                    ("platform"@, text(platform)),
                    ("error"@, text(code)),
                ],
            ),
        ),
        op + " failed on "@ + platform + ": "@ + code,
        artifact,
    )
}

/// The result of a tool that failed with `code` while doing `op`.
pub fn tool_error(tool_name: &str, platform: &str, code: &str, op: &str, artifact: &str) -> (out:
    ToolResult)
    ensures
        out@ == error_result(tool_name@, platform@, code@, op@, artifact@),
{
    let mut members = no_members();
    push_text_member(&mut members, "status", "error");
    push_text_member(&mut members, "platform", platform);
    push_text_member(&mut members, "error", code);
    assert(member_views(members@) =~= seq![
        ("status"@, text("error"@)),
        ("platform"@, text(platform@)),
        ("error"@, text(code@)),
    ]);
    ToolResult {
        tool_call_id: None,
        name: tool_name.to_string(),
        result_json: render_json(&object_of(members)),
        evidence: action_evidence(join5(op, " failed on ", platform, ": ", code).as_str(), artifact),
    }
}

/// The string member `key` of the arguments' document, where there is a
/// document and it has one.
pub open spec fn text_in(doc: Option<JsonView>, key: Seq<char>) -> Option<Seq<char>> {
    match doc {
        Some(doc) => text_field(doc, key),
        None => None,
    }
}

/// The string member `key` of the arguments' document, or `fallback`.
pub open spec fn text_in_or(doc: Option<JsonView>, key: Seq<char>, fallback: Seq<char>) -> Seq<char> {
    match text_in(doc, key) {
        Some(s) => s,
        None => fallback,
    }
}

/// The count that the member `key` of the arguments' document holds:
/// `fallback` where it is absent or no count, and never more than `cap`.
pub open spec fn count_in(doc: Option<JsonView>, key: Seq<char>, fallback: int, cap: int) -> int {
    let asked = match doc {
        Some(doc) => match field(doc, key) {
            Some(v) => match count_of(v) {
                Some(n) => n,
                None => fallback,
            },
            None => fallback,
        },
        None => fallback,
    };
    if asked > cap {
        cap
    } else {
        asked
    }
}

/// The text of the number member `key` of the arguments' document.
pub open spec fn number_in(doc: Option<JsonView>, key: Seq<char>) -> Option<Seq<char>> {
    match doc {
        Some(doc) => match field(doc, key) {
            Some(JsonView::Number(n)) => Some(n),
            _ => None,
        },
        None => None,
    }
}

/// A string argument of a tool call.
pub open spec fn text_argument(arguments: Seq<char>, key: Seq<char>) -> Option<Seq<char>> {
    text_in(parsed_json(arguments), key)
}

/// A string argument of a tool call, or `fallback` where it is absent.
pub open spec fn text_argument_or(arguments: Seq<char>, key: Seq<char>, fallback: Seq<char>) -> Seq<char> {
    text_in_or(parsed_json(arguments), key, fallback)
}

/// A count argument of a tool call: `fallback` where it is absent or no
/// count, and never more than `cap`.
pub open spec fn count_argument(arguments: Seq<char>, key: Seq<char>, fallback: int, cap: int) -> int {
    count_in(parsed_json(arguments), key, fallback, cap)
}

/// The text of a number argument of a tool call.
pub open spec fn number_argument(arguments: Seq<char>, key: Seq<char>) -> Option<Seq<char>> {
    number_in(parsed_json(arguments), key)
}

/// The string member `key` of the arguments' document.
pub fn text_arg(args: &Option<Json>, key: &str) -> (out: Option<String>)
    ensures
        opt_text(out) == text_in(opt_view(*args), key@),
{
    match args {
        Some(doc) => match doc.text_at(key) {
            Some(s) => Some(s.clone()),
            None => None,
        },
        None => None,
    }
}

/// The string member `key` of the arguments' document, or `fallback`.
pub fn text_arg_or(args: &Option<Json>, key: &str, fallback: &str) -> (out: String)
    ensures
        out@ == text_in_or(opt_view(*args), key@, fallback@),
{
    match text_arg(args, key) {
        Some(s) => s,
        None => fallback.to_string(),
    }
}

/// The count that the member `key` of the arguments' document holds, or
/// `fallback`, and never more than `cap`.
pub fn count_arg(args: &Option<Json>, key: &str, fallback: usize, cap: usize) -> (out: usize)
    ensures
        out == count_in(opt_view(*args), key@, fallback as int, cap as int),
{
    let asked: Option<u64> = match args {
        Some(doc) => match doc.get(key) {
            Some(v) => v.as_u64(),
            None => None,
        },
        None => None,
    };
    let wanted: u64 = match asked {
        Some(n) => n,
        None => fallback as u64,
    };
    if wanted > cap as u64 {
        cap
    } else {
        wanted as usize
    }
}

/// The text of the number member `key` of the arguments' document.
pub fn number_arg(args: &Option<Json>, key: &str) -> (out: Option<String>)
    ensures
        opt_text(out) == number_in(opt_view(*args), key@),
{
    match args {
        Some(doc) => match doc.get(key) {
            Some(Json::Number(n)) => Some(n.clone()),
            _ => None,
        },
        None => None,
    }
}

/// What a tool call needs from the host before its result can be written.
#[derive(Debug, PartialEq, Eq)]
pub enum ToolStep {
    /// Nothing: this is the result.
    Done(ToolResult),
    /// The sum of two numbers, given as the texts the arguments hold;
    /// an absent text counts as zero.
    Add { a: Option<String>, b: Option<String> },
    /// The entries of a directory.
    ListDir { path: String },
    /// The text of a file.
    ReadText { path: String },
    /// The text of a CSV file, of which `limit` rows are wanted.
    ReadCsv { path: String, limit: usize },
    /// The text of a JSON file.
    ReadJson { path: String },
    /// The lines that hold `query` in the files under `root`, up to `limit`.
    SearchText { root: String, query: String, limit: usize },
    /// The metadata of a file or directory.
    Stat { path: String },
    /// `content` written to a file, its directory created where missing.
    WriteText { path: String, content: String },
    /// `content` appended to a file, its directory created where missing.
    AppendText { path: String, content: String },
    /// A directory created, with those above it.
    MakeDir { path: String },
}

/// What contracts see of a [`ToolStep`].
pub enum ToolStepView {
    Done(ToolResultView),
    Add { a: Option<Seq<char>>, b: Option<Seq<char>> },
    ListDir { path: Seq<char> },
    ReadText { path: Seq<char> },
    ReadCsv { path: Seq<char>, limit: usize },
    ReadJson { path: Seq<char> },
    SearchText { root: Seq<char>, query: Seq<char>, limit: usize },
    Stat { path: Seq<char> },
    WriteText { path: Seq<char>, content: Seq<char> },
    AppendText { path: Seq<char>, content: Seq<char> },
    MakeDir { path: Seq<char> },
}

impl View for ToolStep {
    type V = ToolStepView;

    open spec fn view(&self) -> ToolStepView {
        match self {
            ToolStep::Done(r) => ToolStepView::Done(r@),
            ToolStep::Add { a, b } => ToolStepView::Add { a: opt_text(*a), b: opt_text(*b) },
            ToolStep::ListDir { path } => ToolStepView::ListDir { path: path@ },
            ToolStep::ReadText { path } => ToolStepView::ReadText { path: path@ },
            ToolStep::ReadCsv { path, limit } => ToolStepView::ReadCsv { path: path@, limit: *limit },
            ToolStep::ReadJson { path } => ToolStepView::ReadJson { path: path@ },
            ToolStep::SearchText { root, query, limit } => ToolStepView::SearchText {
                root: root@,
                query: query@,
                limit: *limit,
            },
            ToolStep::Stat { path } => ToolStepView::Stat { path: path@ },
            ToolStep::WriteText { path, content } => ToolStepView::WriteText {
                path: path@,
                content: content@,
            },
            ToolStep::AppendText { path, content } => ToolStepView::AppendText {
                path: path@,
                content: content@,
            },
            ToolStep::MakeDir { path } => ToolStepView::MakeDir { path: path@ },
        }
    }
}

/// The result of `time.now`.
pub open spec fn time_result(platform: Seq<char>, unix_seconds: u64) -> ToolResultView {
    result_of(
        "time.now"@,
        "{\"status\":\"ok\",\"platform\":\""@ + platform + "\",\"unix_seconds\":"@ + decimal_text(
            unix_seconds as nat,
        ) + "}"@,
        "Read local time on "@ + platform,
        stub_artifact(platform, "time.now"@),
    )
}

/// The result of a tool that only reports on its arguments: the members
/// `extra` after the common ones.
pub open spec fn report_result(
    name: Seq<char>,
    platform: Seq<char>,
    extra: Seq<(Seq<char>, JsonView)>,
    summary: Seq<char>,
) -> ToolResultView {
    result_of(
        name,
        rendered_json(object(ok_members(platform) + extra)),
        summary,
        stub_artifact(platform, name),
    )
}

/// The desktop applications the stub backend knows.
pub open spec fn stub_apps() -> JsonView {
    JsonView::Array(
        seq![
            object(
                seq![
                    ("id"@, text("app-1"@)),
                    ("name"@, text("Browser"@)),
                    ("state"@, text("running"@)),
                ],
            ),
            object(
                seq![
                    ("id"@, text("app-2"@)),
                    ("name"@, text("Editor"@)),
                    ("state"@, text("running"@)),
                ],
            ),
        ],
    )
}

/// The result of a tool the stub backend has no rule for.
pub open spec fn generic_result(name: Seq<char>, platform: Seq<char>, arguments: Seq<char>) -> ToolResultView {
    result_of(
        name,
        "{\"status\":\"ok\",\"platform\":\""@ + platform + "\",\"arguments\":"@ + arguments + "}"@,
        "Executed stub action '"@ + name + "' on "@ + platform,
        stub_artifact(platform, name),
    )
}

/// What a file tool does once its path is known to be in scope, given
/// the document of its arguments.
pub open spec fn file_step_given(name: Seq<char>, doc: Option<JsonView>, path: Seq<char>) -> ToolStepView {
    if name == "file.list"@ {
        ToolStepView::ListDir { path }
    } else if name == "file.read_text"@ {
        ToolStepView::ReadText { path }
    } else if name == "file.read_csv"@ {
        ToolStepView::ReadCsv { path, limit: count_in(doc, "limit"@, 20, 200) as usize }
    } else if name == "file.read_json"@ {
        ToolStepView::ReadJson { path }
    } else if name == "file.search_text"@ {
        ToolStepView::SearchText {
            root: path,
            query: trim(text_in_or(doc, "query"@, Seq::empty())),
            limit: count_in(doc, "limit"@, 25, 200) as usize,
        }
    } else if name == "file.stat"@ {
        ToolStepView::Stat { path }
    } else if name == "file.write_text"@ {
        ToolStepView::WriteText { path, content: text_in_or(doc, "content"@, Seq::empty()) }
    } else if name == "file.append_text"@ {
        ToolStepView::AppendText { path, content: text_in_or(doc, "content"@, Seq::empty()) }
    } else {
        ToolStepView::MakeDir { path }
    }
}

/// What a file tool does once its path is known to be in scope.
pub open spec fn file_step(name: Seq<char>, arguments: Seq<char>, path: Seq<char>) -> ToolStepView {
    file_step_given(name, parsed_json(arguments), path)
}

/// Whether a tool works on the file system.
pub open spec fn is_file_tool(name: Seq<char>) -> bool {
    ||| name == "file.list"@
    ||| name == "file.read_text"@
    ||| name == "file.read_csv"@
    ||| name == "file.read_json"@
    ||| name == "file.search_text"@
    ||| name == "file.stat"@
    ||| name == "file.write_text"@
    ||| name == "file.append_text"@
    ||| name == "file.mkdir"@
}

/// The root that file tools are confined to: the project root, else the
/// working directory.
pub open spec fn effective_root(project_root: Option<Seq<char>>, working_dir: Option<Seq<char>>) -> Option<
    Seq<char>,
> {
    match project_root {
        Some(r) => Some(r),
        None => working_dir,
    }
}

/// The project root as results show it.
pub open spec fn root_shown(project_root: Option<Seq<char>>) -> Seq<char> {
    match project_root {
        Some(r) => r,
        None => "."@,
    }
}

/// What a call of a file tool comes to before the host is involved, given
/// the document of its arguments: a
/// search without a query fails with `missing_query`; a path that leaves
/// the project fails with `path_outside_project_scope`; everything else is
/// handed to the host with the normalized path.
pub open spec fn file_plan_given(
    name: Seq<char>,
    doc: Option<JsonView>,
    platform: Seq<char>,
    project_root: Option<Seq<char>>,
    working_dir: Option<Seq<char>>,
) -> ToolStepView {
    let shown_root = root_shown(project_root);
    if name == "file.search_text"@ && trim(text_in_or(doc, "query"@, Seq::empty())).len()
        == 0 {
        ToolStepView::Done(error_result(name, platform, "missing_query"@, name, shown_root))
    } else {
        match effective_root(project_root, working_dir) {
            None => ToolStepView::Done(
                error_result(name, platform, "unable to resolve project root"@, name, shown_root),
            ),
            Some(root) => {
                let asked = text_in(doc, "path"@);
                if in_scope(root, asked) {
                    file_step_given(
                        name,
                        doc,
                        shown(target(root, asked), target(root, asked).len() as int),
                    )
                } else {
                    ToolStepView::Done(error_result(name, platform, outside_code(), name, shown_root))
                }
            },
        }
    }
}

/// What a call of a file tool comes to before the host is involved.
pub open spec fn file_plan(
    name: Seq<char>,
    arguments: Seq<char>,
    platform: Seq<char>,
    project_root: Option<Seq<char>>,
    working_dir: Option<Seq<char>>,
) -> ToolStepView {
    file_plan_given(name, parsed_json(arguments), platform, project_root, working_dir)
}

/// What a call of the tool `name` comes to before the host is involved,
/// given the text of its arguments and the document that text holds.
pub open spec fn plan_given(
    name: Seq<char>,
    arguments: Seq<char>,
    doc: Option<JsonView>,
    platform: Seq<char>,
    project_root: Option<Seq<char>>,
    working_dir: Option<Seq<char>>,
    unix_seconds: u64,
) -> ToolStepView {
    if name == "time.now"@ {
        ToolStepView::Done(time_result(platform, unix_seconds))
    } else if name == "echo"@ {
        ToolStepView::Done(
            report_result(
                name,
                platform,
                seq![("input"@, text(text_in_or(doc, "input"@, Seq::empty())))],
                "Echoed local payload on "@ + platform,
            ),
        )
    } else if name == "text.uppercase"@ {
        ToolStepView::Done(
            report_result(
                name,
                platform,
                seq![
                    ("text"@, text(text_in_or(doc, "text"@, Seq::empty()))),
                    (
                        "uppercased"@,
                        text(uppercased(text_in_or(doc, "text"@, Seq::empty()))),
                    ),
                ],
                "Uppercased text locally on "@ + platform,
            ),
        )
    } else if name == "math.add"@ {
        ToolStepView::Add {
            a: number_in(doc, "a"@),
            b: number_in(doc, "b"@),
        }
    } else if is_file_tool(name) {
        file_plan_given(name, doc, platform, project_root, working_dir)
    } else if name == "desktop.open_url"@ {
        ToolStepView::Done(
            report_result(
                name,
                platform,
                seq![
                    ("url"@, text(text_in_or(doc, "url"@, "about:blank"@))),
                    ("note"@, text("stub_only_not_opened"@)),
                ],
                "Approved open_url stub for '"@ + text_in_or(doc, "url"@, "about:blank"@)
                    + "' on "@ + platform,
            ),
        )
    } else if name == "desktop.app.list"@ {
        ToolStepView::Done(
            report_result(
                name,
                platform,
                seq![
                    ("apps"@, stub_apps()),
                    ("filter"@, text(text_in_or(doc, "filter"@, Seq::empty()))),
                    ("note"@, text("stub_only_not_real_process_enumeration"@)),
                ],
                "Listed desktop apps stub on "@ + platform,
            ),
        )
    } else if name == "desktop.app.activate"@ {
        ToolStepView::Done(
            report_result(
                name,
                platform,
                seq![
                    ("app"@, text(text_in_or(doc, "app"@, "unknown"@))),
                    ("note"@, text("stub_only_not_real_window_activation"@)),
                ],
                "Activated desktop app stub '"@ + text_in_or(doc, "app"@, "unknown"@)
                    + "' on "@ + platform,
            ),
        )
    } else {
        ToolStepView::Done(generic_result(name, platform, arguments))
    }
}

/// What a call comes to before the host is involved.
pub open spec fn plan_of(
    call: ToolCallView,
    platform: Seq<char>,
    project_root: Option<Seq<char>>,
    working_dir: Option<Seq<char>>,
    unix_seconds: u64,
) -> ToolStepView {
    plan_given(
        call.name,
        call.arguments_json,
        parsed_json(call.arguments_json),
        platform,
        project_root,
        working_dir,
        unix_seconds,
    )
}

impl StubActionBackend {
    /// The platform this backend reports.
    pub closed spec fn platform(&self) -> Seq<char> {
        self.platform@
    }

    /// The project root that file tools are confined to.
    pub closed spec fn root(&self) -> Option<Seq<char>> {
        opt_text(self.project_root)
    }

    /// A backend without a project root.
    pub fn new(platform: &'static str) -> (r: Self)
        ensures
            r.platform() == platform@,
            r.root() is None,
    {
        StubActionBackend { platform, project_root: None }
    }

    /// A backend confined to `project_root`.
    pub fn with_project_root(platform: &'static str, project_root: Option<String>) -> (r: Self)
        ensures
            r.platform() == platform@,
            r.root() == opt_text(project_root),
    {
        StubActionBackend { platform, project_root }
    }

    /// The platform this backend reports.
    pub fn platform_name(&self) -> (n: &'static str)
        ensures
            n@ == self.platform(),
    {
        self.platform
    }

    /// The project root as results show it.
    pub fn project_root_display(&self) -> (out: String)
        ensures
            out@ == root_shown(self.root()),
    {
        match &self.project_root {
            Some(r) => r.clone(),
            None => ".".to_string(),
        }
    }

    /// Resolves a requested path against the project root, or against
    /// `working_dir` where no project is open, and checks containment.
    pub fn scoped_path(&self, requested: &Option<String>, working_dir: Option<&str>) -> (out: Result<
        String,
        String,
    >)
        ensures
            match effective_root(self.root(), requested_view(working_dir)) {
                None => out is Err && out->Err_0@ == "unable to resolve project root"@,
                Some(root) => match out {
                    Ok(path) => in_scope(root, opt_text(*requested)) && path@ == shown(
                        target(root, opt_text(*requested)),
                        target(root, opt_text(*requested)).len() as int,
                    ),
                    Err(code) => !in_scope(root, opt_text(*requested)) && code@ == outside_code(),
                },
            },
    {
        let root: &str = match &self.project_root {
            Some(r) => r.as_str(),
            None => match working_dir {
                Some(w) => w,
                None => {
                    return Err("unable to resolve project root".to_string());
                },
            },
        };
        match requested {
            Some(p) => scoped_path(root, Some(p.as_str())),
            None => scoped_path(root, None),
        }
    }

    fn artifact(&self, tool: &str) -> (out: String)
        ensures
            out@ == stub_artifact(self.platform(), tool@),
    {
        join4("stub://", self.platform, "/", tool)
    }

    fn report(&self, name: &str, extra: Vec<(String, Json)>, summary: &str) -> (out: ToolResult)
        ensures
            out@ == report_result(name@, self.platform(), member_views(extra@), summary@),
    {
        let mut members = no_members();
        push_text_member(&mut members, "status", "ok");
        push_text_member(&mut members, "platform", self.platform);
        assert(member_views(members@) =~= ok_members(self.platform()));
        append_members(&mut members, extra);
        ToolResult {
            tool_call_id: None,
            name: name.to_string(),
            result_json: render_json(&object_of(members)),
            evidence: action_evidence(summary, self.artifact(name).as_str()),
        }
    }

    fn file_failure(&self, name: &str, code: &str) -> (out: ToolResult)
        ensures
            out@ == error_result(name@, self.platform(), code@, name@, root_shown(self.root())),
    {
        tool_error(name, self.platform, code, name, self.project_root_display().as_str())
    }

    /// Decides what a call of the file tool `name` comes to, given the
    /// document of its arguments: reads the path, the query, the limit and
    /// the content from it, and confines the path to the project.
    pub fn plan_file_tool(&self, name: &str, args: &Option<Json>, working_dir: Option<&str>) -> (out:
        ToolStep)
        ensures
            out@ == file_plan_given(
                name@,
                opt_view(*args),
                self.platform(),
                self.root(),
                requested_view(working_dir),
            ),
    {
        let mut query = String::new();
        if same_text(name, "file.search_text") {
            let asked = text_arg_or(args, "query", "");
            proof {
                reveal_strlit("");
            }
            let q = trimmed(&chars_of(asked.as_str()));
            if q.len() == 0 {
                return ToolStep::Done(self.file_failure(name, "missing_query"));
            }
            query = string_of(&q);
        }
        let requested = text_arg(args, "path");
        let path = match self.scoped_path(&requested, working_dir) {
            Ok(p) => p,
            Err(code) => {
                return ToolStep::Done(self.file_failure(name, code.as_str()));
            },
        };
        proof {
            reveal_strlit("");
            assert(""@ =~= Seq::<char>::empty());
        }
        if same_text(name, "file.list") {
            ToolStep::ListDir { path }
        } else if same_text(name, "file.read_text") {
            ToolStep::ReadText { path }
        } else if same_text(name, "file.read_csv") {
            ToolStep::ReadCsv { path, limit: count_arg(args, "limit", 20, 200) }
        } else if same_text(name, "file.read_json") {
            ToolStep::ReadJson { path }
        } else if same_text(name, "file.search_text") {
            ToolStep::SearchText { root: path, query, limit: count_arg(args, "limit", 25, 200) }
        } else if same_text(name, "file.stat") {
            ToolStep::Stat { path }
        } else if same_text(name, "file.write_text") {
            ToolStep::WriteText { path, content: text_arg_or(args, "content", "") }
        } else if same_text(name, "file.append_text") {
            ToolStep::AppendText { path, content: text_arg_or(args, "content", "") }
        } else {
            ToolStep::MakeDir { path }
        }
    }

    /// Decides what a call of the tool `name` comes to, given the text of
    /// its arguments and the document read from it, as far as that needs
    /// nothing done on the machine.
    pub fn plan_parsed(
        &self,
        name: &str,
        arguments_json: &str,
        args: &Option<Json>,
        unix_seconds: u64,
        working_dir: Option<&str>,
    ) -> (out: ToolStep)
        ensures
            out@ == plan_given(
                name@,
                arguments_json@,
                opt_view(*args),
                self.platform(),
                self.root(),
                requested_view(working_dir),
                unix_seconds,
            ),
    {
        proof {
            reveal_strlit("");
            assert(""@ =~= Seq::<char>::empty());
        }
        if same_text(name, "time.now") {
            let mut json = chars_of("{\"status\":\"ok\",\"platform\":\"");
            crate::text::append_str(&mut json, self.platform);
            crate::text::append_str(&mut json, "\",\"unix_seconds\":");
            crate::text::push_decimal(&mut json, unix_seconds);
            crate::text::append_str(&mut json, "}");
            return ToolStep::Done(
                ToolResult {
                    tool_call_id: None,
                    name: name.to_string(),
                    result_json: string_of(&json),
                    evidence: action_evidence(
                        join2("Read local time on ", self.platform).as_str(),
                        self.artifact("time.now").as_str(),
                    ),
                },
            );
        }
        if same_text(name, "echo") {
            let mut extra = no_members();
            push_text_member(&mut extra, "input", text_arg_or(args, "input", "").as_str());
            return ToolStep::Done(
                self.report(name, extra, join2("Echoed local payload on ", self.platform).as_str()),
            );
        }
        if same_text(name, "text.uppercase") {
            let given = text_arg_or(args, "text", "");
            let mut extra = no_members();
            push_text_member(&mut extra, "text", given.as_str());
            push_text_member(&mut extra, "uppercased", to_upper(given.as_str()).as_str());
            assert(member_views(extra@) =~= seq![
                ("text"@, text(text_in_or(opt_view(*args), "text"@, Seq::empty()))),
                (
                    "uppercased"@,
                    text(
                        uppercased(text_in_or(opt_view(*args), "text"@, Seq::empty())),
                    ),
                ),
            ]);
            return ToolStep::Done(
                self.report(name, extra, join2("Uppercased text locally on ", self.platform).as_str()),
            );
        }
        if same_text(name, "math.add") {
            return ToolStep::Add { a: number_arg(args, "a"), b: number_arg(args, "b") };
        }
        if same_text(name, "file.list") || same_text(name, "file.read_text") || same_text(
            name,
            "file.read_csv",
        ) || same_text(name, "file.read_json") || same_text(name, "file.search_text") || same_text(
            name,
            "file.stat",
        ) || same_text(name, "file.write_text") || same_text(name, "file.append_text") || same_text(
            name,
            "file.mkdir",
        ) {
            return self.plan_file_tool(name, args, working_dir);
        }
        if same_text(name, "desktop.open_url") {
            let url = text_arg_or(args, "url", "about:blank");
            let mut extra = no_members();
            push_text_member(&mut extra, "url", url.as_str());
            push_text_member(&mut extra, "note", "stub_only_not_opened");
            assert(member_views(extra@) =~= seq![
                ("url"@, text(text_in_or(opt_view(*args), "url"@, "about:blank"@))),
                ("note"@, text("stub_only_not_opened"@)),
            ]);
            return ToolStep::Done(
                self.report(
                    name,
                    extra,
                    join4("Approved open_url stub for '", url.as_str(), "' on ", self.platform).as_str(),
                ),
            );
        }
        if same_text(name, "desktop.app.list") {
            let mut extra = no_members();
            push_member(&mut extra, "apps", stub_app_list());
            push_text_member(&mut extra, "filter", text_arg_or(args, "filter", "").as_str());
            push_text_member(&mut extra, "note", "stub_only_not_real_process_enumeration");
            assert(member_views(extra@) =~= seq![
                ("apps"@, stub_apps()),
                ("filter"@, text(text_in_or(opt_view(*args), "filter"@, Seq::empty()))),
                ("note"@, text("stub_only_not_real_process_enumeration"@)),
            ]);
            return ToolStep::Done(
                self.report(name, extra, join2("Listed desktop apps stub on ", self.platform).as_str()),
            );
        }
        if same_text(name, "desktop.app.activate") {
            let app = text_arg_or(args, "app", "unknown");
            let mut extra = no_members();
            push_text_member(&mut extra, "app", app.as_str());
            push_text_member(&mut extra, "note", "stub_only_not_real_window_activation");
            assert(member_views(extra@) =~= seq![
                ("app"@, text(text_in_or(opt_view(*args), "app"@, "unknown"@))),
                ("note"@, text("stub_only_not_real_window_activation"@)),
            ]);
            return ToolStep::Done(
                self.report(
                    name,
                    extra,
                    join4("Activated desktop app stub '", app.as_str(), "' on ", self.platform).as_str(),
                ),
            );
        }
        let mut json = chars_of("{\"status\":\"ok\",\"platform\":\"");
        crate::text::append_str(&mut json, self.platform);
        crate::text::append_str(&mut json, "\",\"arguments\":");
        crate::text::append_str(&mut json, arguments_json);
        crate::text::append_str(&mut json, "}");
        ToolStep::Done(
            ToolResult {
                tool_call_id: None,
                name: name.to_string(),
                result_json: string_of(&json),
                evidence: action_evidence(
                    join4("Executed stub action '", name, "' on ", self.platform).as_str(),
                    self.artifact(name).as_str(),
                ),
            },
        )
    }

    /// Decides what a tool call comes to, as far as that needs nothing done
    /// on the machine. `unix_seconds` is the time now, `working_dir` the
    /// directory that file tools are confined to while no project is open.
    pub fn plan_tool(&self, tool_call: &ToolCall, unix_seconds: u64, working_dir: Option<&str>) -> (out:
        ToolStep)
        ensures
            out@ == plan_of(
                tool_call@,
                self.platform(),
                self.root(),
                requested_view(working_dir),
                unix_seconds,
            ),
    {
        let args = parse_json(tool_call.arguments_json.as_str());
        self.plan_parsed(
            tool_call.name.as_str(),
            tool_call.arguments_json.as_str(),
            &args,
            unix_seconds,
            working_dir,
        )
    }
}

fn stub_app(id: &str, name: &str) -> (out: Json)
    ensures
        out@ == object(
            seq![("id"@, text(id@)), ("name"@, text(name@)), ("state"@, text("running"@))],
        ),
{
    let mut m = no_members();
    push_text_member(&mut m, "id", id);
    push_text_member(&mut m, "name", name);
    push_text_member(&mut m, "state", "running");
    assert(member_views(m@) =~= seq![
        ("id"@, text(id@)),
        ("name"@, text(name@)),
        ("state"@, text("running"@)),
    ]);
    object_of(m)
}

fn stub_app_list() -> (out: Json)
    ensures
        out@ == stub_apps(),
{
    let mut items: Vec<Json> = Vec::new();
    items.push(stub_app("app-1", "Browser"));
    items.push(stub_app("app-2", "Editor"));
    assert(item_views(items@) =~= stub_apps()->Array_0);
    array_of(items)
}


// ---------------------------------------------------------------------------
// Results of what the host did
// ---------------------------------------------------------------------------

/// The result of a file tool that succeeded: the members `extra` after the
/// common ones.
pub open spec fn file_result(
    name: Seq<char>,
    platform: Seq<char>,
    root: Seq<char>,
    path: Seq<char>,
    extra: Seq<(Seq<char>, JsonView)>,
    summary: Seq<char>,
) -> ToolResultView {
    result_of(
        name,
        rendered_json(object(scoped_members(platform, root, path) + extra)),
        summary,
        stub_artifact(platform, name),
    )
}

/// An entry of a directory.
#[derive(Debug, PartialEq, Eq)]
pub struct DirEntry {
    pub name: String,
    pub is_dir: bool,
}

/// What contracts see of a [`DirEntry`].
pub struct DirEntryView {
    pub name: Seq<char>,
    pub is_dir: bool,
}

impl View for DirEntry {
    type V = DirEntryView;

    open spec fn view(&self) -> DirEntryView {
        DirEntryView { name: self.name@, is_dir: self.is_dir }
    }
}

/// Where the entry `i` goes in `order`: before the first position at or
/// after `from` whose entry has a name that comes after its own.
pub open spec fn name_place(order: Seq<usize>, names: Seq<Seq<char>>, i: int, from: int) -> int
    decreases order.len() - from,
{
    if from < 0 || from >= order.len() {
        order.len() as int
    } else if lex_less(names[i], names[order[from] as int], 0) {
        from
    } else {
        name_place(order, names, i, from + 1)
    }
}

/// The first `upto` entries in dictionary order of their names; entries
/// with equal names keep their order.
pub open spec fn name_order(names: Seq<Seq<char>>, upto: int) -> Seq<usize>
    decreases upto,
{
    if upto <= 0 {
        Seq::empty()
    } else {
        let before = name_order(names, upto - 1);
        before.insert(name_place(before, names, upto - 1, 0), (upto - 1) as usize)
    }
}

/// The names of a list of entries.
pub open spec fn entry_names(entries: Seq<DirEntryView>) -> Seq<Seq<char>> {
    Seq::new(entries.len(), |i: int| entries[i].name)
}

/// An entry as a listing shows it.
pub open spec fn entry_json(e: DirEntryView) -> JsonView {
    object(
        seq![
            ("name"@, text(e.name)),
            (
                "kind"@,
                text(
                    if e.is_dir {
                        "dir"@
                    } else {
                        "file"@
                    },
                ),
            ),
        ],
    )
}

/// The entries of a listing, in dictionary order of their names.
pub open spec fn listed_entries(entries: Seq<DirEntryView>) -> Seq<JsonView> {
    let order = name_order(entry_names(entries), entries.len() as int);
    Seq::new(order.len(), |k: int| entry_json(entries[order[k] as int]))
}

/// The fields of a line of comma-separated values: cut at every comma,
/// trimmed, and stripped of double quotes at both ends.
pub open spec fn csv_fields(line: Seq<char>) -> Seq<Seq<char>> {
    let pieces = split(line, ',');
    Seq::new(pieces.len(), |i: int| strip_set(trim(pieces[i]), seq!['"']))
}

/// The name of the column at position `index`: its header, or a numbered
/// name where the header is missing or empty.
pub open spec fn csv_key(headers: Seq<Seq<char>>, index: int) -> Seq<char> {
    if 0 <= index < headers.len() && headers[index].len() > 0 {
        headers[index]
    } else {
        "col_"@ + decimal_text((index + 1) as nat)
    }
}

/// A row as an object from column names to values.
pub open spec fn csv_row(headers: Seq<Seq<char>>, line: Seq<char>) -> JsonView {
    let fields = csv_fields(line);
    object(Seq::new(fields.len(), |i: int| (csv_key(headers, i), text(fields[i]))))
}

/// The header fields of a CSV text: those of its first line.
pub open spec fn csv_headers(raw: Seq<char>) -> Seq<Seq<char>> {
    csv_fields(
        if lines(raw).len() > 0 {
            lines(raw)[0]
        } else {
            Seq::empty()
        },
    )
}

/// How many rows a preview of at most `limit` rows shows.
pub open spec fn csv_row_count(raw: Seq<char>, limit: int) -> int {
    let rows = lines(raw).len() - 1;
    if rows < 0 || limit < 0 {
        0
    } else if rows < limit {
        rows
    } else {
        limit
    }
}

/// The rows of a preview of at most `limit` rows.
pub open spec fn csv_rows(raw: Seq<char>, limit: int) -> Seq<JsonView> {
    Seq::new(csv_row_count(raw, limit) as nat, |i: int| csv_row(csv_headers(raw), lines(raw)[i + 1]))
}

/// The texts as a JSON array of strings.
pub open spec fn text_array(items: Seq<Seq<char>>) -> JsonView {
    JsonView::Array(Seq::new(items.len(), |i: int| text(items[i])))
}

/// The keys of the first `upto` members, up to ten.
pub open spec fn first_keys(members: Seq<(Seq<char>, JsonView)>) -> Seq<Seq<char>> {
    Seq::new(
        if members.len() < 10 {
            members.len()
        } else {
            10
        },
        |i: int| members[i].0,
    )
}

/// A value inside a preview: strings are clipped to 500 characters, arrays
/// and objects are only described.
pub open spec fn shallow_preview(value: JsonView) -> JsonView {
    match value {
        JsonView::Text(s) => text(clipped(s, 500)),
        JsonView::Array(items) => object(
            seq![("type"@, text("array"@)), ("len"@, number(items.len()))],
        ),
        JsonView::Object(members) => object(
            seq![("type"@, text("object"@)), ("keys"@, text_array(first_keys(members)))],
        ),
        _ => value,
    }
}

/// The mark that ends a preview which leaves something out.
pub open spec fn truncation_mark() -> (Seq<char>, JsonView) {
    ("_truncated"@, JsonView::Bool(true))
}

/// The preview of a document: of an object or an array the first twenty
/// members or items, each shallow, and a mark where there are more.
pub open spec fn json_preview(doc: JsonView) -> JsonView {
    match doc {
        JsonView::Object(members) => {
            let shown = Seq::new(
                if members.len() < 20 {
                    members.len()
                } else {
                    20
                },
                |i: int| (members[i].0, shallow_preview(members[i].1)),
            );
            object(
                if members.len() > 20 {
                    shown.push(truncation_mark())
                } else {
                    shown
                },
            )
        },
        JsonView::Array(items) => {
            let shown = Seq::new(
                if items.len() < 20 {
                    items.len()
                } else {
                    20
                },
                |i: int| shallow_preview(items[i]),
            );
            JsonView::Array(
                if items.len() > 20 {
                    shown.push(object(seq![truncation_mark()]))
                } else {
                    shown
                },
            )
        },
        _ => shallow_preview(doc),
    }
}

/// A line that matched a search.
pub open spec fn match_json(path: Seq<char>, line_number: int, line: Seq<char>) -> JsonView {
    object(
        seq![
            ("path"@, text(path)),
            ("line"@, number(line_number as nat)),
            ("snippet"@, text(clipped(line, 220))),
        ],
    )
}

/// The matches after the first `upto` lines of a file were searched, given
/// those found before it: every line that holds the query adds one, until
/// `limit` matches are there.
pub open spec fn matches_upto(
    found: Seq<JsonView>,
    path: Seq<char>,
    file_lines: Seq<Seq<char>>,
    query: Seq<char>,
    limit: int,
    upto: int,
) -> Seq<JsonView>
    decreases upto,
{
    if upto <= 0 {
        found
    } else {
        let before = matches_upto(found, path, file_lines, query, limit, upto - 1);
        if before.len() < limit && contains(file_lines[upto - 1], query) {
            before.push(match_json(path, upto, file_lines[upto - 1]))
        } else {
            before
        }
    }
}

/// The largest file a search reads, in bytes.
pub const SEARCH_FILE_CAP: u64 = 524288;

/// The most characters of a file a read shows.
pub const TEXT_PREVIEW_CHARS: usize = 2000;

/// A JSON number or `null`.
pub open spec fn optional_number(n: Option<u64>) -> JsonView {
    match n {
        Some(v) => number(v as nat),
        None => JsonView::Null,
    }
}

/// The fields of a line of comma-separated values.
pub fn split_csv_line(line: &Vec<char>) -> (out: Vec<Vec<char>>)
    ensures
        buffers(out@) == csv_fields(line@),
{
    let pieces = split_on(line, ',');
    let mut quote: Vec<char> = Vec::new();
    quote.push('"');
    let mut out: Vec<Vec<char>> = Vec::new();
    let mut i: usize = 0;
    while i < pieces.len()
        invariant
            i <= pieces.len(),
            out@.len() == i,
            quote@ == seq!['"'],
            buffers(pieces@) == split(line@, ','),
            forall|k: int| 0 <= k < i ==> out@[k]@ == strip_set(trim(pieces@[k]@), seq!['"']),
        decreases pieces.len() - i,
    {
        out.push(stripped(&trimmed(&pieces[i]), &quote));
        i = i + 1;
    }
    assert(buffers(out@) =~= csv_fields(line@));
    out
}

fn texts_json(items: &Vec<Vec<char>>) -> (out: Json)
    ensures
        out@ == text_array(buffers(items@)),
{
    let mut out: Vec<Json> = Vec::new();
    let mut i: usize = 0;
    while i < items.len()
        invariant
            i <= items.len(),
            out@.len() == i,
            forall|k: int| 0 <= k < i ==> out@[k]@ == text(items@[k]@),
        decreases items.len() - i,
    {
        out.push(Json::Text(string_of(&items[i])));
        i = i + 1;
    }
    assert(item_views(out@) =~= text_array(buffers(items@))->Array_0);
    array_of(out)
}

fn csv_row_json(headers: &Vec<Vec<char>>, line: &Vec<char>) -> (out: Json)
    ensures
        out@ == csv_row(buffers(headers@), line@),
{
    let fields = split_csv_line(line);
    let mut members: Vec<(String, Json)> = Vec::new();
    let mut i: usize = 0;
    while i < fields.len()
        invariant
            i <= fields.len(),
            members@.len() == i,
            buffers(fields@) == csv_fields(line@),
            forall|k: int|
                0 <= k < i ==> members@[k].0@ == csv_key(buffers(headers@), k) && members@[k].1@
                    == text(fields@[k]@),
        decreases fields.len() - i,
    {
        let key = if i < headers.len() && headers[i].len() > 0 {
            string_of(&headers[i])
        } else {
            join2("col_", decimal((i as u64) + 1).as_str())
        };
        let value = Json::Text(string_of(&fields[i]));
        assert(value@ == text(fields@[i as int]@));
        members.push((key, value));
        i = i + 1;
    }
    assert(member_views(members@) =~= csv_row(buffers(headers@), line@)->Object_0);
    object_of(members)
}

fn shallow(value: &Json) -> (out: Json)
    ensures
        out@ == shallow_preview(value@),
{
    match value {
        Json::Null => Json::Null,
        Json::Bool(b) => Json::Bool(*b),
        Json::Number(n) => Json::Number(n.clone()),
        Json::Text(s) => Json::Text(truncate_chars(s.as_str(), 500)),
        Json::Array(items) => {
            let mut m = no_members();
            push_text_member(&mut m, "type", "array");
            push_member(&mut m, "len", number_of(items.len() as u64));
            assert(member_views(m@) =~= seq![
                ("type"@, text("array"@)),
                ("len"@, number(item_views(items@).len())),
            ]);
            object_of(m)
        },
        Json::Object(members) => {
            proof {
                crate::json::lemma_object_view(*members);
            }
            let mut keys: Vec<Json> = Vec::new();
            let mut i: usize = 0;
            while i < members.len() && i < 10
                invariant
                    i <= members.len(),
                    i <= 10,
                    keys@.len() == i,
                    forall|k: int| 0 <= k < i ==> keys@[k]@ == text(members@[k].0@),
                decreases members.len() - i,
            {
                keys.push(Json::Text(members[i].0.clone()));
                i = i + 1;
            }
            assert(item_views(keys@) =~= text_array(first_keys(member_views(members@)))->Array_0);
            let mut m = no_members();
            push_text_member(&mut m, "type", "object");
            push_member(&mut m, "keys", array_of(keys));
            assert(member_views(m@) =~= seq![
                ("type"@, text("object"@)),
                ("keys"@, text_array(first_keys(member_views(members@)))),
            ]);
            object_of(m)
        },
    }
}

/// The preview of a document.
pub fn preview_json(value: &Json) -> (out: Json)
    ensures
        out@ == json_preview(value@),
{
    match value {
        Json::Object(members) => {
            let mut shown: Vec<(String, Json)> = Vec::new();
            let mut i: usize = 0;
            while i < members.len() && i < 20
                invariant
                    i <= members.len(),
                    i <= 20,
                    shown@.len() == i,
                    forall|k: int|
                        0 <= k < i ==> shown@[k].0@ == members@[k].0@ && shown@[k].1@
                            == shallow_preview(members@[k].1@),
                decreases members.len() - i,
            {
                shown.push((members[i].0.clone(), shallow(&members[i].1)));
                i = i + 1;
            }
            if members.len() > 20 {
                shown.push(("_truncated".to_string(), Json::Bool(true)));
            }
            assert(member_views(shown@) =~= json_preview(value@)->Object_0);
            object_of(shown)
        },
        Json::Array(items) => {
            let mut shown: Vec<Json> = Vec::new();
            let mut i: usize = 0;
            while i < items.len() && i < 20
                invariant
                    i <= items.len(),
                    i <= 20,
                    shown@.len() == i,
                    forall|k: int| 0 <= k < i ==> shown@[k]@ == shallow_preview(items@[k]@),
                decreases items.len() - i,
            {
                shown.push(shallow(&items[i]));
                i = i + 1;
            }
            if items.len() > 20 {
                let mut m = no_members();
                push_member(&mut m, "_truncated", Json::Bool(true));
                shown.push(object_of(m));
            }
            assert(item_views(shown@) =~= json_preview(value@)->Array_0);
            array_of(shown)
        },
        _ => shallow(value),
    }
}

/// Whether a search reads a file of `len` bytes.
pub fn within_search_cap(len: u64) -> (r: bool)
    ensures
        r == (len <= SEARCH_FILE_CAP),
{
    len <= SEARCH_FILE_CAP
}

/// Searches one file: appends a match for every line that holds `query`
/// until `limit` matches are there.
pub fn search_lines(matches: &mut Vec<Json>, path: &str, raw: &str, query: &str, limit: usize)
    ensures
        item_views(final(matches)@) == matches_upto(
            item_views(old(matches)@),
            path@,
            lines(raw@),
            query@,
            limit as int,
            lines(raw@).len() as int,
        ),
{
    let file_lines = lines_of(&chars_of(raw));
    let needle = chars_of(query);
    let mut i: usize = 0;
    while i < file_lines.len()
        invariant
            i <= file_lines.len(),
            needle@ == query@,
            buffers(file_lines@) == lines(raw@),
            item_views(matches@) == matches_upto(
                item_views(old(matches)@),
                path@,
                lines(raw@),
                query@,
                limit as int,
                i as int,
            ),
        decreases file_lines.len() - i,
    {
        if matches.len() < limit && has_substring(&file_lines[i], &needle) {
            let mut m = no_members();
            push_text_member(&mut m, "path", path);
            push_member(&mut m, "line", number_of((i as u64) + 1));
            push_text_member(
                &mut m,
                "snippet",
                string_of(&crate::text::clip(&file_lines[i], 220)).as_str(),
            );
            assert(member_views(m@) =~= seq![
                ("path"@, text(path@)),
                ("line"@, number((i + 1) as nat)),
                ("snippet"@, text(clipped(file_lines@[i as int]@, 220))),
            ]);
            let found = object_of(m);
            matches.push(found);
        }
        i = i + 1;
    }
}

fn append_members(members: &mut Vec<(String, Json)>, extra: Vec<(String, Json)>)
    ensures
        member_views(final(members)@) == member_views(old(members)@) + member_views(extra@),
{
    let mut extra = extra;
    let ghost all = member_views(members@) + member_views(extra@);
    while extra.len() > 0
        invariant
            member_views(members@) + member_views(extra@) == all,
        decreases extra.len(),
    {
        let m = extra.remove(0);
        members.push(m);
    }
}

/// The order of entries by name.
fn order_by_name(names: &Vec<Vec<char>>) -> (order: Vec<usize>)
    ensures
        order@ == name_order(buffers(names@), names.len() as int),
        order.len() == names.len(),
        forall|k: int| 0 <= k < order.len() ==> #[trigger] order@[k] < names.len(),
{
    let mut order: Vec<usize> = Vec::new();
    let mut i: usize = 0;
    while i < names.len()
        invariant
            i <= names.len(),
            order@ == name_order(buffers(names@), i as int),
            order.len() == i,
            forall|k: int| 0 <= k < order.len() ==> #[trigger] order@[k] < i,
        decreases names.len() - i,
    {
        let mut p: usize = 0;
        while p < order.len() && !text_less(&names[i], &names[order[p]])
            invariant
                p <= order.len(),
                i < names.len(),
                forall|k: int| 0 <= k < order.len() ==> #[trigger] order@[k] < i,
                name_place(order@, buffers(names@), i as int, 0) == name_place(
                    order@,
                    buffers(names@),
                    i as int,
                    p as int,
                ),
            decreases order.len() - p,
        {
            p = p + 1;
        }
        order.insert(p, i);
        i = i + 1;
    }
    order
}

impl StubActionBackend {
    fn file_report(&self, name: &str, path: &str, extra: Vec<(String, Json)>, summary: &str) -> (out:
        ToolResult)
        ensures
            out@ == file_result(
                name@,
                self.platform(),
                root_shown(self.root()),
                path@,
                member_views(extra@),
                summary@,
            ),
    {
        let mut members = no_members();
        push_text_member(&mut members, "status", "ok");
        push_text_member(&mut members, "platform", self.platform);
        push_text_member(&mut members, "project_root", self.project_root_display().as_str());
        push_text_member(&mut members, "path", path);
        assert(member_views(members@) =~= scoped_members(
            self.platform(),
            root_shown(self.root()),
            path@,
        ));
        append_members(&mut members, extra);
        ToolResult {
            tool_call_id: None,
            name: name.to_string(),
            result_json: render_json(&object_of(members)),
            evidence: action_evidence(summary, self.artifact(name).as_str()),
        }
    }

    /// The result of a file tool whose work on the file system failed:
    /// `failure` names what failed, `detail` is the system's message.
    pub fn io_failure(&self, name: &str, failure: &str, detail: &str, path: &str) -> (out: ToolResult)
        ensures
            out@ == error_result(
                name@,
                self.platform(),
                failure@ + ":"@ + detail@,
                name@,
                path@,
            ),
    {
        tool_error(name, self.platform, join3(failure, ":", detail).as_str(), name, path)
    }

    /// The result of `math.add`, given the operands and their sum as
    /// number texts.
    pub fn add_result(&self, a: &str, b: &str, sum: &str) -> (out: ToolResult)
        ensures
            out@ == report_result(
                "math.add"@,
                self.platform(),
                seq![
                    ("a"@, JsonView::Number(a@)),
                    ("b"@, JsonView::Number(b@)),
                    ("sum"@, JsonView::Number(sum@)),
                ],
                "Computed local addition on "@ + self.platform(),
            ),
    {
        let mut extra = no_members();
        push_member(&mut extra, "a", Json::Number(a.to_string()));
        push_member(&mut extra, "b", Json::Number(b.to_string()));
        push_member(&mut extra, "sum", Json::Number(sum.to_string()));
        assert(member_views(extra@) =~= seq![
            ("a"@, JsonView::Number(a@)),
            ("b"@, JsonView::Number(b@)),
            ("sum"@, JsonView::Number(sum@)),
        ]);
        self.report("math.add", extra, join2("Computed local addition on ", self.platform).as_str())
    }

    /// The result of `file.list`: the entries in dictionary order of their names.
    pub fn list_result(&self, path: &str, entries: &Vec<DirEntry>) -> (out: ToolResult)
        ensures
            out@ == file_result(
                "file.list"@,
                self.platform(),
                root_shown(self.root()),
                path@,
                seq![("entries"@, JsonView::Array(listed_entries(crate::model::views(entries@))))],
                "Listed files in "@ + path@,
            ),
    {
        let mut names: Vec<Vec<char>> = Vec::new();
        let mut i: usize = 0;
        while i < entries.len()
            invariant
                i <= entries.len(),
                names@.len() == i,
                forall|k: int| 0 <= k < i ==> names@[k]@ == entries@[k]@.name,
            decreases entries.len() - i,
        {
            names.push(chars_of(entries[i].name.as_str()));
            i = i + 1;
        }
        assert(buffers(names@) =~= entry_names(crate::model::views(entries@)));
        let order = order_by_name(&names);
        let mut listed: Vec<Json> = Vec::new();
        let mut k: usize = 0;
        while k < order.len()
            invariant
                k <= order.len(),
                listed@.len() == k,
                forall|j: int| 0 <= j < order.len() ==> #[trigger] order@[j] < entries.len(),
                forall|j: int| 0 <= j < k ==> listed@[j]@ == entry_json(entries@[order@[j] as int]@),
            decreases order.len() - k,
        {
            let e = &entries[order[k]];
            let mut m = no_members();
            push_text_member(&mut m, "name", e.name.as_str());
            push_text_member(
                &mut m,
                "kind",
                if e.is_dir {
                    "dir"
                } else {
                    "file"
                },
            );
            assert(member_views(m@) =~= entry_json(e@)->Object_0);
            listed.push(object_of(m));
            k = k + 1;
        }
        assert(item_views(listed@) =~= listed_entries(crate::model::views(entries@)));
        let mut extra = no_members();
        push_member(&mut extra, "entries", array_of(listed));
        self.file_report("file.list", path, extra, join2("Listed files in ", path).as_str())
    }

    /// The result of `file.read_text`: the size of the file, its first
    /// [`TEXT_PREVIEW_CHARS`] characters, and whether anything was cut.
    pub fn read_text_result(&self, path: &str, raw: &str) -> (out: ToolResult)
        ensures
            out@ == file_result(
                "file.read_text"@,
                self.platform(),
                root_shown(self.root()),
                path@,
                seq![
                    ("bytes"@, number(byte_len(raw@))),
                    ("text"@, text(truncated(raw@, TEXT_PREVIEW_CHARS as int))),
                    (
                        "truncated"@,
                        JsonView::Bool(
                            byte_len(raw@) > byte_len(truncated(raw@, TEXT_PREVIEW_CHARS as int)),
                        ),
                    ),
                ],
                "Read text file "@ + path@,
            ),
    {
        let preview = crate::text::truncate_to(raw, TEXT_PREVIEW_CHARS);
        let size = encoded_len(raw);
        let shown_size = encoded_len(preview.as_str());
        let mut extra = no_members();
        push_member(&mut extra, "bytes", number_of(size as u64));
        push_text_member(&mut extra, "text", preview.as_str());
        push_member(&mut extra, "truncated", Json::Bool(size > shown_size));
        assert(member_views(extra@) =~= seq![
            ("bytes"@, number(byte_len(raw@))),
            ("text"@, text(truncated(raw@, TEXT_PREVIEW_CHARS as int))),
            (
                "truncated"@,
                JsonView::Bool(byte_len(raw@) > byte_len(truncated(raw@, TEXT_PREVIEW_CHARS as int))),
            ),
        ]);
        self.file_report("file.read_text", path, extra, join2("Read text file ", path).as_str())
    }

    /// The result of `file.read_csv`: the header fields and up to `limit`
    /// rows, each an object from column names to values.
    pub fn read_csv_result(&self, path: &str, raw: &str, limit: usize) -> (out: ToolResult)
        ensures
            out@ == file_result(
                "file.read_csv"@,
                self.platform(),
                root_shown(self.root()),
                path@,
                seq![
                    ("headers"@, text_array(csv_headers(raw@))),
                    ("rows_preview"@, JsonView::Array(csv_rows(raw@, limit as int))),
                    ("rows_preview_limit"@, number(limit as nat)),
                ],
                "Read CSV file "@ + path@ + " (preview)"@,
            ),
    {
        let file_lines = lines_of(&chars_of(raw));
        let headers = if file_lines.len() > 0 {
            split_csv_line(&file_lines[0])
        } else {
            let none: Vec<char> = Vec::new();
            split_csv_line(&none)
        };
        let mut rows: Vec<Json> = Vec::new();
        let mut i: usize = 0;
        while i < limit && i + 1 < file_lines.len()
            invariant
                i <= limit,
                i + 1 <= file_lines.len() || i == 0,
                rows@.len() == i,
                buffers(file_lines@) == lines(raw@),
                buffers(headers@) == csv_headers(raw@),
                forall|k: int| 0 <= k < i ==> rows@[k]@ == csv_row(csv_headers(raw@), lines(raw@)[k + 1]),
            decreases limit - i,
        {
            rows.push(csv_row_json(&headers, &file_lines[i + 1]));
            i = i + 1;
        }
        assert(item_views(rows@) =~= csv_rows(raw@, limit as int));
        let mut extra = no_members();
        push_member(&mut extra, "headers", texts_json(&headers));
        push_member(&mut extra, "rows_preview", array_of(rows));
        push_member(&mut extra, "rows_preview_limit", number_of(limit as u64));
        assert(member_views(extra@) =~= seq![
            ("headers"@, text_array(csv_headers(raw@))),
            ("rows_preview"@, JsonView::Array(csv_rows(raw@, limit as int))),
            ("rows_preview_limit"@, number(limit as nat)),
        ]);
        self.file_report(
            "file.read_csv",
            path,
            extra,
            join3("Read CSV file ", path, " (preview)").as_str(),
        )
    }

    /// The result of `file.read_json`: a preview of the document, or the
    /// failure `json_parse_failed` where the file holds no JSON.
    pub fn read_json_result(&self, path: &str, raw: &str) -> (out: ToolResult)
        ensures
            out@ == (match parsed_json(raw@) {
                Some(doc) => file_result(
                    "file.read_json"@,
                    self.platform(),
                    root_shown(self.root()),
                    path@,
                    seq![("json_preview"@, json_preview(doc))],
                    "Read JSON file "@ + path@,
                ),
                None => error_result(
                    "file.read_json"@,
                    self.platform(),
                    "json_parse_failed:"@ + parse_error(raw@),
                    "file.read_json"@,
                    path@,
                ),
            }),
    {
        match parse_json_or_error(raw) {
            Ok(doc) => {
                let mut extra = no_members();
                push_member(&mut extra, "json_preview", preview_json(&doc));
                self.file_report(
                    "file.read_json",
                    path,
                    extra,
                    join2("Read JSON file ", path).as_str(),
                )
            },
            Err(message) => tool_error(
                "file.read_json",
                self.platform,
                join2("json_parse_failed:", message.as_str()).as_str(),
                "file.read_json",
                path,
            ),
        }
    }

    /// The result of `file.search_text`.
    pub fn search_result(
        &self,
        root: &str,
        query: &str,
        limit: usize,
        scanned_files: usize,
        matches: Vec<Json>,
    ) -> (out: ToolResult)
        ensures
            out@ == file_result(
                "file.search_text"@,
                self.platform(),
                root_shown(self.root()),
                root@,
                seq![
                    ("query"@, text(query@)),
                    ("scanned_files"@, number(scanned_files as nat)),
                    ("limit"@, number(limit as nat)),
                    ("matches"@, JsonView::Array(item_views(matches@))),
                ],
                "Searched project text for '"@ + query@ + "' under "@ + root@,
            ),
    {
        let mut extra = no_members();
        push_text_member(&mut extra, "query", query);
        push_member(&mut extra, "scanned_files", number_of(scanned_files as u64));
        push_member(&mut extra, "limit", number_of(limit as u64));
        let ghost found = item_views(matches@);
        push_member(&mut extra, "matches", array_of(matches));
        assert(member_views(extra@) =~= seq![
            ("query"@, text(query@)),
            ("scanned_files"@, number(scanned_files as nat)),
            ("limit"@, number(limit as nat)),
            ("matches"@, JsonView::Array(found)),
        ]);
        self.file_report(
            "file.search_text",
            root,
            extra,
            join4("Searched project text for '", query, "' under ", root).as_str(),
        )
    }

    /// The result of `file.stat`.
    pub fn stat_result(&self, path: &str, is_dir: bool, is_file: bool, len: u64, modified: Option<u64>) -> (out:
        ToolResult)
        ensures
            out@ == file_result(
                "file.stat"@,
                self.platform(),
                root_shown(self.root()),
                path@,
                seq![
                    ("is_dir"@, JsonView::Bool(is_dir)),
                    ("is_file"@, JsonView::Bool(is_file)),
                    ("len"@, number(len as nat)),
                    ("modified_unix_seconds"@, optional_number(modified)),
                ],
                "Read metadata for "@ + path@,
            ),
    {
        let mut extra = no_members();
        push_member(&mut extra, "is_dir", Json::Bool(is_dir));
        push_member(&mut extra, "is_file", Json::Bool(is_file));
        push_member(&mut extra, "len", number_of(len));
        push_member(
            &mut extra,
            "modified_unix_seconds",
            match modified {
                Some(v) => number_of(v),
                None => Json::Null,
            },
        );
        assert(member_views(extra@) =~= seq![
            ("is_dir"@, JsonView::Bool(is_dir)),
            ("is_file"@, JsonView::Bool(is_file)),
            ("len"@, number(len as nat)),
            ("modified_unix_seconds"@, optional_number(modified)),
        ]);
        self.file_report("file.stat", path, extra, join2("Read metadata for ", path).as_str())
    }

    /// The result of `file.write_text`.
    pub fn write_result(&self, path: &str, content: &str) -> (out: ToolResult)
        ensures
            out@ == file_result(
                "file.write_text"@,
                self.platform(),
                root_shown(self.root()),
                path@,
                seq![
                    ("bytes_written"@, number(byte_len(content@))),
                    ("note"@, text("file written under project scope"@)),
                ],
                "Wrote text file "@ + path@ + " ("@ + decimal_text(byte_len(content@)) + " bytes)"@,
            ),
    {
        let n = encoded_len(content);
        let mut extra = no_members();
        push_member(&mut extra, "bytes_written", number_of(n as u64));
        push_text_member(&mut extra, "note", "file written under project scope");
        assert(member_views(extra@) =~= seq![
            ("bytes_written"@, number(byte_len(content@))),
            ("note"@, text("file written under project scope"@)),
        ]);
        self.file_report(
            "file.write_text",
            path,
            extra,
            join5("Wrote text file ", path, " (", decimal(n as u64).as_str(), " bytes)").as_str(),
        )
    }

    /// The result of `file.append_text`; `total_bytes` is the size of the
    /// file after the append.
    pub fn append_result(&self, path: &str, content: &str, total_bytes: u64) -> (out: ToolResult)
        ensures
            out@ == file_result(
                "file.append_text"@,
                self.platform(),
                root_shown(self.root()),
                path@,
                seq![
                    ("bytes_appended"@, number(byte_len(content@))),
                    ("bytes_total"@, number(total_bytes as nat)),
                    ("note"@, text("file appended under project scope"@)),
                ],
                "Appended text file "@ + path@ + " ("@ + decimal_text(byte_len(content@))
                    + " bytes)"@,
            ),
    {
        let n = encoded_len(content);
        let mut extra = no_members();
        push_member(&mut extra, "bytes_appended", number_of(n as u64));
        push_member(&mut extra, "bytes_total", number_of(total_bytes));
        push_text_member(&mut extra, "note", "file appended under project scope");
        assert(member_views(extra@) =~= seq![
            ("bytes_appended"@, number(byte_len(content@))),
            ("bytes_total"@, number(total_bytes as nat)),
            ("note"@, text("file appended under project scope"@)),
        ]);
        self.file_report(
            "file.append_text",
            path,
            extra,
            join5("Appended text file ", path, " (", decimal(n as u64).as_str(), " bytes)").as_str(),
        )
    }

    /// The result of `file.mkdir`.
    pub fn mkdir_result(&self, path: &str) -> (out: ToolResult)
        ensures
            out@ == file_result(
                "file.mkdir"@,
                self.platform(),
                root_shown(self.root()),
                path@,
                seq![("note"@, text("directory created under project scope"@))],
                "Created directory "@ + path@,
            ),
    {
        let mut extra = no_members();
        push_text_member(&mut extra, "note", "directory created under project scope");
        self.file_report("file.mkdir", path, extra, join2("Created directory ", path).as_str())
    }
}

// ---------------------------------------------------------------------------
// Containment
// ---------------------------------------------------------------------------

/// The path that a step asks the host to work on, if any.
pub open spec fn step_path(step: ToolStepView) -> Option<Seq<char>> {
    match step {
        ToolStepView::Done(_) => None,
        ToolStepView::Add { .. } => None,
        ToolStepView::ListDir { path } => Some(path),
        ToolStepView::ReadText { path } => Some(path),
        ToolStepView::ReadCsv { path, .. } => Some(path),
        ToolStepView::ReadJson { path } => Some(path),
        ToolStepView::SearchText { root, .. } => Some(root),
        ToolStepView::Stat { path } => Some(path),
        ToolStepView::WriteText { path, .. } => Some(path),
        ToolStepView::AppendText { path, .. } => Some(path),
        ToolStepView::MakeDir { path } => Some(path),
    }
}

/// No step leaves the project. A path that a step hands to the host is the
/// normalized path of a request that stays under the normalized root, and
/// none of its components is `.` or `..`. A file tool whose request leaves
/// the root hands nothing to the host; unless it is a search without a
/// query, it is answered with `path_outside_project_scope`.
pub proof fn lemma_steps_stay_in_scope(
    call: ToolCallView,
    platform: Seq<char>,
    project_root: Option<Seq<char>>,
    working_dir: Option<Seq<char>>,
    unix_seconds: u64,
)
    ensures
        ({
            let step = plan_of(call, platform, project_root, working_dir, unix_seconds);
            let asked = text_argument(call.arguments_json, "path"@);
            let root = effective_root(project_root, working_dir);
            &&& step_path(step) is Some ==> {
                &&& is_file_tool(call.name)
                &&& root is Some
                &&& in_scope(root->Some_0, asked)
                &&& step_path(step)->Some_0 == shown(
                    target(root->Some_0, asked),
                    target(root->Some_0, asked).len() as int,
                )
                &&& forall|k: int|
                    0 <= k < target(root->Some_0, asked).len() ==> clean(
                        #[trigger] target(root->Some_0, asked)[k],
                    )
            }
            &&& is_file_tool(call.name) && root is Some && !in_scope(root->Some_0, asked) ==> {
                &&& step is Done
                &&& step != ToolStepView::Done(
                    error_result(call.name, platform, "missing_query"@, call.name, root_shown(project_root)),
                ) ==> step == ToolStepView::Done(
                    error_result(
                        call.name,
                        platform,
                        outside_code(),
                        call.name,
                        root_shown(project_root),
                    ),
                )
            }
        }),
{
    let step = plan_of(call, platform, project_root, working_dir, unix_seconds);
    let asked = text_argument(call.arguments_json, "path"@);
    let root = effective_root(project_root, working_dir);
    if root is Some && in_scope(root->Some_0, asked) {
        lemma_scoped_path_is_contained(root->Some_0, asked);
    }
    if is_file_tool(call.name) {
        reveal_strlit("time.now");
        reveal_strlit("echo");
        reveal_strlit("text.uppercase");
        reveal_strlit("math.add");
        reveal_strlit("file.list");
        reveal_strlit("file.read_text");
        reveal_strlit("file.read_csv");
        reveal_strlit("file.read_json");
        reveal_strlit("file.search_text");
        reveal_strlit("file.stat");
        reveal_strlit("file.write_text");
        reveal_strlit("file.append_text");
        reveal_strlit("file.mkdir");
        assert(call.name.len() > 0 && call.name[0] == 'f');
        assert(step == file_plan(call.name, call.arguments_json, platform, project_root, working_dir));
    }
}

} // verus!
