use cmnd_n_ctrl::actions::evidence::action_evidence;
use cmnd_n_ctrl::actions::paths::{normalize_path, scoped_path, show_path};
use cmnd_n_ctrl::actions::traits::{
    count_arg, number_arg, preview_json, search_lines, split_csv_line, text_arg, text_arg_or,
    tool_error, within_search_cap, DirEntry, StubActionBackend, ToolStep,
};
use cmnd_n_ctrl::ipc::{Evidence, ToolCall, ToolResult};
use cmnd_n_ctrl::json::{parse_json, Json};
use cmnd_n_ctrl::text::{truncate_chars, truncate_to};

fn value_of(doc: &Json) -> serde_json::Value {
    match doc {
        Json::Null => serde_json::Value::Null,
        Json::Bool(b) => serde_json::Value::Bool(*b),
        Json::Number(n) => serde_json::Value::Number(n.parse().expect("number")),
        Json::Text(s) => serde_json::Value::String(s.clone()),
        Json::Array(items) => serde_json::Value::Array(items.iter().map(value_of).collect()),
        Json::Object(members) => serde_json::Value::Object(
            members.iter().map(|(k, v)| (k.clone(), value_of(v))).collect(),
        ),
    }
}

fn render_json(doc: &Json) -> String {
    value_of(doc).to_string()
}

fn call(name: &str, arguments: &str) -> ToolCall {
    ToolCall { name: name.to_string(), arguments_json: arguments.to_string(), tool_call_id: None }
}

fn backend() -> StubActionBackend {
    StubActionBackend::with_project_root("test", Some("/tmp/proj".to_string()))
}

fn done(step: ToolStep) -> ToolResult {
    match step {
        ToolStep::Done(r) => r,
        other => panic!("not done: {other:?}"),
    }
}

fn shown(path: &str) -> String {
    show_path(&normalize_path(path))
}

fn chars(s: &str) -> Vec<char> {
    s.chars().collect()
}

fn fields(line: &str) -> Vec<String> {
    split_csv_line(&chars(line)).iter().map(|f| f.iter().collect()).collect()
}

#[test]
fn evidence_has_one_artifact() {
    assert_eq!(
        action_evidence("did it", "stub://test/echo"),
        Evidence { summary: "did it".to_string(), artifacts: vec!["stub://test/echo".to_string()] }
    );
}

#[test]
fn paths_are_normalized_without_touching_the_file_system() {
    let cases = [
        ("/tmp/proj", "/tmp/proj"),
        ("/tmp//proj/", "/tmp/proj"),
        ("/tmp/./proj/../other", "/tmp/other"),
        ("/..", "/"),
        ("/../../a", "/a"),
        ("/", "/"),
        ("a/b/../c", "a/c"),
        ("../a", "a"),
        ("a/../..", ""),
        (".", ""),
        ("", ""),
        ("./a/.", "a"),
        ("a/...", "a/..."),
    ];
    for (path, want) in cases {
        assert_eq!(shown(path), want, "{path}");
    }
}

#[test]
fn requested_paths_stay_under_the_project_root() {
    let ok = [
        (None, "/tmp/proj"),
        (Some(""), "/tmp/proj"),
        (Some("  "), "/tmp/proj"),
        (Some("."), "/tmp/proj"),
        (Some("notes.txt"), "/tmp/proj/notes.txt"),
        (Some(" a/b/../c.txt "), "/tmp/proj/a/c.txt"),
        (Some("a/../../proj/x"), "/tmp/proj/x"),
        (Some("/tmp/proj/deep/file"), "/tmp/proj/deep/file"),
        (Some("/tmp/./proj"), "/tmp/proj"),
    ];
    for (asked, want) in ok {
        assert_eq!(scoped_path("/tmp/proj", asked), Ok(want.to_string()), "{asked:?}");
    }
    let outside = [
        "../../etc/passwd",
        "..",
        "/etc/passwd",
        "/tmp/project",
        "/tmp",
        "a/../../../tmp/proj2",
        "/",
    ];
    for asked in outside {
        assert_eq!(
            scoped_path("/tmp/proj", Some(asked)),
            Err("path_outside_project_scope".to_string()),
            "{asked}"
        );
    }
    assert_eq!(scoped_path("/tmp/proj/../proj/.", Some("x")), Ok("/tmp/proj/x".to_string()));
    assert_eq!(scoped_path("rel/root", Some("x/../y")), Ok("rel/root/y".to_string()));
    assert_eq!(scoped_path("rel", Some("/rel/x")), Err("path_outside_project_scope".to_string()));
    assert_eq!(scoped_path(".", Some("/anything")), Ok("/anything".to_string()));
    assert_eq!(scoped_path("/", Some("/etc/passwd")), Ok("/etc/passwd".to_string()));
}

#[test]
fn the_backend_scopes_to_its_root_or_the_working_directory() {
    let b = backend();
    assert_eq!(b.platform_name(), "test");
    assert_eq!(b.project_root_display(), "/tmp/proj");
    assert_eq!(b.scoped_path(&Some("a".to_string()), Some("/cwd")), Ok("/tmp/proj/a".to_string()));
    let bare = StubActionBackend::new("test");
    assert_eq!(bare.project_root_display(), ".");
    assert_eq!(bare.scoped_path(&Some("a".to_string()), Some("/cwd")), Ok("/cwd/a".to_string()));
    assert_eq!(
        bare.scoped_path(&Some("../x".to_string()), Some("/cwd")),
        Err("path_outside_project_scope".to_string())
    );
    assert_eq!(bare.scoped_path(&None, None), Err("unable to resolve project root".to_string()));
}

#[test]
fn tools_that_need_nothing_answer_at_once() {
    let b = backend();
    let r = done(b.plan_tool(&call("time.now", "{}"), 1700000000, None));
    assert_eq!(r.name, "time.now");
    assert_eq!(r.result_json, r#"{"status":"ok","platform":"test","unix_seconds":1700000000}"#);
    assert_eq!(r.evidence.summary, "Read local time on test");
    assert_eq!(r.evidence.artifacts, vec!["stub://test/time.now"]);
    assert_eq!(r.tool_call_id, None);

    let r = done(b.plan_tool(&call("echo", r#"{"input":"one"}"#), 0, None));
    assert_eq!(r.result_json, r#"{"input":"one","platform":"test","status":"ok"}"#);
    assert_eq!(r.evidence.summary, "Echoed local payload on test");
    assert_eq!(r.evidence.artifacts, vec!["stub://test/echo"]);
    let r = done(b.plan_tool(&call("echo", "not json"), 0, None));
    assert_eq!(r.result_json, r#"{"input":"","platform":"test","status":"ok"}"#);
    let r = done(b.plan_tool(&call("echo", r#"{"input":5}"#), 0, None));
    assert_eq!(r.result_json, r#"{"input":"","platform":"test","status":"ok"}"#);

    let r = done(b.plan_tool(&call("text.uppercase", r#"{"text":"straße x"}"#), 0, None));
    assert_eq!(
        r.result_json,
        "{\"platform\":\"test\",\"status\":\"ok\",\"text\":\"stra\u{df}e x\",\"uppercased\":\"STRASSE X\"}"
    );
    assert_eq!(r.evidence.summary, "Uppercased text locally on test");

    let r = done(b.plan_tool(&call("desktop.open_url", r#"{"url":"https://example.com"}"#), 0, None));
    assert_eq!(
        r.result_json,
        r#"{"note":"stub_only_not_opened","platform":"test","status":"ok","url":"https://example.com"}"#
    );
    assert_eq!(r.evidence.summary, "Approved open_url stub for 'https://example.com' on test");
    let r = done(b.plan_tool(&call("desktop.open_url", "{}"), 0, None));
    assert!(r.result_json.contains(r#""url":"about:blank""#));

    let r = done(b.plan_tool(&call("desktop.app.list", r#"{"filter":"ed"}"#), 0, None));
    assert_eq!(
        r.result_json,
        r#"{"apps":[{"id":"app-1","name":"Browser","state":"running"},{"id":"app-2","name":"Editor","state":"running"}],"filter":"ed","note":"stub_only_not_real_process_enumeration","platform":"test","status":"ok"}"#
    );
    assert_eq!(r.evidence.summary, "Listed desktop apps stub on test");

    let r = done(b.plan_tool(&call("desktop.app.activate", r#"{"app":"Browser"}"#), 0, None));
    assert_eq!(
        r.result_json,
        r#"{"app":"Browser","note":"stub_only_not_real_window_activation","platform":"test","status":"ok"}"#
    );
    assert_eq!(r.evidence.summary, "Activated desktop app stub 'Browser' on test");
    assert_eq!(r.evidence.artifacts, vec!["stub://test/desktop.app.activate"]);
    let r = done(b.plan_tool(&call("desktop.app.activate", "{}"), 0, None));
    assert!(r.result_json.contains(r#""app":"unknown""#));

    let r = done(b.plan_tool(&call("mcp.tool_call", r#"{"server_id":"x"}"#), 0, None));
    assert_eq!(r.result_json, r#"{"status":"ok","platform":"test","arguments":{"server_id":"x"}}"#);
    assert_eq!(r.evidence.summary, "Executed stub action 'mcp.tool_call' on test");
    assert_eq!(r.evidence.artifacts, vec!["stub://test/mcp.tool_call"]);
}

#[test]
fn file_tools_are_planned_with_scoped_paths() {
    let b = backend();
    let plan = |name: &str, args: &str| b.plan_tool(&call(name, args), 0, None);
    assert_eq!(plan("file.list", "{}"), ToolStep::ListDir { path: "/tmp/proj".to_string() });
    assert_eq!(
        plan("file.read_text", r#"{"path":"notes.txt"}"#),
        ToolStep::ReadText { path: "/tmp/proj/notes.txt".to_string() }
    );
    assert_eq!(
        plan("file.read_csv", r#"{"path":"d.csv"}"#),
        ToolStep::ReadCsv { path: "/tmp/proj/d.csv".to_string(), limit: 20 }
    );
    assert_eq!(
        plan("file.read_csv", r#"{"path":"d.csv","limit":1000}"#),
        ToolStep::ReadCsv { path: "/tmp/proj/d.csv".to_string(), limit: 200 }
    );
    assert_eq!(
        plan("file.read_csv", r#"{"path":"d.csv","limit":-3}"#),
        ToolStep::ReadCsv { path: "/tmp/proj/d.csv".to_string(), limit: 20 }
    );
    assert_eq!(
        plan("file.read_csv", r#"{"path":"d.csv","limit":7}"#),
        ToolStep::ReadCsv { path: "/tmp/proj/d.csv".to_string(), limit: 7 }
    );
    assert_eq!(
        plan("file.read_json", r#"{"path":"a/../b.json"}"#),
        ToolStep::ReadJson { path: "/tmp/proj/b.json".to_string() }
    );
    assert_eq!(
        plan("file.search_text", r#"{"query":" needle ","path":"src"}"#),
        ToolStep::SearchText {
            root: "/tmp/proj/src".to_string(),
            query: "needle".to_string(),
            limit: 25
        }
    );
    assert_eq!(
        plan("file.stat", r#"{"path":"."}"#),
        ToolStep::Stat { path: "/tmp/proj".to_string() }
    );
    assert_eq!(
        plan("file.write_text", r#"{"path":"o.txt","content":"hello"}"#),
        ToolStep::WriteText { path: "/tmp/proj/o.txt".to_string(), content: "hello".to_string() }
    );
    assert_eq!(
        plan("file.append_text", r#"{"path":"o.txt"}"#),
        ToolStep::AppendText { path: "/tmp/proj/o.txt".to_string(), content: "".to_string() }
    );
    assert_eq!(
        plan("file.mkdir", r#"{"path":"a/b"}"#),
        ToolStep::MakeDir { path: "/tmp/proj/a/b".to_string() }
    );
    assert_eq!(
        plan("math.add", r#"{"a":2,"b":3.5}"#),
        ToolStep::Add { a: Some("2".to_string()), b: Some("3.5".to_string()) }
    );
    assert_eq!(plan("math.add", r#"{"a":"2"}"#), ToolStep::Add { a: None, b: None });
}

#[test]
fn a_path_out_of_scope_is_an_error_result() {
    let b = backend();
    for name in [
        "file.list",
        "file.read_text",
        "file.read_csv",
        "file.read_json",
        "file.stat",
        "file.write_text",
        "file.append_text",
        "file.mkdir",
    ] {
        let r = done(b.plan_tool(&call(name, r#"{"path":"../../etc/passwd","content":"x"}"#), 0, None));
        assert_eq!(r.name, name);
        assert_eq!(
            r.result_json,
            r#"{"error":"path_outside_project_scope","platform":"test","status":"error"}"#
        );
        assert_eq!(
            r.evidence.summary,
            format!("{name} failed on test: path_outside_project_scope")
        );
        assert_eq!(r.evidence.artifacts, vec!["/tmp/proj"]);
    }
    let r = done(b.plan_tool(
        &call("file.search_text", r#"{"query":"x","path":"/etc"}"#),
        0,
        None,
    ));
    assert!(r.result_json.contains("path_outside_project_scope"));
    let r = done(b.plan_tool(&call("file.search_text", r#"{"query":"  ","path":"/etc"}"#), 0, None));
    assert_eq!(r.result_json, r#"{"error":"missing_query","platform":"test","status":"error"}"#);
    assert_eq!(r.evidence.summary, "file.search_text failed on test: missing_query");
    let bare = StubActionBackend::new("test");
    let r = done(bare.plan_tool(&call("file.list", "{}"), 0, None));
    assert!(r.result_json.contains("unable to resolve project root"));
    assert_eq!(
        bare.plan_tool(&call("file.list", "{}"), 0, Some("/cwd")),
        ToolStep::ListDir { path: "/cwd".to_string() }
    );
}

#[test]
fn tool_errors_are_worded_exactly() {
    let r = tool_error("file.stat", "test", "stat_failed:gone", "file.stat", "/tmp/proj/x");
    assert_eq!(r.name, "file.stat");
    assert_eq!(r.result_json, r#"{"error":"stat_failed:gone","platform":"test","status":"error"}"#);
    assert_eq!(r.evidence.summary, "file.stat failed on test: stat_failed:gone");
    assert_eq!(r.evidence.artifacts, vec!["/tmp/proj/x"]);
    let r = backend().io_failure("file.read_text", "read_failed", "No such file", "/tmp/proj/x");
    assert_eq!(
        r.result_json,
        r#"{"error":"read_failed:No such file","platform":"test","status":"error"}"#
    );
    assert_eq!(r.evidence.summary, "file.read_text failed on test: read_failed:No such file");
    assert_eq!(r.evidence.artifacts, vec!["/tmp/proj/x"]);
}

#[test]
fn listings_are_sorted_by_name() {
    let entries = vec![
        DirEntry { name: "b.txt".to_string(), is_dir: false },
        DirEntry { name: "a".to_string(), is_dir: true },
        DirEntry { name: "B".to_string(), is_dir: false },
        DirEntry { name: "ab".to_string(), is_dir: false },
    ];
    let r = backend().list_result("/tmp/proj", &entries);
    assert_eq!(
        r.result_json,
        r#"{"entries":[{"kind":"file","name":"B"},{"kind":"dir","name":"a"},{"kind":"file","name":"ab"},{"kind":"file","name":"b.txt"}],"path":"/tmp/proj","platform":"test","project_root":"/tmp/proj","status":"ok"}"#
    );
    assert_eq!(r.evidence.summary, "Listed files in /tmp/proj");
    assert_eq!(r.evidence.artifacts, vec!["stub://test/file.list"]);
    let empty = backend().list_result("/tmp/proj/e", &vec![]);
    assert!(empty.result_json.contains(r#""entries":[]"#));
}

#[test]
fn text_reads_are_capped_at_two_thousand_characters() {
    let b = backend();
    let r = b.read_text_result("/tmp/proj/notes.txt", "hello project\n");
    assert_eq!(
        r.result_json,
        r#"{"bytes":14,"path":"/tmp/proj/notes.txt","platform":"test","project_root":"/tmp/proj","status":"ok","text":"hello project\n","truncated":false}"#
    );
    assert_eq!(r.evidence.summary, "Read text file /tmp/proj/notes.txt");
    let long = "\u{e9}".repeat(2500);
    let r = b.read_text_result("/p", &long);
    let doc = parse_json(&r.result_json).expect("json");
    assert_eq!(doc.get("bytes"), Some(&Json::Number("5000".to_string())));
    assert_eq!(doc.get("truncated"), Some(&Json::Bool(true)));
    let text = doc.text_at("text").expect("text");
    assert_eq!(text.chars().count(), 2000);
    assert_eq!(text, &"\u{e9}".repeat(2000));
    let exact = "x".repeat(2000);
    let r = b.read_text_result("/p", &exact);
    assert!(r.result_json.contains(r#""truncated":false"#));
    assert_eq!(truncate_chars("abcdef", 3), "abc...");
    assert_eq!(truncate_chars("abc", 3), "abc");
    assert_eq!(truncate_chars("", 0), "");
    assert_eq!(truncate_chars("a", 0), "...");
    assert_eq!(truncate_to("abcdef", 3), "abc");
    assert_eq!(truncate_to("abc", 3), "abc");
    assert_eq!(truncate_to("a", 0), "");
}

#[test]
fn csv_previews_name_columns_by_header() {
    assert_eq!(fields(r#" a , "b" ,c"d, ""#), vec!["a", "b", "c\"d", ""]);
    assert_eq!(fields(""), vec![""]);
    let raw = "id, \"name\" ,\r\n1,Ann,x,extra\r\n2,Bob\n\n3,Cy,z\n";
    let r = backend().read_csv_result("/tmp/proj/d.csv", raw, 3);
    assert_eq!(
        r.result_json,
        r#"{"headers":["id","name",""],"path":"/tmp/proj/d.csv","platform":"test","project_root":"/tmp/proj","rows_preview":[{"col_3":"x","col_4":"extra","id":"1","name":"Ann"},{"id":"2","name":"Bob"},{"id":""}],"rows_preview_limit":3,"status":"ok"}"#
    );
    assert_eq!(r.evidence.summary, "Read CSV file /tmp/proj/d.csv (preview)");
    let none = backend().read_csv_result("/p", "", 5);
    assert!(none.result_json.contains(r#""headers":[""]"#));
    assert!(none.result_json.contains(r#""rows_preview":[]"#));
    let zero = backend().read_csv_result("/p", "a\n1\n2\n", 0);
    assert!(zero.result_json.contains(r#""rows_preview":[]"#));
}

#[test]
fn json_previews_are_shallow_and_capped() {
    let preview = |text: &str| render_json(&preview_json(&parse_json(text).expect("json")));
    assert_eq!(
        preview(r#"{"s":"x","n":1,"a":[1,2,3],"o":{"k1":1,"k2":2},"z":null,"t":true}"#),
        r#"{"a":{"len":3,"type":"array"},"n":1,"o":{"keys":["k1","k2"],"type":"object"},"s":"x","t":true,"z":null}"#
    );
    assert_eq!(preview(r#"[[1],{"a":1},"s",2]"#), r#"[{"len":1,"type":"array"},{"keys":["a"],"type":"object"},"s",2]"#);
    assert_eq!(preview("7"), "7");
    let long = format!("\"{}\"", "q".repeat(600));
    assert_eq!(preview(&long), format!("\"{}...\"", "q".repeat(500)));
    let many: Vec<String> = (0..25).map(|i| format!("\"k{i:02}\":{i}")).collect();
    let shown = preview(&format!("{{{}}}", many.join(",")));
    let doc = parse_json(&shown).expect("json");
    match &doc {
        Json::Object(members) => {
            assert_eq!(members.len(), 21);
            assert_eq!(doc.get("_truncated"), Some(&Json::Bool(true)));
            assert!(doc.get("k19").is_some());
            assert!(doc.get("k20").is_none());
        }
        other => panic!("{other:?}"),
    }
    let items: Vec<String> = (0..30).map(|i| i.to_string()).collect();
    match parse_json(&preview(&format!("[{}]", items.join(",")))).expect("json") {
        Json::Array(a) => {
            assert_eq!(a.len(), 21);
            assert_eq!(render_json(&a[20]), r#"{"_truncated":true}"#);
            assert_eq!(a[19], Json::Number("19".to_string()));
        }
        other => panic!("{other:?}"),
    }
    let wide: Vec<String> = (0..12).map(|i| format!("\"k{i:02}\":1")).collect();
    assert_eq!(
        preview(&format!("{{\"o\":{{{}}}}}", wide.join(","))),
        r#"{"o":{"keys":["k00","k01","k02","k03","k04","k05","k06","k07","k08","k09"],"type":"object"}}"#
    );
}

#[test]
fn json_reads_report_parse_failures() {
    let b = backend();
    let ok = b.read_json_result("/tmp/proj/p.json", r#"{"name":"x"}"#);
    assert_eq!(
        ok.result_json,
        r#"{"json_preview":{"name":"x"},"path":"/tmp/proj/p.json","platform":"test","project_root":"/tmp/proj","status":"ok"}"#
    );
    assert_eq!(ok.evidence.summary, "Read JSON file /tmp/proj/p.json");
    let bad = b.read_json_result("/tmp/proj/p.json", "{oops");
    let doc = parse_json(&bad.result_json).expect("json");
    assert_eq!(doc.text_at("status").map(|s| s.as_str()), Some("error"));
    assert_eq!(
        doc.text_at("error").map(|s| s.as_str()),
        Some("json_parse_failed:key must be a string at line 1 column 2")
    );
    assert_eq!(bad.evidence.artifacts, vec!["/tmp/proj/p.json"]);
}

#[test]
fn searches_collect_matching_lines_up_to_the_limit() {
    let mut matches = Vec::new();
    search_lines(&mut matches, "/p/a.txt", "one needle\r\nnone\nneedle two\nneedle three", "needle", 2);
    let rendered: Vec<String> = matches.iter().map(render_json).collect();
    assert_eq!(
        rendered,
        vec![
            r#"{"line":1,"path":"/p/a.txt","snippet":"one needle"}"#,
            r#"{"line":3,"path":"/p/a.txt","snippet":"needle two"}"#,
        ]
    );
    search_lines(&mut matches, "/p/b.txt", "needle", "needle", 2);
    assert_eq!(matches.len(), 2);
    search_lines(&mut matches, "/p/b.txt", &format!("{}needle", "z".repeat(300)), "needle", 3);
    assert_eq!(matches.len(), 3);
    assert_eq!(
        matches[2].text_at("snippet").map(|s| s.chars().count()),
        Some(223)
    );
    assert!(within_search_cap(512 * 1024));
    assert!(!within_search_cap(512 * 1024 + 1));
    let r = backend().search_result("/tmp/proj", "needle", 2, 4, matches);
    let doc = parse_json(&r.result_json).expect("json");
    assert_eq!(doc.get("scanned_files"), Some(&Json::Number("4".to_string())));
    assert_eq!(doc.get("limit"), Some(&Json::Number("2".to_string())));
    assert_eq!(doc.text_at("query").map(|s| s.as_str()), Some("needle"));
    assert_eq!(doc.get("matches").and_then(|m| m.as_items()).map(|m| m.len()), Some(3));
    assert_eq!(r.evidence.summary, "Searched project text for 'needle' under /tmp/proj");
}

#[test]
fn writes_report_what_was_written() {
    let b = backend();
    let s = b.stat_result("/tmp/proj/a", false, true, 12, Some(99));
    assert_eq!(
        s.result_json,
        r#"{"is_dir":false,"is_file":true,"len":12,"modified_unix_seconds":99,"path":"/tmp/proj/a","platform":"test","project_root":"/tmp/proj","status":"ok"}"#
    );
    assert_eq!(s.evidence.summary, "Read metadata for /tmp/proj/a");
    assert!(b
        .stat_result("/tmp/proj", true, false, 0, None)
        .result_json
        .contains(r#""modified_unix_seconds":null"#));
    let w = b.write_result("/tmp/proj/o.txt", "h\u{e9}llo");
    assert_eq!(
        w.result_json,
        r#"{"bytes_written":6,"note":"file written under project scope","path":"/tmp/proj/o.txt","platform":"test","project_root":"/tmp/proj","status":"ok"}"#
    );
    assert_eq!(w.evidence.summary, "Wrote text file /tmp/proj/o.txt (6 bytes)");
    let a = b.append_result("/tmp/proj/o.txt", "ab", 8);
    assert_eq!(
        a.result_json,
        r#"{"bytes_appended":2,"bytes_total":8,"note":"file appended under project scope","path":"/tmp/proj/o.txt","platform":"test","project_root":"/tmp/proj","status":"ok"}"#
    );
    assert_eq!(a.evidence.summary, "Appended text file /tmp/proj/o.txt (2 bytes)");
    let m = b.mkdir_result("/tmp/proj/d");
    assert_eq!(
        m.result_json,
        r#"{"note":"directory created under project scope","path":"/tmp/proj/d","platform":"test","project_root":"/tmp/proj","status":"ok"}"#
    );
    assert_eq!(m.evidence.summary, "Created directory /tmp/proj/d");
    let sum = b.add_result("2.0", "3.5", "5.5");
    assert_eq!(sum.name, "math.add");
    assert_eq!(sum.result_json, r#"{"a":2.0,"b":3.5,"platform":"test","status":"ok","sum":5.5}"#);
    assert_eq!(sum.evidence.summary, "Computed local addition on test");
}

#[test]
fn file_tools_read_their_arguments_from_the_document() {
    let b = StubActionBackend::with_project_root("test", Some("/tmp/proj".to_string()));
    let args = cmnd_n_ctrl::json::parse_json(
        r#"{"path":"a/../notes.txt","limit":500,"query":"  needle ","content":"body","n":1.5}"#,
    );
    assert_eq!(text_arg(&args, "path").as_deref(), Some("a/../notes.txt"));
    assert_eq!(text_arg(&args, "limit"), None);
    assert_eq!(text_arg_or(&args, "absent", "fallback"), "fallback");
    assert_eq!(count_arg(&args, "limit", 20, 200), 200);
    assert_eq!(count_arg(&args, "absent", 20, 200), 20);
    assert_eq!(count_arg(&args, "n", 20, 200), 20);
    assert_eq!(count_arg(&args, "absent", 300, 200), 200);
    assert_eq!(number_arg(&args, "n").as_deref(), Some("1.5"));
    assert_eq!(number_arg(&args, "path"), None);
    assert_eq!(
        b.plan_file_tool("file.read_csv", &args, None),
        ToolStep::ReadCsv { path: "/tmp/proj/notes.txt".to_string(), limit: 200 }
    );
    assert_eq!(
        b.plan_file_tool("file.search_text", &args, None),
        ToolStep::SearchText { root: "/tmp/proj/notes.txt".to_string(), query: "needle".to_string(), limit: 200 }
    );
    assert_eq!(
        b.plan_file_tool("file.write_text", &args, None),
        ToolStep::WriteText { path: "/tmp/proj/notes.txt".to_string(), content: "body".to_string() }
    );
    let none = None;
    assert_eq!(text_arg(&none, "path"), None);
    assert_eq!(count_arg(&none, "limit", 25, 200), 25);
    assert_eq!(b.plan_file_tool("file.list", &none, None), ToolStep::ListDir { path: "/tmp/proj".to_string() });
    let away = cmnd_n_ctrl::json::parse_json(r#"{"path":"../../etc/passwd"}"#);
    match b.plan_file_tool("file.read_text", &away, None) {
        ToolStep::Done(result) => assert!(result.result_json.contains("path_outside_project_scope")),
        other => panic!("unexpected {other:?}"),
    }
    match b.plan_file_tool("file.search_text", &away, None) {
        ToolStep::Done(result) => assert!(result.result_json.contains("missing_query")),
        other => panic!("unexpected {other:?}"),
    }
}

#[test]
fn tools_are_planned_on_the_document() {
    let b = StubActionBackend::new("test");
    let args = Some(Json::Object(vec![
        ("input".to_string(), Json::Text("hi".to_string())),
        ("a".to_string(), Json::Number("2".to_string())),
        ("b".to_string(), Json::Text("3".to_string())),
    ]));
    match b.plan_parsed("echo", "ignored", &args, 5, None) {
        ToolStep::Done(r) => assert_eq!(r.result_json, "{\"input\":\"hi\",\"platform\":\"test\",\"status\":\"ok\"}"),
        other => panic!("unexpected {other:?}"),
    }
    assert_eq!(
        b.plan_parsed("math.add", "ignored", &args, 5, None),
        ToolStep::Add { a: Some("2".to_string()), b: None }
    );
    match b.plan_parsed("time.now", "ignored", &None, 5, None) {
        ToolStep::Done(r) => assert_eq!(r.result_json, "{\"status\":\"ok\",\"platform\":\"test\",\"unix_seconds\":5}"),
        other => panic!("unexpected {other:?}"),
    }
    match b.plan_parsed("mystery", "[1, 2]", &None, 5, None) {
        ToolStep::Done(r) => assert_eq!(r.result_json, "{\"status\":\"ok\",\"platform\":\"test\",\"arguments\":[1, 2]}"),
        other => panic!("unexpected {other:?}"),
    }
    let call = ToolCall { name: "echo".to_string(), arguments_json: "{\"input\":\"hi\"}".to_string(), tool_call_id: None };
    assert_eq!(
        b.plan_tool(&call, 5, None),
        b.plan_parsed("echo", &call.arguments_json, &parse_json(&call.arguments_json), 5, None)
    );
}
