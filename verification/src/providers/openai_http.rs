//! The OpenAI-compatible chat-completions wire shape: what is sent for a
//! turn and what a reply means. Sending is left to the host.

use vstd::prelude::*;
use crate::ipc::{
    ChatMessage, ChatMessageView, ProviderConfig, ProviderConfigView, Tool, ToolCall,
    ToolCallView, ToolResult, ToolResultView, ToolView,
};
use crate::json::{
    array_of, field, item_views, lemma_array_view, member_views, no_members, object, object_of,
    parse_error, parse_json, parse_json_or_error, parsed_json, push_member, push_text_member,
    render_json, rendered_json, text, text_field, text_of, Json, JsonView,
};
use crate::model::{clone_opt_text, opt_text, views};
use crate::providers::provider_trait::{ProviderReply, ProviderReplyView};
use crate::text::{
    chars_of, decimal, decimal_text, is_blank, join2, slice_of, str_is_blank, string_of, trim,
    trimmed,
};

verus! {

/// The provider that speaks to an OpenAI-compatible endpoint.
#[derive(Clone, Copy, Debug)]
pub struct OpenAiHttpProvider;

/// The settings a provider configuration carries for the endpoint.
#[derive(Debug, PartialEq, Eq)]
pub struct ProviderRuntimeConfig {
    pub base_url: Option<String>,
    pub model: Option<String>,
    pub api_key: Option<String>,
    pub api_key_env: Option<String>,
}

/// What contracts see of a [`ProviderRuntimeConfig`].
pub struct ProviderRuntimeConfigView {
    pub base_url: Option<Seq<char>>,
    pub model: Option<Seq<char>>,
    pub api_key: Option<Seq<char>>,
    pub api_key_env: Option<Seq<char>>,
}

impl View for ProviderRuntimeConfig {
    type V = ProviderRuntimeConfigView;

    open spec fn view(&self) -> ProviderRuntimeConfigView {
        ProviderRuntimeConfigView {
            base_url: opt_text(self.base_url),
            model: opt_text(self.model),
            api_key: opt_text(self.api_key),
            api_key_env: opt_text(self.api_key_env),
        }
    }
}

/// No settings.
pub open spec fn no_runtime_config() -> ProviderRuntimeConfigView {
    ProviderRuntimeConfigView { base_url: None, model: None, api_key: None, api_key_env: None }
}

/// The settings written in a configuration document: the string members
/// `base_url`, `model` and `api_key`, and the environment variable named
/// by `api_key_env` or, where that member is absent, by `token_env`.
pub open spec fn runtime_config_in(doc: JsonView) -> ProviderRuntimeConfigView {
    ProviderRuntimeConfigView {
        base_url: text_field(doc, "base_url"@),
        model: text_field(doc, "model"@),
        api_key: text_field(doc, "api_key"@),
        api_key_env: match field(doc, "api_key_env"@) {
            Some(v) => text_of(v),
            None => text_field(doc, "token_env"@),
        },
    }
}

/// The settings of a provider configuration; none where it carries no
/// document or one that is no JSON.
pub open spec fn runtime_config_of(config: ProviderConfigView) -> ProviderRuntimeConfigView {
    match config.config_json {
        Some(raw) => match parsed_json(raw) {
            Some(doc) => runtime_config_in(doc),
            None => no_runtime_config(),
        },
        None => no_runtime_config(),
    }
}

fn copied(s: Option<&String>) -> (out: Option<String>)
    ensures
        match s {
            Some(t) => opt_text(out) == Some(t@),
            None => out is None,
        },
{
    match s {
        Some(t) => Some(t.clone()),
        None => None,
    }
}

impl ProviderRuntimeConfig {
    /// The settings that a settings document holds.
    pub fn from_document(doc: &Json) -> (out: Self)
        ensures
            out@ == runtime_config_in(doc@),
    {
        ProviderRuntimeConfig {
            base_url: copied(doc.text_at("base_url")),
            model: copied(doc.text_at("model")),
            api_key: copied(doc.text_at("api_key")),
            api_key_env: match doc.get("api_key_env") {
                Some(v) => copied(v.as_text()),
                None => copied(doc.text_at("token_env")),
            },
        }
    }

    /// The settings of a provider configuration.
    pub fn from_provider_config(config: &ProviderConfig) -> (out: Self)
        ensures
            out@ == runtime_config_of(config@),
    {
        let none = ProviderRuntimeConfig {
            base_url: None,
            model: None,
            api_key: None,
            api_key_env: None,
        };
        let raw = match &config.config_json {
            Some(raw) => raw,
            None => {
                return none;
            },
        };
        match parse_json(raw.as_str()) {
            Some(doc) => Self::from_document(&doc),
            None => none,
        }
    }
}

/// What the host found where a key may come from: the value of the
/// environment variable that the settings name, the value of
/// `OPENAI_API_KEY`, and the text of the file that `OPENAI_API_KEY_FILE` names.
#[derive(Debug, PartialEq, Eq)]
pub struct KeySources {
    pub named_env_value: Option<String>,
    pub openai_api_key: Option<String>,
    pub key_file_text: Option<String>,
}

/// `s` where it is there and not blank.
pub open spec fn filled(s: Option<Seq<char>>) -> Option<Seq<char>> {
    match s {
        Some(t) => if is_blank(t) {
            None
        } else {
            Some(t)
        },
        None => None,
    }
}

/// The key to use: the one written in the settings, else the value of the
/// environment variable the settings name, else the value of
/// `OPENAI_API_KEY`, else the trimmed text of the key file; each only where
/// it is not blank.
pub open spec fn api_key_of(
    runtime: ProviderRuntimeConfigView,
    named_env_value: Option<Seq<char>>,
    openai_api_key: Option<Seq<char>>,
    key_file_text: Option<Seq<char>>,
) -> Option<Seq<char>> {
    if filled(runtime.api_key) is Some {
        runtime.api_key
    } else if runtime.api_key_env is Some && filled(named_env_value) is Some {
        named_env_value
    } else if filled(openai_api_key) is Some {
        openai_api_key
    } else {
        match key_file_text {
            Some(raw) => if trim(raw).len() == 0 {
                None
            } else {
                Some(trim(raw))
            },
            None => None,
        }
    }
}

fn is_filled(s: &Option<String>) -> (r: bool)
    ensures
        r == (filled(opt_text(*s)) is Some),
{
    match s {
        Some(t) => !str_is_blank(t.as_str()),
        None => false,
    }
}

/// The key to use for a provider configuration.
pub fn resolve_api_key(config: &ProviderConfig, sources: &KeySources) -> (out: Option<String>)
    ensures
        opt_text(out) == api_key_of(
            runtime_config_of(config@),
            opt_text(sources.named_env_value),
            opt_text(sources.openai_api_key),
            opt_text(sources.key_file_text),
        ),
{
    let runtime = ProviderRuntimeConfig::from_provider_config(config);
    if is_filled(&runtime.api_key) {
        return runtime.api_key;
    }
    if runtime.api_key_env.is_some() && is_filled(&sources.named_env_value) {
        return clone_opt_text(&sources.named_env_value);
    }
    if is_filled(&sources.openai_api_key) {
        return clone_opt_text(&sources.openai_api_key);
    }
    match &sources.key_file_text {
        Some(raw) => {
            let key = trimmed(&chars_of(raw.as_str()));
            if key.len() == 0 {
                None
            } else {
                Some(string_of(&key))
            }
        },
        None => None,
    }
}

/// The end of a text once trailing `/` are dropped.
pub open spec fn without_trailing_slashes(s: Seq<char>, end: int) -> Seq<char>
    decreases end,
{
    if 0 < end <= s.len() && s[end - 1] == '/' {
        without_trailing_slashes(s, end - 1)
    } else if 0 <= end <= s.len() {
        s.subrange(0, end)
    } else {
        s
    }
}

/// `a` where it is there, else `b`.
pub open spec fn first_of(a: Option<Seq<char>>, b: Option<Seq<char>>) -> Option<Seq<char>> {
    match a {
        Some(_) => a,
        None => b,
    }
}

/// The address requests go to: the base address of the settings, else of
/// `OPENAI_BASE_URL`, else of OpenAI, without trailing slashes, and the
/// path of the chat-completions endpoint.
pub open spec fn endpoint_of(runtime: ProviderRuntimeConfigView, env_base_url: Option<Seq<char>>) -> Seq<char> {
    let base = match first_of(runtime.base_url, env_base_url) {
        Some(b) => b,
        None => "https://api.openai.com"@,
    };
    without_trailing_slashes(base, base.len() as int) + "/v1/chat/completions"@
}

/// The model to ask for: the model of the settings, else of the
/// configuration, else of `OPENAI_MODEL`; the default model where that is
/// absent or blank.
pub open spec fn model_of(
    runtime: ProviderRuntimeConfigView,
    config: ProviderConfigView,
    env_model: Option<Seq<char>>,
) -> Seq<char> {
    match filled(first_of(first_of(runtime.model, config.model), env_model)) {
        Some(m) => m,
        None => "gpt-4.1-mini"@,
    }
}

/// The address requests go to.
pub fn endpoint(runtime: &ProviderRuntimeConfig, env_base_url: &Option<String>) -> (out: String)
    ensures
        out@ == endpoint_of(runtime@, opt_text(*env_base_url)),
{
    let base = match &runtime.base_url {
        Some(b) => chars_of(b.as_str()),
        None => match env_base_url {
            Some(b) => chars_of(b.as_str()),
            None => chars_of("https://api.openai.com"),
        },
    };
    let mut end: usize = base.len();
    while end > 0 && base[end - 1] == '/'
        invariant
            end <= base.len(),
            without_trailing_slashes(base@, base.len() as int) == without_trailing_slashes(
                base@,
                end as int,
            ),
        decreases end,
    {
        end = end - 1;
    }
    let mut out = slice_of(&base, 0, end);
    crate::text::append_str(&mut out, "/v1/chat/completions");
    string_of(&out)
}

/// The model to ask for.
pub fn model_name(runtime: &ProviderRuntimeConfig, config: &ProviderConfig, env_model: &Option<String>) -> (out:
    String)
    ensures
        out@ == model_of(runtime@, config@, opt_text(*env_model)),
{
    let picked = match &runtime.model {
        Some(m) => Some(m),
        None => match &config.model {
            Some(m) => Some(m),
            None => match env_model {
                Some(m) => Some(m),
                None => None,
            },
        },
    };
    match picked {
        Some(m) => {
            if str_is_blank(m.as_str()) {
                "gpt-4.1-mini".to_string()
            } else {
                m.clone()
            }
        },
        None => "gpt-4.1-mini".to_string(),
    }
}

// ---------------------------------------------------------------------------
// What is sent
// ---------------------------------------------------------------------------

/// A tool as the endpoint wants it described. A schema that is no JSON is
/// replaced by the schema of any object.
pub open spec fn wire_tool(tool: ToolView) -> JsonView {
    object(
        seq![
            ("type"@, text("function"@)),
            (
                "function"@,
                object(
                    seq![
                        ("name"@, text(tool.name)),
                        ("description"@, text(tool.description)),
                        (
                            "parameters"@,
                            match parsed_json(tool.input_json_schema) {
                                Some(schema) => schema,
                                None => object(seq![("type"@, text("object"@))]),
                            },
                        ),
                    ],
                ),
            ),
        ],
    )
}

/// The tools as the endpoint wants them described.
pub open spec fn wire_tools(tools: Seq<ToolView>) -> Seq<JsonView> {
    Seq::new(tools.len(), |i: int| wire_tool(tools[i]))
}

/// A message as the endpoint wants it.
pub open spec fn wire_message(m: ChatMessageView) -> JsonView {
    object(seq![("role"@, text(m.role)), ("content"@, text(m.content))])
}

/// The handle of the call that produced the result at position `index`:
/// the provider's own, or a numbered one where the provider gave none.
pub open spec fn call_id_of(r: ToolResultView, index: int) -> Seq<char> {
    match r.tool_call_id {
        Some(id) => id,
        None => "call_stub_"@ + decimal_text(index as nat),
    }
}

/// The tool call that the result at position `index` answers, as the
/// endpoint wants it recalled.
pub open spec fn wire_call(r: ToolResultView, index: int) -> JsonView {
    object(
        seq![
            ("id"@, text(call_id_of(r, index))),
            ("type"@, text("function"@)),
            ("function"@, object(seq![("name"@, text(r.name)), ("arguments"@, text("{}"@))])),
        ],
    )
}

/// The result at position `index` as a `tool` message.
pub open spec fn wire_result(r: ToolResultView, index: int) -> JsonView {
    object(
        seq![
            ("role"@, text("tool"@)),
            ("tool_call_id"@, text(call_id_of(r, index))),
            ("content"@, text(r.result_json)),
        ],
    )
}

/// The assistant message that recalls the tool calls behind `results`.
pub open spec fn wire_recall(results: Seq<ToolResultView>) -> JsonView {
    object(
        seq![
            ("role"@, text("assistant"@)),
            ("content"@, JsonView::Null),
            ("tool_calls"@, JsonView::Array(Seq::new(results.len(), |i: int| wire_call(results[i], i)))),
        ],
    )
}

/// The conversation as the endpoint wants it: the messages, and, where
/// tools were run, an assistant message that recalls the calls under their
/// handles, followed by one `tool` message per result under the same handle.
pub open spec fn wire_messages(messages: Seq<ChatMessageView>, results: Seq<ToolResultView>) -> Seq<JsonView> {
    let said = Seq::new(messages.len(), |i: int| wire_message(messages[i]));
    if results.len() == 0 {
        said
    } else {
        said.push(wire_recall(results)) + Seq::new(results.len(), |i: int| wire_result(results[i], i))
    }
}

/// The body of a chat-completions request.
pub open spec fn request_body(
    model: Seq<char>,
    messages: Seq<ChatMessageView>,
    tools: Seq<ToolView>,
    results: Seq<ToolResultView>,
) -> JsonView {
    object(
        seq![
            ("model"@, text(model)),
            ("messages"@, JsonView::Array(wire_messages(messages, results))),
            ("tools"@, JsonView::Array(wire_tools(tools))),
            ("tool_choice"@, text("auto"@)),
        ],
    )
}

fn pair(a_key: &str, a: Json, b_key: &str, b: Json) -> (out: Json)
    ensures
        out@ == object(seq![(a_key@, a@), (b_key@, b@)]),
{
    let ghost av = a@;
    let ghost bv = b@;
    let mut members = no_members();
    push_member(&mut members, a_key, a);
    push_member(&mut members, b_key, b);
    assert(member_views(members@) =~= seq![(a_key@, av), (b_key@, bv)]);
    object_of(members)
}

fn triple(a_key: &str, a: Json, b_key: &str, b: Json, c_key: &str, c: Json) -> (out: Json)
    ensures
        out@ == object(seq![(a_key@, a@), (b_key@, b@), (c_key@, c@)]),
{
    let ghost av = a@;
    let ghost bv = b@;
    let ghost cv = c@;
    let mut members = no_members();
    push_member(&mut members, a_key, a);
    push_member(&mut members, b_key, b);
    push_member(&mut members, c_key, c);
    assert(member_views(members@) =~= seq![(a_key@, av), (b_key@, bv), (c_key@, cv)]);
    object_of(members)
}

/// The tools as the endpoint wants them described.
pub fn build_openai_tools(tools: &[Tool]) -> (out: Vec<Json>)
    ensures
        item_views(out@) == wire_tools(views(tools@)),
{
    let mut out: Vec<Json> = Vec::new();
    let mut i: usize = 0;
    while i < tools.len()
        invariant
            i <= tools.len(),
            out@.len() == i,
            forall|k: int| 0 <= k < i ==> out@[k]@ == wire_tool(tools@[k]@),
        decreases tools.len() - i,
    {
        let tool = &tools[i];
        let parameters = match parse_json(tool.input_json_schema.as_str()) {
            Some(schema) => schema,
            None => {
                let mut m = no_members();
                push_text_member(&mut m, "type", "object");
                object_of(m)
            },
        };
        let function = triple(
            "name",
            Json::text(tool.name.as_str()),
            "description",
            Json::text(tool.description.as_str()),
            "parameters",
            parameters,
        );
        let ghost inner = function@;
        let described = pair("type", Json::text("function"), "function", function);
        assert(wire_tool(tool@)->Object_0[1].1->Object_0 =~= inner->Object_0);
        out.push(described);
        i = i + 1;
    }
    out
}

fn call_id(r: &ToolResult, index: usize) -> (out: String)
    ensures
        out@ == call_id_of(r@, index as int),
{
    match &r.tool_call_id {
        Some(id) => id.clone(),
        None => join2("call_stub_", decimal(index as u64).as_str()),
    }
}

/// The conversation as the endpoint wants it.
pub fn build_openai_messages(messages: &[ChatMessage], tool_results: &[ToolResult]) -> (out: Vec<Json>)
    ensures
        item_views(out@) == wire_messages(views(messages@), views(tool_results@)),
{
    let mut out: Vec<Json> = Vec::new();
    let mut i: usize = 0;
    while i < messages.len()
        invariant
            i <= messages.len(),
            out@.len() == i,
            forall|k: int| 0 <= k < i ==> out@[k]@ == wire_message(messages@[k]@),
        decreases messages.len() - i,
    {
        let m = &messages[i];
        out.push(
            pair("role", Json::text(m.role.as_str()), "content", Json::text(m.content.as_str())),
        );
        i = i + 1;
    }
    if tool_results.len() == 0 {
        return out;
    }
    let mut calls: Vec<Json> = Vec::new();
    let mut j: usize = 0;
    while j < tool_results.len()
        invariant
            j <= tool_results.len(),
            calls@.len() == j,
            forall|k: int| 0 <= k < j ==> calls@[k]@ == wire_call(tool_results@[k]@, k),
        decreases tool_results.len() - j,
    {
        let r = &tool_results[j];
        let function = pair("name", Json::text(r.name.as_str()), "arguments", Json::text("{}"));
        calls.push(
            triple(
                "id",
                Json::text(call_id(r, j).as_str()),
                "type",
                Json::text("function"),
                "function",
                function,
            ),
        );
        j = j + 1;
    }
    let ghost results = views(tool_results@);
    proof {
        assert(item_views(calls@) =~= Seq::new(results.len(), |i: int| wire_call(results[i], i)));
    }
    let recall = triple(
        "role",
        Json::text("assistant"),
        "content",
        Json::Null,
        "tool_calls",
        array_of(calls),
    );
    let ghost said = item_views(out@);
    out.push(recall);
    let mut k: usize = 0;
    while k < tool_results.len()
        invariant
            k <= tool_results.len(),
            results == views(tool_results@),
            out@.len() == messages.len() + 1 + k,
            item_views(out@).subrange(0, messages.len() + 1) == said.push(wire_recall(results)),
            forall|n: int| 0 <= n < k ==> out@[messages.len() + 1 + n]@ == wire_result(results[n], n),
        decreases tool_results.len() - k,
    {
        let r = &tool_results[k];
        out.push(
            triple(
                "role",
                Json::text("tool"),
                "tool_call_id",
                Json::text(call_id(r, k).as_str()),
                "content",
                Json::text(r.result_json.as_str()),
            ),
        );
        k = k + 1;
    }
    assert(item_views(out@) =~= wire_messages(views(messages@), views(tool_results@))) by {
        let want = wire_messages(views(messages@), views(tool_results@));
        assert forall|n: int| 0 <= n < want.len() implies item_views(out@)[n] == want[n] by {
            if n <= messages.len() {
                assert(item_views(out@)[n] == item_views(out@).subrange(0, messages.len() + 1)[n]);
            }
        }
    }
    out
}

/// The body of a chat-completions request, as JSON text.
pub fn build_request_body(
    model: &str,
    messages: &[ChatMessage],
    tools: &[Tool],
    tool_results: &[ToolResult],
) -> (out: String)
    ensures
        out@ == rendered_json(
            request_body(model@, views(messages@), views(tools@), views(tool_results@)),
        ),
{
    let mut members = no_members();
    push_text_member(&mut members, "model", model);
    push_member(&mut members, "messages", array_of(build_openai_messages(messages, tool_results)));
    push_member(&mut members, "tools", array_of(build_openai_tools(tools)));
    push_text_member(&mut members, "tool_choice", "auto");
    assert(member_views(members@) =~= seq![
        ("model"@, text(model@)),
        ("messages"@, JsonView::Array(wire_messages(views(messages@), views(tool_results@)))),
        ("tools"@, JsonView::Array(wire_tools(views(tools@)))),
        ("tool_choice"@, text("auto"@)),
    ]);
    render_json(&object_of(members))
}

// ---------------------------------------------------------------------------
// What a reply means
// ---------------------------------------------------------------------------

/// The first choice's message of a reply.
pub open spec fn reply_message(payload: JsonView) -> Option<JsonView> {
    match field(payload, "choices"@) {
        Some(JsonView::Array(choices)) => if choices.len() > 0 {
            field(choices[0], "message"@)
        } else {
            None
        },
        _ => None,
    }
}

/// The tool call that one entry of `tool_calls` stands for: it needs a
/// `function` object with a string `name`; arguments default to `{}`.
pub open spec fn call_in(entry: JsonView) -> Option<ToolCallView> {
    match field(entry, "function"@) {
        Some(function) => match text_field(function, "name"@) {
            Some(name) => Some(
                ToolCallView {
                    name,
                    arguments_json: match text_field(function, "arguments"@) {
                        Some(a) => a,
                        None => "{}"@,
                    },
                    tool_call_id: text_field(entry, "id"@),
                },
            ),
            None => None,
        },
        None => None,
    }
}

/// The tool calls that the first `upto` entries stand for, in order.
pub open spec fn calls_in(entries: Seq<JsonView>, upto: int) -> Seq<ToolCallView>
    decreases upto,
{
    if upto <= 0 {
        Seq::empty()
    } else {
        match call_in(entries[upto - 1]) {
            Some(c) => calls_in(entries, upto - 1).push(c),
            None => calls_in(entries, upto - 1),
        }
    }
}

/// The `text` members of the first `upto` content parts, one per line.
pub open spec fn parts_text(parts: Seq<JsonView>, upto: int) -> Seq<char>
    decreases upto,
{
    if upto <= 0 {
        Seq::empty()
    } else {
        let before = parts_text(parts, upto - 1);
        match text_field(parts[upto - 1], "text"@) {
            Some(s) => if before.len() > 0 {
                before.push('\n') + s
            } else {
                s
            },
            None => before,
        }
    }
}

/// The text of a message: its string content where that is not blank,
/// else the text of its content parts where that is not blank.
pub open spec fn message_text(message: JsonView) -> Option<Seq<char>> {
    match field(message, "content"@) {
        Some(JsonView::Text(s)) => if is_blank(s) {
            None
        } else {
            Some(s)
        },
        Some(JsonView::Array(parts)) => if is_blank(parts_text(parts, parts.len() as int)) {
            None
        } else {
            Some(parts_text(parts, parts.len() as int))
        },
        _ => None,
    }
}

/// What a reply means: the tool calls of the first choice where there are
/// any, else its text; a fixed text where the reply holds neither.
pub open spec fn reply_meaning(payload: JsonView) -> ProviderReplyView {
    match reply_message(payload) {
        None => ProviderReplyView::FinalText("OpenAI provider returned no choices."@),
        Some(message) => {
            let calls = match field(message, "tool_calls"@) {
                Some(JsonView::Array(entries)) => calls_in(entries, entries.len() as int),
                _ => Seq::empty(),
            };
            if calls.len() > 0 {
                ProviderReplyView::ToolCalls(calls)
            } else {
                match message_text(message) {
                    Some(t) => ProviderReplyView::FinalText(t),
                    None => ProviderReplyView::FinalText(
                        "OpenAI provider returned no text content and no tool calls."@,
                    ),
                }
            }
        },
    }
}

/// The text of a message.
pub fn extract_message_text(message: &Json) -> (out: Option<String>)
    ensures
        opt_text(out) == message_text(message@),
{
    match message.get("content") {
        Some(Json::Text(s)) => {
            if str_is_blank(s.as_str()) {
                None
            } else {
                Some(s.clone())
            }
        },
        Some(Json::Array(parts)) => {
            proof {
                lemma_array_view(*parts);
            }
            let mut acc: Vec<char> = Vec::new();
            let mut i: usize = 0;
            while i < parts.len()
                invariant
                    i <= parts.len(),
                    acc@ == parts_text(item_views(parts@), i as int),
                decreases parts.len() - i,
            {
                match parts[i].text_at("text") {
                    Some(s) => {
                        if acc.len() > 0 {
                            acc.push('\n');
                        }
                        crate::text::append_str(&mut acc, s.as_str());
                    },
                    None => {},
                }
                i = i + 1;
            }
            let (a, b) = crate::text::trim_bounds(&acc);
            if a == b {
                None
            } else {
                Some(string_of(&acc))
            }
        },
        _ => None,
    }
}

/// What a reply of the endpoint means.
pub fn interpret_chat_completion_payload(payload: &Json) -> (reply: ProviderReply)
    ensures
        reply@ == reply_meaning(payload@),
{
    let message = match payload.get("choices") {
        Some(Json::Array(choices)) => {
            if choices.len() > 0 {
                choices[0].get("message")
            } else {
                None
            }
        },
        _ => None,
    };
    let message = match message {
        Some(m) => m,
        None => {
            return ProviderReply::FinalText("OpenAI provider returned no choices.".to_string());
        },
    };
    let mut calls: Vec<ToolCall> = Vec::new();
    match message.get("tool_calls") {
        Some(Json::Array(entries)) => {
            proof {
                lemma_array_view(*entries);
            }
            let mut i: usize = 0;
            while i < entries.len()
                invariant
                    i <= entries.len(),
                    views(calls@) == calls_in(item_views(entries@), i as int),
                decreases entries.len() - i,
            {
                let entry = &entries[i];
                match entry.get("function") {
                    Some(function) => match function.text_at("name") {
                        Some(name) => {
                            let c = ToolCall {
                                name: name.clone(),
                                arguments_json: match function.text_at("arguments") {
                                    Some(a) => a.clone(),
                                    None => "{}".to_string(),
                                },
                                tool_call_id: copied(entry.text_at("id")),
                            };
                            calls.push(c);
                        },
                        None => {},
                    },
                    None => {},
                }
                i = i + 1;
            }
        },
        _ => {},
    }
    if calls.len() > 0 {
        return ProviderReply::ToolCalls(calls);
    }
    match extract_message_text(message) {
        Some(t) => ProviderReply::FinalText(t),
        None => ProviderReply::FinalText(
            "OpenAI provider returned no text content and no tool calls.".to_string(),
        ),
    }
}

/// What is said where no key is found.
pub open spec fn missing_key_text() -> Seq<char> {
    "OpenAI-compatible provider is selected but no API key was found in provider config or environment."@
}

/// What is said where the request fails; `detail` says why.
pub open spec fn request_failed_text(detail: Seq<char>) -> Seq<char> {
    "OpenAI provider request failed: "@ + detail + ". Use 'openai-stub' for offline testing."@
}

/// What is said where the reply is no JSON; `detail` says why.
pub open spec fn invalid_reply_text(detail: Seq<char>) -> Seq<char> {
    "OpenAI provider returned invalid JSON: "@ + detail
}

/// What the host is to send for a turn.
#[derive(Debug, PartialEq, Eq)]
pub struct ChatExchange {
    pub url: String,
    pub authorization: String,
    pub body_json: String,
}

/// What the host found in the environment for a turn.
#[derive(Debug, PartialEq, Eq)]
pub struct ChatEnvironment {
    pub keys: KeySources,
    pub base_url: Option<String>,
    pub model: Option<String>,
}

impl OpenAiHttpProvider {
    /// The name of this provider.
    pub fn name(&self) -> (n: &'static str)
        ensures
            n@ == "openai"@,
    {
        "openai"
    }

    /// Prepares a turn: the request to send, or, where no key is found, the
    /// text that ends the turn.
    pub fn prepare(
        &self,
        messages: &[ChatMessage],
        tools: &[Tool],
        tool_results: &[ToolResult],
        config: &ProviderConfig,
        env: &ChatEnvironment,
    ) -> (out: Result<ChatExchange, ProviderReply>)
        ensures
            match api_key_of(
                runtime_config_of(config@),
                opt_text(env.keys.named_env_value),
                opt_text(env.keys.openai_api_key),
                opt_text(env.keys.key_file_text),
            ) {
                None => out is Err && out->Err_0@ == ProviderReplyView::FinalText(missing_key_text()),
                Some(key) => {
                    &&& out is Ok
                    &&& out->Ok_0.url@ == endpoint_of(
                        runtime_config_of(config@),
                        opt_text(env.base_url),
                    )
                    &&& out->Ok_0.authorization@ == "Bearer "@ + key
                    &&& out->Ok_0.body_json@ == rendered_json(
                        request_body(
                            model_of(runtime_config_of(config@), config@, opt_text(env.model)),
                            views(messages@),
                            views(tools@),
                            views(tool_results@),
                        ),
                    )
                },
            },
    {
        let runtime = ProviderRuntimeConfig::from_provider_config(config);
        let key = match resolve_api_key(config, &env.keys) {
            Some(k) => k,
            None => {
                return Err(
                    ProviderReply::FinalText(
                        "OpenAI-compatible provider is selected but no API key was found in provider config or environment.".to_string(),
                    ),
                );
            },
        };
        let model = model_name(&runtime, config, &env.model);
        Ok(
            ChatExchange {
                url: endpoint(&runtime, &env.base_url),
                authorization: join2("Bearer ", key.as_str()),
                body_json: build_request_body(model.as_str(), messages, tools, tool_results),
            },
        )
    }

    /// Ends a turn whose request failed.
    pub fn request_failed(&self, detail: &str) -> (reply: ProviderReply)
        ensures
            reply@ == ProviderReplyView::FinalText(request_failed_text(detail@)),
    {
        ProviderReply::FinalText(
            crate::text::join3(
                "OpenAI provider request failed: ",
                detail,
                ". Use 'openai-stub' for offline testing.",
            ),
        )
    }

    /// Reads the endpoint's reply to a turn. A reply that is no JSON ends
    /// the turn with a text that says why.
    pub fn interpret(&self, payload_json: &str) -> (reply: ProviderReply)
        ensures
            reply@ == (match parsed_json(payload_json@) {
                Some(payload) => reply_meaning(payload),
                None => ProviderReplyView::FinalText(invalid_reply_text(parse_error(payload_json@))),
            }),
    {
        match parse_json_or_error(payload_json) {
            Ok(payload) => interpret_chat_completion_payload(&payload),
            Err(detail) => ProviderReply::FinalText(
                join2("OpenAI provider returned invalid JSON: ", detail.as_str()),
            ),
        }
    }
}

} // verus!
