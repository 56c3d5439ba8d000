//! The JSON-RPC envelope on the wire, and the HTTP transport around it.
//!
//! Requests are read from JSON text into [`Request`]s, responses are
//! written back as JSON text. The HTTP transport has one endpoint,
//! `POST /jsonrpc`; this module decides what a request line, a header line
//! and a response look like and leaves the socket to the host.

use vstd::prelude::*;
use crate::ipc::parse_failed;
use crate::json::{
    count_of, field, member_views, no_members, number, number_of, object, object_of, parse_error,
    parse_json, parse_json_or_error, parsed_json, push_member, push_text_member, render_json,
    rendered_json, text, text_field, Json, JsonView,
};
use crate::jsonrpc::{ErrorView, Id, IdView, Request, RequestView, Response, ResponseView, PARSE_ERROR};
use crate::mcp::{byte_len, encoded_len};
use crate::text::{
    append_str, chars_of, decimal_text, find, find_chars, first_word, lines, lines_of, next_sep,
    next_word, parse_unsigned, push_decimal, same_chars, signed_decimal, signed_decimal_text,
    slice_of, string_of, to_lower, trim, trimmed, unsigned_value, word_end, skip_spaces, lower,
    find_sep,
};

verus! {

// ---------------------------------------------------------------------------
// The envelope
// ---------------------------------------------------------------------------

/// An identifier as the wire carries it.
pub open spec fn wire_id(id: IdView) -> JsonView {
    match id {
        IdView::Number(n) => number(n as nat),
        IdView::String(s) => text(s),
        IdView::Null => JsonView::Null,
    }
}

/// The identifier a wire value stands for: an unsigned number that fits
/// in 64 bits, a string, or none.
pub open spec fn id_of(value: Option<JsonView>) -> IdView {
    match value {
        Some(JsonView::Number(n)) => match count_of(JsonView::Number(n)) {
            Some(v) => IdView::Number(v as u64),
            None => IdView::Null,
        },
        Some(JsonView::Text(s)) => IdView::String(s),
        _ => IdView::Null,
    }
}

/// The identifier a wire value stands for.
pub fn json_value_to_id(value: Option<&Json>) -> (id: Id)
    ensures
        id@ == id_of(
            match value {
                Some(v) => Some(v@),
                None => None,
            },
        ),
{
    match value {
        Some(Json::Number(n)) => match Json::Number(n.clone()).as_u64() {
            Some(v) => Id::Number(v),
            None => Id::Null,
        },
        Some(Json::Text(s)) => Id::String(s.clone()),
        _ => Id::Null,
    }
}

/// An identifier as the wire carries it.
pub fn id_to_json_value(id: &Id) -> (out: Json)
    ensures
        out@ == wire_id(id@),
{
    match id {
        Id::Number(n) => number_of(*n),
        Id::String(s) => Json::Text(s.clone()),
        Id::Null => Json::Null,
    }
}

/// Why a document is no request: it lacks a string `jsonrpc` or a string
/// `method`.
pub open spec fn document_fault(doc: JsonView) -> Option<Seq<char>> {
    if text_field(doc, "jsonrpc"@) is None {
        Some("missing field `jsonrpc`"@)
    } else if text_field(doc, "method"@) is None {
        Some("missing field `method`"@)
    } else {
        None
    }
}

/// Why a payload is no request.
pub open spec fn request_fault(payload: Seq<char>) -> Option<Seq<char>> {
    match parsed_json(payload) {
        None => Some(parse_error(payload)),
        Some(doc) => document_fault(doc),
    }
}

/// The reply to a payload that is no request; `detail` says why.
pub open spec fn fault_reply(detail: Seq<char>) -> ResponseView {
    ResponseView {
        jsonrpc: "2.0"@,
        id: IdView::Null,
        result_json: None,
        error: Some(ErrorView { code: PARSE_ERROR, message: "parse error: "@ + detail }),
    }
}

/// The request a payload carries: its identifier, its method, and its
/// parameters as JSON text, `null` where it names none.
pub open spec fn request_in(doc: JsonView) -> RequestView {
    RequestView {
        jsonrpc: "2.0"@,
        id: id_of(field(doc, "id"@)),
        method: text_field(doc, "method"@)->Some_0,
        params_json: rendered_json(
            match field(doc, "params"@) {
                Some(p) => p,
                None => JsonView::Null,
            },
        ),
    }
}

/// Reads a request from the wire. A payload that is no JSON, or no object
/// with a string `jsonrpc` and a string `method`, is answered with a parse
/// error under the null identifier.
pub fn parse_wire_request(payload: &str) -> (out: Result<Request, Response>)
    ensures
        match request_fault(payload@) {
            None => out is Ok && out->Ok_0@ == request_in(parsed_json(payload@)->Some_0),
            Some(detail) => out is Err && out->Err_0@ == (ResponseView {
                jsonrpc: "2.0"@,
                id: IdView::Null,
                result_json: None,
                error: Some(ErrorView { code: PARSE_ERROR, message: "parse error: "@ + detail }),
            }),
        },
{
    match parse_json_or_error(payload) {
        Ok(doc) => request_of_document(&doc),
        Err(detail) => Err(parse_failed(detail.as_str())),
    }
}

/// Reads a request from a document. A document that is no object with a
/// string `jsonrpc` and a string `method` is answered with a parse error
/// under the null identifier.
pub fn request_of_document(doc: &Json) -> (out: Result<Request, Response>)
    ensures
        match document_fault(doc@) {
            None => out is Ok && out->Ok_0@ == request_in(doc@),
            Some(detail) => out is Err && out->Err_0@ == fault_reply(detail),
        },
{
    if doc.text_at("jsonrpc").is_none() {
        return Err(parse_failed("missing field `jsonrpc`"));
    }
    let method = match doc.text_at("method") {
        Some(m) => m,
        None => {
            return Err(parse_failed("missing field `method`"));
        },
    };
    let params_json = match doc.get("params") {
        Some(p) => render_json(p),
        None => render_json(&Json::Null),
    };
    let id = json_value_to_id(doc.get("id"));
    Ok(Request::new(id, method.as_str(), params_json.as_str()))
}

/// A response as the wire carries it: the result as a document, or as a
/// string where it is no JSON; the error with its code and message; each
/// only where the response has one.
pub open spec fn wire_response(response: ResponseView) -> JsonView {
    object(
        seq![("jsonrpc"@, text(response.jsonrpc)), ("id"@, wire_id(response.id))] + (match response.result_json {
            Some(raw) => seq![
                (
                    "result"@,
                    match parsed_json(raw) {
                        Some(doc) => doc,
                        None => text(raw),
                    },
                ),
            ],
            None => Seq::empty(),
        }) + (match response.error {
            Some(e) => seq![
                (
                    "error"@,
                    object(
                        seq![
                            ("code"@, JsonView::Number(signed_decimal_text(e.code as int))),
                            ("message"@, text(e.message)),
                        ],
                    ),
                ),
            ],
            None => Seq::empty(),
        }),
    )
}

/// Writes a response for the wire.
pub fn to_wire_response(response: &Response) -> (out: String)
    ensures
        out@ == rendered_json(wire_response(response@)),
{
    let mut members = no_members();
    push_text_member(&mut members, "jsonrpc", response.jsonrpc.as_str());
    push_member(&mut members, "id", id_to_json_value(&response.id));
    assert(member_views(members@) =~= seq![
        ("jsonrpc"@, text(response@.jsonrpc)),
        ("id"@, wire_id(response@.id)),
    ]);
    let ghost head = member_views(members@);
    match &response.result_json {
        Some(raw) => {
            let doc = match parse_json(raw.as_str()) {
                Some(doc) => doc,
                None => Json::Text(raw.clone()),
            };
            let ghost shown = doc@;
            push_member(&mut members, "result", doc);
            assert(member_views(members@) =~= head + seq![("result"@, shown)]);
        },
        None => {
        },
    }
    let ghost middle = member_views(members@);
    match &response.error {
        Some(e) => {
            let mut fault = no_members();
            push_member(&mut fault, "code", Json::Number(signed_decimal(e.code)));
            push_text_member(&mut fault, "message", e.message.as_str());
            assert(member_views(fault@) =~= seq![
                ("code"@, JsonView::Number(signed_decimal_text(e.code as int))),
                ("message"@, text(e.message@)),
            ]);
            let described = object_of(fault);
            let ghost shown = described@;
            push_member(&mut members, "error", described);
            assert(member_views(members@) =~= middle + seq![("error"@, shown)]);
        },
        None => {
        },
    }
    render_json(&object_of(members))
}

// ---------------------------------------------------------------------------
// HTTP
// ---------------------------------------------------------------------------

/// What the HTTP transport does with a request.
#[derive(Clone, Copy, Debug, PartialEq, Eq, Structural)]
pub enum HttpRoute {
    /// Any path but `/jsonrpc`: status 404.
    NotFound,
    /// `OPTIONS /jsonrpc`: status 204 with the CORS headers.
    Preflight,
    /// Any other method but `POST`: status 405.
    MethodNotAllowed,
    /// `POST /jsonrpc`: the body is served as a JSON-RPC request.
    Serve,
}

/// What the transport does with `method` on `path`.
pub open spec fn route_of(method: Seq<char>, path: Seq<char>) -> HttpRoute {
    if path != "/jsonrpc"@ {
        HttpRoute::NotFound
    } else if method == "OPTIONS"@ {
        HttpRoute::Preflight
    } else if method != "POST"@ {
        HttpRoute::MethodNotAllowed
    } else {
        HttpRoute::Serve
    }
}

/// The word at position `index` of a line, or nothing.
pub open spec fn word_at(line: Seq<char>, index: int, from: int) -> Seq<char>
    decreases index,
{
    match first_word(line, from) {
        None => Seq::empty(),
        Some(w) => if index <= 0 {
            w
        } else {
            word_at(line, index - 1, word_end(line, skip_spaces(line, from)))
        },
    }
}

/// What the transport does with a request line: its first word is the
/// method, its second the path.
pub open spec fn route_of_line(line: Seq<char>) -> HttpRoute {
    route_of(word_at(line, 0, 0), word_at(line, 1, 0))
}

/// Decides what the transport does with a request line.
pub fn http_route(request_line: &str) -> (route: HttpRoute)
    ensures
        route == route_of_line(request_line@),
{
    let line = chars_of(request_line);
    let none: Vec<char> = Vec::new();
    let (method, path) = match next_word(&line, 0) {
        None => (slice_of(&none, 0, 0), slice_of(&none, 0, 0)),
        Some((a, b)) => {
            let method = slice_of(&line, a, b);
            match next_word(&line, b) {
                None => (method, slice_of(&none, 0, 0)),
                Some((c, d)) => (method, slice_of(&line, c, d)),
            }
        },
    };
    proof {
        reveal_with_fuel(word_at, 3);
    }
    assert(path@ =~= word_at(line@, 1, 0));
    if !same_chars(&path, &chars_of("/jsonrpc")) {
        HttpRoute::NotFound
    } else if same_chars(&method, &chars_of("OPTIONS")) {
        HttpRoute::Preflight
    } else if !same_chars(&method, &chars_of("POST")) {
        HttpRoute::MethodNotAllowed
    } else {
        HttpRoute::Serve
    }
}

/// The length of the body after a header line, given the length known so
/// far: a `Content-Length` line, whatever its case, sets it to the number
/// it carries, or to zero where it carries none.
pub open spec fn content_length_after(known: usize, line: Seq<char>) -> usize {
    let bare = crate::mcp::without_line_end(line, line.len() as int);
    let colon = next_sep(bare, ':', 0);
    if colon < bare.len() && lower(bare.subrange(0, colon)) == "content-length"@ {
        match unsigned_value(trim(bare.subrange(colon + 1, bare.len() as int))) {
            Some(n) => if n <= usize::MAX {
                n as usize
            } else {
                0
            },
            None => 0,
        }
    } else {
        known
    }
}

/// Takes a header line into account for the length of the body.
pub fn http_content_length(known: usize, line: &str) -> (out: usize)
    ensures
        out == content_length_after(known, line@),
{
    let text = chars_of(line);
    let mut end: usize = text.len();
    while end > 0 && (text[end - 1] == '\r' || text[end - 1] == '\n')
        invariant
            end <= text.len(),
            crate::mcp::without_line_end(text@, text.len() as int) == crate::mcp::without_line_end(
                text@,
                end as int,
            ),
        decreases end,
    {
        end = end - 1;
    }
    let bare = slice_of(&text, 0, end);
    let colon = find_sep(&bare, ':', 0);
    if colon < bare.len() && same_chars(
        &to_lower(&slice_of(&bare, 0, colon)),
        &chars_of("content-length"),
    ) {
        match parse_unsigned(&trimmed(&slice_of(&bare, colon + 1, bare.len()))) {
            Some(n) => {
                if n <= usize::MAX as u64 {
                    n as usize
                } else {
                    0
                }
            },
            None => 0,
        }
    } else {
        known
    }
}

/// The reason phrase of a status.
pub open spec fn reason_of(status: u16) -> Seq<char> {
    if status == 404 {
        "Not Found"@
    } else if status == 405 {
        "Method Not Allowed"@
    } else if status == 500 {
        "Internal Server Error"@
    } else {
        "OK"@
    }
}

/// The headers that let any origin post JSON.
pub open spec fn cors_headers() -> Seq<char> {
    "Access-Control-Allow-Origin: *\r\nAccess-Control-Allow-Headers: content-type\r\nAccess-Control-Allow-Methods: POST, OPTIONS\r\n"@
}

/// A response that carries a JSON body.
pub open spec fn http_response(status: u16, reason: Seq<char>, body: Seq<char>) -> Seq<char> {
    "HTTP/1.1 "@ + decimal_text(status as nat) + " "@ + reason
        + "\r\nContent-Type: application/json\r\nContent-Length: "@ + decimal_text(byte_len(body))
        + "\r\nConnection: close\r\n"@ + cors_headers() + "\r\n"@ + body
}

fn write_http_response(status: u16, reason: &str, body: &str) -> (out: String)
    ensures
        out@ == http_response(status, reason@, body@),
{
    let payload = chars_of(body);
    let n = encoded_len(body);
    let mut out = chars_of("HTTP/1.1 ");
    push_decimal(&mut out, status as u64);
    append_str(&mut out, " ");
    append_str(&mut out, reason);
    append_str(&mut out, "\r\nContent-Type: application/json\r\nContent-Length: ");
    push_decimal(&mut out, n as u64);
    append_str(&mut out, "\r\nConnection: close\r\n");
    append_str(
        &mut out,
        "Access-Control-Allow-Origin: *\r\nAccess-Control-Allow-Headers: content-type\r\nAccess-Control-Allow-Methods: POST, OPTIONS\r\n",
    );
    append_str(&mut out, "\r\n");
    crate::text::append_chars(&mut out, &payload);
    string_of(&out)
}

/// The response that carries a JSON body under `status`.
pub fn write_http_json(status: u16, body: &str) -> (out: String)
    ensures
        out@ == http_response(status, reason_of(status), body@),
{
    let reason = if status == 404 {
        "Not Found"
    } else if status == 405 {
        "Method Not Allowed"
    } else if status == 500 {
        "Internal Server Error"
    } else {
        "OK"
    };
    write_http_response(status, reason, body)
}

/// The body of an HTTP-level error.
pub open spec fn http_error_body(message: Seq<char>) -> Seq<char> {
    rendered_json(object(seq![("error"@, text(message))]))
}

/// The response to an HTTP-level mistake.
pub fn write_http_error(status: u16, status_text: &str, message: &str) -> (out: String)
    ensures
        out@ == http_response(status, status_text@, http_error_body(message@)),
{
    let body = crate::json::render_text_object("error", message);
    write_http_response(status, status_text, body.as_str())
}

/// The response to a preflight request.
pub open spec fn preflight_response() -> Seq<char> {
    "HTTP/1.1 204 No Content\r\nConnection: close\r\n"@ + cors_headers()
        + "Content-Length: 0\r\n\r\n"@
}

/// The response to a preflight request.
pub fn write_http_options() -> (out: String)
    ensures
        out@ == preflight_response(),
{
    let mut out = chars_of("HTTP/1.1 204 No Content\r\nConnection: close\r\n");
    append_str(
        &mut out,
        "Access-Control-Allow-Origin: *\r\nAccess-Control-Allow-Headers: content-type\r\nAccess-Control-Allow-Methods: POST, OPTIONS\r\n",
    );
    append_str(&mut out, "Content-Length: 0\r\n\r\n");
    string_of(&out)
}

/// The request a client posts to `addr`.
pub open spec fn http_post(addr: Seq<char>, body: Seq<char>) -> Seq<char> {
    "POST /jsonrpc HTTP/1.1\r\nHost: "@ + addr
        + "\r\nContent-Type: application/json\r\nContent-Length: "@ + decimal_text(byte_len(body))
        + "\r\nConnection: close\r\n\r\n"@ + body
}

/// The request a client posts to `addr`.
pub fn write_http_post(addr: &str, body: &str) -> (out: String)
    ensures
        out@ == http_post(addr@, body@),
{
    let payload = chars_of(body);
    let n = encoded_len(body);
    let mut out = chars_of("POST /jsonrpc HTTP/1.1\r\nHost: ");
    append_str(&mut out, addr);
    append_str(&mut out, "\r\nContent-Type: application/json\r\nContent-Length: ");
    push_decimal(&mut out, n as u64);
    append_str(&mut out, "\r\nConnection: close\r\n\r\n");
    crate::text::append_chars(&mut out, &payload);
    string_of(&out)
}

/// The status of a response head: the second word of its first line read
/// as a number up to 65535, or zero.
pub open spec fn status_in(head: Seq<char>) -> u16 {
    let first = if lines(head).len() > 0 {
        lines(head)[0]
    } else {
        Seq::empty()
    };
    match unsigned_value(word_at(first, 1, 0)) {
        Some(n) => if n <= u16::MAX {
            n as u16
        } else {
            0
        },
        None => 0,
    }
}

/// The status and the body of a response; `None` where no empty line
/// parts head from body.
pub open spec fn response_parts(raw: Seq<char>) -> Option<(u16, Seq<char>)> {
    match find(raw, "\r\n\r\n"@) {
        Some(at) => Some((status_in(raw.subrange(0, at)), raw.subrange(at + 4, raw.len() as int))),
        None => None,
    }
}

/// Parts a response into status and body.
pub fn read_http_response(raw: &str) -> (out: Option<(u16, String)>)
    ensures
        match out {
            Some((status, body)) => response_parts(raw@) == Some((status, body@)),
            None => response_parts(raw@) is None,
        },
{
    let text = chars_of(raw);
    proof {
        reveal_strlit("\r\n\r\n");
    }
    let at = match find_chars(&text, &chars_of("\r\n\r\n")) {
        Some(at) => at,
        None => {
            return None;
        },
    };
    let head = slice_of(&text, 0, at);
    let body = slice_of(&text, at + 4, text.len());
    let head_lines = lines_of(&head);
    let none: Vec<char> = Vec::new();
    let first = if head_lines.len() > 0 {
        slice_of(&head_lines[0], 0, head_lines[0].len())
    } else {
        none
    };
    assert(first@ =~= (if lines(head@).len() > 0 {
        lines(head@)[0]
    } else {
        Seq::empty()
    }));
    let empty: Vec<char> = Vec::new();
    let word = match next_word(&first, 0) {
        None => empty,
        Some((_a, b)) => match next_word(&first, b) {
            None => empty,
            Some((c, d)) => slice_of(&first, c, d),
        },
    };
    proof {
        reveal_with_fuel(word_at, 3);
    }
    let status: u16 = match parse_unsigned(&word) {
        Some(n) => {
            if n <= 65535 {
                n as u16
            } else {
                0
            }
        },
        None => 0,
    };
    Some((status, string_of(&body)))
}

} // verus!
