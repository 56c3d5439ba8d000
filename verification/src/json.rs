//! JSON documents as plain trees.
//!
//! Reading and writing JSON text is left to `serde_json`; everything the
//! library decides about a document is decided on [`Json`], a tree of plain
//! values whose view is [`JsonView`].

use vstd::prelude::*;
use crate::model::opt_view;
use crate::text::{chars_of, same_chars};

verus! {

/// A JSON document. A number is kept as its decimal text; an object is the
/// list of its members in the order they were put there, and may hold a
/// name more than once: [`Json::get`] finds the first. A document that was
/// read from text comes with its members in the order of their names and
/// with no name twice, because the reader keeps the last of equal names;
/// writing a document sorts and merges its members in the same way.
#[derive(Debug, PartialEq, Eq)]
pub enum Json {
    Null,
    Bool(bool),
    Number(String),
    Text(String),
    Array(Vec<Json>),
    Object(Vec<(String, Json)>),
}

/// What contracts see of a [`Json`] document.
pub enum JsonView {
    Null,
    Bool(bool),
    Number(Seq<char>),
    Text(Seq<char>),
    Array(Seq<JsonView>),
    Object(Seq<(Seq<char>, JsonView)>),
}

impl View for Json {
    type V = JsonView;

    open spec fn view(&self) -> JsonView
        decreases self,
    {
        match self {
            Json::Null => JsonView::Null,
            Json::Bool(b) => JsonView::Bool(*b),
            Json::Number(n) => JsonView::Number(n@),
            Json::Text(s) => JsonView::Text(s@),
            Json::Array(items) => JsonView::Array(
                Seq::new(
                    items.len() as nat,
                    |i: int|
                        if 0 <= i < items.len() {
                            items[i]@
                        } else {
                            JsonView::Null
                        },
                ),
            ),
            Json::Object(members) => JsonView::Object(
                Seq::new(
                    members.len() as nat,
                    |i: int|
                        (
                            members[i].0@,
                            if 0 <= i < members.len() {
                                members[i].1@
                            } else {
                                JsonView::Null
                            },
                        ),
                ),
            ),
        }
    }
}

/// The views of a list of documents.
pub open spec fn item_views(items: Seq<Json>) -> Seq<JsonView> {
    Seq::new(items.len(), |i: int| items[i]@)
}

/// The views of a list of object members.
pub open spec fn member_views(members: Seq<(String, Json)>) -> Seq<(Seq<char>, JsonView)> {
    Seq::new(members.len(), |i: int| (members[i].0@, members[i].1@))
}

/// The view of an array is the list of its items' views.
pub proof fn lemma_array_view(items: Vec<Json>)
    ensures
        Json::Array(items)@ == JsonView::Array(item_views(items@)),
{
    assert(Json::Array(items)@->Array_0 =~= item_views(items@));
}

/// The view of an object is the list of its members' views.
pub proof fn lemma_object_view(members: Vec<(String, Json)>)
    ensures
        Json::Object(members)@ == JsonView::Object(member_views(members@)),
{
    assert(Json::Object(members)@->Object_0 =~= member_views(members@));
}

// ---------------------------------------------------------------------------
// Reading and writing JSON text
// ---------------------------------------------------------------------------

/// Declares `serde_json::Value`, the parser's own tree, as a type that is
/// carried through without looking inside.
#[verifier::external_type_specification]
#[verifier::external_body]
pub struct ExValue(serde_json::Value);

/// The document that `serde_json` reads from a text, or `None` where it
/// rejects the text.
pub uninterp spec fn parsed_json(text: Seq<char>) -> Option<JsonView>;

/// The compact text that `serde_json` writes for a document.
pub uninterp spec fn rendered_json(doc: JsonView) -> Seq<char>;

/// Moves a `serde_json::Value` into a [`Json`] tree, variant by variant.
///
/// Trusted, and nothing is claimed of it: a number becomes the text that
/// `serde_json::Number` displays, an object the list of the members that
/// `serde_json::Map` iterates.
#[verifier::external_body]
fn json_of_value(value: serde_json::Value) -> Json {
    match value {
        serde_json::Value::Null => Json::Null,
        serde_json::Value::Bool(b) => Json::Bool(b),
        serde_json::Value::Number(n) => Json::Number(n.to_string()),
        serde_json::Value::String(s) => Json::Text(s),
        serde_json::Value::Array(items) => Json::Array(
            items.into_iter().map(json_of_value).collect(),
        ),
        serde_json::Value::Object(map) => Json::Object(
            map.into_iter().map(|(k, v)| (k, json_of_value(v))).collect(),
        ),
    }
}

/// Moves a [`Json`] tree into a `serde_json::Value`, variant by variant.
///
/// Trusted, and nothing is claimed of it: a number text that
/// `serde_json::Number` does not read becomes `null`, and members are
/// inserted into a `serde_json::Map` in list order.
#[verifier::external_body]
fn value_of_json(doc: &Json) -> serde_json::Value {
    match doc {
        Json::Null => serde_json::Value::Null,
        Json::Bool(b) => serde_json::Value::Bool(*b),
        Json::Number(n) => match n.parse::<serde_json::Number>() {
            Ok(n) => serde_json::Value::Number(n),
            Err(_) => serde_json::Value::Null,
        },
        Json::Text(s) => serde_json::Value::String(s.clone()),
        Json::Array(items) => serde_json::Value::Array(items.iter().map(value_of_json).collect()),
        Json::Object(members) => serde_json::Value::Object(
            members.iter().map(|m| (m.0.clone(), value_of_json(&m.1))).collect(),
        ),
    }
}

/// Why `serde_json` rejects a text, in its own words.
pub uninterp spec fn parse_error(text: Seq<char>) -> Seq<char>;

/// Reads a JSON text with `serde_json::from_str`.
///
/// Trusted: the result is the named document `parsed_json(text)`, or the
/// named message `parse_error(text)` where there is no document, so equal
/// texts read alike; nothing else is claimed of it.
#[verifier::external_body]
pub(crate) fn parse_json_or_error(text: &str) -> (out: Result<Json, String>)
    ensures
        match out {
            Ok(doc) => parsed_json(text@) == Some(doc@),
            Err(message) => parsed_json(text@) is None && message@ == parse_error(text@),
        },
{
    match serde_json::from_str::<serde_json::Value>(text) {
        Ok(value) => Ok(json_of_value(value)),
        Err(e) => Err(e.to_string()),
    }
}

/// Reads a JSON text; `None` where it is no JSON document.
pub fn parse_json(text: &str) -> (out: Option<Json>)
    ensures
        opt_view(out) == parsed_json(text@),
{
    match parse_json_or_error(text) {
        Ok(doc) => Some(doc),
        Err(_) => None,
    }
}

/// Writes a document as compact JSON text, as `serde_json::Value` displays it.
///
/// Trusted: the result is the named text `rendered_json(doc)`, so equal
/// documents are written alike; nothing else is claimed of it.
#[verifier::external_body]
pub(crate) fn render_json(doc: &Json) -> (out: String)
    ensures
        out@ == rendered_json(doc@),
{
    value_of_json(doc).to_string()
}

// ---------------------------------------------------------------------------
// Looking into documents
// ---------------------------------------------------------------------------

/// The value of the first member named `key` at or after position `from`.
pub open spec fn member_from(
    members: Seq<(Seq<char>, JsonView)>,
    key: Seq<char>,
    from: int,
) -> Option<JsonView>
    decreases members.len() - from,
{
    if from < 0 || from >= members.len() {
        None
    } else if members[from].0 == key {
        Some(members[from].1)
    } else {
        member_from(members, key, from + 1)
    }
}

/// The value of the member named `key`, where `doc` is an object that has one.
pub open spec fn field(doc: JsonView, key: Seq<char>) -> Option<JsonView> {
    match doc {
        JsonView::Object(members) => member_from(members, key, 0),
        _ => None,
    }
}

/// The text of a string document.
pub open spec fn text_of(doc: JsonView) -> Option<Seq<char>> {
    match doc {
        JsonView::Text(s) => Some(s),
        _ => None,
    }
}

/// The text of the string member named `key`.
pub open spec fn text_field(doc: JsonView, key: Seq<char>) -> Option<Seq<char>> {
    match field(doc, key) {
        Some(value) => text_of(value),
        None => None,
    }
}

/// The number a document holds, where it is a number written in digits
/// only that fits in 64 bits.
pub open spec fn count_of(doc: JsonView) -> Option<int> {
    match doc {
        JsonView::Number(n) => if n.len() > 0 && n[0] == '+' {
            None
        } else {
            crate::text::unsigned_value(n)
        },
        _ => None,
    }
}

/// The items of an array document.
pub open spec fn items_of(doc: JsonView) -> Option<Seq<JsonView>> {
    match doc {
        JsonView::Array(items) => Some(items),
        _ => None,
    }
}

impl Json {
    /// The first member named `key`, where this is an object that has one.
    pub fn get(&self, key: &str) -> (out: Option<&Json>)
        ensures
            match out {
                Some(value) => field(self@, key@) == Some(value@),
                None => field(self@, key@) is None,
            },
    {
        match self {
            Json::Object(members) => {
                proof {
                    lemma_object_view(*members);
                }
                let wanted = chars_of(key);
                let mut i: usize = 0;
                while i < members.len()
                    invariant
                        i <= members.len(),
                        wanted@ == key@,
                        field(self@, key@) == member_from(member_views(members@), key@, 0),
                        member_from(member_views(members@), key@, 0) == member_from(
                            member_views(members@),
                            key@,
                            i as int,
                        ),
                    decreases members.len() - i,
                {
                    let name = chars_of(members[i].0.as_str());
                    if same_chars(&name, &wanted) {
                        return Some(&members[i].1);
                    }
                    i = i + 1;
                }
                None
            },
            _ => None,
        }
    }

    /// The text, where this is a string.
    pub fn as_text(&self) -> (out: Option<&String>)
        ensures
            match out {
                Some(s) => text_of(self@) == Some(s@),
                None => text_of(self@) is None,
            },
    {
        match self {
            Json::Text(s) => Some(s),
            _ => None,
        }
    }

    /// The items, where this is an array.
    pub fn as_items(&self) -> (out: Option<&Vec<Json>>)
        ensures
            match out {
                Some(items) => items_of(self@) == Some(item_views(items@)),
                None => items_of(self@) is None,
            },
    {
        match self {
            Json::Array(items) => {
                Some(items)
            },
            _ => None,
        }
    }

    /// The text of the string member named `key`.
    pub fn text_at(&self, key: &str) -> (out: Option<&String>)
        ensures
            match out {
                Some(s) => text_field(self@, key@) == Some(s@),
                None => text_field(self@, key@) is None,
            },
    {
        match self.get(key) {
            Some(value) => value.as_text(),
            None => None,
        }
    }

    /// The number, where this is a number written in digits only that
    /// fits in 64 bits.
    pub fn as_u64(&self) -> (out: Option<u64>)
        ensures
            match out {
                Some(n) => count_of(self@) == Some(n as int),
                None => count_of(self@) is None,
            },
    {
        match self {
            Json::Number(n) => {
                let digits = chars_of(n.as_str());
                if digits.len() > 0 && digits[0] == '+' {
                    None
                } else {
                    crate::text::parse_unsigned(&digits)
                }
            },
            _ => None,
        }
    }

    /// A string document holding `s`.
    pub fn text(s: &str) -> (out: Json)
        ensures
            out@ == JsonView::Text(s@),
    {
        Json::Text(s.to_string())
    }
}

// ---------------------------------------------------------------------------
// Building documents
// ---------------------------------------------------------------------------

/// An object with the given members.
pub open spec fn object(members: Seq<(Seq<char>, JsonView)>) -> JsonView {
    JsonView::Object(members)
}

/// A string document.
pub open spec fn text(s: Seq<char>) -> JsonView {
    JsonView::Text(s)
}

/// A number document that holds `n`.
pub open spec fn number(n: nat) -> JsonView {
    JsonView::Number(crate::text::decimal_text(n))
}

/// Appends the member `key: value`.
pub fn push_member(members: &mut Vec<(String, Json)>, key: &str, value: Json)
    ensures
        member_views(final(members)@) == member_views(old(members)@).push((key@, value@)),
{
    members.push((key.to_string(), value));
}

/// Appends the string member `key: value`.
pub fn push_text_member(members: &mut Vec<(String, Json)>, key: &str, value: &str)
    ensures
        member_views(final(members)@) == member_views(old(members)@).push((key@, text(value@))),
{
    push_member(members, key, Json::Text(value.to_string()));
}

/// No members yet.
pub fn no_members() -> (members: Vec<(String, Json)>)
    ensures
        member_views(members@) == Seq::<(Seq<char>, JsonView)>::empty(),
{
    let members: Vec<(String, Json)> = Vec::new();
    members
}

/// The object with the given members.
pub fn object_of(members: Vec<(String, Json)>) -> (out: Json)
    ensures
        out@ == object(member_views(members@)),
{
    proof {
        lemma_object_view(members);
    }
    Json::Object(members)
}

/// The array with the given items.
pub fn array_of(items: Vec<Json>) -> (out: Json)
    ensures
        out@ == JsonView::Array(item_views(items@)),
{
    proof {
        lemma_array_view(items);
    }
    Json::Array(items)
}

/// The number document that holds `n`.
pub fn number_of(n: u64) -> (out: Json)
    ensures
        out@ == number(n as nat),
{
    Json::Number(crate::text::decimal(n))
}

/// The object with the one string member `key: value`, as JSON text.
pub fn render_text_object(key: &str, value: &str) -> (out: String)
    ensures
        out@ == rendered_json(object(seq![(key@, text(value@))])),
{
    let mut members = no_members();
    push_text_member(&mut members, key, value);
    render_json(&object_of(members))
}

} // verus!
