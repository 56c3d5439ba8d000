//! JSON-RPC 2.0 envelopes and the error codes of the surface.

use vstd::prelude::*;
use crate::model::{clone_opt_text, clone_opt_view, opt_text, opt_view};

verus! {

/// The text was not valid JSON.
pub const PARSE_ERROR: i64 = -32700;

/// No method has the requested name.
pub const METHOD_NOT_FOUND: i64 = -32601;

/// The parameters do not fit the method.
pub const INVALID_PARAMS: i64 = -32602;

/// A result could not be written.
pub const INTERNAL_ERROR: i64 = -32603;

/// The service refused the request; the message carries a stable code.
pub const DOMAIN_ERROR: i64 = -32000;

/// The identifier that ties a response to its request.
#[derive(Debug, PartialEq, Eq)]
pub enum Id {
    Number(u64),
    String(String),
    Null,
}

/// What contracts see of an [`Id`].
pub enum IdView {
    Number(u64),
    String(Seq<char>),
    Null,
}

impl View for Id {
    type V = IdView;

    open spec fn view(&self) -> IdView {
        match self {
            Id::Number(n) => IdView::Number(*n),
            Id::String(s) => IdView::String(s@),
            Id::Null => IdView::Null,
        }
    }
}

impl Clone for Id {
    fn clone(&self) -> (r: Self)
        ensures
            r@ == self@,
    {
        match self {
            Id::Number(n) => Id::Number(*n),
            Id::String(s) => Id::String(s.clone()),
            Id::Null => Id::Null,
        }
    }
}

/// A JSON-RPC 2.0 request whose parameters are kept as JSON text.
#[derive(Debug, PartialEq, Eq)]
pub struct Request {
    pub jsonrpc: String,
    pub id: Id,
    pub method: String,
    pub params_json: String,
}

/// What contracts see of a [`Request`].
pub struct RequestView {
    pub jsonrpc: Seq<char>,
    pub id: IdView,
    pub method: Seq<char>,
    pub params_json: Seq<char>,
}

impl View for Request {
    type V = RequestView;

    open spec fn view(&self) -> RequestView {
        RequestView {
            jsonrpc: self.jsonrpc@,
            id: self.id@,
            method: self.method@,
            params_json: self.params_json@,
        }
    }
}

impl Clone for Request {
    fn clone(&self) -> (r: Self)
        ensures
            r@ == self@,
    {
        Request {
            jsonrpc: self.jsonrpc.clone(),
            id: self.id.clone(),
            method: self.method.clone(),
            params_json: self.params_json.clone(),
        }
    }
}

/// A JSON-RPC 2.0 error object.
#[derive(Debug, PartialEq, Eq)]
pub struct Error {
    pub code: i64,
    pub message: String,
}

/// What contracts see of a [`Error`].
pub struct ErrorView {
    pub code: i64,
    pub message: Seq<char>,
}

impl View for Error {
    type V = ErrorView;

    open spec fn view(&self) -> ErrorView {
        ErrorView {
            code: self.code,
            message: self.message@,
        }
    }
}

impl Clone for Error {
    fn clone(&self) -> (r: Self)
        ensures
            r@ == self@,
    {
        Error {
            code: self.code,
            message: self.message.clone(),
        }
    }
}

/// A JSON-RPC 2.0 response: a result kept as JSON text, or an error.
#[derive(Debug, PartialEq, Eq)]
pub struct Response {
    pub jsonrpc: String,
    pub id: Id,
    pub result_json: Option<String>,
    pub error: Option<Error>,
}

/// What contracts see of a [`Response`].
pub struct ResponseView {
    pub jsonrpc: Seq<char>,
    pub id: IdView,
    pub result_json: Option<Seq<char>>,
    pub error: Option<ErrorView>,
}

impl View for Response {
    type V = ResponseView;

    open spec fn view(&self) -> ResponseView {
        ResponseView {
            jsonrpc: self.jsonrpc@,
            id: self.id@,
            result_json: opt_text(self.result_json),
            error: opt_view(self.error),
        }
    }
}

impl Clone for Response {
    fn clone(&self) -> (r: Self)
        ensures
            r@ == self@,
    {
        Response {
            jsonrpc: self.jsonrpc.clone(),
            id: self.id.clone(),
            result_json: clone_opt_text(&self.result_json),
            error: clone_opt_view(&self.error),
        }
    }
}

impl Request {
    /// A version 2.0 request.
    pub fn new(id: Id, method: &str, params_json: &str) -> (r: Self)
        ensures
            r@ == (RequestView {
                jsonrpc: "2.0"@,
                id: id@,
                method: method@,
                params_json: params_json@,
            }),
    {
        Request {
            jsonrpc: "2.0".to_string(),
            id,
            method: method.to_string(),
            params_json: params_json.to_string(),
        }
    }
}

impl Response {
    /// A response that carries a result and no error.
    pub fn success(id: Id, result_json: &str) -> (r: Self)
        ensures
            r@ == (ResponseView {
                jsonrpc: "2.0"@,
                id: id@,
                result_json: Some(result_json@),
                error: None,
            }),
    {
        Response {
            jsonrpc: "2.0".to_string(),
            id,
            result_json: Some(result_json.to_string()),
            error: None,
        }
    }

    /// A response that carries an error and no result.
    pub fn error(id: Id, code: i64, message: &str) -> (r: Self)
        ensures
            r@ == (ResponseView {
                jsonrpc: "2.0"@,
                id: id@,
                result_json: None,
                error: Some(ErrorView { code, message: message@ }),
            }),
    {
        Response {
            jsonrpc: "2.0".to_string(),
            id,
            result_json: None,
            error: Some(Error { code, message: message.to_string() }),
        }
    }
}

} // verus!
