//! The requests that a program asks its host to send, and the responses it
//! gets back, as plain data.

use crate::json::{as_u64, get, json_model, JsonModel, NumberModel};
use vstd::prelude::*;

verus! {

/// The method of a request.
#[derive(Debug, Clone, Copy, PartialEq, Eq, Structural)]
pub enum NetworkingRequestMethod {
    Get,
    Post,
    Delete,
    Put,
    Patch,
    Head,
    Options,
}

/// The headers of a request or response: names and values, in order.
pub type NetworkingHeaders = Vec<(String, String)>;

/// The body of a request or response, if it has one.
pub type NetworkingBody = Option<String>;

/// A request to send.
#[derive(Debug)]
pub struct NetworkingRequest {
    pub method: NetworkingRequestMethod,
    pub url: String,
    pub headers: NetworkingHeaders,
    pub body: NetworkingBody,
}

/// The response to a request.
#[derive(Debug)]
pub struct NetworkingResponse {
    pub status: u16,
    pub headers: NetworkingHeaders,
    pub body: NetworkingBody,
}

/// The failure of a request, as the host reports it.
#[derive(Debug)]
pub struct NetworkingError {
    pub code: u8,
    pub message: String,
}

/// What the answer of the host carries, as its `code` member says.
#[derive(Debug, Clone, Copy, PartialEq, Eq, Structural)]
pub enum AnswerKind {
    /// Code 0: the answer carries a response.
    Response,
    /// Any other code: the request failed. The code is kept as its lowest
    /// eight bits.
    Failure(u8),
    /// The answer has no `code` member, or the member is not a non-negative
    /// integer.
    Malformed,
}

/// What an answer document carries.
pub open spec fn answer_kind_of(answer: JsonModel) -> AnswerKind {
    match answer.member("code"@) {
        Some(JsonModel::Number(NumberModel::PosInt(code))) => if code == 0 {
            AnswerKind::Response
        } else {
            AnswerKind::Failure((code % 256) as u8)
        },
        _ => AnswerKind::Malformed,
    }
}

/// Decides by the `code` member of an answer of the host whether the answer
/// carries a response or a failure.
pub fn answer_kind(answer: &serde_json::Value) -> (r: AnswerKind)
    ensures
        r == answer_kind_of(json_model(*answer)),
{
    match get(answer, "code") {
        Some(code) => match as_u64(code) {
            Some(code) => {
                if code == 0 {
                    AnswerKind::Response
                } else {
                    AnswerKind::Failure((code % 256) as u8)
                }
            },
            None => AnswerKind::Malformed,
        },
        None => AnswerKind::Malformed,
    }
}

impl NetworkingRequest {
    /// A `GET` request. It has no body.
    pub fn get(url: String, headers: NetworkingHeaders) -> (r: Self)
        ensures
            r.method == NetworkingRequestMethod::Get,
            r.url == url,
            r.headers == headers,
            r.body is None,
    {
        Self { method: NetworkingRequestMethod::Get, url, headers, body: None }
    }

    /// A `POST` request.
    pub fn post(url: String, headers: NetworkingHeaders, body: NetworkingBody) -> (r: Self)
        ensures
            r.method == NetworkingRequestMethod::Post,
            r.url == url,
            r.headers == headers,
            r.body == body,
    {
        Self { method: NetworkingRequestMethod::Post, url, headers, body }
    }

    /// A `PUT` request.
    pub fn put(url: String, headers: NetworkingHeaders, body: NetworkingBody) -> (r: Self)
        ensures
            r.method == NetworkingRequestMethod::Put,
            r.url == url,
            r.headers == headers,
            r.body == body,
    {
        Self { method: NetworkingRequestMethod::Put, url, headers, body }
    }

    /// A `DELETE` request.
    pub fn delete(url: String, headers: NetworkingHeaders, body: NetworkingBody) -> (r: Self)
        ensures
            r.method == NetworkingRequestMethod::Delete,
            r.url == url,
            r.headers == headers,
            r.body == body,
    {
        Self { method: NetworkingRequestMethod::Delete, url, headers, body }
    }

    /// A `PATCH` request.
    pub fn patch(url: String, headers: NetworkingHeaders, body: NetworkingBody) -> (r: Self)
        ensures
            r.method == NetworkingRequestMethod::Patch,
            r.url == url,
            r.headers == headers,
            r.body == body,
    {
        Self { method: NetworkingRequestMethod::Patch, url, headers, body }
    }

    /// A `HEAD` request. It has no body.
    pub fn head(url: String, headers: NetworkingHeaders) -> (r: Self)
        ensures
            r.method == NetworkingRequestMethod::Head,
            r.url == url,
            r.headers == headers,
            r.body is None,
    {
        Self { method: NetworkingRequestMethod::Head, url, headers, body: None }
    }

    /// A request for the options of a resource. It is sent with the method
    /// `GET` and has no body.
    pub fn options(url: String, headers: NetworkingHeaders) -> (r: Self)
        ensures
            r.method == NetworkingRequestMethod::Get,
            r.url == url,
            r.headers == headers,
            r.body is None,
    {
        Self { method: NetworkingRequestMethod::Get, url, headers, body: None }
    }
}

} // verus!
