//! The envelope in which the host answers a request.

use vstd::prelude::*;

verus! {

/// A request, as it is handed to the host.
pub struct RequestData {
    pub method: String,
    pub url: String,
    pub headers: Vec<(String, String)>,
    pub body: Option<String>,
}

impl RequestData {
    /// A request with the given parts.
    pub fn new(
        method: String,
        url: String,
        headers: Vec<(String, String)>,
        body: Option<String>,
    ) -> (r: RequestData)
        ensures
            r.method == method,
            r.url == url,
            r.headers == headers,
            r.body == body,
    {
        RequestData { method, url, headers, body }
    }
}

/// The answer of the host: a code, and with it either a response or a
/// message that says what went wrong.
#[derive(Debug)]
pub struct ResponseData {
    pub code: Option<u8>,
    pub response: Option<Response>,
    pub message: Option<String>,
}

/// The response inside an answer of the host.
#[derive(Debug)]
pub struct Response {
    pub status: u16,
    pub headers: Vec<(String, String)>,
    pub body: Option<String>,
}

impl ResponseData {
    /// Whether the answer carries a response: it has a code and a response.
    pub open spec fn has_response(&self) -> bool {
        self.code is Some && self.response is Some
    }

    /// The response that the answer carries. An answer without one cannot be
    /// asked for it.
    pub fn print_response(self) -> (r: Response)
        requires
            self.has_response(),
        ensures
            Some(r) == self.response,
    {
        match self.response {
            Some(response) => response,
            None => unreached(),
        }
    }
}

} // verus!
