//! What a completed exchange leaves with the caller.

use vstd::prelude::*;

verus! {

/// The answer of a server: its status code and its body, decoded as text.
///
/// Any status is an answer. One outside the successful range is no failure
/// of the exchange, and is kept as it came.
#[derive(Debug, PartialEq, Eq)]
pub struct Response {
    status_code: u16,
    text: String,
}

/// A response as contracts see it.
pub struct ResponseView {
    pub status_code: u16,
    pub text: Seq<char>,
}

impl View for Response {
    type V = ResponseView;

    closed spec fn view(&self) -> ResponseView {
        ResponseView { status_code: self.status_code, text: self.text@ }
    }
}

impl Response {
    /// Keeps what a transport read from a server.
    pub fn new(status_code: u16, text: String) -> (response: Self)
        ensures
            response@ == (ResponseView { status_code, text: text@ }),
    {
        Response { status_code, text }
    }

    /// The status code that the server answered with.
    pub fn status_code(&self) -> (code: u16)
        ensures
            code == self@.status_code,
    {
        self.status_code
    }

    /// The body that the server answered with.
    pub fn text(&self) -> (body: &str)
        ensures
            body@ == self@.text,
    {
        self.text.as_str()
    }
}

} // verus!
