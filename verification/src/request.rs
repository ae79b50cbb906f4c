//! Requests: their configuration, the exchange that one send plans, and the
//! result that the caller gets for what the transport reports.

use crate::response::{Response, ResponseView};
use crate::target::{
    has_scheme, lemma_normalized_is_settled, normalize, normalized, parse_absolute, url_parse,
};
use std::time::Duration;
use vstd::prelude::*;

verus! {

/// The methods that a request can be sent with.
#[derive(Debug, Clone, Copy, PartialEq, Eq, Structural)]
pub enum RequestMethod {
    GET,
    POST,
}

/// Why a send gave no response.
#[derive(Debug, PartialEq, Eq)]
pub enum RequestError {
    /// The request was well formed and the exchange over the network failed.
    /// Holds the transport's message.
    ConnectionFailed(String),
    /// The target stands for no URL, so that nothing was sent. Holds the
    /// parser's message.
    InvalidConfiguration(String),
}

/// An error as contracts see it.
pub enum RequestErrorView {
    ConnectionFailed(Seq<char>),
    InvalidConfiguration(Seq<char>),
}

impl View for RequestError {
    type V = RequestErrorView;

    open spec fn view(&self) -> RequestErrorView {
        match self {
            RequestError::ConnectionFailed(message) => RequestErrorView::ConnectionFailed(
                message@,
            ),
            RequestError::InvalidConfiguration(message) => RequestErrorView::InvalidConfiguration(
                message@,
            ),
        }
    }
}

impl RequestErrorView {
    /// The line that describes the error to a reader.
    pub open spec fn description(self) -> Seq<char> {
        match self {
            RequestErrorView::ConnectionFailed(message) => "connection error: "@ + message,
            RequestErrorView::InvalidConfiguration(message) => "invalid request: "@ + message,
        }
    }
}

impl RequestError {
    /// Describes the error in one line: its kind, then the message it holds.
    pub fn to_string(&self) -> (line: String)
        ensures
            line@ == self@.description(),
    {
        match self {
            RequestError::ConnectionFailed(message) => String::from_str(
                "connection error: ",
            ).concat(message.as_str()),
            RequestError::InvalidConfiguration(message) => String::from_str(
                "invalid request: ",
            ).concat(message.as_str()),
        }
    }
}

/// What a send returns: the server's response, or the reason there is none.
pub type RequestResult = Result<Response, RequestError>;

/// A result of a send as contracts see it.
pub open spec fn result_view(result: RequestResult) -> Result<ResponseView, RequestErrorView> {
    match result {
        Ok(response) => Ok(response@),
        Err(error) => Err(error@),
    }
}

/// The one exchange that a send hands to the transport: the method, the
/// absolute URL as the parser serialized it, and the time allowed for the
/// whole round trip, where the request sets one.
#[derive(Debug, PartialEq, Eq)]
pub struct Dispatch {
    pub method: RequestMethod,
    pub url: String,
    pub timeout: Option<Duration>,
}

/// An exchange as contracts see it.
pub struct DispatchView {
    pub method: RequestMethod,
    pub url: Seq<char>,
    pub timeout: Option<Duration>,
}

impl View for Dispatch {
    type V = DispatchView;

    open spec fn view(&self) -> DispatchView {
        DispatchView { method: self.method, url: self.url@, timeout: self.timeout }
    }
}

/// The absolute URL that `target` stands for, as the parser serializes it,
/// or the invalid configuration that it is where the parser refuses it. The
/// parser is asked once, for the target with its scheme settled.
pub open spec fn resolved(target: Seq<char>) -> Result<Seq<char>, RequestErrorView> {
    match url_parse(normalized(target)) {
        Ok(url) => Ok(url),
        Err(message) => Err(RequestErrorView::InvalidConfiguration(message)),
    }
}

/// The exchange that a send with this timeout, method and target plans, or
/// the error with which it ends before anything is sent.
pub open spec fn planned(
    timeout: Option<Duration>,
    method: RequestMethod,
    target: Seq<char>,
) -> Result<DispatchView, RequestErrorView> {
    match resolved(target) {
        Ok(url) => Ok(DispatchView { method, url, timeout }),
        Err(error) => Err(error),
    }
}

/// The result of a send whose transport reported `outcome`: the response as
/// it came, whatever its status, or the transport's message as a failed
/// connection.
pub open spec fn concluded(outcome: Result<Response, String>) -> RequestResult {
    match outcome {
        Ok(response) => Ok(response),
        Err(message) => Err(RequestError::ConnectionFailed(message)),
    }
}

/// What a transport reported, as contracts see it: the response, or the
/// message of its failure.
pub open spec fn outcome_view(outcome: Result<Response, String>) -> Result<
    ResponseView,
    Seq<char>,
> {
    match outcome {
        Ok(response) => Ok(response@),
        Err(message) => Err(message@),
    }
}

/// Sets up single HTTP requests and sends them.
#[derive(Debug)]
pub struct Request {
    timeout: Option<Duration>,
}

impl Request {
    /// The time that this request allows a send, if it limits it.
    pub closed spec fn spec_timeout(&self) -> Option<Duration> {
        self.timeout
    }

    /// This request with `duration` as the time allowed, whatever it allowed
    /// before.
    pub closed spec fn spec_with_timeout(self, duration: Duration) -> Request {
        Request { timeout: Some(duration) }
    }

    /// A request that sets no timeout: a send waits as long as the transport
    /// does.
    pub fn new() -> (request: Self)
        ensures
            request.timeout() is None,
    {
        Request { timeout: None }
    }

    /// Allows `duration` for each send, connecting and answering together.
    /// The last duration set is the one that counts.
    #[verifier::when_used_as_spec(spec_with_timeout)]
    pub fn with_timeout(self, duration: Duration) -> (request: Self)
        ensures
            request == self.spec_with_timeout(duration),
            request.timeout() == Some(duration),
    {
        let mut request = self;
        request.timeout = Some(duration);
        request
    }

    /// The time that this request allows a send, if it limits it.
    #[verifier::when_used_as_spec(spec_timeout)]
    pub fn timeout(&self) -> (timeout: Option<Duration>)
        ensures
            timeout == self.spec_timeout(),
    {
        self.timeout
    }

    /// Says what the parser made of a target in this library's terms: the
    /// URL as it is, a refusal as an invalid configuration with the parser's
    /// message.
    pub fn classify_parse(parsed: Result<String, String>) -> (url: Result<String, RequestError>)
        ensures
            match parsed {
                Ok(text) => url == Ok::<String, RequestError>(text),
                Err(message) => url == Err::<String, RequestError>(
                    RequestError::InvalidConfiguration(message),
                ),
            },
    {
        match parsed {
            Ok(text) => Ok(text),
            Err(message) => Err(RequestError::InvalidConfiguration(message)),
        }
    }

    /// Reads `target` as an absolute URL, over plaintext HTTP where it names
    /// no scheme. The parser decides once: a target that it refuses is an
    /// invalid configuration.
    pub fn parse_url(target: &str) -> (url: Result<String, RequestError>)
        ensures
            match url {
                Ok(text) => resolved(target@) == Ok::<Seq<char>, RequestErrorView>(text@),
                Err(error) => resolved(target@) == Err::<Seq<char>, RequestErrorView>(error@),
            },
    {
        let text = normalize(target);
        Self::classify_parse(parse_absolute(text.as_str()))
    }

    /// The first step of a send. Plans the exchange without touching the
    /// network: the method, the URL that `target` stands for, and this
    /// request's timeout. A target that stands for no URL ends the send here.
    pub fn prepare(&self, method: RequestMethod, target: &str) -> (plan: Result<
        Dispatch,
        RequestError,
    >)
        ensures
            match plan {
                Ok(dispatch) => planned(self.timeout(), method, target@) == Ok::<
                    DispatchView,
                    RequestErrorView,
                >(dispatch@),
                Err(error) => planned(self.timeout(), method, target@) == Err::<
                    DispatchView,
                    RequestErrorView,
                >(error@),
            },
    {
        match Self::parse_url(target) {
            Ok(url) => Ok(Dispatch { method, url, timeout: self.timeout }),
            Err(error) => Err(error),
        }
    }

    /// The last step of a send. Turns what the transport reported into the
    /// result: a response is returned as it came, whatever its status, and a
    /// failure as a failed connection with the transport's message.
    pub fn conclude(outcome: Result<Response, String>) -> (result: RequestResult)
        ensures
            result == concluded(outcome),
    {
        match outcome {
            Ok(response) => Ok(response),
            Err(message) => Err(RequestError::ConnectionFailed(message)),
        }
    }

    /// Sends one request to `target` through `transport` and waits for the
    /// result.
    ///
    /// A target that stands for no URL ends the send before the transport is
    /// asked for anything, so the transport need not accept any exchange but
    /// the planned one. Otherwise the transport is handed the planned
    /// exchange, once, and what it reports is the result: a response of any
    /// status, or a failed connection. Nothing is tried a second time, and
    /// the request itself is left as it was.
    pub fn send<T>(&self, method: RequestMethod, target: &str, transport: T) -> (result:
        RequestResult) where T: FnOnce(Dispatch) -> Result<Response, String>
        requires
            forall|dispatch: Dispatch|
                planned(self.timeout(), method, target@) == Ok::<
                    DispatchView,
                    RequestErrorView,
                >(dispatch@) ==> #[trigger] transport.requires((dispatch,)),
        ensures
            match planned(self.timeout(), method, target@) {
                Ok(plan) => exists|dispatch: Dispatch, outcome: Result<Response, String>|
                    dispatch@ == plan && #[trigger] transport.ensures((dispatch,), outcome)
                        && result == concluded(outcome),
                Err(error) => result_view(result) == Err::<ResponseView, RequestErrorView>(error),
            },
    {
        match self.prepare(method, target) {
            Ok(dispatch) => Self::conclude(transport(dispatch)),
            Err(error) => Err(error),
        }
    }
}

/// A target that names no scheme is sent as the same target behind
/// `http://`: the two stand for the same URL and plan the same exchange, or
/// end in the same error.
pub proof fn lemma_scheme_defaults_to_http(
    timeout: Option<Duration>,
    method: RequestMethod,
    target: Seq<char>,
)
    requires
        !has_scheme(target),
    ensures
        resolved(target) == resolved("http://"@ + target),
        planned(timeout, method, target) == planned(timeout, method, "http://"@ + target),
{
    lemma_normalized_is_settled(target);
}

/// Only a failure of the transport is a failed connection. A response is
/// the result as it came, status and body, whatever the status says.
pub proof fn lemma_only_failure_fails(outcome: Result<Response, String>)
    ensures
        concluded(outcome) is Ok <==> outcome is Ok,
        outcome matches Ok(response) ==> result_view(concluded(outcome)) == Ok::<
            ResponseView,
            RequestErrorView,
        >(response@),
        outcome matches Err(message) ==> result_view(concluded(outcome)) == Err::<
            ResponseView,
            RequestErrorView,
        >(RequestErrorView::ConnectionFailed(message@)),
{
}

/// A send is repeatable. Two requests that allow the same time plan the same
/// exchange for one method and target, and where the transport reports the
/// same status and body again, or the same failure, the caller gets the same
/// result again.
pub proof fn lemma_send_is_repeatable(
    first: Request,
    second: Request,
    method: RequestMethod,
    target: Seq<char>,
    once: Result<Response, String>,
    again: Result<Response, String>,
)
    requires
        first.timeout() == second.timeout(),
        outcome_view(once) == outcome_view(again),
    ensures
        planned(first.timeout(), method, target) == planned(second.timeout(), method, target),
        result_view(concluded(once)) == result_view(concluded(again)),
{
}

/// Of two timeouts set one after the other only the second counts: the
/// request is the one that the second alone gives, and so is the exchange
/// that it plans.
pub proof fn lemma_last_timeout_counts(
    request: Request,
    earlier: Duration,
    later: Duration,
    method: RequestMethod,
    target: Seq<char>,
)
    ensures
        request.with_timeout(earlier).with_timeout(later) == request.with_timeout(later),
        request.with_timeout(earlier).with_timeout(later).timeout() == Some(later),
        planned(request.with_timeout(earlier).with_timeout(later).timeout(), method, target)
            == planned(Some(later), method, target),
{
}

} // verus!
