//! A single blocking HTTP exchange: how a loosely written target becomes a
//! request, and how what the transport reports becomes a typed result.
//!
//! A [`Request`] holds what is configured before a send, which is a timeout
//! or nothing. [`Request::send`] takes a method, a target and a transport. It
//! settles the target's scheme, has the target parsed as an absolute URL, and
//! hands the transport one [`Dispatch`] to perform. The transport alone
//! touches the network: it is any function from a `Dispatch` to a
//! [`Response`] or to the message of its failure. Its report comes back as a
//! [`RequestResult`], in which a response of any status is a success, a
//! failure of the transport is [`RequestError::ConnectionFailed`], and a
//! target that is no URL is [`RequestError::InvalidConfiguration`].
//!
//! The two steps of a send can also be taken one by one, with
//! [`Request::prepare`] before the exchange and [`Request::conclude`] after
//! it.

pub mod request;
pub mod response;
pub mod target;

pub use request::{Dispatch, Request, RequestError, RequestMethod, RequestResult};
pub use response::Response;
