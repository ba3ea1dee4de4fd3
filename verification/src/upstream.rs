//! What an upstream call came to, as the caller reports it back.

use vstd::prelude::*;
use crate::response::{caused, describe, error_reply, Response, ResponseView, INTERNAL_SERVER_ERROR};

verus! {

/// What the ledger holds for one account, as far as the gateway reports it.
#[derive(Clone, Copy, Debug, PartialEq, Eq)]
pub struct AccountSnapshot {
    /// The balance, in lamports.
    pub lamports: u64,
    /// The length of the account's data, in bytes.
    pub data_size: usize,
}

impl View for AccountSnapshot {
    type V = AccountSnapshot;

    open spec fn view(&self) -> AccountSnapshot {
        *self
    }
}

/// The outcome of one upstream call. It is made for that call and used once.
#[derive(Debug, PartialEq, Eq)]
pub enum UpstreamResult<T> {
    /// The upstream answered.
    Success(T),
    /// The upstream answered with a failure of its own.
    UpstreamError(String),
    /// The upstream could not be reached, or what it sent could not be read.
    TransportError(String),
    /// The call was never made: handing it to a worker failed.
    SchedulingError(String),
}

/// The mathematical content of an [`UpstreamResult`].
pub enum Outcome<V> {
    Success(V),
    UpstreamError(Seq<char>),
    TransportError(Seq<char>),
    SchedulingError(Seq<char>),
}

impl<T: View> View for UpstreamResult<T> {
    type V = Outcome<T::V>;

    open spec fn view(&self) -> Outcome<T::V> {
        match *self {
            UpstreamResult::Success(payload) => Outcome::Success(payload@),
            UpstreamResult::UpstreamError(message) => Outcome::UpstreamError(message@),
            UpstreamResult::TransportError(message) => Outcome::TransportError(message@),
            UpstreamResult::SchedulingError(message) => Outcome::SchedulingError(message@),
        }
    }
}

impl<V> Outcome<V> {
    /// The message that reports this outcome where it is a failure. `what`
    /// says what was attempted; a failure to schedule names itself.
    pub open spec fn failure_message(self, what: Seq<char>) -> Seq<char> {
        match self {
            Outcome::Success(_) => Seq::empty(),
            Outcome::UpstreamError(message) => caused(what, message),
            Outcome::TransportError(message) => caused(what, message),
            Outcome::SchedulingError(message) => caused("Task failed"@, message),
        }
    }

    /// The response to a failed outcome: always a server error.
    pub open spec fn failure_reply(self, what: Seq<char>) -> ResponseView {
        error_reply(INTERNAL_SERVER_ERROR, self.failure_message(what))
    }
}

impl<T: View> UpstreamResult<T> {
    /// Opens the outcome: the payload of a success, or the response that
    /// reports the failure of what was attempted.
    pub fn payload_or(self, what: &str) -> (r: Result<T, Response>)
        ensures
            match r {
                Ok(payload) => self@ == Outcome::Success(payload@),
                Err(response) => !(self@ is Success) && response@ == self@.failure_reply(what@),
            },
    {
        match self {
            UpstreamResult::Success(payload) => Ok(payload),
            UpstreamResult::UpstreamError(cause) => {
                let message = describe(what, cause.as_str());
                Err(Response::error(INTERNAL_SERVER_ERROR, message.as_str()))
            },
            UpstreamResult::TransportError(cause) => {
                let message = describe(what, cause.as_str());
                Err(Response::error(INTERNAL_SERVER_ERROR, message.as_str()))
            },
            UpstreamResult::SchedulingError(cause) => {
                let message = describe("Task failed", cause.as_str());
                Err(Response::error(INTERNAL_SERVER_ERROR, message.as_str()))
            },
        }
    }
}

} // verus!
