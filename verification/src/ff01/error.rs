//! Errors of the proxy and of the worker's requests.
use vstd::prelude::*;

use crate::ff01::channel::SendFailure;
use crate::ff01::InternalRequest;

verus! {

/// A failed transaction with the server, as the server client described it.
#[derive(Debug, Clone, PartialEq, Eq)]
pub struct ClientTransactionError {
    pub message: String,
}

/// Why a request to the server gave no usable answer.
#[derive(Debug, Clone, PartialEq, Eq)]
pub enum ResponseError {
    /// The transaction with the server failed.
    ClientTransaction(ClientTransactionError),
    /// The server answered, but with data that the machine cannot use.
    InvalidData(String),
}

/// Why a poll of the proxy gave no response.
#[derive(Debug, Clone, PartialEq, Eq)]
pub enum ProxyTransactionError {
    /// No request is queued.
    NoPendingRequest,
    /// The request is on its way; poll again.
    Pending,
    /// The channel to the worker is full; the request stays queued.
    ChannelFull,
    /// The channel to or from the worker is closed.
    ChannelClosed,
    /// The response does not answer the request that was made.
    TagMismatch,
    /// Another request is outstanding; nothing was queued.
    Busy,
    /// The worker answered with an error.
    Response(ResponseError),
}

/// The error that a refused send becomes.
pub open spec fn send_failure_error(err: SendFailure<InternalRequest>) -> ProxyTransactionError {
    match err {
        SendFailure::Full(_) => ProxyTransactionError::ChannelFull,
        SendFailure::Closed(_) => ProxyTransactionError::ChannelClosed,
    }
}

impl From<SendFailure<InternalRequest>> for ProxyTransactionError {
    fn from(err: SendFailure<InternalRequest>) -> (r: Self) {
        match err {
            SendFailure::Full(_) => ProxyTransactionError::ChannelFull,
            SendFailure::Closed(_) => ProxyTransactionError::ChannelClosed,
        }
    }
}

impl vstd::std_specs::convert::FromSpecImpl<SendFailure<InternalRequest>> for ProxyTransactionError {
    open spec fn obeys_from_spec() -> bool {
        true
    }

    open spec fn from_spec(v: SendFailure<InternalRequest>) -> Self {
        send_failure_error(v)
    }
}

impl From<ResponseError> for ProxyTransactionError {
    fn from(err: ResponseError) -> (r: Self) {
        ProxyTransactionError::Response(err)
    }
}

impl vstd::std_specs::convert::FromSpecImpl<ResponseError> for ProxyTransactionError {
    open spec fn obeys_from_spec() -> bool {
        true
    }

    open spec fn from_spec(v: ResponseError) -> Self {
        ProxyTransactionError::Response(v)
    }
}

impl From<ClientTransactionError> for ResponseError {
    fn from(err: ClientTransactionError) -> (r: Self) {
        ResponseError::ClientTransaction(err)
    }
}

impl vstd::std_specs::convert::FromSpecImpl<ClientTransactionError> for ResponseError {
    open spec fn obeys_from_spec() -> bool {
        true
    }

    open spec fn from_spec(v: ClientTransactionError) -> Self {
        ResponseError::ClientTransaction(v)
    }
}

} // verus!
