//! The channels between the proxy and its worker (smol's `channel` module).
//!
//! A channel is shared between two threads: what a receive gives back
//! depends on what the other side did meanwhile, so nothing is promised of
//! it but its shape. A refused send hands the message back unchanged.
use vstd::prelude::*;

use smol::channel::{Receiver, Sender};

verus! {

#[verifier::external_type_specification]
#[verifier::external_body]
#[verifier::reject_recursive_types(T)]
pub struct ExSender<T>(Sender<T>);

#[verifier::external_type_specification]
#[verifier::external_body]
#[verifier::reject_recursive_types(T)]
pub struct ExReceiver<T>(Receiver<T>);

/// Why a send did not go through; the message comes back with it.
#[derive(Debug)]
pub enum SendFailure<T> {
    /// The channel is full but not closed.
    Full(T),
    /// The channel is closed.
    Closed(T),
}

/// Why a receive gave nothing.
#[derive(Debug, Clone, Copy, PartialEq, Eq)]
pub enum RecvFailure {
    /// The channel is empty but not closed.
    Empty,
    /// The channel is empty and closed.
    Closed,
}

/// `smol::channel::unbounded`: a fresh channel that holds any number of
/// messages, as a connected sending and receiving end. Nothing is stated of
/// the two ends beyond their types.
#[verifier::external_body]
pub fn open_unbounded<T>() -> (Sender<T>, Receiver<T>) {
    smol::channel::unbounded()
}

/// `Sender::try_send`: hands `msg` to the channel without waiting. Stated:
/// when the channel refuses it (full or closed), the very message that was
/// given comes back. Whether it is refused depends on the other end and is
/// not stated.
#[verifier::external_body]
pub fn try_send<T>(sender: &Sender<T>, msg: T) -> (r: Result<(), SendFailure<T>>)
    ensures
        r matches Err(SendFailure::Full(back)) ==> back == msg,
        r matches Err(SendFailure::Closed(back)) ==> back == msg,
{
    match sender.try_send(msg) {
        Ok(()) => Ok(()),
        Err(smol::channel::TrySendError::Full(back)) => Err(SendFailure::Full(back)),
        Err(smol::channel::TrySendError::Closed(back)) => Err(SendFailure::Closed(back)),
    }
}

/// `Receiver::try_recv`: takes the next message without waiting. What comes
/// back depends on the sending thread; nothing is stated of it but that the
/// ghost half of the result is a copy of what came back, which callers keep
/// as the record of the receive.
#[verifier::external_body]
pub fn try_recv<T>(receiver: &Receiver<T>) -> (r: (Result<T, RecvFailure>, Ghost<Result<T, RecvFailure>>))
    ensures
        r.1@ == r.0,
{
    let got = match receiver.try_recv() {
        Ok(msg) => Ok(msg),
        Err(smol::channel::TryRecvError::Empty) => Err(RecvFailure::Empty),
        Err(smol::channel::TryRecvError::Closed) => Err(RecvFailure::Closed),
    };
    let copy = Ghost(got);
    (got, copy)
}

} // verus!
