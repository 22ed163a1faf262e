//! Messages exchanged between the render thread and the streaming worker.
use vstd::prelude::*;

verus! {

/// A message on either of the two channels. The render thread sends only
/// `PlayerMove`; the worker sends only `Submit`, which carries the upload
/// command for a rebuilt spatial index, the new origin and the new root size.
#[derive(Debug, PartialEq)]
pub enum ClientMessage<C, V, R> {
    PlayerMove(V),
    Submit(C, V, R),
}

/// What one non-blocking look at the worker's channel found.
#[derive(Debug, PartialEq)]
pub enum Incoming<C, V, R> {
    Empty,
    Message(ClientMessage<C, V, R>),
    Disconnected,
}

} // verus!
