//! The vocabulary between a flow and the program that drives it.
//!
//! A flow never touches the network. It hands out an [`Action`], the
//! driver carries it out and reports an [`Event`], and the flow decides
//! what comes next. One call against the catalog takes two rounds: the
//! flow asks for the call and is told the status of the answer; only where
//! that status is a success does it ask for the body to be decoded.

use crate::failure::Failure;
use crate::http::{Request, RequestView};
use crate::model::{GiantBombGameResponse, GiantBombResponse, GiantBombSearchResponse};
use vstd::prelude::*;

verus! {

/// The shape in which the body of an answer is to be read.
#[derive(Debug, Clone, Copy, PartialEq, Eq, Structural)]
pub enum Shape {
    /// A list of detail addresses.
    List,
    /// One game.
    Detail,
    /// A list of games.
    Search,
}

/// What a flow waits for while a call is under way.
#[derive(Debug, Clone, Copy, PartialEq, Eq, Structural)]
pub enum Awaiting {
    /// The status of the answer to the request last sent.
    Status,
    /// The decoded body of that answer.
    Body,
}

/// What the driver reports to a flow.
#[derive(Debug, PartialEq)]
pub enum Event {
    /// The call, or the reading of its answer, failed in transport.
    Unreachable,
    /// The answer arrived, with this status.
    Status(u16),
    /// The body could not be read in the shape asked for.
    Undecodable,
    /// The body, read as a list of detail addresses.
    List(GiantBombResponse),
    /// The body, read as one game.
    Detail(GiantBombGameResponse),
    /// The body, read as a list of games.
    Search(GiantBombSearchResponse),
}

/// What a flow asks of the driver, or tells it. `T` is what the flow
/// delivers in the end.
#[derive(Debug, PartialEq)]
pub enum Action<T> {
    /// Send this request and report the status of the answer.
    Send(Request),
    /// Decode the body of the answer in this shape and report it.
    Decode(Shape),
    /// The operation is complete, with this result.
    Deliver(T),
    /// The operation has failed, for this reason.
    Fail(Failure),
    /// The flow had ended before; nothing is to be done.
    Idle,
}

/// An action as plain values.
pub enum ActionView<T> {
    Send(RequestView),
    Decode(Shape),
    Deliver(T),
    Fail(Failure),
    Idle,
}

impl<T> View for Action<T> {
    type V = ActionView<T>;

    open spec fn view(&self) -> ActionView<T> {
        match self {
            Action::Send(request) => ActionView::Send(request@),
            Action::Decode(shape) => ActionView::Decode(*shape),
            Action::Deliver(result) => ActionView::Deliver(*result),
            Action::Fail(failure) => ActionView::Fail(*failure),
            Action::Idle => ActionView::Idle,
        }
    }
}

} // verus!
