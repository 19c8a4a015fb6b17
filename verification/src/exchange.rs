//! What passes between the engine and the host that does its arithmetic.

use vstd::prelude::*;
use crate::number::{Number, Operation};

verus! {

/// How far the engine has come with the key it is serving.
///
/// `next` is the operator to install once the key is served: the one of an
/// operator key, none for the equals key.
#[derive(Clone, Copy, Debug, PartialEq, Eq)]
pub enum Stage {
    /// No key is being served.
    Idle,
    /// The host has been asked to read the input.
    Reading { next: Option<Operation> },
    /// The host has been asked to apply the pending operator.
    Applying { next: Option<Operation> },
    /// The host has been asked to write `value` out.
    Rendering { next: Option<Operation>, value: Number },
}

/// What the engine asks of its host.
#[derive(Debug, PartialEq, Eq)]
pub enum Request {
    /// Nothing: the key is served.
    Nothing,
    /// Read this text as a number.
    Read(String),
    /// Compute `left operator right`.
    Apply { operator: Operation, left: Number, right: Number },
    /// Write this number as text.
    Render(Number),
}

/// The host's answer to a request.
#[derive(Debug, PartialEq, Eq)]
pub enum Reply {
    /// The number that the text reads as, if it reads as one.
    Reading(Option<Number>),
    /// What the operator gave.
    Value(Number),
    /// The number's text.
    Text(String),
}

/// A request, with its text as a sequence of characters.
pub enum RequestView {
    Nothing,
    Read(Seq<char>),
    Apply { operator: Operation, left: Number, right: Number },
    Render(Number),
}

/// A reply, with its text as a sequence of characters.
pub enum ReplyView {
    Reading(Option<Number>),
    Value(Number),
    Text(Seq<char>),
}

impl View for Request {
    type V = RequestView;

    open spec fn view(&self) -> RequestView {
        match *self {
            Request::Nothing => RequestView::Nothing,
            Request::Read(text) => RequestView::Read(text@),
            Request::Apply { operator, left, right } => RequestView::Apply { operator, left, right },
            Request::Render(number) => RequestView::Render(number),
        }
    }
}

impl View for Reply {
    type V = ReplyView;

    open spec fn view(&self) -> ReplyView {
        match *self {
            Reply::Reading(reading) => ReplyView::Reading(reading),
            Reply::Value(value) => ReplyView::Value(value),
            Reply::Text(text) => ReplyView::Text(text@),
        }
    }
}

} // verus!
