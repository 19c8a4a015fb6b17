//! The values that the engine keeps and forwards without looking inside.

use vstd::prelude::*;

verus! {

/// A double-precision number, carried as its IEEE 754 bit pattern.
///
/// Two numbers are equal when their bits are: a negative zero differs from
/// a positive one, and a not-a-number value equals itself.
#[derive(Clone, Copy, Debug, PartialEq, Eq, Structural)]
pub struct Number {
    pub bits: u64,
}

/// One of the four functions.
#[derive(Clone, Copy, Debug, PartialEq, Eq, Structural)]
pub enum Operation {
    Add,
    Subtract,
    Multiply,
    Divide,
}

/// The operator that was chosen, with the value that stood when it was chosen.
#[derive(Clone, Copy, Debug, PartialEq, Eq, Structural)]
pub struct PendingOperation {
    pub accumulated: Number,
    pub operator: Operation,
}

} // verus!
