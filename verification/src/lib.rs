//! A four-function desk calculator with one pending operand and one pending
//! operator.
//!
//! The engine interprets key events and keeps the text being composed, the
//! text of the last result and the operation that waits for its second
//! operand. It decides; it does not compute with numbers. Wherever a key needs
//! a text read as a number, two numbers combined, or a number written out, the
//! engine hands its host a [`Request`](exchange::Request) and goes on when
//! the host comes back with the [`Reply`](exchange::Reply).
//!
//! [`model`] states the calculator's rules over any arithmetic the host may
//! bring, and [`laws`] proves what follows from them.

pub mod engine;
pub mod event;
pub mod exchange;
pub mod laws;
pub mod model;
pub mod number;
mod text;
