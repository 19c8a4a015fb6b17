//! Key events, and the keys of the keypad that give them.

use vstd::prelude::*;
use crate::number::Operation;

verus! {

/// One discrete input to the engine.
#[derive(Clone, Copy, Debug, PartialEq, Eq, Structural)]
pub enum Event {
    /// A character typed into the operand.
    Digit(char),
    /// One of `+ - * /`.
    Operator(Operation),
    /// `=`.
    Equals,
    /// `C`.
    Clear,
}

/// The event that a key of the keypad stands for: the ten digits, the four
/// operators, `=` and `C`. Any other key stands for none.
pub open spec fn key_event(key: char) -> Option<Event> {
    if '0' <= key <= '9' {
        Some(Event::Digit(key))
    } else if key == '+' {
        Some(Event::Operator(Operation::Add))
    } else if key == '-' {
        Some(Event::Operator(Operation::Subtract))
    } else if key == '*' {
        Some(Event::Operator(Operation::Multiply))
    } else if key == '/' {
        Some(Event::Operator(Operation::Divide))
    } else if key == '=' {
        Some(Event::Equals)
    } else if key == 'C' {
        Some(Event::Clear)
    } else {
        None
    }
}

impl Event {
    /// Reads a key of the keypad.
    pub fn from_key(key: char) -> (event: Option<Event>)
        ensures
            event == key_event(key),
    {
        match key {
            '0'..='9' => Some(Event::Digit(key)),
            '+' => Some(Event::Operator(Operation::Add)),
            '-' => Some(Event::Operator(Operation::Subtract)),
            '*' => Some(Event::Operator(Operation::Multiply)),
            '/' => Some(Event::Operator(Operation::Divide)),
            '=' => Some(Event::Equals),
            'C' => Some(Event::Clear),
            _ => None,
        }
    }
}

} // verus!
