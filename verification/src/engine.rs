//! The engine: the calculator's state and its reaction to keys and replies.

use vstd::prelude::*;
use crate::event::{key_event, Event};
use crate::exchange::{Reply, Request, RequestView, Stage};
use crate::model::{consult, digit, on_event, on_reply, Model};
use crate::number::{Operation, PendingOperation};
use crate::text::push_char;

verus! {

/// A calculator with one pending operand and one pending operator.
pub struct Calculator {
    input: String,
    result: String,
    pending: Option<PendingOperation>,
    clear_on_next: bool,
    stage: Stage,
}

impl View for Calculator {
    type V = Model;

    closed spec fn view(&self) -> Model {
        Model {
            input: self.input@,
            result: self.result@,
            pending: self.pending,
            clear_on_next: self.clear_on_next,
            stage: self.stage,
        }
    }
}

impl Calculator {
    /// An engine with nothing typed, nothing computed and nothing pending.
    pub fn new() -> (engine: Calculator)
        ensures
            engine@ == Model::initial(),
    {
        Calculator {
            input: String::new(),
            result: String::new(),
            pending: None,
            clear_on_next: false,
            stage: Stage::Idle,
        }
    }

    /// A digit key: `num` joins the operand, or starts a new one where the
    /// last key was an operator or equals. Any character is taken; whether
    /// the operand is a numeral is found out when it is used.
    pub fn handle_number(&mut self, num: char)
        ensures
            final(self)@ == digit(old(self)@, num),
    {
        if self.clear_on_next {
            self.input = String::new();
            self.clear_on_next = false;
        }
        push_char(&mut self.input, num);
        self.stage = Stage::Idle;
        proof {
            assert(Seq::<char>::empty().push(num) =~= seq![num]);
        }
    }

    /// Starts serving an operator key or, with `next` none, an equals key
    /// that found an operation pending.
    fn read_input(&mut self, next: Option<Operation>) -> (request: Request)
        ensures
            (final(self)@, request@) == consult(old(self)@, next),
    {
        if self.input.as_str().is_empty() {
            self.stage = Stage::Idle;
            Request::Nothing
        } else {
            self.stage = Stage::Reading { next };
            Request::Read(self.input.clone())
        }
    }

    /// An operator key. With an empty input the key is ignored; else the
    /// host is asked to read the input.
    pub fn handle_operation(&mut self, op: Operation) -> (request: Request)
        ensures
            (final(self)@, request@) == on_event(old(self)@, Event::Operator(op)),
    {
        self.read_input(Some(op))
    }

    /// The equals key. With nothing pending or an empty input the key is
    /// ignored; else the host is asked to read the input.
    pub fn handle_equals(&mut self) -> (request: Request)
        ensures
            (final(self)@, request@) == on_event(old(self)@, Event::Equals),
    {
        if self.pending.is_none() {
            self.stage = Stage::Idle;
            Request::Nothing
        } else {
            self.read_input(None)
        }
    }

    /// The clear key: the engine is as new.
    pub fn handle_clear(&mut self)
        ensures
            final(self)@ == Model::initial(),
    {
        self.input = String::new();
        self.result = String::new();
        self.pending = None;
        self.clear_on_next = false;
        self.stage = Stage::Idle;
    }

    /// Takes one key event. A digit or a clear is served at once. An
    /// operator or equals may need the host: then the request says for what,
    /// and the state changes only when the last reply has come.
    pub fn handle_event(&mut self, event: Event) -> (request: Request)
        ensures
            (final(self)@, request@) == on_event(old(self)@, event),
    {
        match event {
            Event::Digit(d) => {
                self.handle_number(d);
                Request::Nothing
            },
            Event::Operator(op) => self.handle_operation(op),
            Event::Equals => self.handle_equals(),
            Event::Clear => {
                self.handle_clear();
                Request::Nothing
            },
        }
    }

    /// Takes the host's reply to the last request and goes on with the key
    /// being served.
    pub fn handle_reply(&mut self, reply: Reply) -> (request: Request)
        ensures
            (final(self)@, request@) == on_reply(old(self)@, reply@),
    {
        let stage = self.stage;
        self.stage = Stage::Idle;
        match (stage, reply) {
            (Stage::Reading { next }, Reply::Reading(Some(operand))) => match (self.pending, next) {
                (Some(pending), _) => {
                    self.stage = Stage::Applying { next };
                    Request::Apply {
                        operator: pending.operator,
                        left: pending.accumulated,
                        right: operand,
                    }
                },
                (None, Some(op)) => {
                    self.pending = Some(PendingOperation { accumulated: operand, operator: op });
                    self.clear_on_next = true;
                    Request::Nothing
                },
                (None, None) => Request::Nothing,
            },
            (Stage::Applying { next }, Reply::Value(value)) => {
                self.stage = Stage::Rendering { next, value };
                Request::Render(value)
            },
            (Stage::Rendering { next, value }, Reply::Text(text)) => {
                self.result = text.clone();
                self.input = text;
                self.pending = match next {
                    Some(operator) => Some(PendingOperation { accumulated: value, operator }),
                    None => None,
                };
                self.clear_on_next = true;
                Request::Nothing
            },
            _ => Request::Nothing,
        }
    }

    /// Takes a key of the keypad. A key that stands for no event changes
    /// nothing.
    pub fn update(&mut self, key: char) -> (request: Request)
        ensures
            match key_event(key) {
                Some(event) => (final(self)@, request@) == on_event(old(self)@, event),
                None => *final(self) == *old(self) && request@ == RequestView::Nothing,
            },
    {
        match Event::from_key(key) {
            Some(event) => self.handle_event(event),
            None => Request::Nothing,
        }
    }

    /// The text being composed, or the text of the value just computed.
    pub fn current_input(&self) -> (text: &str)
        ensures
            text@ == self@.input,
    {
        self.input.as_str()
    }

    /// The text of the last computed value; empty before the first.
    pub fn last_result(&self) -> (text: &str)
        ensures
            text@ == self@.result,
    {
        self.result.as_str()
    }

    /// The operation that waits for its second operand.
    pub fn pending_operation(&self) -> (pending: Option<PendingOperation>)
        ensures
            pending == self@.pending,
    {
        self.pending
    }

    /// Whether the next digit starts a new operand.
    pub fn clear_on_next_digit(&self) -> (flag: bool)
        ensures
            flag == self@.clear_on_next,
    {
        self.clear_on_next
    }

    /// Where the engine stands in its exchange with the host.
    pub fn stage(&self) -> (stage: Stage)
        ensures
            stage == self@.stage,
    {
        self.stage
    }
}

} // verus!
