//! The calculator as mathematics: its state, the rules by which a key changes
//! it, and the exchange with the host by which the engine follows those rules.

use vstd::prelude::*;
use crate::event::Event;
use crate::exchange::{ReplyView, RequestView, Stage};
use crate::number::{Number, Operation, PendingOperation};

verus! {

/// The engine's state.
pub struct Model {
    /// The operand being typed, or the text of the value just computed.
    pub input: Seq<char>,
    /// The text of the last computed value; empty before the first.
    pub result: Seq<char>,
    /// The operation that waits for its second operand.
    pub pending: Option<PendingOperation>,
    /// Whether the next digit starts a new operand.
    pub clear_on_next: bool,
    /// Where the engine stands in its exchange with the host.
    pub stage: Stage,
}

/// The arithmetic that a host brings: how it reads a text as a number, what
/// each operator gives, and how it writes a number out.
pub struct Arithmetic {
    pub read: spec_fn(Seq<char>) -> Option<Number>,
    pub apply: spec_fn(Operation, Number, Number) -> Number,
    pub render: spec_fn(Number) -> Seq<char>,
}

impl Model {
    /// The state of a new engine, and of one that was cleared.
    pub open spec fn initial() -> Model {
        Model {
            input: Seq::empty(),
            result: Seq::empty(),
            pending: None,
            clear_on_next: false,
            stage: Stage::Idle,
        }
    }

    /// This state with no key being served.
    pub open spec fn settled(self) -> Model {
        Model { stage: Stage::Idle, ..self }
    }

    /// This state at another stage of the exchange.
    pub open spec fn at(self, stage: Stage) -> Model {
        Model { stage, ..self }
    }

    /// What the input reads as. An empty input reads as nothing, whatever
    /// the host makes of an empty text.
    pub open spec fn operand(self, arithmetic: Arithmetic) -> Option<Number> {
        if self.input.len() == 0 {
            None
        } else {
            (arithmetic.read)(self.input)
        }
    }

    /// The state once a value was computed and written out as `text`.
    pub open spec fn computed(self, value: Number, text: Seq<char>, next: Option<Operation>) -> Model {
        Model {
            input: text,
            result: text,
            pending: match next {
                Some(operator) => Some(PendingOperation { accumulated: value, operator }),
                None => None,
            },
            clear_on_next: true,
            stage: Stage::Idle,
        }
    }

    /// The state once `operator` was chosen with `value` standing and nothing
    /// pending.
    pub open spec fn opened(self, value: Number, operator: Operation) -> Model {
        Model {
            pending: Some(PendingOperation { accumulated: value, operator }),
            clear_on_next: true,
            stage: Stage::Idle,
            ..self
        }
    }
}

/// A digit key: the character joins the operand, or starts a new one where
/// the last key was an operator or equals.
pub open spec fn digit(model: Model, d: char) -> Model {
    Model {
        input: if model.clear_on_next {
            seq![d]
        } else {
            model.input.push(d)
        },
        clear_on_next: false,
        stage: Stage::Idle,
        ..model
    }
}

/// An operator key. Where the input does not read as a number, nothing
/// changes. Where it does, a pending operation is resolved against it first,
/// and its value shown; then the new operator waits with the value that
/// stands.
pub open spec fn operator(model: Model, op: Operation, arithmetic: Arithmetic) -> Model {
    match model.operand(arithmetic) {
        None => model.settled(),
        Some(operand) => match model.pending {
            None => model.opened(operand, op),
            Some(pending) => {
                let value = (arithmetic.apply)(pending.operator, pending.accumulated, operand);
                model.computed(value, (arithmetic.render)(value), Some(op))
            },
        },
    }
}

/// The equals key. Where nothing is pending, or the input does not read as a
/// number, nothing changes. Else the pending operation is resolved against
/// the input, its value shown, and nothing is pending any more.
pub open spec fn equals(model: Model, arithmetic: Arithmetic) -> Model {
    match (model.pending, model.operand(arithmetic)) {
        (Some(pending), Some(operand)) => {
            let value = (arithmetic.apply)(pending.operator, pending.accumulated, operand);
            model.computed(value, (arithmetic.render)(value), None)
        },
        _ => model.settled(),
    }
}

/// The state after one key.
pub open spec fn step(model: Model, event: Event, arithmetic: Arithmetic) -> Model {
    match event {
        Event::Digit(d) => digit(model, d),
        Event::Operator(op) => operator(model, op, arithmetic),
        Event::Equals => equals(model, arithmetic),
        Event::Clear => Model::initial(),
    }
}

/// The state after a sequence of keys, first to last.
pub open spec fn run(model: Model, events: Seq<Event>, arithmetic: Arithmetic) -> Model
    decreases events.len(),
{
    if events.len() == 0 {
        model
    } else {
        step(run(model, events.drop_last(), arithmetic), events.last(), arithmetic)
    }
}

/// The engine asks its host to read the input, unless the input is empty:
/// then the key is ignored.
pub open spec fn consult(model: Model, next: Option<Operation>) -> (Model, RequestView) {
    if model.input.len() == 0 {
        (model.settled(), RequestView::Nothing)
    } else {
        (model.at(Stage::Reading { next }), RequestView::Read(model.input))
    }
}

/// What the engine does on a key: its next state and what it asks of the
/// host. A key that arrives while another is being served takes its place.
pub open spec fn on_event(model: Model, event: Event) -> (Model, RequestView) {
    match event {
        Event::Digit(d) => (digit(model, d), RequestView::Nothing),
        Event::Operator(op) => consult(model, Some(op)),
        Event::Equals => if model.pending is None {
            (model.settled(), RequestView::Nothing)
        } else {
            consult(model, None)
        },
        Event::Clear => (Model::initial(), RequestView::Nothing),
    }
}

/// What the engine does on the host's reply. A reply that the engine does
/// not wait for ends the exchange and changes nothing else.
pub open spec fn on_reply(model: Model, reply: ReplyView) -> (Model, RequestView) {
    match (model.stage, reply) {
        (Stage::Reading { next }, ReplyView::Reading(Some(operand))) => match (model.pending, next) {
            (Some(pending), _) => (
                model.at(Stage::Applying { next }),
                RequestView::Apply {
                    operator: pending.operator,
                    left: pending.accumulated,
                    right: operand,
                },
            ),
            (None, Some(op)) => (model.opened(operand, op), RequestView::Nothing),
            (None, None) => (model.settled(), RequestView::Nothing),
        },
        (Stage::Applying { next }, ReplyView::Value(value)) => (
            model.at(Stage::Rendering { next, value }),
            RequestView::Render(value),
        ),
        (Stage::Rendering { next, value }, ReplyView::Text(text)) => (
            model.computed(value, text, next),
            RequestView::Nothing,
        ),
        _ => (model.settled(), RequestView::Nothing),
    }
}

/// The reply of a host that brings `arithmetic`. To `Nothing` there is no
/// reply.
pub open spec fn answer(request: RequestView, arithmetic: Arithmetic) -> Option<ReplyView> {
    match request {
        RequestView::Nothing => None,
        RequestView::Read(text) => Some(ReplyView::Reading((arithmetic.read)(text))),
        RequestView::Apply { operator, left, right } => Some(
            ReplyView::Value((arithmetic.apply)(operator, left, right)),
        ),
        RequestView::Render(number) => Some(ReplyView::Text((arithmetic.render)(number))),
    }
}

/// The engine and such a host, left to themselves for at most `rounds`
/// replies: where they stand then.
pub open spec fn serve(model: Model, request: RequestView, arithmetic: Arithmetic, rounds: nat) -> (
    Model,
    RequestView,
)
    decreases rounds,
{
    match answer(request, arithmetic) {
        Some(reply) if rounds > 0 => {
            let (next_model, next_request) = on_reply(model, reply);
            serve(next_model, next_request, arithmetic, (rounds - 1) as nat)
        },
        _ => (model, request),
    }
}

} // verus!
