//! What holds of the calculator for every state, every key and every
//! arithmetic that a host may bring.

use vstd::prelude::*;
use crate::event::Event;
use crate::exchange::{ReplyView, RequestView, Stage};
use crate::model::{equals, on_event, on_reply, operator, run, serve, step, Arithmetic, Model};
use crate::number::Operation;

verus! {

/// The digit events that typing `digits` gives, in order.
pub open spec fn typed(digits: Seq<char>) -> Seq<Event>
    decreases digits.len(),
{
    if digits.len() == 0 {
        Seq::empty()
    } else {
        typed(digits.drop_last()).push(Event::Digit(digits.last()))
    }
}

/// Whether an engine at `stage` waits for the reply to `request`.
pub open spec fn awaits(stage: Stage, request: RequestView) -> bool {
    match request {
        RequestView::Nothing => stage is Idle,
        RequestView::Read(_) => stage is Reading,
        RequestView::Apply { .. } => stage is Applying,
        RequestView::Render(number) => stage matches Stage::Rendering { value, .. } && value
            == number,
    }
}

/// The engine waits for what it asked. After a key or a reply its stage is
/// the one of its request: idle when it asks nothing. And while it asks, it
/// keeps input, result, pending operation and flag as they were: they change
/// only when a key is served.
pub proof fn engine_waits_for_what_it_asked(model: Model, event: Event, reply: ReplyView)
    ensures
        awaits(on_event(model, event).0.stage, on_event(model, event).1),
        awaits(on_reply(model, reply).0.stage, on_reply(model, reply).1),
        on_event(model, event).1 !is Nothing ==> on_event(model, event).0.settled()
            == model.settled(),
        on_reply(model, reply).1 !is Nothing ==> on_reply(model, reply).0.settled()
            == model.settled(),
{
}

/// The engine follows the rules. From any state and on any key, the engine
/// and a host that answers each request by its arithmetic are done within
/// three replies, and the engine then stands where the rules put it.
pub proof fn exchange_settles(model: Model, event: Event, arithmetic: Arithmetic, rounds: nat)
    requires
        rounds >= 3,
    ensures
        serve(on_event(model, event).0, on_event(model, event).1, arithmetic, rounds) == (
            step(model, event, arithmetic),
            RequestView::Nothing,
        ),
{
    reveal_with_fuel(serve, 4);
}

/// Clear resets everything: after any keys, a clear leaves the engine as
/// new, with no input and no result.
pub proof fn clear_resets_everything(model: Model, events: Seq<Event>, arithmetic: Arithmetic)
    ensures
        run(model, events.push(Event::Clear), arithmetic) == Model::initial(),
        run(model, events.push(Event::Clear), arithmetic).input == Seq::<char>::empty(),
        run(model, events.push(Event::Clear), arithmetic).result == Seq::<char>::empty(),
{
    assert(events.push(Event::Clear).last() == Event::Clear);
}

/// After a clear, an operator key and the equals key do nothing: the rules
/// leave the engine as new, and the engine does not even ask its host.
pub proof fn operator_and_equals_do_nothing_after_clear(
    model: Model,
    events: Seq<Event>,
    op: Operation,
    arithmetic: Arithmetic,
)
    ensures
        run(model, events.push(Event::Clear).push(Event::Operator(op)), arithmetic)
            == Model::initial(),
        run(model, events.push(Event::Clear).push(Event::Equals), arithmetic) == Model::initial(),
        on_event(Model::initial(), Event::Operator(op)) == (Model::initial(), RequestView::Nothing),
        on_event(Model::initial(), Event::Equals) == (Model::initial(), RequestView::Nothing),
{
    let cleared = events.push(Event::Clear);
    clear_resets_everything(model, events, arithmetic);
    assert(cleared.push(Event::Operator(op)).drop_last() =~= cleared);
    assert(cleared.push(Event::Equals).drop_last() =~= cleared);
}

/// An input that does not read as a number absorbs the operator keys and
/// the equals key: nothing changes, whatever is pending.
pub proof fn unreadable_input_absorbs_keys(model: Model, op: Operation, arithmetic: Arithmetic)
    requires
        model.operand(arithmetic) is None,
    ensures
        step(model, Event::Operator(op), arithmetic) == model.settled(),
        step(model, Event::Equals, arithmetic) == model.settled(),
{
}

/// A second equals right after the first does nothing. Where the first
/// computed, nothing is pending after it, and the engine ignores the second
/// without asking its host; where the first did nothing, so does the second.
pub proof fn second_equals_does_nothing(model: Model, arithmetic: Arithmetic)
    ensures
        equals(equals(model, arithmetic), arithmetic) == equals(model, arithmetic),
        model.pending is Some && model.operand(arithmetic) is Some ==> on_event(
            equals(model, arithmetic),
            Event::Equals,
        ) == (equals(model, arithmetic), RequestView::Nothing),
{
}

/// Every character is a Unicode scalar value. Said once here for the
/// characters that a proof takes out of a sequence.
proof fn character_is_scalar_value(c: char)
    ensures
        0 <= c as int <= 0xD7FF || 0xE000 <= c as int <= 0x10FFFF,
{
}

/// Typed digits stand in the input exactly as typed. After one or more
/// digit keys the input is those digits, after what stood there unless a
/// new operand began; nothing else changes.
pub proof fn digits_accumulate(model: Model, digits: Seq<char>, arithmetic: Arithmetic)
    requires
        digits.len() > 0,
    ensures
        run(model, typed(digits), arithmetic) == (Model {
            input: if model.clear_on_next {
                digits
            } else {
                model.input + digits
            },
            clear_on_next: false,
            ..model.settled()
        }),
    decreases digits.len(),
{
    let events = typed(digits);
    let before = digits.drop_last();
    character_is_scalar_value(digits.last());
    assert(events.drop_last() =~= typed(before));
    assert(events.last() == Event::Digit(digits.last()));
    if before.len() == 0 {
        assert(run(model, typed(before), arithmetic) == model);
        if model.clear_on_next {
            assert(seq![digits.last()] =~= digits);
        } else {
            assert(model.input.push(digits.last()) =~= model.input + digits);
        }
    } else {
        digits_accumulate(model, before, arithmetic);
        if model.clear_on_next {
            assert(before.push(digits.last()) =~= digits);
        } else {
            assert((model.input + before).push(digits.last()) =~= model.input + digits);
        }
    }
}

/// On a new engine the input after typing is the digits, whatever they are.
pub proof fn digits_round_trip(digits: Seq<char>, arithmetic: Arithmetic)
    ensures
        run(Model::initial(), typed(digits), arithmetic).input == digits,
{
    if digits.len() == 0 {
        assert(digits =~= Seq::empty());
    } else {
        digits_accumulate(Model::initial(), digits, arithmetic);
        assert(Seq::<char>::empty() + digits =~= digits);
    }
}

/// Keys may be taken in two runs: the state after `first` and then
/// `second` is the state after all of them in one run.
pub proof fn run_splits(model: Model, first: Seq<Event>, second: Seq<Event>, arithmetic: Arithmetic)
    ensures
        run(model, first + second, arithmetic) == run(
            run(model, first, arithmetic),
            second,
            arithmetic,
        ),
    decreases second.len(),
{
    if second.len() == 0 {
        assert(first + second =~= first);
    } else {
        run_splits(model, first, second.drop_last(), arithmetic);
        assert((first + second).drop_last() =~= first + second.drop_last());
        assert((first + second).last() == second.last());
    }
}

/// An operator key does not blank the input, so an equals right after it
/// takes the same operand a second time: with nothing pending and an input
/// that reads as `x`, operator and then equals show `x op x`.
pub proof fn equals_after_operator_reuses_input(model: Model, op: Operation, arithmetic: Arithmetic)
    requires
        model.pending is None,
        model.operand(arithmetic) is Some,
    ensures
        operator(model, op, arithmetic).input == model.input,
        equals(operator(model, op, arithmetic), arithmetic) == ({
            let x = model.operand(arithmetic)->0;
            let value = (arithmetic.apply)(op, x, x);
            model.computed(value, (arithmetic.render)(value), None)
        }),
{
}

/// An operator key right after another does not take its place. The first
/// is resolved against the input that still stands, as `x first x`, its
/// value is shown, and the second waits with that value.
pub proof fn operator_after_operator_resolves_first(
    model: Model,
    first: Operation,
    second: Operation,
    arithmetic: Arithmetic,
)
    requires
        model.pending is None,
        model.operand(arithmetic) is Some,
    ensures
        operator(operator(model, first, arithmetic), second, arithmetic) == ({
            let x = model.operand(arithmetic)->0;
            let value = (arithmetic.apply)(first, x, x);
            model.computed(value, (arithmetic.render)(value), Some(second))
        }),
{
}

/// The keys of `a first b second c =`, where `a`, `b` and `c` are typed
/// operands.
pub open spec fn chain(
    a: Seq<char>,
    first: Operation,
    b: Seq<char>,
    second: Operation,
    c: Seq<char>,
) -> Seq<Event> {
    typed(a).push(Event::Operator(first)) + typed(b).push(Event::Operator(second)) + typed(
        c,
    ).push(Event::Equals)
}

/// Chained operations resolve left to right, without precedence. On a new
/// engine, `a first b second c =` with operands that read as `x`, `y` and
/// `z` shows `(x first y) second z`, and leaves nothing pending.
pub proof fn chain_resolves_left_to_right(
    a: Seq<char>,
    first: Operation,
    b: Seq<char>,
    second: Operation,
    c: Seq<char>,
    arithmetic: Arithmetic,
)
    requires
        a.len() > 0,
        b.len() > 0,
        c.len() > 0,
        (arithmetic.read)(a) is Some,
        (arithmetic.read)(b) is Some,
        (arithmetic.read)(c) is Some,
    ensures
        run(Model::initial(), chain(a, first, b, second, c), arithmetic) == ({
            let x = (arithmetic.read)(a)->0;
            let y = (arithmetic.read)(b)->0;
            let z = (arithmetic.read)(c)->0;
            let value = (arithmetic.apply)(second, (arithmetic.apply)(first, x, y), z);
            Model::initial().computed(value, (arithmetic.render)(value), None)
        }),
{
    let start = Model::initial();
    let part_a = typed(a).push(Event::Operator(first));
    let part_b = typed(b).push(Event::Operator(second));
    let part_c = typed(c).push(Event::Equals);

    digits_accumulate(start, a, arithmetic);
    assert(part_a.drop_last() =~= typed(a));
    assert(Seq::<char>::empty() + a =~= a);
    let after_a = run(start, part_a, arithmetic);

    digits_accumulate(after_a, b, arithmetic);
    assert(part_b.drop_last() =~= typed(b));
    let after_b = run(after_a, part_b, arithmetic);

    digits_accumulate(after_b, c, arithmetic);
    assert(part_c.drop_last() =~= typed(c));

    run_splits(start, part_a, part_b, arithmetic);
    run_splits(start, part_a + part_b, part_c, arithmetic);
}

} // verus!
