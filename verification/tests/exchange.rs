use calculator::engine::Calculator;
use calculator::event::Event;
use calculator::exchange::{Reply, Request, Stage};
use calculator::number::{Number, Operation, PendingOperation};

fn number(bits: u64) -> Number {
    Number { bits }
}

fn engine_with_input(text: &str) -> Calculator {
    let mut engine = Calculator::new();
    for c in text.chars() {
        engine.handle_number(c);
    }
    engine
}

fn engine_with_pending(accumulated: u64, operator: Operation, text: &str) -> Calculator {
    let mut engine = engine_with_input("1");
    engine.handle_operation(operator);
    engine.handle_reply(Reply::Reading(Some(number(accumulated))));
    for c in text.chars() {
        engine.handle_number(c);
    }
    engine
}

#[test]
fn operator_asks_for_the_input_to_be_read() {
    let mut engine = engine_with_input("34");
    let request = engine.handle_operation(Operation::Multiply);
    assert_eq!(request, Request::Read(String::from("34")));
    assert_eq!(engine.stage(), Stage::Reading { next: Some(Operation::Multiply) });
    assert_eq!(engine.current_input(), "34");
    assert_eq!(engine.pending_operation(), None);
    assert!(!engine.clear_on_next_digit());
}

#[test]
fn first_operator_installs_the_reading() {
    let mut engine = engine_with_input("34");
    engine.handle_operation(Operation::Multiply);
    let request = engine.handle_reply(Reply::Reading(Some(number(0x4041_0000_0000_0000))));
    assert_eq!(request, Request::Nothing);
    assert_eq!(engine.stage(), Stage::Idle);
    assert_eq!(
        engine.pending_operation(),
        Some(PendingOperation {
            accumulated: number(0x4041_0000_0000_0000),
            operator: Operation::Multiply,
        })
    );
    assert!(engine.clear_on_next_digit());
    assert_eq!(engine.current_input(), "34");
    assert_eq!(engine.last_result(), "");
}

#[test]
fn digit_after_operator_starts_a_new_operand() {
    let mut engine = engine_with_pending(11, Operation::Add, "");
    assert_eq!(engine.current_input(), "1");
    assert!(engine.clear_on_next_digit());
    engine.handle_number('5');
    assert_eq!(engine.current_input(), "5");
    assert!(!engine.clear_on_next_digit());
    engine.handle_number('6');
    assert_eq!(engine.current_input(), "56");
    assert_eq!(
        engine.pending_operation(),
        Some(PendingOperation { accumulated: number(11), operator: Operation::Add })
    );
}

#[test]
fn unreadable_input_leaves_the_operator_without_effect() {
    let mut engine = engine_with_input("1.2.3");
    assert_eq!(engine.handle_operation(Operation::Add), Request::Read(String::from("1.2.3")));
    assert_eq!(engine.handle_reply(Reply::Reading(None)), Request::Nothing);
    assert_eq!(engine.stage(), Stage::Idle);
    assert_eq!(engine.current_input(), "1.2.3");
    assert_eq!(engine.last_result(), "");
    assert_eq!(engine.pending_operation(), None);
    assert!(!engine.clear_on_next_digit());
}

#[test]
fn unreadable_input_leaves_equals_without_effect() {
    let mut engine = engine_with_pending(21, Operation::Subtract, "4x");
    assert_eq!(engine.handle_equals(), Request::Read(String::from("4x")));
    assert_eq!(engine.stage(), Stage::Reading { next: None });
    assert_eq!(engine.handle_reply(Reply::Reading(None)), Request::Nothing);
    assert_eq!(engine.current_input(), "4x");
    assert_eq!(engine.last_result(), "");
    assert_eq!(
        engine.pending_operation(),
        Some(PendingOperation { accumulated: number(21), operator: Operation::Subtract })
    );
    assert!(!engine.clear_on_next_digit());
}

#[test]
fn second_operator_resolves_the_pending_one_first() {
    let mut engine = engine_with_pending(100, Operation::Subtract, "8");
    assert_eq!(engine.handle_operation(Operation::Divide), Request::Read(String::from("8")));
    assert_eq!(
        engine.handle_reply(Reply::Reading(Some(number(200)))),
        Request::Apply { operator: Operation::Subtract, left: number(100), right: number(200) }
    );
    assert_eq!(engine.stage(), Stage::Applying { next: Some(Operation::Divide) });
    assert_eq!(engine.handle_reply(Reply::Value(number(300))), Request::Render(number(300)));
    assert_eq!(
        engine.stage(),
        Stage::Rendering { next: Some(Operation::Divide), value: number(300) }
    );
    assert_eq!(engine.current_input(), "8");
    assert_eq!(engine.last_result(), "");
    assert_eq!(engine.handle_reply(Reply::Text(String::from("-92"))), Request::Nothing);
    assert_eq!(engine.stage(), Stage::Idle);
    assert_eq!(engine.current_input(), "-92");
    assert_eq!(engine.last_result(), "-92");
    assert_eq!(
        engine.pending_operation(),
        Some(PendingOperation { accumulated: number(300), operator: Operation::Divide })
    );
    assert!(engine.clear_on_next_digit());
}

#[test]
fn equals_resolves_the_pending_operation_and_leaves_none() {
    let mut engine = engine_with_pending(100, Operation::Multiply, "8");
    assert_eq!(engine.handle_event(Event::Equals), Request::Read(String::from("8")));
    assert_eq!(
        engine.handle_reply(Reply::Reading(Some(number(200)))),
        Request::Apply { operator: Operation::Multiply, left: number(100), right: number(200) }
    );
    assert_eq!(engine.stage(), Stage::Applying { next: None });
    assert_eq!(engine.handle_reply(Reply::Value(number(300))), Request::Render(number(300)));
    assert_eq!(engine.stage(), Stage::Rendering { next: None, value: number(300) });
    assert_eq!(engine.handle_reply(Reply::Text(String::from("800"))), Request::Nothing);
    assert_eq!(engine.current_input(), "800");
    assert_eq!(engine.last_result(), "800");
    assert_eq!(engine.pending_operation(), None);
    assert!(engine.clear_on_next_digit());
    assert_eq!(engine.stage(), Stage::Idle);
}

#[test]
fn reply_that_is_not_awaited_ends_the_exchange() {
    let mut engine = engine_with_pending(100, Operation::Add, "8");
    engine.handle_equals();
    assert_eq!(engine.handle_reply(Reply::Value(number(5))), Request::Nothing);
    assert_eq!(engine.stage(), Stage::Idle);
    assert_eq!(engine.current_input(), "8");
    assert_eq!(engine.last_result(), "");
    assert_eq!(
        engine.pending_operation(),
        Some(PendingOperation { accumulated: number(100), operator: Operation::Add })
    );

    engine.handle_equals();
    engine.handle_reply(Reply::Reading(Some(number(200))));
    assert_eq!(engine.handle_reply(Reply::Text(String::from("9"))), Request::Nothing);
    assert_eq!(engine.stage(), Stage::Idle);
    assert_eq!(engine.current_input(), "8");

    engine.handle_equals();
    engine.handle_reply(Reply::Reading(Some(number(200))));
    engine.handle_reply(Reply::Value(number(300)));
    assert_eq!(engine.handle_reply(Reply::Reading(Some(number(1)))), Request::Nothing);
    assert_eq!(engine.stage(), Stage::Idle);
    assert_eq!(engine.current_input(), "8");
    assert_eq!(engine.last_result(), "");
}

#[test]
fn reply_to_an_idle_engine_changes_nothing() {
    let mut engine = engine_with_input("12");
    assert_eq!(engine.handle_reply(Reply::Reading(Some(number(7)))), Request::Nothing);
    assert_eq!(engine.handle_reply(Reply::Value(number(7))), Request::Nothing);
    assert_eq!(engine.handle_reply(Reply::Text(String::from("7"))), Request::Nothing);
    assert_eq!(engine.current_input(), "12");
    assert_eq!(engine.last_result(), "");
    assert_eq!(engine.pending_operation(), None);
    assert!(!engine.clear_on_next_digit());
    assert_eq!(engine.stage(), Stage::Idle);
}

#[test]
fn key_during_an_exchange_takes_its_place() {
    let mut engine = engine_with_pending(100, Operation::Add, "8");
    engine.handle_equals();
    engine.handle_reply(Reply::Reading(Some(number(200))));
    assert_eq!(engine.stage(), Stage::Applying { next: None });
    assert_eq!(engine.handle_event(Event::Digit('9')), Request::Nothing);
    assert_eq!(engine.stage(), Stage::Idle);
    assert_eq!(engine.current_input(), "89");
    assert_eq!(
        engine.handle_event(Event::Operator(Operation::Divide)),
        Request::Read(String::from("89"))
    );
    assert_eq!(engine.stage(), Stage::Reading { next: Some(Operation::Divide) });
}

#[test]
fn clear_during_an_exchange_resets_the_engine() {
    let mut engine = engine_with_pending(100, Operation::Add, "8");
    engine.handle_equals();
    engine.handle_reply(Reply::Reading(Some(number(200))));
    engine.handle_reply(Reply::Value(number(300)));
    assert_eq!(engine.handle_event(Event::Clear), Request::Nothing);
    assert_eq!(engine.stage(), Stage::Idle);
    assert_eq!(engine.current_input(), "");
    assert_eq!(engine.last_result(), "");
    assert_eq!(engine.pending_operation(), None);
    assert_eq!(engine.handle_reply(Reply::Text(String::from("308"))), Request::Nothing);
    assert_eq!(engine.current_input(), "");
    assert_eq!(engine.last_result(), "");
}

#[test]
fn exchange_ends_within_three_replies() {
    let mut engine = engine_with_pending(1, Operation::Add, "2");
    let mut request = engine.handle_operation(Operation::Add);
    let mut replies = 0;
    while request != Request::Nothing {
        let reply = match request {
            Request::Read(_) => Reply::Reading(Some(number(2))),
            Request::Apply { .. } => Reply::Value(number(3)),
            Request::Render(_) => Reply::Text(String::from("3")),
            Request::Nothing => unreachable!(),
        };
        request = engine.handle_reply(reply);
        replies += 1;
    }
    assert_eq!(replies, 3);
    assert_eq!(engine.stage(), Stage::Idle);
}
