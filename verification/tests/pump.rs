use hypersocket::message::{CloseFrame, FrameError, IoFault, IoFaultKind, Message};
use hypersocket::pump::{handle_result, on_item, on_sent, ItemDecision, SentDecision};

fn text(s: &str) -> Message {
    Message::Text(s.to_string())
}

fn reset() -> IoFault {
    IoFault { kind: IoFaultKind::ConnectionReset, description: "connection reset".to_string() }
}

/// Runs the loop of the pump over items and the sink's answers that are given
/// in advance, and returns what reached the sink and what the host is told.
fn run(
    outbound: Vec<Result<Message, FrameError>>,
    answers: Vec<Result<(), FrameError>>,
) -> (Vec<Message>, Result<(), IoFault>) {
    let mut handed = Vec::new();
    let mut answers = answers.into_iter();
    let mut outbound = outbound.into_iter();
    loop {
        match on_item(outbound.next()) {
            ItemDecision::Finish(outcome) => return (handed, outcome),
            ItemDecision::Send(message) => {
                handed.push(message);
                match on_sent(answers.next().expect("an answer for each write")) {
                    SentDecision::Continue => {}
                    SentDecision::Finish(outcome) => return (handed, outcome),
                }
            }
        }
    }
}

#[test]
fn handle_result_continues_on_success() {
    assert_eq!(handle_result(Ok(())), Ok(true));
}

#[test]
fn handle_result_stops_without_error_when_closed() {
    assert_eq!(handle_result(Err(FrameError::ConnectionClosed)), Ok(false));
}

#[test]
fn handle_result_hands_on_a_transport_fault() {
    assert_eq!(handle_result(Err(FrameError::Io(reset()))), Err(reset()));
}

#[test]
fn handle_result_wraps_any_other_error() {
    assert_eq!(
        handle_result(Err(FrameError::Protocol("UTF-8 encoding error".to_string()))),
        Err(IoFault { kind: IoFaultKind::Other, description: "UTF-8 encoding error".to_string() })
    );
}

#[test]
fn on_item_sends_a_message() {
    assert_eq!(on_item(Some(Ok(text("a")))), ItemDecision::Send(text("a")));
    assert_eq!(on_item(Some(Ok(Message::Close(None)))), ItemDecision::Send(Message::Close(None)));
}

#[test]
fn on_item_finishes_at_the_end_and_on_errors() {
    assert_eq!(on_item(None), ItemDecision::Finish(Ok(())));
    assert_eq!(on_item(Some(Err(FrameError::ConnectionClosed))), ItemDecision::Finish(Ok(())));
    assert_eq!(on_item(Some(Err(FrameError::Io(reset())))), ItemDecision::Finish(Err(reset())));
    assert_eq!(
        on_item(Some(Err(FrameError::Protocol("bad frame".to_string())))),
        ItemDecision::Finish(Err(IoFault {
            kind: IoFaultKind::Other,
            description: "bad frame".to_string()
        }))
    );
}

#[test]
fn on_sent_continues_or_finishes() {
    assert_eq!(on_sent(Ok(())), SentDecision::Continue);
    assert_eq!(on_sent(Err(FrameError::ConnectionClosed)), SentDecision::Finish(Ok(())));
    assert_eq!(on_sent(Err(FrameError::Io(reset()))), SentDecision::Finish(Err(reset())));
    assert_eq!(
        on_sent(Err(FrameError::Protocol("too big".to_string()))),
        SentDecision::Finish(Err(IoFault {
            kind: IoFaultKind::Other,
            description: "too big".to_string()
        }))
    );
}

#[test]
fn pump_hands_messages_over_in_order() {
    let (handed, outcome) = run(
        vec![Ok(text("A")), Ok(text("B")), Ok(text("C"))],
        vec![Ok(()), Ok(()), Ok(())],
    );
    assert_eq!(handed, vec![text("A"), text("B"), text("C")]);
    assert_eq!(outcome, Ok(()));
}

#[test]
fn pump_writes_nothing_for_an_empty_sequence() {
    let (handed, outcome) = run(vec![], vec![]);
    assert_eq!(handed, Vec::<Message>::new());
    assert_eq!(outcome, Ok(()));
}

#[test]
fn pump_ends_gracefully_when_the_sequence_reports_a_close() {
    let (handed, outcome) = run(
        vec![Ok(text("A")), Err(FrameError::ConnectionClosed), Ok(text("C"))],
        vec![Ok(()), Ok(())],
    );
    assert_eq!(handed, vec![text("A")]);
    assert_eq!(outcome, Ok(()));
}

#[test]
fn pump_ends_gracefully_when_the_sink_reports_a_close() {
    let close = Message::Close(Some(CloseFrame { code: 1000, reason: "bye".to_string() }));
    let (handed, outcome) = run(
        vec![Ok(text("A")), Ok(close.clone()), Ok(text("C"))],
        vec![Ok(()), Err(FrameError::ConnectionClosed)],
    );
    assert_eq!(handed, vec![text("A"), close]);
    assert_eq!(outcome, Ok(()));
}

#[test]
fn pump_reports_a_fault_and_stops() {
    let (handed, outcome) = run(
        vec![Ok(text("A")), Ok(text("B")), Ok(text("C"))],
        vec![Ok(()), Err(FrameError::Io(reset())), Ok(())],
    );
    assert_eq!(handed, vec![text("A"), text("B")]);
    assert_eq!(outcome, Err(reset()));
    let (handed, outcome) = run(
        vec![Err(FrameError::Protocol("bad frame".to_string())), Ok(text("B"))],
        vec![],
    );
    assert_eq!(handed, Vec::<Message>::new());
    assert_eq!(
        outcome,
        Err(IoFault { kind: IoFaultKind::Other, description: "bad frame".to_string() })
    );
}
