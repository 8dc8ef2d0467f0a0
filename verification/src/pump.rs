//! The policy of the stream-mode pump.
//!
//! In stream mode a transform turns the inbound messages into a sequence of
//! outbound items, and a pump writes each item to the sink. The host runs the
//! loop, since taking an item and writing a message both wait on the
//! connection; what to do with each outcome is decided here: `on_item` for what
//! the outbound sequence yields, `on_sent` for what the sink answers.
//! `pump_run` says what a whole run amounts to.

use vstd::prelude::*;
use crate::message::{FrameError, IoFault, IoFaultKind, Message};

verus! {

/// What `handle_result` makes of the outcome of one step of a pump.
pub open spec fn spec_handle_result(result: Result<(), FrameError>) -> Result<bool, IoFault> {
    match result {
        Ok(_) => Ok(true),
        Err(FrameError::ConnectionClosed) => Ok(false),
        Err(FrameError::Io(fault)) => Err(fault),
        Err(FrameError::Protocol(description)) => Err(
            IoFault { kind: IoFaultKind::Other, description },
        ),
    }
}

/// Returns `Ok(true)` if processing should continue, `Ok(false)` if processing
/// has terminated without error, and `Err(fault)` if an error has occurred.
///
/// A closed connection is an expected end and no error. A fault of the
/// transport is handed on as it is. Any other error becomes a fault of the
/// kind `Other` that carries its description.
pub fn handle_result(result: Result<(), FrameError>) -> (r: Result<bool, IoFault>)
    ensures
        r == spec_handle_result(result),
{
    match result {
        Ok(_) => Ok(true),
        Err(FrameError::ConnectionClosed) => Ok(false),
        Err(FrameError::Io(fault)) => Err(fault),
        Err(FrameError::Protocol(description)) => Err(
            IoFault { kind: IoFaultKind::Other, description },
        ),
    }
}

/// What the pump does with what the outbound sequence yielded.
#[derive(Debug, PartialEq, Eq)]
pub enum ItemDecision {
    /// Write this message to the sink.
    Send(Message),
    /// Stop, and tell the host this.
    Finish(Result<(), IoFault>),
}

/// What the pump does once the sink has answered.
#[derive(Debug, PartialEq, Eq)]
pub enum SentDecision {
    /// Take the next item of the outbound sequence.
    Continue,
    /// Stop, and tell the host this.
    Finish(Result<(), IoFault>),
}

/// How a pump ends on the error `error`: without error where the connection
/// was closed, and else with the fault that `handle_result` makes of it.
pub open spec fn end_on(error: FrameError) -> Result<(), IoFault> {
    match spec_handle_result(Err(error)) {
        Ok(_) => Ok(()),
        Err(fault) => Err(fault),
    }
}

/// The decision on an item: a message is written, the end of the sequence ends
/// the pump without error, and an error ends it as `end_on` says.
pub open spec fn spec_on_item(item: Option<Result<Message, FrameError>>) -> ItemDecision {
    match item {
        None => ItemDecision::Finish(Ok(())),
        Some(Ok(message)) => ItemDecision::Send(message),
        Some(Err(error)) => ItemDecision::Finish(end_on(error)),
    }
}

/// The decision on the sink's answer: the pump goes on after a write that
/// succeeded, and an error ends it as `end_on` says.
pub open spec fn spec_on_sent(answer: Result<(), FrameError>) -> SentDecision {
    match answer {
        Ok(_) => SentDecision::Continue,
        Err(error) => SentDecision::Finish(end_on(error)),
    }
}

/// Decides what to do with what the outbound sequence yielded: `None` where it
/// has ended, or else its next item.
pub fn on_item(item: Option<Result<Message, FrameError>>) -> (decision: ItemDecision)
    ensures
        decision == spec_on_item(item),
{
    match item {
        None => ItemDecision::Finish(Ok(())),
        Some(Ok(message)) => ItemDecision::Send(message),
        Some(Err(error)) => match handle_result(Err(error)) {
            Ok(_) => ItemDecision::Finish(Ok(())),
            Err(fault) => ItemDecision::Finish(Err(fault)),
        },
    }
}

/// Decides what to do once the sink has answered the last write.
pub fn on_sent(answer: Result<(), FrameError>) -> (decision: SentDecision)
    ensures
        decision == spec_on_sent(answer),
{
    match handle_result(answer) {
        Ok(true) => SentDecision::Continue,
        Ok(false) => SentDecision::Finish(Ok(())),
        Err(fault) => SentDecision::Finish(Err(fault)),
    }
}

/// What a run of the pump amounts to: the messages that it handed to the sink,
/// in the order in which it did, and what it told the host at the end.
pub struct PumpRun {
    pub handed: Seq<Message>,
    pub outcome: Result<(), IoFault>,
}

/// The run of a pump from the item `from` of the outbound sequence on, where
/// `outbound` holds the items that the sequence yields before it ends and
/// `answers[k]` is the sink's answer to the write of item `k`.
pub open spec fn pump_run_from(
    outbound: Seq<Result<Message, FrameError>>,
    answers: Seq<Result<(), FrameError>>,
    from: int,
) -> PumpRun
    decreases outbound.len() - from,
{
    if from < 0 || from >= outbound.len() {
        PumpRun { handed: Seq::empty(), outcome: Ok(()) }
    } else {
        match spec_on_item(Some(outbound[from])) {
            ItemDecision::Finish(outcome) => PumpRun { handed: Seq::empty(), outcome },
            ItemDecision::Send(message) => match spec_on_sent(answers[from]) {
                SentDecision::Finish(outcome) => PumpRun { handed: seq![message], outcome },
                SentDecision::Continue => {
                    let rest = pump_run_from(outbound, answers, from + 1);
                    PumpRun { handed: seq![message] + rest.handed, outcome: rest.outcome }
                },
            },
        }
    }
}

/// The run of a pump over the outbound sequence `outbound` with the sink's
/// answers `answers`.
pub open spec fn pump_run(
    outbound: Seq<Result<Message, FrameError>>,
    answers: Seq<Result<(), FrameError>>,
) -> PumpRun {
    pump_run_from(outbound, answers, 0)
}

/// Whether the first `n` items of `outbound` are messages whose writes the
/// sink accepted.
pub open spec fn all_written(
    outbound: Seq<Result<Message, FrameError>>,
    answers: Seq<Result<(), FrameError>>,
    n: int,
) -> bool {
    forall|j: int| 0 <= j < n ==> (#[trigger] outbound[j]) is Ok && answers[j] is Ok
}

proof fn lemma_run_from_in_order(
    outbound: Seq<Result<Message, FrameError>>,
    answers: Seq<Result<(), FrameError>>,
    from: int,
)
    requires
        0 <= from,
    ensures
        from + pump_run_from(outbound, answers, from).handed.len() <= outbound.len() || (
        pump_run_from(outbound, answers, from).handed.len() == 0),
        forall|j: int|
            0 <= j < pump_run_from(outbound, answers, from).handed.len() ==> outbound[from + j]
                == Ok::<Message, FrameError>(
                #[trigger] pump_run_from(outbound, answers, from).handed[j],
            ),
    decreases outbound.len() - from,
{
    if from < outbound.len() {
        match spec_on_item(Some(outbound[from])) {
            ItemDecision::Finish(_) => {},
            ItemDecision::Send(message) => match spec_on_sent(answers[from]) {
                SentDecision::Finish(_) => {},
                SentDecision::Continue => {
                    lemma_run_from_in_order(outbound, answers, from + 1);
                    let rest = pump_run_from(outbound, answers, from + 1);
                    let run = pump_run_from(outbound, answers, from);
                    assert forall|j: int| 0 <= j < run.handed.len() implies outbound[from + j]
                        == Ok::<Message, FrameError>(#[trigger] run.handed[j]) by {}
                },
            },
        }
    }
}

/// The sink gets the messages in the order in which the outbound sequence
/// yields them: the message handed over at position `j` is item `j` of the
/// sequence, none is left out, none comes twice, and nothing is handed over
/// that the sequence did not yield.
pub proof fn lemma_pump_keeps_order(
    outbound: Seq<Result<Message, FrameError>>,
    answers: Seq<Result<(), FrameError>>,
)
    ensures
        pump_run(outbound, answers).handed.len() <= outbound.len(),
        forall|j: int|
            0 <= j < pump_run(outbound, answers).handed.len() ==> outbound[j] == Ok::<
                Message,
                FrameError,
            >(#[trigger] pump_run(outbound, answers).handed[j]),
{
    lemma_run_from_in_order(outbound, answers, 0);
}

proof fn lemma_run_from_skips_written(
    outbound: Seq<Result<Message, FrameError>>,
    answers: Seq<Result<(), FrameError>>,
    from: int,
    n: int,
)
    requires
        0 <= from <= n <= outbound.len(),
        all_written(outbound, answers, n),
    ensures
        pump_run_from(outbound, answers, from).outcome == pump_run_from(
            outbound,
            answers,
            n,
        ).outcome,
        pump_run_from(outbound, answers, from).handed.len() == (n - from) + pump_run_from(
            outbound,
            answers,
            n,
        ).handed.len(),
    decreases n - from,
{
    if from < n {
        lemma_run_from_skips_written(outbound, answers, from + 1, n);
    }
}

/// Where the outbound sequence yields only messages and the sink accepts each,
/// the pump hands over all of them and ends without error once the sequence
/// has ended. A sequence that yields nothing has nothing written.
pub proof fn lemma_pump_ends_with_sequence(
    outbound: Seq<Result<Message, FrameError>>,
    answers: Seq<Result<(), FrameError>>,
)
    requires
        all_written(outbound, answers, outbound.len() as int),
    ensures
        pump_run(outbound, answers).outcome == Ok::<(), IoFault>(()),
        pump_run(outbound, answers).handed.len() == outbound.len(),
{
    lemma_run_from_skips_written(outbound, answers, 0, outbound.len() as int);
}

/// A closed connection ends the pump without error, whether the outbound
/// sequence reports it or the sink does: where everything before item `n` was
/// written and item `n` or its write reports `ConnectionClosed`, the host is
/// told `Ok`, and nothing behind item `n` is handed to the sink.
pub proof fn lemma_pump_ends_gracefully_when_closed(
    outbound: Seq<Result<Message, FrameError>>,
    answers: Seq<Result<(), FrameError>>,
    n: int,
)
    requires
        0 <= n < outbound.len(),
        all_written(outbound, answers, n),
        outbound[n] == Err::<Message, FrameError>(FrameError::ConnectionClosed) || (outbound[n] is Ok
            && answers[n] == Err::<(), FrameError>(FrameError::ConnectionClosed)),
    ensures
        pump_run(outbound, answers).outcome == Ok::<(), IoFault>(()),
        pump_run(outbound, answers).handed.len() <= n + 1,
{
    lemma_run_from_skips_written(outbound, answers, 0, n);
}

} // verus!
