//! The refresh-task supervisor's decisions.
//!
//! One long-lived background producer runs beside the foreground loop
//! and talks to it over a bounded channel plus a completion signal. The
//! producer is defined to never finish voluntarily, so any termination
//! — clean or faulted — is fatal to the session. The loop's supervision
//! step is decided here; the surrounding program only performs it.

use crate::strutil::{dec_text, str_eq, u64_to_dec};
use vstd::prelude::*;
use vstd::string::*;

verus! {

/// Capacity of the producer's outbound channel: a full channel suspends
/// the producer, bounding memory growth if the consumer falls behind.
pub const REFRESH_CHANNEL_CAPACITY: usize = 5;

/// A fatal supervisor outcome; ends the whole session.
#[derive(Debug)]
pub struct FatalSupervisorError {
    pub message: String,
}

/// The text reported for a refresh-task termination: a clean finish is
/// itself an error; a fault keeps the fault's text.
pub open spec fn fatal_text(outcome: Result<(), Seq<char>>) -> Seq<char> {
    match outcome {
        Ok(_) => "😵 refresh task stopped unexpectedly. See logs for details."@,
        Err(e) => "💥 refresh task panicked: "@ + e + ". See logs for details."@,
    }
}

/// Turns the refresh task's termination into the fatal session error.
/// A clean finish is reported as "stopped unexpectedly"; a fault (its
/// rendered text in `res`) as "panicked", preserving the fault's text.
pub fn refresh_task_result_to_err(res: Result<(), String>) -> (r: Result<
    (),
    FatalSupervisorError,
>)
    ensures
        match res {
            Ok(_) => (r matches Err(f) && f.message@ == fatal_text(Ok(()))),
            Err(e) => (r matches Err(f) && f.message@ == fatal_text(
                Err::<(), Seq<char>>(e@),
            )),
        },
{
    match res {
        Ok(_) => Err(
            FatalSupervisorError {
                message: String::from_str(
                    "😵 refresh task stopped unexpectedly. See logs for details.",
                ),
            },
        ),
        Err(e) => {
            let mut m = String::from_str("💥 refresh task panicked: ");
            m.append(e.as_str());
            m.append(". See logs for details.");
            Err(FatalSupervisorError { message: m })
        },
    }
}

/// One non-blocking receive on the producer's channel, as the loop saw
/// it.
#[derive(Debug)]
pub enum RecvPoll {
    Data(String),
    Empty,
    Disconnected,
}

/// What the loop does after one supervision step.
#[derive(Debug)]
pub enum LoopAction {
    /// Nothing to do this iteration.
    Continue,
    /// A received value to merge into session state.
    Merge(String),
    /// The producer asked the loop to end cleanly.
    Stop,
    /// The task terminated; the session ends with this error.
    Fatal(FatalSupervisorError),
}

/// One supervision step per loop iteration, before rendering. A
/// finished task is fatal whatever its outcome. Otherwise an empty and
/// a disconnected channel are both tolerated silently; a received value
/// is merged — except the value `stop`, which ends the loop cleanly.
pub fn supervise_step(finished: Option<Result<(), String>>, recv: RecvPoll) -> (r: LoopAction)
    ensures
        match finished {
            Some(outcome) => (r matches LoopAction::Fatal(f) && f.message@ == fatal_text(
                match outcome {
                    Ok(_) => Ok(()),
                    Err(e) => Err(e@),
                },
            )),
            None => match recv {
                RecvPoll::Data(d) => if d@ == "stop"@ {
                    r is Stop
                } else {
                    (r matches LoopAction::Merge(m) && m@ == d@)
                },
                RecvPoll::Empty => r is Continue,
                RecvPoll::Disconnected => r is Continue,
            },
        },
{
    match finished {
        Some(outcome) => match refresh_task_result_to_err(outcome) {
            Err(f) => LoopAction::Fatal(f),
            Ok(_) => LoopAction::Continue,
        },
        None => match recv {
            RecvPoll::Data(d) => if str_eq(d.as_str(), "stop") {
                LoopAction::Stop
            } else {
                LoopAction::Merge(d)
            },
            RecvPoll::Empty => LoopAction::Continue,
            RecvPoll::Disconnected => LoopAction::Continue,
        },
    }
}

/// The producer's message for iteration `count`: `stop` at 5, a
/// greeting carrying the count before that.
pub fn producer_message(count: u64) -> (r: String)
    ensures
        count == 5 ==> r@ == "stop"@,
        count != 5 ==> r@ == "Hello "@ + dec_text(count as int),
{
    if count == 5 {
        String::from_str("stop")
    } else {
        let mut m = String::from_str("Hello ");
        let d = u64_to_dec(count);
        m.append(d.as_str());
        m
    }
}

} // verus!
