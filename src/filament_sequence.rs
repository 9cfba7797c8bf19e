//! Feeding and retracting filament: check that the printer is operational, set
//! the hot-end target, home, raise the print head, wait for the temperature,
//! then move the filament. Each step is one remote call; the caller performs
//! the action a step returns and reports back what happened.

use vstd::prelude::*;

use crate::data_defs::printer_state::PrinterState;
use crate::filaments::{
    filament_degrees, filament_target, lemma_filament_target_degrees, within_five_degrees,
    Filament, HotEndTemperature,
};
use crate::http_errors::{printer_error_text, PrinterError, RemoteError};
use crate::printer_commands::PrinterCall;

verus! {

/// Seconds between two readings while waiting for the hot end.
pub const POLL_INTERVAL_SECONDS: u64 = 10;

/// Filament fed on a load, in mm, and the speed, in mm/min.
pub const FEED_AMOUNT_MM: i64 = 500;
pub const FEED_SPEED_MM_PER_MIN: i64 = 80;

/// Filament retracted on an unload, in mm, and the speed, in mm/min.
pub const RETRACT_AMOUNT_MM: i64 = -450;
pub const RETRACT_SPEED_MM_PER_MIN: i64 = 250;

/// Loading or unloading filament.
#[derive(Debug, Clone, Copy, PartialEq, Eq, Structural)]
pub enum FilamentOperation {
    Feed,
    Retract,
}

/// Where a filament sequence stands: the step names the reply it waits for.
#[derive(Debug, Clone, Copy, PartialEq, Eq, Structural)]
pub enum SequenceStep {
    CheckOperational,
    SetTarget,
    Home,
    RaiseHead,
    AwaitTemperature,
    MoveFilament,
    Done,
}

/// What came back from the last action.
#[derive(Debug, Clone, PartialEq, Eq)]
pub enum SequenceEvent {
    /// The printer's state was read.
    StateRead(PrinterState),
    /// A command was accepted.
    Sent,
    /// The remote call failed.
    Failed(RemoteError),
}

/// What to do next.
#[derive(Debug, PartialEq, Eq)]
pub enum SequenceAction {
    /// Wait `delay_seconds`, then read the printer's state.
    ReadState { delay_seconds: u64 },
    /// Make a call that changes the printer's state.
    Send(PrinterCall),
    /// The sequence is over, with this outcome.
    Finish(Result<(), PrinterError>),
}

/// A filament sequence in progress.
#[derive(Debug, Clone, Copy, PartialEq, Eq)]
pub struct FilamentSequence {
    pub operation: FilamentOperation,
    pub filament: Filament,
    pub step: SequenceStep,
}

/// The call that moves the filament at the end of an operation.
pub open spec fn filament_move(op: FilamentOperation) -> PrinterCall {
    match op {
        FilamentOperation::Feed => PrinterCall::Extrude {
            amount: FEED_AMOUNT_MM,
            speed: FEED_SPEED_MM_PER_MIN,
        },
        FilamentOperation::Retract => PrinterCall::Extrude {
            amount: RETRACT_AMOUNT_MM,
            speed: RETRACT_SPEED_MM_PER_MIN,
        },
    }
}

/// The action a step waits on, repeated when a reply of the wrong kind arrives.
pub open spec fn pending_action(s: FilamentSequence) -> SequenceAction {
    match s.step {
        SequenceStep::CheckOperational => SequenceAction::ReadState { delay_seconds: 0 },
        SequenceStep::SetTarget => SequenceAction::Send(
            PrinterCall::SetHotEndTarget(filament_target(s.filament)),
        ),
        SequenceStep::Home => SequenceAction::Send(PrinterCall::HomeAll),
        SequenceStep::RaiseHead => SequenceAction::Send(PrinterCall::RaisePrintHead),
        SequenceStep::AwaitTemperature => SequenceAction::ReadState { delay_seconds: 0 },
        SequenceStep::MoveFilament => SequenceAction::Send(filament_move(s.operation)),
        SequenceStep::Done => SequenceAction::Finish(Ok(())),
    }
}

/// The next step and action of sequence `s` once `e` has come back.
pub open spec fn sequence_next(s: FilamentSequence, e: SequenceEvent) -> (
    SequenceStep,
    SequenceAction,
) {
    match e {
        SequenceEvent::Failed(err) => (
            SequenceStep::Done,
            SequenceAction::Finish(Err(PrinterError::Remote(err))),
        ),
        SequenceEvent::StateRead(ps) => match s.step {
            SequenceStep::CheckOperational => if ps.state.flags.operational {
                (
                    SequenceStep::SetTarget,
                    SequenceAction::Send(PrinterCall::SetHotEndTarget(filament_target(s.filament))),
                )
            } else {
                (SequenceStep::Done, SequenceAction::Finish(Err(PrinterError::NotOperational)))
            },
            SequenceStep::AwaitTemperature => if within_five_degrees(
                filament_degrees(s.filament) as int,
                ps.temperature.tool0.actual as int,
            ) {
                (SequenceStep::MoveFilament, SequenceAction::Send(filament_move(s.operation)))
            } else {
                (
                    SequenceStep::AwaitTemperature,
                    SequenceAction::ReadState { delay_seconds: POLL_INTERVAL_SECONDS },
                )
            },
            _ => (s.step, pending_action(s)),
        },
        SequenceEvent::Sent => match s.step {
            SequenceStep::SetTarget => (SequenceStep::Home, SequenceAction::Send(PrinterCall::HomeAll)),
            SequenceStep::Home => (
                SequenceStep::RaiseHead,
                SequenceAction::Send(PrinterCall::RaisePrintHead),
            ),
            SequenceStep::RaiseHead => (
                SequenceStep::AwaitTemperature,
                SequenceAction::ReadState { delay_seconds: 0 },
            ),
            SequenceStep::MoveFilament => (SequenceStep::Done, SequenceAction::Finish(Ok(()))),
            _ => (s.step, pending_action(s)),
        },
    }
}

/// The sequence after event `e`.
pub open spec fn after(s: FilamentSequence, e: SequenceEvent) -> FilamentSequence {
    FilamentSequence { step: sequence_next(s, e).0, ..s }
}

/// The actions a sequence takes on the events `events`, one for each, stopping
/// once it is done.
pub open spec fn run(s: FilamentSequence, events: Seq<SequenceEvent>) -> Seq<SequenceAction>
    decreases events.len(),
{
    if events.len() == 0 || s.step is Done {
        seq![]
    } else {
        seq![sequence_next(s, events[0]).1] + run(after(s, events[0]), events.drop_first())
    }
}

/// A sequence that has just been started.
pub open spec fn started(operation: FilamentOperation, filament: Filament) -> FilamentSequence {
    FilamentSequence { operation, filament, step: SequenceStep::CheckOperational }
}

/// The hot end's temperature has come within five degrees of the target.
pub fn temperature_reached(target: &HotEndTemperature, state: &PrinterState) -> (r: bool)
    ensures
        r == within_five_degrees(target.view_degrees() as int, state.temperature.tool0.actual as int),
{
    target.within_5_degrees_of(state.temperature.tool0.actual)
}

/// The events of reading each of `states` in turn.
pub open spec fn reads(states: Seq<PrinterState>) -> Seq<SequenceEvent> {
    states.map_values(|p: PrinterState| SequenceEvent::StateRead(p))
}

/// `n` polls of the printer's state, each after the poll interval.
pub open spec fn polls(n: nat) -> Seq<SequenceAction> {
    Seq::new(n, |i: int| SequenceAction::ReadState { delay_seconds: POLL_INTERVAL_SECONDS })
}

/// On a printer that is not operational, an operation reads the state once and
/// ends with `NotOperational`: no command is sent, whatever comes after.
pub proof fn lemma_not_operational_sends_nothing(
    operation: FilamentOperation,
    filament: Filament,
    state: PrinterState,
    rest: Seq<SequenceEvent>,
)
    requires
        !state.state.flags.operational,
    ensures
        run(started(operation, filament), seq![SequenceEvent::StateRead(state)] + rest) == seq![
            SequenceAction::Finish(Err(PrinterError::NotOperational)),
        ],
{
    let s = started(operation, filament);
    let events = seq![SequenceEvent::StateRead(state)] + rest;
    assert(events[0] == SequenceEvent::StateRead(state));
    assert(after(s, events[0]).step is Done);
    assert(run(after(s, events[0]), events.drop_first()) == Seq::<SequenceAction>::empty());
    assert(run(s, events) =~= seq![SequenceAction::Finish(Err(PrinterError::NotOperational))]);
}

/// A failed remote call ends a sequence with that failure; nothing more is sent.
pub proof fn lemma_failure_ends_sequence(
    s: FilamentSequence,
    err: RemoteError,
    rest: Seq<SequenceEvent>,
)
    requires
        !(s.step is Done),
    ensures
        run(s, seq![SequenceEvent::Failed(err)] + rest) == seq![
            SequenceAction::Finish(Err(PrinterError::Remote(err))),
        ],
{
    let events = seq![SequenceEvent::Failed(err)] + rest;
    assert(events[0] == SequenceEvent::Failed(err));
    assert(after(s, events[0]).step is Done);
    assert(run(after(s, events[0]), events.drop_first()) == Seq::<SequenceAction>::empty());
    assert(run(s, events) =~= seq![SequenceAction::Finish(Err(PrinterError::Remote(err)))]);
}

/// While the hot end is not yet within five degrees, each reading is followed by
/// another after the poll interval.
proof fn lemma_run_while_heating(
    s: FilamentSequence,
    waiting: Seq<PrinterState>,
    tail: Seq<SequenceEvent>,
)
    requires
        s.step is AwaitTemperature,
        forall|i: int|
            0 <= i < waiting.len() ==> !within_five_degrees(
                filament_degrees(s.filament) as int,
                #[trigger] waiting[i].temperature.tool0.actual as int,
            ),
    ensures
        run(s, reads(waiting) + tail) == polls(waiting.len()) + run(s, tail),
    decreases waiting.len(),
{
    if waiting.len() == 0 {
        assert(reads(waiting) + tail =~= tail);
        assert(polls(0) + run(s, tail) =~= run(s, tail));
    } else {
        let events = reads(waiting) + tail;
        let rest = waiting.drop_first();
        assert(events[0] == SequenceEvent::StateRead(waiting[0]));
        assert(after(s, events[0]) == s);
        assert(events.drop_first() =~= reads(rest) + tail);
        assert forall|i: int|
            0 <= i < rest.len() implies !within_five_degrees(
                filament_degrees(s.filament) as int,
                #[trigger] rest[i].temperature.tool0.actual as int,
            ) by {
            assert(rest[i] == waiting[i + 1]);
        }
        lemma_run_while_heating(s, rest, tail);
        assert(polls(waiting.len()) =~= seq![
            SequenceAction::ReadState { delay_seconds: POLL_INTERVAL_SECONDS },
        ] + polls(rest.len()));
        assert(run(s, events) =~= polls(waiting.len()) + run(s, tail));
    }
}

/// When every call succeeds, an operation on an operational printer sets the
/// hot-end target to the filament's temperature, homes all axes, raises the print
/// head, reads the temperature until it is within five degrees (again after each
/// poll interval), then moves the filament and ends successfully.
pub proof fn lemma_successful_order(
    operation: FilamentOperation,
    filament: Filament,
    ready: PrinterState,
    waiting: Seq<PrinterState>,
    hot: PrinterState,
)
    requires
        ready.state.flags.operational,
        forall|i: int|
            0 <= i < waiting.len() ==> !within_five_degrees(
                filament_degrees(filament) as int,
                #[trigger] waiting[i].temperature.tool0.actual as int,
            ),
        within_five_degrees(filament_degrees(filament) as int, hot.temperature.tool0.actual as int),
    ensures
        run(
            started(operation, filament),
            seq![
                SequenceEvent::StateRead(ready),
                SequenceEvent::Sent,
                SequenceEvent::Sent,
                SequenceEvent::Sent,
            ] + reads(waiting) + seq![SequenceEvent::StateRead(hot), SequenceEvent::Sent],
        ) == seq![
            SequenceAction::Send(PrinterCall::SetHotEndTarget(filament_target(filament))),
            SequenceAction::Send(PrinterCall::HomeAll),
            SequenceAction::Send(PrinterCall::RaisePrintHead),
            SequenceAction::ReadState { delay_seconds: 0 },
        ] + polls(waiting.len()) + seq![
            SequenceAction::Send(filament_move(operation)),
            SequenceAction::Finish(Ok(())),
        ],
{
    let s0 = started(operation, filament);
    let s1 = FilamentSequence { step: SequenceStep::SetTarget, ..s0 };
    let s2 = FilamentSequence { step: SequenceStep::Home, ..s0 };
    let s3 = FilamentSequence { step: SequenceStep::RaiseHead, ..s0 };
    let s4 = FilamentSequence { step: SequenceStep::AwaitTemperature, ..s0 };
    let s5 = FilamentSequence { step: SequenceStep::MoveFilament, ..s0 };
    let s6 = FilamentSequence { step: SequenceStep::Done, ..s0 };
    let tail = seq![SequenceEvent::StateRead(hot), SequenceEvent::Sent];
    let e3 = reads(waiting) + tail;
    let e2 = seq![SequenceEvent::Sent] + e3;
    let e1 = seq![SequenceEvent::Sent] + e2;
    let e0 = seq![SequenceEvent::Sent] + e1;
    let events = seq![SequenceEvent::StateRead(ready)] + e0;
    assert(events =~= seq![
        SequenceEvent::StateRead(ready),
        SequenceEvent::Sent,
        SequenceEvent::Sent,
        SequenceEvent::Sent,
    ] + reads(waiting) + tail);

    let last = seq![SequenceEvent::Sent];
    assert(tail.drop_first() =~= last);
    assert(last.drop_first() =~= Seq::<SequenceEvent>::empty());
    assert(run(s6, Seq::<SequenceEvent>::empty()) == Seq::<SequenceAction>::empty());
    assert(run(s5, last) =~= seq![SequenceAction::Finish(Ok(()))]);
    assert(after(s4, tail[0]) == s5);
    assert(run(s4, tail) =~= seq![
        SequenceAction::Send(filament_move(operation)),
        SequenceAction::Finish(Ok(())),
    ]);
    lemma_run_while_heating(s4, waiting, tail);

    assert(e2.drop_first() =~= e3);
    assert(e1.drop_first() =~= e2);
    assert(e0.drop_first() =~= e1);
    assert(events.drop_first() =~= e0);
    assert(run(s3, e2) =~= seq![SequenceAction::ReadState { delay_seconds: 0 }] + run(s4, e3));
    assert(run(s2, e1) =~= seq![SequenceAction::Send(PrinterCall::RaisePrintHead)] + run(s3, e2));
    assert(run(s1, e0) =~= seq![SequenceAction::Send(PrinterCall::HomeAll)] + run(s2, e1));
    assert(run(s0, events) =~= seq![
        SequenceAction::Send(PrinterCall::SetHotEndTarget(filament_target(filament))),
    ] + run(s1, e0));
    assert(run(s0, events) =~= seq![
        SequenceAction::Send(PrinterCall::SetHotEndTarget(filament_target(filament))),
        SequenceAction::Send(PrinterCall::HomeAll),
        SequenceAction::Send(PrinterCall::RaisePrintHead),
        SequenceAction::ReadState { delay_seconds: 0 },
    ] + polls(waiting.len()) + seq![
        SequenceAction::Send(filament_move(operation)),
        SequenceAction::Finish(Ok(())),
    ]);
}

/// The message of an operation that went through.
pub open spec fn done_message(op: FilamentOperation) -> Seq<char> {
    match op {
        FilamentOperation::Feed => "Finished feeding filament"@,
        FilamentOperation::Retract => "Finished removing filament"@,
    }
}

/// The outcome of an operation as a job reports it: its message on success, the
/// error's description on failure.
pub fn job_outcome(operation: FilamentOperation, outcome: Result<(), PrinterError>) -> (r: Result<
    String,
    String,
>)
    ensures
        outcome is Ok ==> (r matches Ok(m) && m@ == done_message(operation)),
        outcome matches Err(e) ==> (r matches Err(m) && m@ == printer_error_text(e)),
{
    match outcome {
        Ok(()) => match operation {
            FilamentOperation::Feed => Ok("Finished feeding filament".to_owned()),
            FilamentOperation::Retract => Ok("Finished removing filament".to_owned()),
        },
        Err(e) => Err(e.message()),
    }
}

impl FilamentSequence {
    /// Starts an operation: the first action reads the printer's state.
    pub fn start(operation: FilamentOperation, filament: Filament) -> (r: (
        FilamentSequence,
        SequenceAction,
    ))
        ensures
            r.0 == started(operation, filament),
            r.1 == (SequenceAction::ReadState { delay_seconds: 0 }),
    {
        (
            FilamentSequence { operation, filament, step: SequenceStep::CheckOperational },
            SequenceAction::ReadState { delay_seconds: 0 },
        )
    }

    /// Whether the sequence is over.
    pub fn is_done(&self) -> (r: bool)
        ensures
            r == (self.step is Done),
    {
        matches!(self.step, SequenceStep::Done)
    }

    fn move_call(&self) -> (r: PrinterCall)
        ensures
            r == filament_move(self.operation),
    {
        match self.operation {
            FilamentOperation::Feed => PrinterCall::Extrude {
                amount: FEED_AMOUNT_MM,
                speed: FEED_SPEED_MM_PER_MIN,
            },
            FilamentOperation::Retract => PrinterCall::Extrude {
                amount: RETRACT_AMOUNT_MM,
                speed: RETRACT_SPEED_MM_PER_MIN,
            },
        }
    }

    fn pending(&self) -> (r: SequenceAction)
        requires
            !(self.step is Done),
        ensures
            r == pending_action(*self),
    {
        match self.step {
            SequenceStep::CheckOperational => SequenceAction::ReadState { delay_seconds: 0 },
            SequenceStep::SetTarget => SequenceAction::Send(
                PrinterCall::SetHotEndTarget(HotEndTemperature::from(self.filament)),
            ),
            SequenceStep::Home => SequenceAction::Send(PrinterCall::HomeAll),
            SequenceStep::RaiseHead => SequenceAction::Send(PrinterCall::RaisePrintHead),
            SequenceStep::AwaitTemperature => SequenceAction::ReadState { delay_seconds: 0 },
            SequenceStep::MoveFilament => SequenceAction::Send(self.move_call()),
            SequenceStep::Done => SequenceAction::Finish(Ok(())),
        }
    }

    /// Takes in what came back from the last action and returns the next one.
    pub fn step(&mut self, event: SequenceEvent) -> (a: SequenceAction)
        requires
            !(old(self).step is Done),
        ensures
            *final(self) == after(*old(self), event),
            a == sequence_next(*old(self), event).1,
    {
        match event {
            SequenceEvent::Failed(err) => {
                self.step = SequenceStep::Done;
                SequenceAction::Finish(Err(PrinterError::Remote(err)))
            },
            SequenceEvent::StateRead(ps) => match self.step {
                SequenceStep::CheckOperational => {
                    if ps.state.flags.operational {
                        self.step = SequenceStep::SetTarget;
                        SequenceAction::Send(
                            PrinterCall::SetHotEndTarget(HotEndTemperature::from(self.filament)),
                        )
                    } else {
                        self.step = SequenceStep::Done;
                        SequenceAction::Finish(Err(PrinterError::NotOperational))
                    }
                },
                SequenceStep::AwaitTemperature => {
                    let target = HotEndTemperature::from(self.filament);
                    proof {
                        lemma_filament_target_degrees(self.filament);
                    }
                    if temperature_reached(&target, &ps) {
                        self.step = SequenceStep::MoveFilament;
                        SequenceAction::Send(self.move_call())
                    } else {
                        SequenceAction::ReadState { delay_seconds: POLL_INTERVAL_SECONDS }
                    }
                },
                _ => self.pending(),
            },
            SequenceEvent::Sent => match self.step {
                SequenceStep::SetTarget => {
                    self.step = SequenceStep::Home;
                    SequenceAction::Send(PrinterCall::HomeAll)
                },
                SequenceStep::Home => {
                    self.step = SequenceStep::RaiseHead;
                    SequenceAction::Send(PrinterCall::RaisePrintHead)
                },
                SequenceStep::RaiseHead => {
                    self.step = SequenceStep::AwaitTemperature;
                    SequenceAction::ReadState { delay_seconds: 0 }
                },
                SequenceStep::MoveFilament => {
                    self.step = SequenceStep::Done;
                    SequenceAction::Finish(Ok(()))
                },
                _ => self.pending(),
            },
        }
    }
}

} // verus!
