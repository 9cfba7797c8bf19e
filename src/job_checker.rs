//! Watches for a print to start and then to end, and asks for a notification
//! each time one ends. The caller performs the actions and reports back; a
//! failure stops the watcher and is handed to whoever supervises it.

use vstd::prelude::*;

use crate::filament_sequence::POLL_INTERVAL_SECONDS;

verus! {

/// Where the watcher stands.
#[derive(Debug, Clone, Copy, PartialEq, Eq, Structural)]
pub enum WatchState {
    /// No print seen yet.
    Idle,
    /// A print is in progress.
    Watching,
    /// A print has ended and the notification is out.
    Notifying,
    /// A call failed; the watcher has stopped.
    Stopped,
}

/// What came back from the last action.
#[derive(Debug, Clone, PartialEq, Eq)]
pub enum WatchEvent {
    /// The printer's state was read: whether it is printing.
    StatusRead { printing: bool },
    /// The notification went out.
    Notified,
    /// The last call failed, with this description.
    Failed(String),
}

/// What to do next.
#[derive(Debug, Clone, PartialEq, Eq)]
pub enum WatchAction {
    /// Wait `delay_seconds`, then read the printer's state.
    ReadStatus { delay_seconds: u64 },
    /// Send the notification that a print has ended.
    Notify,
    /// Stop with this failure.
    Stop(String),
}

/// The print-completion watcher.
#[derive(Debug, Clone, Copy, PartialEq, Eq)]
pub struct PrintWatcher {
    pub state: WatchState,
}

/// The action a state waits on, repeated when a reply of the wrong kind arrives.
pub open spec fn watch_pending(s: WatchState) -> WatchAction {
    match s {
        WatchState::Notifying => WatchAction::Notify,
        _ => WatchAction::ReadStatus { delay_seconds: 0 },
    }
}

/// The next state and action of the watcher in state `s` once `e` has come back.
pub open spec fn watch_next(s: WatchState, e: WatchEvent) -> (WatchState, WatchAction) {
    match e {
        WatchEvent::Failed(m) => (WatchState::Stopped, WatchAction::Stop(m)),
        WatchEvent::StatusRead { printing } => match s {
            WatchState::Idle => if printing {
                (WatchState::Watching, WatchAction::ReadStatus { delay_seconds: 0 })
            } else {
                (WatchState::Idle, WatchAction::ReadStatus { delay_seconds: POLL_INTERVAL_SECONDS })
            },
            WatchState::Watching => if printing {
                (
                    WatchState::Watching,
                    WatchAction::ReadStatus { delay_seconds: POLL_INTERVAL_SECONDS },
                )
            } else {
                (WatchState::Notifying, WatchAction::Notify)
            },
            _ => (s, watch_pending(s)),
        },
        WatchEvent::Notified => match s {
            WatchState::Notifying => (
                WatchState::Idle,
                WatchAction::ReadStatus { delay_seconds: POLL_INTERVAL_SECONDS },
            ),
            _ => (s, watch_pending(s)),
        },
    }
}

/// How many notifications the watcher in state `s` asks for while it reads
/// `readings` in turn (whether the printer is printing), each notification
/// going out without failure.
pub open spec fn notifications(s: WatchState, readings: Seq<bool>) -> nat
    decreases readings.len(),
{
    if readings.len() == 0 {
        0
    } else {
        let (next, action) = watch_next(s, WatchEvent::StatusRead { printing: readings[0] });
        if action is Notify {
            1 + notifications(watch_next(next, WatchEvent::Notified).0, readings.drop_first())
        } else {
            notifications(next, readings.drop_first())
        }
    }
}

/// How many times `readings` goes from printing to not printing, `printing_before`
/// being the reading before the first.
pub open spec fn print_ends(printing_before: bool, readings: Seq<bool>) -> nat
    decreases readings.len(),
{
    if readings.len() == 0 {
        0
    } else {
        let ended: nat = if printing_before && !readings[0] {
            1
        } else {
            0
        };
        ended + print_ends(readings[0], readings.drop_first())
    }
}

proof fn lemma_notifications_from(s: WatchState, readings: Seq<bool>)
    requires
        s is Idle || s is Watching,
    ensures
        notifications(s, readings) == print_ends(s is Watching, readings),
    decreases readings.len(),
{
    if readings.len() > 0 {
        let (next, action) = watch_next(s, WatchEvent::StatusRead { printing: readings[0] });
        if action is Notify {
            lemma_notifications_from(watch_next(next, WatchEvent::Notified).0, readings.drop_first());
        } else {
            lemma_notifications_from(next, readings.drop_first());
        }
    }
}

/// Started on a sequence of readings, the watcher asks for one notification for
/// each time the printer goes from printing to not printing, and no other.
pub proof fn lemma_one_notification_per_print_end(readings: Seq<bool>)
    ensures
        notifications(WatchState::Idle, readings) == print_ends(false, readings),
{
    lemma_notifications_from(WatchState::Idle, readings);
}

impl PrintWatcher {
    /// Starts watching: the first action reads the printer's state at once.
    pub fn start() -> (r: (PrintWatcher, WatchAction))
        ensures
            r.0.state is Idle,
            r.1 == (WatchAction::ReadStatus { delay_seconds: 0 }),
    {
        (PrintWatcher { state: WatchState::Idle }, WatchAction::ReadStatus { delay_seconds: 0 })
    }

    /// Takes in what came back from the last action and returns the next one.
    pub fn step(&mut self, event: WatchEvent) -> (a: WatchAction)
        requires
            !(old(self).state is Stopped),
        ensures
            final(self).state == watch_next(old(self).state, event).0,
            a == watch_next(old(self).state, event).1,
    {
        match event {
            WatchEvent::Failed(m) => {
                self.state = WatchState::Stopped;
                WatchAction::Stop(m)
            },
            WatchEvent::StatusRead { printing } => match self.state {
                WatchState::Idle => {
                    if printing {
                        self.state = WatchState::Watching;
                        WatchAction::ReadStatus { delay_seconds: 0 }
                    } else {
                        WatchAction::ReadStatus { delay_seconds: POLL_INTERVAL_SECONDS }
                    }
                },
                WatchState::Watching => {
                    if printing {
                        WatchAction::ReadStatus { delay_seconds: POLL_INTERVAL_SECONDS }
                    } else {
                        self.state = WatchState::Notifying;
                        WatchAction::Notify
                    }
                },
                WatchState::Notifying => WatchAction::Notify,
                WatchState::Stopped => WatchAction::ReadStatus { delay_seconds: 0 },
            },
            WatchEvent::Notified => match self.state {
                WatchState::Notifying => {
                    self.state = WatchState::Idle;
                    WatchAction::ReadStatus { delay_seconds: POLL_INTERVAL_SECONDS }
                },
                _ => WatchAction::ReadStatus { delay_seconds: 0 },
            },
        }
    }
}

} // verus!
