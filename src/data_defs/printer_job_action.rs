use vstd::prelude::*;

verus! {

/// What to do with a pause.
#[derive(Debug, Clone, Copy, PartialEq, Eq, Structural)]
pub enum PauseAction {
    Pause,
    Resume,
    Toggle,
}

/// A command for the current print job.
#[derive(Debug, Clone, Copy, PartialEq, Eq, Structural)]
pub enum JobAction {
    Start,
    Cancel,
    Restart,
    Pause { action: PauseAction },
}

} // verus!
