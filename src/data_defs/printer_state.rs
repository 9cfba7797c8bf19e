use vstd::prelude::*;

verus! {

/// A snapshot of the printer's state. Temperatures are in hundredths of a degree.
#[derive(Default, Debug, Clone, PartialEq, Eq)]
pub struct PrinterState {
    pub sd: Sd,
    pub state: State,
    pub temperature: Temperature,
}

#[derive(Default, Debug, Clone, Copy, PartialEq, Eq, Structural)]
pub struct Sd {
    pub ready: bool,
}

#[derive(Default, Debug, Clone, PartialEq, Eq)]
pub struct State {
    pub error: String,
    pub flags: Flags,
    pub text: String,
}

#[derive(Default, Debug, Clone, Copy, PartialEq, Eq, Structural)]
pub struct Flags {
    pub cancelling: bool,
    pub closed_or_error: bool,
    pub error: bool,
    pub finishing: bool,
    pub operational: bool,
    pub paused: bool,
    pub pausing: bool,
    pub printing: bool,
    pub ready: bool,
    pub resuming: bool,
    pub sd_ready: bool,
}

#[derive(Default, Debug, Clone, Copy, PartialEq, Eq, Structural)]
pub struct Temperature {
    pub bed: Bed,
    pub tool0: Tool0,
}

/// The bed's temperatures, in hundredths of a degree.
#[derive(Default, Debug, Clone, Copy, PartialEq, Eq, Structural)]
pub struct Bed {
    pub actual: i64,
    pub offset: i64,
    pub target: i64,
}

/// The hot end's temperatures, in hundredths of a degree.
#[derive(Default, Debug, Clone, Copy, PartialEq, Eq, Structural)]
pub struct Tool0 {
    pub actual: i64,
    pub offset: i64,
    pub target: i64,
}

} // verus!
