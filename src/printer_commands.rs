use vstd::prelude::*;

use crate::data_defs::printer_job_action::JobAction;
use crate::data_defs::printer_move::{all_axes, PrinterMove};
use crate::data_defs::printer_tool::{Targets, Tool};
use crate::data_defs::printer_state::PrinterState;
use crate::filaments::HotEndTemperature;
use crate::http_errors::PrinterError;

verus! {

/// Height the print head is raised to before filament is moved, in mm.
pub const PRINT_HEAD_HIGH_MM: i64 = 200;

/// A command posted to the device API.
#[derive(Debug, Clone, PartialEq, Eq)]
pub enum PrinterCommand {
    Tool(Tool),
    Move(PrinterMove),
    Job(JobAction),
}

/// The path, under the API root, that a command is posted to.
pub open spec fn command_endpoint(c: PrinterCommand) -> Seq<char> {
    match c {
        PrinterCommand::Tool(_) => "printer/tool"@,
        PrinterCommand::Move(_) => "printer/printhead"@,
        PrinterCommand::Job(_) => "job"@,
    }
}

impl PrinterCommand {
    /// The path, under the API root, that this command is posted to.
    pub fn endpoint(&self) -> (r: &'static str)
        ensures
            r@ == command_endpoint(*self),
    {
        match self {
            PrinterCommand::Tool(_) => "printer/tool",
            PrinterCommand::Move(_) => "printer/printhead",
            PrinterCommand::Job(_) => "job",
        }
    }
}

/// The calls that change the printer's physical state during a filament change.
#[derive(Debug, Clone, Copy, PartialEq, Eq)]
pub enum PrinterCall {
    /// Sets the hot end's target temperature.
    SetHotEndTarget(HotEndTemperature),
    /// Homes all axes.
    HomeAll,
    /// Raises the print head to its fixed height, in absolute coordinates.
    RaisePrintHead,
    /// Moves `amount` mm of filament (negative retracts) at `speed` mm/min.
    Extrude { amount: i64, speed: i64 },
}

/// Whether `c` is the command that carries out `call`.
pub open spec fn carries_out(call: PrinterCall, c: PrinterCommand) -> bool {
    match call {
        PrinterCall::SetHotEndTarget(t) => c == PrinterCommand::Tool(
            Tool::Target { targets: Targets { tool0: t.view_degrees() as i64 } },
        ),
        PrinterCall::HomeAll => {
            &&& c matches PrinterCommand::Move(m)
            &&& m matches PrinterMove::Home { axes }
            &&& axes@ == all_axes()
        },
        PrinterCall::RaisePrintHead => c == PrinterCommand::Move(
            PrinterMove::Move {
                x: None,
                y: None,
                z: Some(PRINT_HEAD_HIGH_MM),
                absolute: Some(true),
                speed: None,
            },
        ),
        PrinterCall::Extrude { amount, speed } => c == PrinterCommand::Tool(
            Tool::Extrude { amount, speed: Some(speed) },
        ),
    }
}

impl PrinterCall {
    /// The command that carries out this call.
    pub fn command(&self) -> (r: PrinterCommand)
        ensures
            carries_out(*self, r),
    {
        match self {
            PrinterCall::SetHotEndTarget(t) => PrinterCommand::Tool(
                Tool::Target { targets: Targets { tool0: i64::from(*t) } },
            ),
            PrinterCall::HomeAll => PrinterCommand::Move(PrinterMove::home_all()),
            PrinterCall::RaisePrintHead => PrinterCommand::Move(
                PrinterMove::Move {
                    x: None,
                    y: None,
                    z: Some(PRINT_HEAD_HIGH_MM),
                    absolute: Some(true),
                    speed: None,
                },
            ),
            PrinterCall::Extrude { amount, speed } => PrinterCommand::Tool(
                Tool::Extrude { amount: *amount, speed: Some(*speed) },
            ),
        }
    }
}

/// The command that turns the hot end off, when the printer in `state` is
/// operational.
pub fn cool_down_command(state: &PrinterState) -> (r: Result<PrinterCommand, PrinterError>)
    ensures
        state.state.flags.operational ==> r == Ok::<PrinterCommand, PrinterError>(
            PrinterCommand::Tool(Tool::Target { targets: Targets { tool0: 0 } }),
        ),
        !state.state.flags.operational ==> r == Err::<PrinterCommand, PrinterError>(
            PrinterError::NotOperational,
        ),
{
    if state.state.flags.operational {
        Ok(PrinterCommand::Tool(Tool::Target { targets: Targets { tool0: 0 } }))
    } else {
        Err(PrinterError::NotOperational)
    }
}

} // verus!
