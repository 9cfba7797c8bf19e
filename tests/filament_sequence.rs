use printer_actions::data_defs::printer_move::{HomeAxis, PrinterMove};
use printer_actions::data_defs::printer_state::{Flags, PrinterState, State, Temperature, Tool0};
use printer_actions::data_defs::printer_tool::{Targets, Tool};
use printer_actions::filament_sequence::{
    job_outcome, FilamentOperation, FilamentSequence, SequenceAction, SequenceEvent,
};
use printer_actions::filaments::{Filament, HotEndTemperature};
use printer_actions::http_errors::{PrinterError, RemoteError};
use printer_actions::printer_commands::{cool_down_command, PrinterCall, PrinterCommand};

fn printer(operational: bool, hot_end_centi: i64) -> PrinterState {
    PrinterState {
        state: State {
            flags: Flags { operational, ..Default::default() },
            ..Default::default()
        },
        temperature: Temperature {
            tool0: Tool0 { actual: hot_end_centi, offset: 0, target: 0 },
            ..Default::default()
        },
        ..Default::default()
    }
}

fn read_state(delay_seconds: u64) -> SequenceAction {
    SequenceAction::ReadState { delay_seconds }
}

#[test]
fn load_pla_calls_in_order() {
    let (mut seq, first) = FilamentSequence::start(FilamentOperation::Feed, Filament::PLA);
    assert_eq!(first, read_state(0));
    let pla = HotEndTemperature::new(200).unwrap();
    let a = seq.step(SequenceEvent::StateRead(printer(true, 2100)));
    assert_eq!(a, SequenceAction::Send(PrinterCall::SetHotEndTarget(pla)));
    assert_eq!(seq.step(SequenceEvent::Sent), SequenceAction::Send(PrinterCall::HomeAll));
    assert_eq!(seq.step(SequenceEvent::Sent), SequenceAction::Send(PrinterCall::RaisePrintHead));
    assert_eq!(seq.step(SequenceEvent::Sent), read_state(0));
    // heating: polled every ten seconds until within five degrees of 200
    assert_eq!(seq.step(SequenceEvent::StateRead(printer(true, 9000))), read_state(10));
    assert_eq!(seq.step(SequenceEvent::StateRead(printer(true, 19499))), read_state(10));
    let a = seq.step(SequenceEvent::StateRead(printer(true, 19500)));
    assert_eq!(a, SequenceAction::Send(PrinterCall::Extrude { amount: 500, speed: 80 }));
    assert!(!seq.is_done());
    assert_eq!(seq.step(SequenceEvent::Sent), SequenceAction::Finish(Ok(())));
    assert!(seq.is_done());
}

#[test]
fn unload_retracts_at_its_own_speed() {
    let (mut seq, _) = FilamentSequence::start(FilamentOperation::Retract, Filament::PETG);
    let a = seq.step(SequenceEvent::StateRead(printer(true, 0)));
    assert_eq!(a, SequenceAction::Send(PrinterCall::SetHotEndTarget(HotEndTemperature::new(230).unwrap())));
    seq.step(SequenceEvent::Sent);
    seq.step(SequenceEvent::Sent);
    assert_eq!(seq.step(SequenceEvent::Sent), read_state(0));
    let a = seq.step(SequenceEvent::StateRead(printer(true, 23400)));
    assert_eq!(a, SequenceAction::Send(PrinterCall::Extrude { amount: -450, speed: 250 }));
    assert_eq!(seq.step(SequenceEvent::Sent), SequenceAction::Finish(Ok(())));
}

#[test]
fn not_operational_printer_gets_no_command() {
    for op in [FilamentOperation::Feed, FilamentOperation::Retract] {
        let (mut seq, first) = FilamentSequence::start(op, Filament::TPU);
        assert_eq!(first, read_state(0));
        let a = seq.step(SequenceEvent::StateRead(printer(false, 22000)));
        assert_eq!(a, SequenceAction::Finish(Err(PrinterError::NotOperational)));
        assert!(seq.is_done());
    }
}

#[test]
fn failed_homing_stops_before_extrusion() {
    let (mut seq, _) = FilamentSequence::start(FilamentOperation::Feed, Filament::PLA);
    seq.step(SequenceEvent::StateRead(printer(true, 2100)));
    assert_eq!(seq.step(SequenceEvent::Sent), SequenceAction::Send(PrinterCall::HomeAll));
    let err = RemoteError { status: Some(409), message: "Printer is busy".to_string() };
    let a = seq.step(SequenceEvent::Failed(err.clone()));
    assert_eq!(a, SequenceAction::Finish(Err(PrinterError::Remote(err))));
    assert!(seq.is_done());
}

#[test]
fn failed_temperature_read_ends_the_wait() {
    let (mut seq, _) = FilamentSequence::start(FilamentOperation::Feed, Filament::PLA);
    seq.step(SequenceEvent::StateRead(printer(true, 2100)));
    seq.step(SequenceEvent::Sent);
    seq.step(SequenceEvent::Sent);
    seq.step(SequenceEvent::Sent);
    let err = RemoteError { status: None, message: "connection refused".to_string() };
    let a = seq.step(SequenceEvent::Failed(err.clone()));
    assert_eq!(a, SequenceAction::Finish(Err(PrinterError::Remote(err))));
}

#[test]
fn reply_of_the_wrong_kind_repeats_the_request() {
    let (mut seq, _) = FilamentSequence::start(FilamentOperation::Feed, Filament::PLA);
    assert_eq!(seq.step(SequenceEvent::Sent), read_state(0));
    seq.step(SequenceEvent::StateRead(printer(true, 2100)));
    assert_eq!(seq.step(SequenceEvent::Sent), SequenceAction::Send(PrinterCall::HomeAll));
    let a = seq.step(SequenceEvent::StateRead(printer(true, 2100)));
    assert_eq!(a, SequenceAction::Send(PrinterCall::HomeAll));
}

#[test]
fn calls_become_commands_on_their_endpoints() {
    let t = PrinterCall::SetHotEndTarget(HotEndTemperature::new(220).unwrap()).command();
    assert_eq!(t, PrinterCommand::Tool(Tool::Target { targets: Targets { tool0: 220 } }));
    assert_eq!(t.endpoint(), "printer/tool");
    let h = PrinterCall::HomeAll.command();
    assert_eq!(h, PrinterCommand::Move(PrinterMove::Home { axes: vec![HomeAxis::X, HomeAxis::Y, HomeAxis::Z] }));
    assert_eq!(h.endpoint(), "printer/printhead");
    let r = PrinterCall::RaisePrintHead.command();
    assert_eq!(
        r,
        PrinterCommand::Move(PrinterMove::Move { x: None, y: None, z: Some(200), absolute: Some(true), speed: None })
    );
    let e = PrinterCall::Extrude { amount: -450, speed: 250 }.command();
    assert_eq!(e, PrinterCommand::Tool(Tool::Extrude { amount: -450, speed: Some(250) }));
    assert_eq!(PrinterCommand::Job(printer_actions::data_defs::printer_job_action::JobAction::Cancel).endpoint(), "job");
}

#[test]
fn home_all_homes_x_y_z() {
    assert_eq!(PrinterMove::home_all(), PrinterMove::Home { axes: vec![HomeAxis::X, HomeAxis::Y, HomeAxis::Z] });
}

#[test]
fn finished_operations_report_their_message() {
    assert_eq!(job_outcome(FilamentOperation::Feed, Ok(())), Ok("Finished feeding filament".to_string()));
    assert_eq!(job_outcome(FilamentOperation::Retract, Ok(())), Ok("Finished removing filament".to_string()));
    assert_eq!(
        job_outcome(FilamentOperation::Feed, Err(PrinterError::NotOperational)),
        Err("Printer not operational".to_string())
    );
}

#[test]
fn cool_down_only_when_operational() {
    assert_eq!(
        cool_down_command(&printer(true, 20000)),
        Ok(PrinterCommand::Tool(Tool::Target { targets: Targets { tool0: 0 } }))
    );
    assert_eq!(cool_down_command(&printer(false, 20000)), Err(PrinterError::NotOperational));
}
