use printer_actions::data_defs::printer_job_state::{File, Job, JobState, Progress};
use printer_actions::job_report::{job_status, Target};

fn job(percent: Option<i32>, left: Option<i64>, taken: Option<i64>, name: Option<&str>) -> JobState {
    JobState {
        job: Job {
            file: File { name: name.map(|n| n.to_string()), ..Default::default() },
            user: None,
        },
        progress: Progress {
            completion: percent,
            filepos: None,
            print_time: taken,
            print_time_left: left,
        },
        state: "Printing".to_string(),
        error: None,
    }
}

fn spoken(j: &JobState) -> String {
    job_status(j, Target::Siri).unwrap()
}

#[test]
fn switch_reads_one_only_while_printing() {
    assert_eq!(job_status(&job(None, None, None, None), Target::HttpSwitch).unwrap(), "0");
    assert_eq!(job_status(&job(Some(100), None, None, None), Target::HttpSwitch).unwrap(), "0");
    assert_eq!(job_status(&job(Some(42), None, None, None), Target::HttpSwitch).unwrap(), "1");
    assert_eq!(job_status(&job(Some(0), None, None, None), Target::HttpSwitch).unwrap(), "1");
    // times out of range do not matter to the switch
    assert_eq!(job_status(&job(Some(5), Some(-1), None, None), Target::HttpSwitch).unwrap(), "1");
}

#[test]
fn spoken_report_when_nothing_prints() {
    assert_eq!(spoken(&job(None, Some(60), Some(60), Some("a.gcode"))), "Nothing is currently printing");
}

#[test]
fn spoken_report_when_finished() {
    assert_eq!(
        spoken(&job(Some(100), None, Some(2 * 3600 + 35 * 60), Some("cube.gcode"))),
        "Finished printing cube.gcode. Printing took 2 hours and 30 minutes"
    );
    assert_eq!(
        spoken(&job(Some(100), Some(0), Some(45 * 60), None)),
        "Finished printing. Printing took 45 minutes"
    );
    assert_eq!(
        spoken(&job(Some(100), None, None, Some("cube.gcode"))),
        "Finished printing cube.gcode. Printing took an unknown amount of time"
    );
}

#[test]
fn spoken_report_while_printing() {
    assert_eq!(
        spoken(&job(Some(42), Some(3600 + 60), None, Some("cube.gcode"))),
        "Currently printing cube.gcode, which is 42% complete. Printing is expected to finish in 1 hour and 1 minute"
    );
    assert_eq!(
        spoken(&job(Some(42), Some(60), Some(7), None)),
        "Currently printing, which is 42% complete. Printing is expected to finish in 1 minute"
    );
    assert_eq!(
        spoken(&job(Some(7), None, Some(60), Some("cube.gcode"))),
        "Currently printing cube.gcode, which is 7% complete"
    );
    assert_eq!(spoken(&job(Some(0), None, None, None)), "Currently printing, which is 0% complete");
    // a finished job with neither time taken nor a name reads as in progress
    assert_eq!(
        spoken(&job(Some(100), Some(0), None, None)),
        "Currently printing, which is 100% complete. Printing is expected to finish in 0 minutes"
    );
}

#[test]
fn spoken_report_needs_times_in_range() {
    assert!(job_status(&job(Some(42), Some(-5), None, None), Target::Siri).is_none());
    assert!(job_status(&job(Some(42), None, Some(256 * 3600), None), Target::Siri).is_none());
    assert!(job_status(&job(None, None, Some(-1), None), Target::Siri).is_none());
}
