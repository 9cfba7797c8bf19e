use printer_actions::http_errors::AnyhowHTTPError;
use printer_actions::job_running::{observe_job, run_job, JobPoll, JobStatus, LongRunningJob};

#[test]
fn submit_to_empty_slot_starts_the_job() {
    let mut slot: LongRunningJob<u32> = LongRunningJob::new();
    assert_eq!(run_job(|| 7, false, &mut slot), Ok(()));
    assert_eq!(slot.job, Some(7));
}

#[test]
fn submit_while_running_conflicts_and_keeps_the_job() {
    let mut slot = LongRunningJob { job: Some(1u32) };
    let mut started = false;
    let r = run_job(|| { started = true; 2 }, false, &mut slot);
    assert_eq!(r, Err(AnyhowHTTPError::Conflict409("Already running a job".to_string())));
    assert!(!started);
    assert_eq!(slot.job, Some(1));
}

#[test]
fn submit_after_completion_replaces_the_job() {
    let mut slot = LongRunningJob { job: Some(1u32) };
    assert_eq!(run_job(|| 2, true, &mut slot), Ok(()));
    assert_eq!(slot.job, Some(2));
}

#[test]
fn completion_is_observed_once() {
    let mut slot = LongRunningJob { job: Some(5u32) };
    assert_eq!(observe_job(false, &mut slot), JobPoll::Running);
    assert_eq!(slot.job, Some(5));
    assert_eq!(observe_job(true, &mut slot), JobPoll::Completed(5));
    assert_eq!(observe_job(true, &mut slot), JobPoll::NoJob);
    assert_eq!(observe_job(false, &mut slot), JobPoll::NoJob);
    assert_eq!(run_job(|| 6, false, &mut slot), Ok(()));
    assert_eq!(observe_job(false, &mut slot), JobPoll::Running);
}

#[test]
fn empty_slot_reports_no_job() {
    let mut slot: LongRunningJob<u32> = LongRunningJob::new();
    assert_eq!(observe_job(false, &mut slot), JobPoll::NoJob);
    assert_eq!(observe_job(true, &mut slot), JobPoll::NoJob);
}

#[test]
fn job_outcomes_become_statuses() {
    assert_eq!(JobStatus::from(Ok("done".to_string())), JobStatus::Finished("done".to_string()));
    assert_eq!(JobStatus::from(Err("boom".to_string())), JobStatus::Error("boom".to_string()));
}
