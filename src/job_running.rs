//! A slot for one long-running job. A job is accepted only while the slot is
//! empty or its job has completed; a completed job's outcome is handed out once,
//! to the first observer after completion, which empties the slot.
//!
//! The slot holds a handle `H` to the running task. Whether that task has
//! completed is reported by the caller, who asks the handle just before.

use vstd::prelude::*;

use crate::http_errors::AnyhowHTTPError;

verus! {

/// What an observer reports about the slot.
#[derive(Debug, Clone, PartialEq, Eq)]
pub enum JobStatus {
    NoJob,
    Running,
    Finished(String),
    Error(String),
}

/// A job's outcome: its message on success, its error's description on failure.
impl From<Result<String, String>> for JobStatus {
    fn from(result: Result<String, String>) -> (r: JobStatus) {
        match result {
            Ok(s) => JobStatus::Finished(s),
            Err(e) => JobStatus::Error(e),
        }
    }
}

impl vstd::std_specs::convert::FromSpecImpl<Result<String, String>> for JobStatus {
    open spec fn obeys_from_spec() -> bool {
        true
    }

    open spec fn from_spec(result: Result<String, String>) -> JobStatus {
        match result {
            Ok(s) => JobStatus::Finished(s),
            Err(e) => JobStatus::Error(e),
        }
    }
}

/// The slot for the one long-running job.
pub struct LongRunningJob<H> {
    pub job: Option<H>,
}

/// What an observation found in the slot.
#[derive(Debug, Clone, PartialEq, Eq)]
pub enum JobPoll<H> {
    /// The slot is empty.
    NoJob,
    /// The job in the slot has not completed.
    Running,
    /// The job had completed; its handle has been taken out of the slot.
    Completed(H),
}

/// The slot holds a job that has not completed.
pub open spec fn slot_busy<H>(slot: LongRunningJob<H>, finished: bool) -> bool {
    slot.job is Some && !finished
}

/// What an observation of `slot` returns, `finished` telling whether its job has
/// completed.
pub open spec fn observation<H>(slot: LongRunningJob<H>, finished: bool) -> JobPoll<H> {
    match slot.job {
        None => JobPoll::NoJob,
        Some(h) => if finished {
            JobPoll::Completed(h)
        } else {
            JobPoll::Running
        },
    }
}

/// The slot after an observation: emptied when its job had completed.
pub open spec fn observed<H>(slot: LongRunningJob<H>, finished: bool) -> LongRunningJob<H> {
    if slot.job is Some && finished {
        LongRunningJob { job: None }
    } else {
        slot
    }
}

/// Two observations in a row once the job has completed: the first hands the job
/// out, the second, with no submission between them, finds the slot empty.
pub proof fn lemma_completion_reported_once<H>(slot: LongRunningJob<H>, finished_later: bool)
    requires
        slot.job is Some,
    ensures
        observation(slot, true) == JobPoll::Completed(slot.job->0),
        observation(observed(slot, true), finished_later) == JobPoll::<H>::NoJob,
{
}

impl<H> LongRunningJob<H> {
    /// An empty slot.
    pub fn new() -> (r: Self)
        ensures
            r.job is None,
    {
        LongRunningJob { job: None }
    }
}

/// Starts a job with `start` unless the slot holds one that has not completed
/// (`finished` tells whether the held job has completed). A busy slot is left
/// as it is and the submission fails with a conflict.
pub fn run_job<H, F>(start: F, finished: bool, long_running_job: &mut LongRunningJob<H>) -> (r:
    Result<(), AnyhowHTTPError>) where F: FnOnce() -> H
    requires
        call_requires(start, ()),
    ensures
        slot_busy(*old(long_running_job), finished) ==> {
            &&& r matches Err(AnyhowHTTPError::Conflict409(m))
            &&& m@ == "Already running a job"@
            &&& *final(long_running_job) == *old(long_running_job)
        },
        !slot_busy(*old(long_running_job), finished) ==> {
            &&& r is Ok
            &&& final(long_running_job).job matches Some(h)
            &&& call_ensures(start, (), h)
        },
{
    if long_running_job.job.is_some() && !finished {
        return Err(AnyhowHTTPError::Conflict409("Already running a job".to_owned()));
    }
    let handle = start();
    long_running_job.job = Some(handle);
    Ok(())
}

/// Reports on the slot (`finished` telling whether its job has completed). A
/// completed job is taken out of the slot and its handle returned, so that its
/// outcome is reported once.
pub fn observe_job<H>(finished: bool, long_running_job: &mut LongRunningJob<H>) -> (r: JobPoll<H>)
    ensures
        r == observation(*old(long_running_job), finished),
        *final(long_running_job) == observed(*old(long_running_job), finished),
{
    if long_running_job.job.is_none() {
        return JobPoll::NoJob;
    }
    if !finished {
        return JobPoll::Running;
    }
    match long_running_job.job.take() {
        Some(h) => JobPoll::Completed(h),
        None => JobPoll::NoJob,
    }
}

} // verus!
