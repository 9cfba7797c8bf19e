use vstd::prelude::*;
use vstd::string::StringExecFns;

use crate::data_defs::printer_job_state::JobState;
use crate::decimal::{append_signed_decimal, signed_decimal};
use crate::time_utils::{brief_text, Time, MAX_TIME_SECONDS};

verus! {

/// Who reads the job status report.
#[derive(Debug, Clone, Copy, PartialEq, Eq, Structural)]
pub enum Target {
    /// A sentence to be spoken.
    Siri,
    /// A switch: `1` while a job is in progress, `0` otherwise.
    HttpSwitch,
}

/// The brief text of a number of seconds.
pub open spec fn duration_text(seconds: int) -> Seq<char> {
    brief_text((seconds / 3600) as nat, ((seconds % 3600) / 60) as nat)
}

/// A duration that a `Time` can hold, or none at all.
pub open spec fn duration_fits(t: Option<i64>) -> bool {
    match t {
        Some(s) => 0 <= s <= MAX_TIME_SECONDS,
        None => true,
    }
}

pub open spec fn optional_duration_text(t: Option<i64>) -> Option<Seq<char>> {
    match t {
        Some(s) => Some(duration_text(s as int)),
        None => None,
    }
}

pub open spec fn optional_text(t: Option<String>) -> Option<Seq<char>> {
    match t {
        Some(s) => Some(s@),
        None => None,
    }
}

/// The switch reading: `0` with no job or a finished one, `1` otherwise.
pub open spec fn switch_text(percent: Option<i32>) -> Seq<char> {
    match percent {
        Some(p) => if p == 100 {
            "0"@
        } else {
            "1"@
        },
        None => "0"@,
    }
}

/// The spoken report on a job from its completion percent, the text of the time
/// left and of the time taken, and the file name.
pub open spec fn summary_text(
    percent: Option<i32>,
    time_left: Option<Seq<char>>,
    time_taken: Option<Seq<char>>,
    name: Option<Seq<char>>,
) -> Seq<char> {
    match percent {
        None => "Nothing is currently printing"@,
        Some(p) => {
            let pc = signed_decimal(p as int);
            if p == 100 && time_taken is Some && name is Some {
                "Finished printing "@ + name->0 + ". Printing took "@ + time_taken->0
            } else if p == 100 && time_taken is Some {
                "Finished printing. Printing took "@ + time_taken->0
            } else if p == 100 && name is Some {
                "Finished printing "@ + name->0 + ". Printing took an unknown amount of time"@
            } else if time_left is Some && name is Some {
                "Currently printing "@ + name->0 + ", which is "@ + pc
                    + "% complete. Printing is expected to finish in "@ + time_left->0
            } else if time_left is Some {
                "Currently printing, which is "@ + pc
                    + "% complete. Printing is expected to finish in "@ + time_left->0
            } else if name is Some {
                "Currently printing "@ + name->0 + ", which is "@ + pc + "% complete"@
            } else {
                "Currently printing, which is "@ + pc + "% complete"@
            }
        },
    }
}

/// The brief text of an optional duration; `Err` when it is present and out of range.
fn duration_to_text(t: Option<i64>) -> (r: Result<Option<String>, ()>)
    ensures
        r is Ok <==> duration_fits(t),
        r is Ok ==> optional_text(r->Ok_0) == optional_duration_text(t),
{
    match t {
        None => Ok(None),
        Some(seconds) => match Time::from_seconds(seconds) {
            Some(time) => {
                let text = time.to_human_readable_briefly();
                Ok(Some(text))
            },
            None => Err(()),
        },
    }
}

/// The job status report for `target`. For the spoken report the times must fit
/// in a `Time`: `None` when one is present and does not.
pub fn job_status(job_state: &JobState, target: Target) -> (r: Option<String>)
    ensures
        target == Target::HttpSwitch ==> r is Some && r->0@ == switch_text(
            job_state.progress.completion,
        ),
        target == Target::Siri ==> (r is Some <==> duration_fits(
            job_state.progress.print_time_left,
        ) && duration_fits(job_state.progress.print_time)),
        target == Target::Siri && r is Some ==> r->0@ == summary_text(
            job_state.progress.completion,
            optional_duration_text(job_state.progress.print_time_left),
            optional_duration_text(job_state.progress.print_time),
            optional_text(job_state.job.file.name),
        ),
{
    let percent = job_state.progress.completion;
    if let Target::HttpSwitch = target {
        let s = match percent {
            None => "0".to_owned(),
            Some(p) => if p == 100 {
                "0".to_owned()
            } else {
                "1".to_owned()
            },
        };
        return Some(s);
    }
    let time_left = match duration_to_text(job_state.progress.print_time_left) {
        Ok(t) => t,
        Err(()) => return None,
    };
    let time_taken = match duration_to_text(job_state.progress.print_time) {
        Ok(t) => t,
        Err(()) => return None,
    };
    let name = &job_state.job.file.name;
    let mut s = String::new();
    match percent {
        None => {
            s.append("Nothing is currently printing");
        },
        Some(p) => {
            if p == 100 && time_taken.is_some() && name.is_some() {
                s.append("Finished printing ");
                s.append(name.as_ref().unwrap().as_str());
                s.append(". Printing took ");
                s.append(time_taken.as_ref().unwrap().as_str());
            } else if p == 100 && time_taken.is_some() {
                s.append("Finished printing. Printing took ");
                s.append(time_taken.as_ref().unwrap().as_str());
            } else if p == 100 && name.is_some() {
                s.append("Finished printing ");
                s.append(name.as_ref().unwrap().as_str());
                s.append(". Printing took an unknown amount of time");
            } else if time_left.is_some() && name.is_some() {
                s.append("Currently printing ");
                s.append(name.as_ref().unwrap().as_str());
                s.append(", which is ");
                append_signed_decimal(&mut s, p as i64);
                s.append("% complete. Printing is expected to finish in ");
                s.append(time_left.as_ref().unwrap().as_str());
            } else if time_left.is_some() {
                s.append("Currently printing, which is ");
                append_signed_decimal(&mut s, p as i64);
                s.append("% complete. Printing is expected to finish in ");
                s.append(time_left.as_ref().unwrap().as_str());
            } else if name.is_some() {
                s.append("Currently printing ");
                s.append(name.as_ref().unwrap().as_str());
                s.append(", which is ");
                append_signed_decimal(&mut s, p as i64);
                s.append("% complete");
            } else {
                s.append("Currently printing, which is ");
                append_signed_decimal(&mut s, p as i64);
                s.append("% complete");
            }
        },
    }
    proof {
        assert(s@ =~= summary_text(
            percent,
            optional_text(time_left),
            optional_text(time_taken),
            optional_text(*name),
        ));
    }
    Some(s)
}

} // verus!
