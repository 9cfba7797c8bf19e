use vstd::prelude::*;

verus! {

/// The state of the current print job, as far as a status report needs it.
#[derive(Default, Debug, Clone, PartialEq, Eq)]
pub struct JobState {
    pub job: Job,
    pub progress: Progress,
    pub state: String,
    pub error: Option<String>,
}

#[derive(Default, Debug, Clone, PartialEq, Eq)]
pub struct Job {
    pub file: File,
    pub user: Option<String>,
}

/// The file being printed.
#[derive(Default, Debug, Clone, PartialEq, Eq)]
pub struct File {
    pub name: Option<String>,
    pub origin: Option<String>,
    pub size: Option<i64>,
    pub date: Option<i64>,
}

/// How far the job has come. `completion` is rounded to a whole percent; the
/// times are in seconds.
#[derive(Default, Debug, Clone, Copy, PartialEq, Eq, Structural)]
pub struct Progress {
    pub completion: Option<i32>,
    pub filepos: Option<i64>,
    pub print_time: Option<i64>,
    pub print_time_left: Option<i64>,
}

} // verus!
