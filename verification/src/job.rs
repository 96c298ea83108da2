//! One unit of metadata-copy work.

use vstd::prelude::*;

verus! {

/// Mathematical model of a [`Job`]: both paths as character sequences plus
/// the backup flag.
pub ghost struct JobModel {
    pub source: Seq<char>,
    pub destination: Seq<char>,
    pub backup: bool,
}

/// An immutable description of one unit of work: copy the metadata of
/// `source` into `destination`.
///
/// When `backup` is true the *effective* path handed to the external tool is
/// `source` with the backup suffix appended; the job itself always records
/// the original source path, so reporting can refer to it unchanged.
#[derive(Debug)]
pub struct Job {
    pub source: String,
    pub destination: String,
    pub backup: bool,
}

impl View for Job {
    type V = JobModel;

    open spec fn view(&self) -> JobModel {
        JobModel { source: self.source@, destination: self.destination@, backup: self.backup }
    }
}

impl Job {
    pub fn new(source: String, destination: String, backup: bool) -> (job: Job)
        ensures
            job@ == (JobModel { source: source@, destination: destination@, backup }),
    {
        Job { source, destination, backup }
    }
}

} // verus!
