//! Encoding of jobs into the external tool's line-oriented command protocol.
//!
//! Each job becomes one command block: a fixed pair of flag lines, the
//! effective source path, the destination path, and the trailing execute
//! marker. The execute marker must never be omitted: the tool only emits its
//! completion sentinel once it has seen one, so a block without it stalls the
//! protocol forever. Paths are passed as literal lines; a path containing the
//! line delimiter is a documented precondition violation of the protocol and
//! is not validated here.

use vstd::prelude::*;
use vstd::string::*;

use crate::job::{Job, JobModel};

verus! {

/// Suffix appended to a source path when the job asks for the backup copy to
/// be read instead of the original file.
pub open spec fn backup_suffix() -> Seq<char> {
    ".backup"@
}

/// The path the external tool is told to read metadata from: the original
/// source, or the backup copy when the job's backup flag is set.
pub open spec fn effective_source(job: JobModel) -> Seq<char> {
    if job.backup {
        job.source + backup_suffix()
    } else {
        job.source
    }
}

/// The exact command block for one job, execute marker included.
pub open spec fn encoded_command(job: JobModel) -> Seq<char> {
    "-overwrite_original_in_place\n-tagsFromFile\n"@ + effective_source(job) + "\n"@
        + job.destination + "\n-execute\n"@
}

/// The fixed two-line sequence that ends the tool's persistent mode,
/// followed by the execute marker that makes it take effect.
pub open spec fn shutdown_command() -> Seq<char> {
    "-stay_open\nFalse\n-execute\n"@
}

/// Encode one job as the command block written to the tool's input stream.
///
/// The encoding is a pure function of the job: two equal jobs always yield
/// the same bytes, and the job itself (in particular its recorded source
/// path) is left untouched by the backup rewrite.
pub fn encode_command(job: &Job) -> (cmd: String)
    ensures
        cmd@ == encoded_command(job@),
{
    let mut cmd = String::from_str("-overwrite_original_in_place\n-tagsFromFile\n");
    cmd.append(job.source.as_str());
    if job.backup {
        cmd.append(".backup");
    }
    cmd.append("\n");
    cmd.append(job.destination.as_str());
    cmd.append("\n-execute\n");
    proof {
        assert(cmd@ =~= encoded_command(job@));
    }
    cmd
}

/// Every encoded command block ends with the execute marker on its own
/// line, whatever the job holds. The tool only emits its completion
/// sentinel after an execute marker, so this is what keeps every submitted
/// command answerable.
pub proof fn lemma_command_ends_with_execute_marker(job: JobModel)
    ensures
        encoded_command(job).len() > "\n-execute\n"@.len(),
        encoded_command(job).subrange(
            encoded_command(job).len() - "\n-execute\n"@.len(),
            encoded_command(job).len() as int,
        ) =~= "\n-execute\n"@,
{
    reveal_strlit("-overwrite_original_in_place\n-tagsFromFile\n");
    reveal_strlit("\n-execute\n");
}

/// Build the shutdown command block written during the shutdown protocol.
pub fn encode_shutdown_command() -> (cmd: String)
    ensures
        cmd@ == shutdown_command(),
{
    String::from_str("-stay_open\nFalse\n-execute\n")
}

} // verus!
