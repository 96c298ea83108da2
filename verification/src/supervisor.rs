//! The supervisor state machine for the external tool's process.
//!
//! The caller owns the spawned process and its three pipes and runs the I/O:
//! it spawns the tool in persistent mode, starts the two background readers,
//! writes command blocks to the input stream and receives events from the
//! handoff channel. Every decision along that path is made here, against the
//! supervisor's state: whether a submit may proceed, which bytes to write,
//! what each observed event means for the in-flight job, and what the
//! shutdown protocol still has to do. The model carries the full submission
//! and acknowledgement history and the command in flight, so the per-run
//! guarantees (one ack per job, in submission order, one outstanding command
//! at a time) are proved, not assumed.

use vstd::prelude::*;
use vstd::string::*;

use crate::encoder::{encode_command, encode_shutdown_command, encoded_command, shutdown_command};
use crate::job::{Job, JobModel};

verus! {

/// Lifecycle of the supervised process, after a successful spawn.
///
/// `Running` is the only state in which commands may be submitted. The first
/// shutdown request moves to `Stopping`; once both background readers have
/// been joined and the process is confirmed dead the supervisor is
/// `Terminated`, which is absorbing.
#[derive(Clone, Copy, Debug, PartialEq, Eq, Structural)]
pub enum SupervisorState {
    Running,
    Stopping,
    Terminated,
}

/// Everything that can go wrong while supervising the external tool.
#[derive(Clone, Copy, Debug, PartialEq, Eq, Structural)]
pub enum Fault {
    /// The executable could not be found or the process could not be
    /// created. Fatal for the whole batch.
    SpawnFault,
    /// The process was created but one of its three stream handles could not
    /// be obtained. Treated like a spawn failure.
    StreamCaptureFault,
    /// Writing a command block to the input stream failed, e.g. a broken
    /// pipe because the tool died. Fatal for the current and all subsequent
    /// submissions.
    WriteFault,
    /// The response router exited before delivering a sentinel, so the
    /// in-flight command can never be acknowledged.
    ResponseChannelClosedFault,
    /// An operation was invoked although the supervisor is no longer
    /// running. Fails fast; a programmer error.
    AlreadyTerminatedFault,
    /// A second submission was begun while a command was still in flight.
    /// The protocol has no request identifiers and correlates by arrival
    /// order, so it takes one command at a time. Fails fast; a programmer
    /// error.
    OutstandingCommandFault,
}

/// What the caller observed while spawning the tool and capturing its three
/// standard streams.
#[derive(Clone, Copy, Debug, PartialEq, Eq, Structural)]
pub enum SpawnOutcome {
    /// The process could not be created at all.
    ProcessUnavailable,
    /// The process exists but its input stream could not be taken.
    InputNotCaptured,
    /// The process exists but its primary output stream could not be taken.
    OutputNotCaptured,
    /// The process exists but its diagnostic stream could not be taken.
    DiagnosticNotCaptured,
    /// Process spawned and all three streams captured.
    Captured,
}

/// What the submitting actor received from the handoff channel while
/// blocked on an in-flight command.
#[derive(Clone, Copy, Debug, PartialEq, Eq, Structural)]
pub enum ResponseEvent {
    /// The response router delivered the completion sentinel.
    Sentinel,
    /// The channel is closed: the router exited before a sentinel arrived.
    ChannelClosed,
}

/// Successful completion of one submitted command. Carries the originating
/// job so the caller can report which files were touched.
#[derive(Debug)]
pub struct Ack {
    pub job: Job,
}

/// Mathematical model of the supervisor: its lifecycle state, the command
/// currently in flight (written, sentinel not yet consumed), the jobs whose
/// command blocks have been issued, and the jobs acknowledged so far, both
/// in order.
pub ghost struct SupervisorModel {
    pub state: SupervisorState,
    pub pending: Option<JobModel>,
    pub submitted: Seq<JobModel>,
    pub acked: Seq<JobModel>,
}

/// The model of a freshly started supervisor: running, nothing in flight,
/// nothing submitted, nothing acknowledged.
pub open spec fn fresh_model() -> SupervisorModel {
    SupervisorModel {
        state: SupervisorState::Running,
        pending: Option::None,
        submitted: Seq::empty(),
        acked: Seq::empty(),
    }
}

/// Issuing the command block for one more job: it becomes the command in
/// flight and joins the submission history.
pub open spec fn submit_issued_model(m: SupervisorModel, job: JobModel) -> SupervisorModel {
    SupervisorModel {
        state: m.state,
        pending: Option::Some(job),
        submitted: m.submitted.push(job),
        acked: m.acked,
    }
}

/// Acknowledging the in-flight job after its sentinel arrived.
pub open spec fn submit_acked_model(m: SupervisorModel, job: JobModel) -> SupervisorModel {
    SupervisorModel {
        state: m.state,
        pending: Option::None,
        submitted: m.submitted,
        acked: m.acked.push(job),
    }
}

/// Resolving the in-flight command as failed: nothing more will arrive for
/// it, and no acknowledgement is recorded.
pub open spec fn submit_failed_model(m: SupervisorModel) -> SupervisorModel {
    SupervisorModel {
        state: m.state,
        pending: Option::None,
        submitted: m.submitted,
        acked: m.acked,
    }
}

/// One whole successful submission: command issued, sentinel received.
pub open spec fn submit_roundtrip_model(m: SupervisorModel, job: JobModel) -> SupervisorModel {
    submit_acked_model(submit_issued_model(m, job), job)
}

/// A completed shutdown: the process is terminated, everything else stays.
pub open spec fn shutdown_model(m: SupervisorModel) -> SupervisorModel {
    SupervisorModel {
        state: SupervisorState::Terminated,
        pending: m.pending,
        submitted: m.submitted,
        acked: m.acked,
    }
}

/// A command block issued for the submitting actor to write, together with
/// the job it belongs to. Returned by [`ProcessSupervisor::begin_submit`]
/// and consumed by exactly one of the completion calls, so each
/// acknowledgement is tied to the command it answers.
pub struct PendingCommand {
    job: Job,
    command: String,
}

/// Model of a pending command: the job and the exact command block text.
pub ghost struct PendingCommandModel {
    pub job: JobModel,
    pub command: Seq<char>,
}

impl View for PendingCommand {
    type V = PendingCommandModel;

    closed spec fn view(&self) -> PendingCommandModel {
        PendingCommandModel { job: self.job@, command: self.command@ }
    }
}

impl PendingCommand {
    /// The command block to write to the tool's input stream.
    pub fn command(&self) -> (cmd: &String)
        ensures
            cmd@ == self@.command,
    {
        &self.command
    }

    /// The job this command block was encoded from.
    pub fn job(&self) -> (job: &Job)
        ensures
            job@ == self@.job,
    {
        &self.job
    }
}

/// Decision core of the process supervisor.
///
/// The caller performs the I/O and reports what it observed; the supervisor
/// decides what each observation means and what may happen next.
pub struct ProcessSupervisor {
    state: SupervisorState,
    in_flight: bool,
    pending_job: Ghost<JobModel>,
    submitted: Ghost<Seq<JobModel>>,
    acked: Ghost<Seq<JobModel>>,
}

impl View for ProcessSupervisor {
    type V = SupervisorModel;

    closed spec fn view(&self) -> SupervisorModel {
        SupervisorModel {
            state: self.state,
            pending: if self.in_flight {
                Option::Some(self.pending_job@)
            } else {
                Option::None
            },
            submitted: self.submitted@,
            acked: self.acked@,
        }
    }
}

impl ProcessSupervisor {
    /// Interpret the outcome of spawning the tool.
    ///
    /// Only a fully captured process yields a running supervisor; a spawn
    /// failure is a `SpawnFault`, a missing stream handle a
    /// `StreamCaptureFault`. The caller starts the two background readers
    /// only once a supervisor exists, so on failure no background task is
    /// ever started.
    pub fn start(outcome: SpawnOutcome) -> (result: Result<ProcessSupervisor, Fault>)
        ensures
            result matches Ok(sup) ==> sup@ == fresh_model(),
            result is Ok <==> outcome == SpawnOutcome::Captured,
            outcome == SpawnOutcome::ProcessUnavailable ==> (result matches Err(fault)
                && fault == Fault::SpawnFault),
            (outcome == SpawnOutcome::InputNotCaptured || outcome == SpawnOutcome::OutputNotCaptured
                || outcome == SpawnOutcome::DiagnosticNotCaptured) ==> (result matches Err(fault)
                && fault == Fault::StreamCaptureFault),
    {
        match outcome {
            SpawnOutcome::Captured => Ok(ProcessSupervisor {
                state: SupervisorState::Running,
                in_flight: false,
                pending_job: Ghost(
                    JobModel { source: Seq::empty(), destination: Seq::empty(), backup: false },
                ),
                submitted: Ghost(Seq::empty()),
                acked: Ghost(Seq::empty()),
            }),
            SpawnOutcome::ProcessUnavailable => Err(Fault::SpawnFault),
            SpawnOutcome::InputNotCaptured => Err(Fault::StreamCaptureFault),
            SpawnOutcome::OutputNotCaptured => Err(Fault::StreamCaptureFault),
            SpawnOutcome::DiagnosticNotCaptured => Err(Fault::StreamCaptureFault),
        }
    }

    /// Whether commands may currently be submitted.
    pub fn is_running(&self) -> (running: bool)
        ensures
            running == (self@.state == SupervisorState::Running),
    {
        self.state == SupervisorState::Running
    }

    /// Whether a submitted command is still awaiting its completion.
    pub fn has_outstanding_command(&self) -> (outstanding: bool)
        ensures
            outstanding == (self@.pending is Some),
    {
        self.in_flight
    }

    /// Begin one submission: encode the job's command block for the caller
    /// to write. Valid only while running and with no command in flight; in
    /// any other state the job is rejected fast with
    /// `AlreadyTerminatedFault`, and while a command is outstanding with
    /// `OutstandingCommandFault`, changing nothing either way.
    ///
    /// The returned pending command holds exactly the block the encoder
    /// produces for this job; the job becomes the command in flight and is
    /// recorded as submitted.
    pub fn begin_submit(&mut self, job: Job) -> (result: Result<PendingCommand, Fault>)
        ensures
            (old(self)@.state == SupervisorState::Running && old(self)@.pending is None) ==> {
                &&& result matches Ok(pending)
                    && pending@ == (PendingCommandModel {
                    job: job@,
                    command: encoded_command(job@),
                })
                &&& final(self)@ == submit_issued_model(old(self)@, job@)
            },
            old(self)@.state != SupervisorState::Running ==> {
                &&& result matches Err(fault) && fault == Fault::AlreadyTerminatedFault
                &&& final(self)@ == old(self)@
            },
            (old(self)@.state == SupervisorState::Running && old(self)@.pending is Some) ==> {
                &&& result matches Err(fault) && fault == Fault::OutstandingCommandFault
                &&& final(self)@ == old(self)@
            },
    {
        if self.state != SupervisorState::Running {
            Err(Fault::AlreadyTerminatedFault)
        } else if self.in_flight {
            Err(Fault::OutstandingCommandFault)
        } else {
            let command = encode_command(&job);
            self.in_flight = true;
            proof {
                self.pending_job@ = job@;
                self.submitted@ = self.submitted@.push(job@);
            }
            Ok(PendingCommand { job, command })
        }
    }

    /// The caller could not write the pending command block: the input pipe
    /// is broken, so this and every later submission is lost. The in-flight
    /// command is resolved as failed, and the job is handed back for
    /// reporting, together with the fault.
    pub fn fail_submit_write(&mut self, pending: PendingCommand) -> (result: (Job, Fault))
        ensures
            result.1 == Fault::WriteFault,
            result.0@ == pending@.job,
            final(self)@ == submit_failed_model(old(self)@),
    {
        self.in_flight = false;
        (pending.job, Fault::WriteFault)
    }

    /// Complete one submission with the event received from the handoff
    /// channel: a sentinel acknowledges the in-flight job, a closed channel
    /// means the router exited first and the job can never be acknowledged —
    /// it comes back with the fault, so the failure can still be reported
    /// per job.
    pub fn complete_submit(&mut self, pending: PendingCommand, event: ResponseEvent) -> (result:
        Result<Ack, (Job, Fault)>)
        ensures
            event == ResponseEvent::Sentinel ==> {
                &&& result matches Ok(ack) && ack.job@ == pending@.job
                &&& final(self)@ == submit_acked_model(old(self)@, pending@.job)
            },
            event == ResponseEvent::ChannelClosed ==> {
                &&& result matches Err(failed) && failed.0@ == pending@.job && failed.1
                    == Fault::ResponseChannelClosedFault
                &&& final(self)@ == submit_failed_model(old(self)@)
            },
    {
        self.in_flight = false;
        match event {
            ResponseEvent::Sentinel => {
                proof {
                    self.acked@ = self.acked@.push(pending.job@);
                }
                Ok(Ack { job: pending.job })
            },
            ResponseEvent::ChannelClosed => Err((pending.job, Fault::ResponseChannelClosedFault)),
        }
    }

    /// Request shutdown. The first request while running yields the
    /// teardown plan: write the returned shutdown command best-effort, join
    /// both background readers, then force-kill the process if it has not
    /// exited, and confirm with [`Self::confirm_terminated`]. Any later
    /// request yields no plan, so the teardown — the kill included — is
    /// never performed twice.
    pub fn request_shutdown(&mut self) -> (plan: Option<String>)
        ensures
            old(self)@.state == SupervisorState::Running ==> {
                &&& plan matches Some(cmd) && cmd@ == shutdown_command()
                &&& final(self)@ == (SupervisorModel {
                    state: SupervisorState::Stopping,
                    pending: old(self)@.pending,
                    submitted: old(self)@.submitted,
                    acked: old(self)@.acked,
                })
            },
            old(self)@.state != SupervisorState::Running ==> {
                &&& plan is None
                &&& final(self)@ == old(self)@
            },
    {
        if self.state == SupervisorState::Running {
            self.state = SupervisorState::Stopping;
            Some(encode_shutdown_command())
        } else {
            None
        }
    }

    /// Record that the teardown is complete: both background readers joined
    /// and the process confirmed dead. Terminated is absorbing, so calling
    /// this again changes nothing.
    pub fn confirm_terminated(&mut self)
        ensures
            final(self)@ == shutdown_model(old(self)@),
    {
        self.state = SupervisorState::Terminated;
    }
}

/// The model of a run that submits these jobs one at a time, each submission
/// completed by its sentinel, starting from `m`.
pub open spec fn run_batch_model(m: SupervisorModel, jobs: Seq<JobModel>) -> SupervisorModel
    decreases jobs.len(),
{
    if jobs.len() == 0 {
        m
    } else {
        submit_roundtrip_model(run_batch_model(m, jobs.drop_last()), jobs.last())
    }
}

/// Submitting a sequence of jobs one at a time, each acknowledged by its
/// sentinel, extends both histories by exactly those jobs, in order, leaves
/// the state untouched, and leaves no command in flight.
pub proof fn lemma_batch_acks(m: SupervisorModel, jobs: Seq<JobModel>)
    ensures
        run_batch_model(m, jobs).state == m.state,
        run_batch_model(m, jobs).submitted =~= m.submitted + jobs,
        run_batch_model(m, jobs).acked =~= m.acked + jobs,
        run_batch_model(m, jobs).pending == (if jobs.len() == 0 {
            m.pending
        } else {
            Option::<JobModel>::None
        }),
    decreases jobs.len(),
{
    if jobs.len() == 0 {
        assert(m.submitted + jobs =~= m.submitted);
        assert(m.acked + jobs =~= m.acked);
    } else {
        lemma_batch_acks(m, jobs.drop_last());
    }
}

/// For any sequence of N jobs submitted one at a time against a fresh
/// supervisor, exactly N acknowledgements are produced, in submission order,
/// each referencing its originating job, with no command left in flight.
pub proof fn lemma_acks_match_submissions(jobs: Seq<JobModel>)
    ensures
        run_batch_model(fresh_model(), jobs).acked.len() == jobs.len(),
        run_batch_model(fresh_model(), jobs).acked =~= jobs,
        run_batch_model(fresh_model(), jobs).submitted =~= jobs,
        run_batch_model(fresh_model(), jobs).pending is None,
        forall|i: int|
            0 <= i < jobs.len() ==> run_batch_model(fresh_model(), jobs).acked[i] == jobs[i],
{
    lemma_batch_acks(fresh_model(), jobs);
}

/// Shutting down is idempotent: a second shutdown changes nothing, and a
/// shutdown always leaves the process terminated, whatever state it started
/// from.
pub proof fn lemma_shutdown_idempotent(m: SupervisorModel)
    ensures
        shutdown_model(shutdown_model(m)) == shutdown_model(m),
        shutdown_model(m).state == SupervisorState::Terminated,
        shutdown_model(m).pending == m.pending,
        shutdown_model(m).submitted == m.submitted,
        shutdown_model(m).acked == m.acked,
{
}

/// A user-facing description of a fault. For a spawn fault it names the
/// external tool and says that it must be reachable on the execution path,
/// rather than surfacing a bare system error.
pub open spec fn fault_message(fault: Fault) -> Seq<char> {
    match fault {
        Fault::SpawnFault => "exiftool could not be started: it is required and must be reachable on the execution path (see https://exiftool.org)"@,
        Fault::StreamCaptureFault => "could not capture one of exiftool's standard streams"@,
        Fault::WriteFault => "writing a command to exiftool failed; the process may have exited"@,
        Fault::ResponseChannelClosedFault => "exiftool's output closed before the command completed"@,
        Fault::AlreadyTerminatedFault => "the exiftool supervisor is already shut down"@,
        Fault::OutstandingCommandFault => "a command is still awaiting completion; the protocol takes one command at a time"@,
    }
}

impl Fault {
    /// The description of this fault, for reporting.
    pub fn message(&self) -> (msg: String)
        ensures
            msg@ == fault_message(*self),
    {
        match self {
            Fault::SpawnFault => String::from_str(
                "exiftool could not be started: it is required and must be reachable on the execution path (see https://exiftool.org)",
            ),
            Fault::StreamCaptureFault => String::from_str(
                "could not capture one of exiftool's standard streams",
            ),
            Fault::WriteFault => String::from_str(
                "writing a command to exiftool failed; the process may have exited",
            ),
            Fault::ResponseChannelClosedFault => String::from_str(
                "exiftool's output closed before the command completed",
            ),
            Fault::AlreadyTerminatedFault => String::from_str(
                "the exiftool supervisor is already shut down",
            ),
            Fault::OutstandingCommandFault => String::from_str(
                "a command is still awaiting completion; the protocol takes one command at a time",
            ),
        }
    }
}

} // verus!
