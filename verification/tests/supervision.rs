use stayopen::job::Job;
use stayopen::supervisor::{Fault, ProcessSupervisor, ResponseEvent, SpawnOutcome};

fn job(source: &str, destination: &str, backup: bool) -> Job {
    Job::new(source.to_string(), destination.to_string(), backup)
}

fn running_supervisor() -> ProcessSupervisor {
    match ProcessSupervisor::start(SpawnOutcome::Captured) {
        Ok(sup) => sup,
        Err(_) => panic!("a captured spawn must yield a supervisor"),
    }
}

/// Submit one job and answer it with the given event, as the I/O loop would.
fn submit_with_event(
    sup: &mut ProcessSupervisor,
    j: Job,
    event: ResponseEvent,
) -> Result<Job, Fault> {
    let pending = sup.begin_submit(j)?;
    // The stub tool emits one sentinel per execute marker, so every command
    // block handed out must end with one.
    assert!(pending.command().ends_with("-execute\n"));
    sup.complete_submit(pending, event)
        .map(|ack| ack.job)
        .map_err(|(_, fault)| fault)
}

#[test]
fn start_fails_with_spawn_fault_when_tool_unavailable() {
    match ProcessSupervisor::start(SpawnOutcome::ProcessUnavailable) {
        Err(fault) => assert_eq!(fault, Fault::SpawnFault),
        Ok(_) => panic!("no supervisor may exist without a process"),
    }
}

#[test]
fn start_fails_when_a_stream_is_missing() {
    for outcome in [
        SpawnOutcome::InputNotCaptured,
        SpawnOutcome::OutputNotCaptured,
        SpawnOutcome::DiagnosticNotCaptured,
    ] {
        match ProcessSupervisor::start(outcome) {
            Err(fault) => assert_eq!(fault, Fault::StreamCaptureFault),
            Ok(_) => panic!("no supervisor may exist without all three streams"),
        }
    }
}

#[test]
fn spawn_fault_message_gives_guidance() {
    let msg = Fault::SpawnFault.message();
    assert!(msg.contains("exiftool"));
    assert!(msg.contains("path"));
}

#[test]
fn every_fault_has_a_message() {
    for fault in [
        Fault::SpawnFault,
        Fault::StreamCaptureFault,
        Fault::WriteFault,
        Fault::ResponseChannelClosedFault,
        Fault::AlreadyTerminatedFault,
        Fault::OutstandingCommandFault,
    ] {
        assert!(!fault.message().is_empty());
    }
}

#[test]
fn one_ack_per_job_in_submission_order() {
    let mut sup = running_supervisor();
    let names = ["a.jpg", "b.png", "c.webp"];
    let mut acked: Vec<Job> = Vec::new();
    for name in names {
        let done = submit_with_event(
            &mut sup,
            job(name, "out.jpg", false),
            ResponseEvent::Sentinel,
        );
        match done {
            Ok(j) => acked.push(j),
            Err(_) => panic!("a sentinel must acknowledge the in-flight job"),
        }
    }
    assert_eq!(acked.len(), names.len());
    for (i, name) in names.iter().enumerate() {
        assert_eq!(acked[i].source, *name);
    }
}

#[test]
fn end_to_end_two_jobs_against_stub_tool() {
    let mut sup = running_supervisor();

    let first = sup.begin_submit(job("a.jpg", "b.jpg", false)).unwrap();
    assert_eq!(
        first.command().as_str(),
        "-overwrite_original_in_place\n-tagsFromFile\na.jpg\nb.jpg\n-execute\n"
    );
    let first_ack = sup.complete_submit(first, ResponseEvent::Sentinel);
    let first_job = first_ack.expect("first submission must succeed").job;
    assert_eq!(first_job.source, "a.jpg");

    let second = sup.begin_submit(job("c.png", "d.png", true)).unwrap();
    // The encoded source of the second command is the backup copy.
    assert_eq!(
        second.command().as_str(),
        "-overwrite_original_in_place\n-tagsFromFile\nc.png.backup\nd.png\n-execute\n"
    );
    let second_ack = sup.complete_submit(second, ResponseEvent::Sentinel);
    let second_job = second_ack.expect("second submission must succeed").job;
    assert_eq!(second_job.source, "c.png");
    assert_eq!(second_job.destination, "d.png");
}

#[test]
fn closed_channel_mid_run_surfaces_fault_instead_of_hanging() {
    let mut sup = running_supervisor();
    let ok = submit_with_event(&mut sup, job("a.jpg", "b.jpg", false), ResponseEvent::Sentinel);
    assert!(ok.is_ok());
    // The tool dies mid-run: the router exits and drops its sender, so the
    // in-flight submission wakes with a closed-channel fault.
    let dead = submit_with_event(&mut sup, job("c.png", "d.png", true), ResponseEvent::ChannelClosed);
    assert!(matches!(dead, Err(Fault::ResponseChannelClosedFault)));
}

#[test]
fn overlapping_submissions_are_rejected() {
    let mut sup = running_supervisor();
    let pending = sup.begin_submit(job("a.jpg", "b.jpg", false)).unwrap();
    // The protocol takes one command at a time: a second submission while
    // one is in flight fails fast and changes nothing.
    match sup.begin_submit(job("c.png", "d.png", false)) {
        Err(fault) => assert_eq!(fault, Fault::OutstandingCommandFault),
        Ok(_) => panic!("only one command may be outstanding"),
    }
    assert!(sup.has_outstanding_command());
    let ack = sup.complete_submit(pending, ResponseEvent::Sentinel);
    assert!(ack.is_ok());
    assert!(!sup.has_outstanding_command());
    // Once the sentinel arrived, the next submission goes through.
    assert!(sup.begin_submit(job("c.png", "d.png", false)).is_ok());
}

#[test]
fn closed_channel_hands_the_job_back_for_reporting() {
    let mut sup = running_supervisor();
    let pending = sup.begin_submit(job("c.png", "d.png", true)).unwrap();
    match sup.complete_submit(pending, ResponseEvent::ChannelClosed) {
        Err((returned, fault)) => {
            assert_eq!(fault, Fault::ResponseChannelClosedFault);
            assert_eq!(returned.source, "c.png");
            assert_eq!(returned.destination, "d.png");
        }
        Ok(_) => panic!("a closed channel cannot acknowledge a command"),
    }
}

#[test]
fn write_failure_returns_job_and_write_fault() {
    let mut sup = running_supervisor();
    let pending = sup.begin_submit(job("a.jpg", "b.jpg", false)).unwrap();
    let (returned, fault) = sup.fail_submit_write(pending);
    assert_eq!(fault, Fault::WriteFault);
    assert_eq!(returned.source, "a.jpg");
    assert_eq!(returned.destination, "b.jpg");
}

#[test]
fn shutdown_is_idempotent() {
    let mut sup = running_supervisor();
    let plan = sup.request_shutdown();
    assert_eq!(plan.as_deref(), Some("-stay_open\nFalse\n-execute\n"));
    sup.confirm_terminated();
    // A second shutdown yields no plan: the teardown, the forced kill
    // included, is never performed twice.
    assert_eq!(sup.request_shutdown(), None);
    sup.confirm_terminated();
    assert!(!sup.is_running());
}

#[test]
fn shutdown_after_failed_submit() {
    let mut sup = running_supervisor();
    let failed = submit_with_event(
        &mut sup,
        job("a.jpg", "b.jpg", false),
        ResponseEvent::ChannelClosed,
    );
    assert!(failed.is_err());
    let plan = sup.request_shutdown();
    assert!(plan.is_some());
    sup.confirm_terminated();
    assert_eq!(sup.request_shutdown(), None);
}

#[test]
fn submit_fails_fast_once_shutdown_began() {
    let mut sup = running_supervisor();
    assert!(sup.is_running());
    sup.request_shutdown();
    assert!(!sup.is_running());
    match sup.begin_submit(job("a.jpg", "b.jpg", false)) {
        Err(fault) => assert_eq!(fault, Fault::AlreadyTerminatedFault),
        Ok(_) => panic!("submissions are only valid while running"),
    }
    sup.confirm_terminated();
    match sup.begin_submit(job("c.png", "d.png", true)) {
        Err(fault) => assert_eq!(fault, Fault::AlreadyTerminatedFault),
        Ok(_) => panic!("submissions are only valid while running"),
    }
}
