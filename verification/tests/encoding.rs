use stayopen::encoder::{encode_command, encode_shutdown_command};
use stayopen::job::Job;
use stayopen::router::{route_output_line, sentinel_line, LineRoute};

fn job(source: &str, destination: &str, backup: bool) -> Job {
    Job::new(source.to_string(), destination.to_string(), backup)
}

#[test]
fn encode_plain_job() {
    let j = job("a.jpg", "b.jpg", false);
    let cmd = encode_command(&j);
    assert_eq!(
        cmd,
        "-overwrite_original_in_place\n-tagsFromFile\na.jpg\nb.jpg\n-execute\n"
    );
}

#[test]
fn encode_backup_rewrite_is_deterministic() {
    let j = job("c.png", "d.png", true);
    let first = encode_command(&j);
    let second = encode_command(&j);
    assert_eq!(
        first,
        "-overwrite_original_in_place\n-tagsFromFile\nc.png.backup\nd.png\n-execute\n"
    );
    assert_eq!(first, second);
    // The rewrite happens only in the encoding: the job still records the
    // original source path for reporting.
    assert_eq!(j.source, "c.png");
    assert_eq!(j.destination, "d.png");
}

#[test]
fn encode_ends_with_execute_marker() {
    let j = job("in.webp", "out.webp", false);
    let cmd = encode_command(&j);
    assert!(cmd.ends_with("-execute\n"));
}

#[test]
fn encode_empty_paths() {
    let j = job("", "", false);
    let cmd = encode_command(&j);
    assert_eq!(
        cmd,
        "-overwrite_original_in_place\n-tagsFromFile\n\n\n-execute\n"
    );
}

#[test]
fn shutdown_command_text() {
    assert_eq!(encode_shutdown_command(), "-stay_open\nFalse\n-execute\n");
}

#[test]
fn sentinel_line_text() {
    assert_eq!(sentinel_line(), "{ready}");
}

#[test]
fn sentinel_goes_to_handoff() {
    let line = "{ready}".to_string();
    assert_eq!(route_output_line(&line), LineRoute::Handoff);
}

#[test]
fn other_lines_are_informational() {
    for text in ["", " {ready}", "{ready} ", "1 image files updated", "{READY}"] {
        let line = text.to_string();
        assert_eq!(route_output_line(&line), LineRoute::Informational);
    }
}
