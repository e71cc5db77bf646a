use ollama_supervisor::command::CommandOutcome;
use ollama_supervisor::fetch::pull_model;

#[test]
fn pull_succeeds_on_exit_code_zero() {
    let outcome = CommandOutcome::Exited { code: Some(0), stderr: Vec::new() };
    assert_eq!(pull_model(&outcome), Ok(()));
}

#[test]
fn pull_succeeds_on_exit_code_zero_whatever_was_written() {
    let outcome = CommandOutcome::Exited { code: Some(0), stderr: b"pulling manifest".to_vec() };
    assert_eq!(pull_model(&outcome), Ok(()));
}

#[test]
fn pull_reports_standard_error_on_failure() {
    let outcome = CommandOutcome::Exited { code: Some(1), stderr: b"model not found".to_vec() };
    let r = pull_model(&outcome);
    assert_eq!(r, Err("Failed to pull model: model not found".to_string()));
    assert!(r.unwrap_err().contains("model not found"));
}

#[test]
fn pull_reports_standard_error_verbatim() {
    let outcome = CommandOutcome::Exited {
        code: Some(2),
        stderr: "Error: disque plein\n  détail\n".as_bytes().to_vec(),
    };
    assert_eq!(
        pull_model(&outcome),
        Err("Failed to pull model: Error: disque plein\n  détail\n".to_string())
    );
}

#[test]
fn pull_replaces_bytes_that_are_no_text() {
    let outcome = CommandOutcome::Exited { code: Some(1), stderr: vec![b'a', 0xff, b'b'] };
    assert_eq!(pull_model(&outcome), Err("Failed to pull model: a\u{fffd}b".to_string()));
}

#[test]
fn pull_fails_when_the_process_ended_without_a_code() {
    let outcome = CommandOutcome::Exited { code: None, stderr: b"killed".to_vec() };
    assert_eq!(pull_model(&outcome), Err("Failed to pull model: killed".to_string()));
}

#[test]
fn pull_fails_with_an_empty_message_when_nothing_was_written() {
    let outcome = CommandOutcome::Exited { code: Some(1), stderr: Vec::new() };
    assert_eq!(pull_model(&outcome), Err("Failed to pull model: ".to_string()));
}

#[test]
fn pull_reports_the_cause_when_the_binary_cannot_be_started() {
    let outcome = CommandOutcome::NotStarted { cause: "No such file or directory".to_string() };
    assert_eq!(
        pull_model(&outcome),
        Err("Failed to pull model: No such file or directory".to_string())
    );
}
