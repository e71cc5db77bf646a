use ollama_supervisor::command::{pull_command, serve_command, version_command, CommandOutcome};
use ollama_supervisor::http::{Endpoint, HttpOutcome, PROBE_TIMEOUT_SECS};
use ollama_supervisor::probe::{check_ollama_installed, check_ollama_running};

fn answered(status: u16) -> HttpOutcome {
    HttpOutcome::Answered { status, body: Ok(Vec::new()) }
}

#[test]
fn version_command_asks_the_host_binary_for_its_version() {
    let command = version_command();
    assert_eq!(command.program, "ollama");
    assert_eq!(command.args, vec!["--version".to_string()]);
}

#[test]
fn serve_command_runs_the_server() {
    let command = serve_command();
    assert_eq!(command.program, "ollama");
    assert_eq!(command.args, vec!["serve".to_string()]);
}

#[test]
fn pull_command_names_the_model() {
    let command = pull_command("llama3:8b");
    assert_eq!(command.program, "ollama");
    assert_eq!(command.args, vec!["pull".to_string(), "llama3:8b".to_string()]);
}

#[test]
fn installed_when_the_version_query_exits_with_zero() {
    let outcome = CommandOutcome::Exited { code: Some(0), stderr: Vec::new() };
    assert!(check_ollama_installed(&outcome));
}

#[test]
fn not_installed_when_the_version_query_exits_with_another_code() {
    let outcome = CommandOutcome::Exited { code: Some(1), stderr: b"boom".to_vec() };
    assert!(!check_ollama_installed(&outcome));
    let outcome = CommandOutcome::Exited { code: Some(-1), stderr: Vec::new() };
    assert!(!check_ollama_installed(&outcome));
}

#[test]
fn not_installed_when_the_process_ended_without_a_code() {
    let outcome = CommandOutcome::Exited { code: None, stderr: Vec::new() };
    assert!(!check_ollama_installed(&outcome));
}

#[test]
fn not_installed_when_the_binary_cannot_be_started() {
    let outcome = CommandOutcome::NotStarted { cause: "No such file or directory".to_string() };
    assert!(!check_ollama_installed(&outcome));
}

#[test]
fn running_on_any_success_status() {
    assert!(check_ollama_running(&answered(200)));
    assert!(check_ollama_running(&answered(204)));
    assert!(check_ollama_running(&answered(299)));
}

#[test]
fn not_running_on_a_status_outside_the_success_range() {
    assert!(!check_ollama_running(&answered(199)));
    assert!(!check_ollama_running(&answered(300)));
    assert!(!check_ollama_running(&answered(404)));
    assert!(!check_ollama_running(&answered(500)));
    assert!(!check_ollama_running(&answered(0)));
    assert!(!check_ollama_running(&answered(u16::MAX)));
}

#[test]
fn not_running_when_the_endpoint_is_unreachable() {
    let outcome = HttpOutcome::Unreachable { cause: "connection refused".to_string() };
    assert!(!check_ollama_running(&outcome));
    let outcome = HttpOutcome::Unreachable { cause: "operation timed out".to_string() };
    assert!(!check_ollama_running(&outcome));
}

#[test]
fn running_does_not_depend_on_the_body() {
    let outcome = HttpOutcome::Answered { status: 200, body: Err("reset".to_string()) };
    assert!(check_ollama_running(&outcome));
}

#[test]
fn local_endpoint_is_the_usual_port_on_this_machine() {
    assert_eq!(Endpoint::local().base_url, "http://localhost:11434");
}

#[test]
fn probe_request_has_the_two_second_timeout() {
    let request = Endpoint::local().probe_request();
    assert_eq!(request.url, "http://localhost:11434/api/tags");
    assert_eq!(request.timeout_secs, Some(2));
    assert_eq!(PROBE_TIMEOUT_SECS, 2);
}

#[test]
fn inventory_request_has_no_timeout() {
    let request = Endpoint::local().inventory_request();
    assert_eq!(request.url, "http://localhost:11434/api/tags");
    assert_eq!(request.timeout_secs, None);
}

#[test]
fn requests_follow_the_configured_endpoint() {
    let endpoint = Endpoint { base_url: "http://127.0.0.1:9".to_string() };
    assert_eq!(endpoint.probe_request().url, "http://127.0.0.1:9/api/tags");
    assert_eq!(endpoint.inventory_request().url, "http://127.0.0.1:9/api/tags");
}
