use ollama_supervisor::command::CommandOutcome;
use ollama_supervisor::http::{Endpoint, HttpOutcome};
use ollama_supervisor::status::{
    get_ollama_status, status_step, StatusAction, StatusEvent, StatusState,
};
use ollama_supervisor::{OllamaModel, OllamaStatus};

fn exited(code: i32) -> CommandOutcome {
    CommandOutcome::Exited { code: Some(code), stderr: Vec::new() }
}

fn answered(status: u16, text: &str) -> HttpOutcome {
    HttpOutcome::Answered { status, body: Ok(text.as_bytes().to_vec()) }
}

fn refused() -> HttpOutcome {
    HttpOutcome::Unreachable { cause: "connection refused".to_string() }
}

fn report(state: StatusState) -> OllamaStatus {
    match state {
        StatusState::Done { status } => status,
        _ => panic!("the flow has not ended"),
    }
}

/// Drives the flow as a caller would, and counts the inventory queries.
fn drive(install: CommandOutcome, server: HttpOutcome, listing: HttpOutcome) -> (OllamaStatus, u32) {
    let endpoint = Endpoint::local();
    let mut install = Some(install);
    let mut server = Some(server);
    let mut listing = Some(listing);
    let mut queries = 0;
    let (mut state, mut action) = get_ollama_status(&endpoint);
    loop {
        let event = match action {
            StatusAction::ProbeInstall(_) => StatusEvent::Installed(install.take().unwrap()),
            StatusAction::ProbeServer(_) => StatusEvent::Probed(server.take().unwrap()),
            StatusAction::QueryInventory(_) => {
                queries += 1;
                StatusEvent::Listed(listing.take().unwrap())
            }
            StatusAction::Finish => return (report(state), queries),
        };
        (state, action) = status_step(&endpoint, state, event);
    }
}

#[test]
fn status_begins_with_the_install_probe() {
    let (state, action) = get_ollama_status(&Endpoint::local());
    assert!(matches!(state, StatusState::AwaitInstall));
    match action {
        StatusAction::ProbeInstall(command) => {
            assert_eq!(command.program, "ollama");
            assert_eq!(command.args, vec!["--version".to_string()]);
        }
        _ => panic!("the first action is the install probe"),
    }
}

#[test]
fn status_probes_the_server_with_a_timeout_after_the_install_probe() {
    let endpoint = Endpoint::local();
    let (state, _) = get_ollama_status(&endpoint);
    let (state, action) = status_step(&endpoint, state, StatusEvent::Installed(exited(0)));
    assert!(matches!(state, StatusState::AwaitServer { installed: true }));
    match action {
        StatusAction::ProbeServer(request) => {
            assert_eq!(request.url, "http://localhost:11434/api/tags");
            assert_eq!(request.timeout_secs, Some(2));
        }
        _ => panic!("the second action is the liveness probe"),
    }
}

#[test]
fn status_queries_the_inventory_of_a_running_server() {
    let endpoint = Endpoint { base_url: "http://127.0.0.1:4000".to_string() };
    let (state, _) = get_ollama_status(&endpoint);
    let (state, _) = status_step(&endpoint, state, StatusEvent::Installed(exited(0)));
    let (state, action) = status_step(&endpoint, state, StatusEvent::Probed(answered(200, "")));
    assert!(matches!(state, StatusState::AwaitInventory { installed: true }));
    match action {
        StatusAction::QueryInventory(request) => {
            assert_eq!(request.url, "http://127.0.0.1:4000/api/tags");
            assert_eq!(request.timeout_secs, None);
        }
        _ => panic!("a running server is asked for its inventory"),
    }
}

#[test]
fn status_of_a_running_server_lists_its_models() {
    let (status, queries) = drive(
        exited(0),
        answered(200, "{}"),
        answered(200, r#"{"models":[{"name":"llama3:8b"},{"name":"mistral:7b"}]}"#),
    );
    assert!(status.installed);
    assert!(status.running);
    assert_eq!(status.models, vec!["llama3:8b".to_string(), "mistral:7b".to_string()]);
    assert_eq!(queries, 1);
}

#[test]
fn status_never_queries_the_inventory_of_a_server_that_is_down() {
    let listing = r#"{"models":[{"name":"llama3:8b"}]}"#;
    let (status, queries) = drive(exited(0), refused(), answered(200, listing));
    assert!(status.installed);
    assert!(!status.running);
    assert!(status.models.is_empty());
    assert_eq!(queries, 0);
    let (status, queries) = drive(exited(0), answered(503, listing), answered(200, listing));
    assert!(!status.running);
    assert!(status.models.is_empty());
    assert_eq!(queries, 0);
}

#[test]
fn status_degrades_a_failed_listing_to_no_models() {
    let (status, queries) = drive(exited(0), answered(200, "{}"), refused());
    assert!(status.installed);
    assert!(status.running);
    assert!(status.models.is_empty());
    assert_eq!(queries, 1);
    let (status, _) = drive(exited(0), answered(200, "{}"), answered(200, "<html>"));
    assert!(status.running);
    assert!(status.models.is_empty());
}

#[test]
fn status_of_a_host_that_is_not_installed() {
    let not_started = CommandOutcome::NotStarted { cause: "not found".to_string() };
    let (status, queries) = drive(not_started, refused(), refused());
    assert!(!status.installed);
    assert!(!status.running);
    assert!(status.models.is_empty());
    assert_eq!(queries, 0);
}

#[test]
fn status_reports_a_running_server_though_the_binary_is_not_found() {
    let (status, _) =
        drive(exited(127), answered(200, "{}"), answered(200, r#"{"models":[{"name":"a"}]}"#));
    assert!(!status.installed);
    assert!(status.running);
    assert_eq!(status.models, vec!["a".to_string()]);
}

#[test]
fn status_ignores_an_event_that_answers_nothing() {
    let endpoint = Endpoint::local();
    let (state, _) = get_ollama_status(&endpoint);
    let (state, action) = status_step(&endpoint, state, StatusEvent::Probed(answered(200, "")));
    assert!(matches!(state, StatusState::AwaitInstall));
    assert!(matches!(action, StatusAction::ProbeInstall(_)));
    let (state, _) = status_step(&endpoint, state, StatusEvent::Installed(exited(0)));
    let listing = answered(200, r#"{"models":[{"name":"a"}]}"#);
    let (state, action) = status_step(&endpoint, state, StatusEvent::Listed(listing));
    assert!(matches!(state, StatusState::AwaitServer { installed: true }));
    assert!(matches!(action, StatusAction::ProbeServer(_)));
}

#[test]
fn finished_status_keeps_its_report() {
    let endpoint = Endpoint::local();
    let (state, _) = get_ollama_status(&endpoint);
    let (state, _) = status_step(&endpoint, state, StatusEvent::Installed(exited(0)));
    let (state, _) = status_step(&endpoint, state, StatusEvent::Probed(refused()));
    let listing = answered(200, r#"{"models":[{"name":"a"}]}"#);
    let (state, action) = status_step(&endpoint, state, StatusEvent::Listed(listing));
    assert!(matches!(action, StatusAction::Finish));
    let status = report(state);
    assert!(status.installed);
    assert!(!status.running);
    assert!(status.models.is_empty());
}

#[test]
fn model_record_may_lack_size_and_time() {
    let bare = OllamaModel { name: "llama3:8b".to_string(), size: None, modified_at: None };
    assert_eq!(bare.name, "llama3:8b");
    assert_eq!(bare.size, None);
    assert_eq!(bare.modified_at, None);
    let full = OllamaModel {
        name: "mistral:7b".to_string(),
        size: Some(4_109_865_159),
        modified_at: Some("2024-05-01T10:00:00Z".to_string()),
    };
    assert_eq!(full.size, Some(4_109_865_159));
    assert_eq!(full.modified_at.as_deref(), Some("2024-05-01T10:00:00Z"));
}
