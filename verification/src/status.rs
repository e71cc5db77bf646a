//! The consolidated status report and the flow that gathers it: probe the
//! installation, probe the server, and ask for the inventory only from a
//! server that answered.
//!
//! The flow is a state machine. A driver performs the action it is handed
//! and answers with an event; nothing here runs a command or sends a request.

use vstd::prelude::*;
use crate::command::{host_command, version_command, CommandLine, CommandLineView, CommandOutcome,
    CommandOutcomeView};
use crate::http::{inventory_request, probe_request, Endpoint, HttpOutcome, HttpOutcomeView,
    HttpRequest, HttpRequestView};
use crate::inventory::{inventory, list_models};
use crate::probe::{check_ollama_installed, check_ollama_running};

verus! {

/// What the host records of one model. The host may leave out the size and
/// the time of the last change.
pub struct OllamaModel {
    pub name: String,
    pub size: Option<u64>,
    pub modified_at: Option<String>,
}

pub struct OllamaModelView {
    pub name: Seq<char>,
    pub size: Option<u64>,
    pub modified_at: Option<Seq<char>>,
}

impl View for OllamaModel {
    type V = OllamaModelView;

    open spec fn view(&self) -> OllamaModelView {
        OllamaModelView {
            name: self.name@,
            size: self.size,
            modified_at: match self.modified_at {
                Some(text) => Some(text@),
                None => None,
            },
        }
    }
}

/// The status report: is the host binary installed, does its server answer,
/// and which models does it hold.
pub struct OllamaStatus {
    pub installed: bool,
    pub running: bool,
    pub models: Vec<String>,
}

pub struct OllamaStatusView {
    pub installed: bool,
    pub running: bool,
    pub models: Seq<Seq<char>>,
}

impl View for OllamaStatus {
    type V = OllamaStatusView;

    open spec fn view(&self) -> OllamaStatusView {
        OllamaStatusView {
            installed: self.installed,
            running: self.running,
            models: self.models.deep_view(),
        }
    }
}

impl OllamaStatusView {
    /// A server that does not answer has no models to show.
    pub open spec fn consistent(self) -> bool {
        !self.running ==> self.models.len() == 0
    }
}

/// Where the gathering of a status report stands.
pub enum StatusState {
    /// The install probe was asked for.
    AwaitInstall,
    /// The liveness probe was asked for.
    AwaitServer { installed: bool },
    /// The server answered; the inventory was asked for.
    AwaitInventory { installed: bool },
    /// The report is made.
    Done { status: OllamaStatus },
}

pub enum StatusStateView {
    AwaitInstall,
    AwaitServer { installed: bool },
    AwaitInventory { installed: bool },
    Done { status: OllamaStatusView },
}

impl View for StatusState {
    type V = StatusStateView;

    open spec fn view(&self) -> StatusStateView {
        match self {
            StatusState::AwaitInstall => StatusStateView::AwaitInstall,
            StatusState::AwaitServer { installed } => StatusStateView::AwaitServer {
                installed: *installed,
            },
            StatusState::AwaitInventory { installed } => StatusStateView::AwaitInventory {
                installed: *installed,
            },
            StatusState::Done { status } => StatusStateView::Done { status: status@ },
        }
    }
}

/// What the driver reports back.
pub enum StatusEvent {
    /// The outcome of the install probe.
    Installed(CommandOutcome),
    /// The outcome of the liveness probe.
    Probed(HttpOutcome),
    /// The outcome of the inventory query.
    Listed(HttpOutcome),
}

pub enum StatusEventView {
    Installed(CommandOutcomeView),
    Probed(HttpOutcomeView),
    Listed(HttpOutcomeView),
}

impl View for StatusEvent {
    type V = StatusEventView;

    open spec fn view(&self) -> StatusEventView {
        match self {
            StatusEvent::Installed(outcome) => StatusEventView::Installed(outcome@),
            StatusEvent::Probed(outcome) => StatusEventView::Probed(outcome@),
            StatusEvent::Listed(outcome) => StatusEventView::Listed(outcome@),
        }
    }
}

/// What the driver is to do next.
pub enum StatusAction {
    /// Run the command to its end and answer with `Installed`.
    ProbeInstall(CommandLine),
    /// Send the request and answer with `Probed`.
    ProbeServer(HttpRequest),
    /// Send the request and answer with `Listed`.
    QueryInventory(HttpRequest),
    /// Stop: the state holds the report.
    Finish,
}

pub enum StatusActionView {
    ProbeInstall(CommandLineView),
    ProbeServer(HttpRequestView),
    QueryInventory(HttpRequestView),
    Finish,
}

impl View for StatusAction {
    type V = StatusActionView;

    open spec fn view(&self) -> StatusActionView {
        match self {
            StatusAction::ProbeInstall(command) => StatusActionView::ProbeInstall(command@),
            StatusAction::ProbeServer(request) => StatusActionView::ProbeServer(request@),
            StatusAction::QueryInventory(request) => StatusActionView::QueryInventory(request@),
            StatusAction::Finish => StatusActionView::Finish,
        }
    }
}

/// The models that a report shows for this outcome of the inventory query:
/// the listing, and nothing where the listing failed.
pub open spec fn listed_models(outcome: HttpOutcomeView) -> Seq<Seq<char>> {
    match inventory(outcome) {
        Ok(models) => models,
        Err(_) => Seq::empty(),
    }
}

/// The report that the three outcomes add up to. The inventory counts only
/// where the server answered the probe.
pub open spec fn status_of(
    install: CommandOutcomeView,
    server: HttpOutcomeView,
    listing: HttpOutcomeView,
) -> OllamaStatusView {
    OllamaStatusView {
        installed: install.succeeded(),
        running: server.succeeded(),
        models: if server.succeeded() {
            listed_models(listing)
        } else {
            Seq::empty()
        },
    }
}

/// The state that follows `state` on `event`. An event that does not answer
/// the pending action leaves the state as it is.
pub open spec fn status_next(state: StatusStateView, event: StatusEventView) -> StatusStateView {
    match (state, event) {
        (StatusStateView::AwaitInstall, StatusEventView::Installed(outcome)) => {
            StatusStateView::AwaitServer { installed: outcome.succeeded() }
        },
        (StatusStateView::AwaitServer { installed }, StatusEventView::Probed(outcome)) => {
            if outcome.succeeded() {
                StatusStateView::AwaitInventory { installed }
            } else {
                StatusStateView::Done {
                    status: OllamaStatusView { installed, running: false, models: Seq::empty() },
                }
            }
        },
        (StatusStateView::AwaitInventory { installed }, StatusEventView::Listed(outcome)) => {
            StatusStateView::Done {
                status: OllamaStatusView {
                    installed,
                    running: true,
                    models: listed_models(outcome),
                },
            }
        },
        _ => state,
    }
}

/// The action that `state` waits on, for the endpoint at `base_url`.
pub open spec fn status_pending(base_url: Seq<char>, state: StatusStateView) -> StatusActionView {
    match state {
        StatusStateView::AwaitInstall => StatusActionView::ProbeInstall(
            host_command(seq!["--version"@]),
        ),
        StatusStateView::AwaitServer { .. } => StatusActionView::ProbeServer(
            probe_request(base_url),
        ),
        StatusStateView::AwaitInventory { .. } => StatusActionView::QueryInventory(
            inventory_request(base_url),
        ),
        StatusStateView::Done { .. } => StatusActionView::Finish,
    }
}

/// The state reached from `state` by the events of `events`, in order.
pub open spec fn status_run(state: StatusStateView, events: Seq<StatusEventView>) -> StatusStateView
    decreases events.len(),
{
    if events.len() == 0 {
        state
    } else {
        status_next(status_run(state, events.drop_last()), events.last())
    }
}

fn pending_action(endpoint: &Endpoint, state: &StatusState) -> (action: StatusAction)
    ensures
        action@ == status_pending(endpoint@, state@),
{
    match state {
        StatusState::AwaitInstall => StatusAction::ProbeInstall(version_command()),
        StatusState::AwaitServer { .. } => StatusAction::ProbeServer(endpoint.probe_request()),
        StatusState::AwaitInventory { .. } => StatusAction::QueryInventory(
            endpoint.inventory_request(),
        ),
        StatusState::Done { .. } => StatusAction::Finish,
    }
}

/// Begins the gathering of a status report: the installation is to be
/// probed.
pub fn get_ollama_status(endpoint: &Endpoint) -> (r: (StatusState, StatusAction))
    ensures
        r.0@ == StatusStateView::AwaitInstall,
        r.1@ == status_pending(endpoint@, r.0@),
{
    let state = StatusState::AwaitInstall;
    let action = pending_action(endpoint, &state);
    (state, action)
}

/// Takes the gathering one step on: the state that follows and what to do
/// next.
///
/// The inventory is asked for only once the server has answered the probe
/// with success; a server that did not ends the flow with no models. A
/// listing that fails ends it with no models too. No step fails.
pub fn status_step(endpoint: &Endpoint, state: StatusState, event: StatusEvent) -> (r: (
    StatusState,
    StatusAction,
))
    ensures
        r.0@ == status_next(state@, event@),
        r.1@ == status_pending(endpoint@, r.0@),
        r.1 is QueryInventory ==> (state is AwaitInventory && !(event is Listed)) || (state
            is AwaitServer && (event matches StatusEvent::Probed(outcome)
            && outcome@.succeeded())),
        r.0 matches StatusState::Done { status } ==> (state is Done || status@.consistent()),
{
    let next = match state {
        StatusState::AwaitInstall => match event {
            StatusEvent::Installed(outcome) => StatusState::AwaitServer {
                installed: check_ollama_installed(&outcome),
            },
            _ => StatusState::AwaitInstall,
        },
        StatusState::AwaitServer { installed } => match event {
            StatusEvent::Probed(outcome) => {
                if check_ollama_running(&outcome) {
                    StatusState::AwaitInventory { installed }
                } else {
                    let models: Vec<String> = Vec::new();
                    assert(models.deep_view() =~= Seq::<Seq<char>>::empty());
                    StatusState::Done { status: OllamaStatus { installed, running: false, models } }
                }
            },
            _ => StatusState::AwaitServer { installed },
        },
        StatusState::AwaitInventory { installed } => match event {
            StatusEvent::Listed(outcome) => {
                let models = match list_models(&outcome) {
                    Ok(models) => models,
                    Err(_) => {
                        let none: Vec<String> = Vec::new();
                        assert(none.deep_view() =~= Seq::<Seq<char>>::empty());
                        none
                    },
                };
                StatusState::Done { status: OllamaStatus { installed, running: true, models } }
            },
            _ => StatusState::AwaitInventory { installed },
        },
        StatusState::Done { status } => StatusState::Done { status },
    };
    let action = pending_action(endpoint, &next);
    (next, action)
}

/// The flow, answered in order, ends with the report that the outcomes add
/// up to. Where the server does not answer the probe with success, it ends
/// after two steps and the inventory is never asked for; else it ends after
/// the third.
pub proof fn lemma_status_flow(
    base_url: Seq<char>,
    install: CommandOutcomeView,
    server: HttpOutcomeView,
    listing: HttpOutcomeView,
)
    ensures
        ({
            let probed = status_run(
                StatusStateView::AwaitInstall,
                seq![StatusEventView::Installed(install), StatusEventView::Probed(server)],
            );
            let listed = status_next(probed, StatusEventView::Listed(listing));
            &&& status_pending(base_url, StatusStateView::AwaitInstall)
                is ProbeInstall
            &&& status_pending(
                base_url,
                status_next(StatusStateView::AwaitInstall, StatusEventView::Installed(install)),
            ) is ProbeServer
            &&& !server.succeeded() ==> probed == (StatusStateView::Done {
                status: status_of(install, server, listing),
            })
            &&& server.succeeded() ==> status_pending(base_url, probed) is QueryInventory
            &&& listed == (StatusStateView::Done { status: status_of(install, server, listing) })
            &&& status_of(install, server, listing).consistent()
        }),
{
    let events = seq![StatusEventView::Installed(install), StatusEventView::Probed(server)];
    assert(events.drop_last() =~= seq![StatusEventView::Installed(install)]);
    assert(events.drop_last().drop_last() =~= Seq::<StatusEventView>::empty());
    reveal_with_fuel(status_run, 3);
}

/// However the driver answers, the inventory is asked for only after a
/// liveness probe that the server answered with success: a state that waits
/// on the inventory was reached through a state that waited on the probe
/// and received such an answer.
pub proof fn lemma_inventory_only_when_running(base_url: Seq<char>, events: Seq<StatusEventView>)
    ensures
        status_pending(base_url, status_run(StatusStateView::AwaitInstall, events))
            is QueryInventory ==> exists|i: int|
            0 <= i < events.len() && #[trigger] status_run(
                StatusStateView::AwaitInstall,
                events.take(i),
            ) is AwaitServer && (events[i] matches StatusEventView::Probed(outcome)
                && outcome.succeeded()),
    decreases events.len(),
{
    if events.len() > 0 {
        let start = StatusStateView::AwaitInstall;
        let before = events.drop_last();
        let last = events.len() - 1;
        lemma_inventory_only_when_running(base_url, before);
        let prior = status_run(start, before);
        if status_run(start, events) is AwaitInventory {
            if prior is AwaitInventory {
                let i = choose|i: int|
                    0 <= i < before.len() && #[trigger] status_run(start, before.take(i))
                        is AwaitServer && (before[i] matches StatusEventView::Probed(outcome)
                        && outcome.succeeded());
                assert(events.take(i) =~= before.take(i));
                assert(events[i] == before[i]);
                assert(status_run(start, events.take(i)) is AwaitServer);
            } else {
                assert(events.take(last) =~= before);
                assert(status_run(start, events.take(last)) is AwaitServer);
            }
        }
    }
}

/// However the driver answers, a report that is made is consistent: it shows
/// models only for a server that runs. It shows them only if an inventory
/// was listed, too.
pub proof fn lemma_report_consistent(events: Seq<StatusEventView>)
    ensures
        status_run(StatusStateView::AwaitInstall, events) matches StatusStateView::Done { status }
            ==> status.consistent() && (status.models.len() > 0 ==> exists|i: int|
            0 <= i < events.len() && #[trigger] events[i] is Listed),
    decreases events.len(),
{
    if events.len() > 0 {
        let before = events.drop_last();
        let last = events.len() - 1;
        lemma_report_consistent(before);
        let prior = status_run(StatusStateView::AwaitInstall, before);
        let reached = status_run(StatusStateView::AwaitInstall, events);
        if let StatusStateView::Done { status } = reached {
            if prior is Done {
                assert(prior == reached);
                if status.models.len() > 0 {
                    let i = choose|i: int| 0 <= i < before.len() && #[trigger] before[i] is Listed;
                    assert(events[i] is Listed);
                }
            } else if prior is AwaitInventory {
                assert(events[last] is Listed);
            }
        }
    }
}

} // verus!
