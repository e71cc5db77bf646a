//! Starting the server: spawn it detached, wait for it to warm up, report.
//!
//! The flow is a state machine. A driver performs the action it is handed
//! and answers with an event; nothing here waits or spawns.

use vstd::prelude::*;
use crate::command::{host_command, serve_command, CommandLine, CommandLineView};
use crate::text::message;

verus! {

/// Seconds granted to a freshly spawned server before success is reported.
pub const WARM_UP_SECS: u64 = 2;

/// Windows process creation flag: the process gets no console window.
pub const CREATE_NO_WINDOW: u32 = 0x0800_0000;

/// Windows process creation flag: the process is detached from the caller's
/// console.
pub const DETACHED_PROCESS: u32 = 0x0000_0008;

/// Where a launch stands.
pub enum LaunchState {
    /// The spawn was asked for.
    Spawning,
    /// The server was spawned; the warm-up wait was asked for.
    WarmingUp,
    /// The launch is over, with this result.
    Finished { result: Result<(), String> },
}

pub enum LaunchStateView {
    Spawning,
    WarmingUp,
    Finished { result: Result<(), Seq<char>> },
}

impl View for LaunchState {
    type V = LaunchStateView;

    open spec fn view(&self) -> LaunchStateView {
        match self {
            LaunchState::Spawning => LaunchStateView::Spawning,
            LaunchState::WarmingUp => LaunchStateView::WarmingUp,
            LaunchState::Finished { result } => LaunchStateView::Finished {
                result: match result {
                    Ok(()) => Ok(()),
                    Err(text) => Err(text@),
                },
            },
        }
    }
}

/// What the driver reports back.
pub enum LaunchEvent {
    /// The process was spawned.
    Spawned,
    /// The process could not be spawned; `cause` is the system's message.
    SpawnFailed { cause: String },
    /// The wait is over.
    Slept,
}

pub enum LaunchEventView {
    Spawned,
    SpawnFailed { cause: Seq<char> },
    Slept,
}

impl View for LaunchEvent {
    type V = LaunchEventView;

    open spec fn view(&self) -> LaunchEventView {
        match self {
            LaunchEvent::Spawned => LaunchEventView::Spawned,
            LaunchEvent::SpawnFailed { cause } => LaunchEventView::SpawnFailed { cause: cause@ },
            LaunchEvent::Slept => LaunchEventView::Slept,
        }
    }
}

/// What the driver is to do next.
pub enum LaunchAction {
    /// Spawn `command` in the background and do not wait for it. Where the
    /// platform has process creation flags, pass `creation_flags`.
    Spawn { command: CommandLine, creation_flags: u32 },
    /// Wait for `secs` seconds.
    Sleep { secs: u64 },
    /// Stop: the state holds the result.
    Finish,
}

pub enum LaunchActionView {
    Spawn { command: CommandLineView, creation_flags: u32 },
    Sleep { secs: u64 },
    Finish,
}

impl View for LaunchAction {
    type V = LaunchActionView;

    open spec fn view(&self) -> LaunchActionView {
        match self {
            LaunchAction::Spawn { command, creation_flags } => LaunchActionView::Spawn {
                command: command@,
                creation_flags: *creation_flags,
            },
            LaunchAction::Sleep { secs } => LaunchActionView::Sleep { secs: *secs },
            LaunchAction::Finish => LaunchActionView::Finish,
        }
    }
}

/// The state that follows `state` on `event`. An event that does not answer
/// the pending action leaves the state as it is.
pub open spec fn launch_next(state: LaunchStateView, event: LaunchEventView) -> LaunchStateView {
    match (state, event) {
        (LaunchStateView::Spawning, LaunchEventView::Spawned) => LaunchStateView::WarmingUp,
        (LaunchStateView::Spawning, LaunchEventView::SpawnFailed { cause }) => {
            LaunchStateView::Finished { result: Err("Failed to start Ollama: "@ + cause) }
        },
        (LaunchStateView::WarmingUp, LaunchEventView::Slept) => LaunchStateView::Finished {
            result: Ok(()),
        },
        _ => state,
    }
}

/// The action that `state` waits on.
pub open spec fn launch_pending(state: LaunchStateView) -> LaunchActionView {
    match state {
        LaunchStateView::Spawning => LaunchActionView::Spawn {
            command: host_command(seq!["serve"@]),
            creation_flags: CREATE_NO_WINDOW | DETACHED_PROCESS,
        },
        LaunchStateView::WarmingUp => LaunchActionView::Sleep { secs: WARM_UP_SECS },
        LaunchStateView::Finished { .. } => LaunchActionView::Finish,
    }
}

/// The state reached from `state` by the events of `events`, in order.
pub open spec fn launch_run(state: LaunchStateView, events: Seq<LaunchEventView>) -> LaunchStateView
    decreases events.len(),
{
    if events.len() == 0 {
        state
    } else {
        launch_next(launch_run(state, events.drop_last()), events.last())
    }
}

fn pending_action(state: &LaunchState) -> (action: LaunchAction)
    ensures
        action@ == launch_pending(state@),
{
    match state {
        LaunchState::Spawning => {
            LaunchAction::Spawn {
                command: serve_command(),
                creation_flags: CREATE_NO_WINDOW | DETACHED_PROCESS,
            }
        },
        LaunchState::WarmingUp => LaunchAction::Sleep { secs: WARM_UP_SECS },
        LaunchState::Finished { .. } => LaunchAction::Finish,
    }
}

/// Begins a launch: the server is to be spawned.
pub fn start_ollama() -> (r: (LaunchState, LaunchAction))
    ensures
        r.0@ == LaunchStateView::Spawning,
        r.1@ == launch_pending(r.0@),
{
    let state = LaunchState::Spawning;
    let action = pending_action(&state);
    (state, action)
}

/// Takes a launch one step on: the state that follows and what to do next.
///
/// A failed spawn ends the launch at once with `Failed to start Ollama: `
/// and the cause. A spawn that succeeded is followed by one wait of
/// `WARM_UP_SECS` seconds and then by success; the server is not probed.
pub fn launch_step(state: LaunchState, event: LaunchEvent) -> (r: (LaunchState, LaunchAction))
    ensures
        r.0@ == launch_next(state@, event@),
        r.1@ == launch_pending(r.0@),
{
    let next = match state {
        LaunchState::Spawning => match event {
            LaunchEvent::Spawned => LaunchState::WarmingUp,
            LaunchEvent::SpawnFailed { cause } => LaunchState::Finished {
                result: Err(message("Failed to start Ollama: ", cause.as_str())),
            },
            LaunchEvent::Slept => LaunchState::Spawning,
        },
        LaunchState::WarmingUp => match event {
            LaunchEvent::Slept => LaunchState::Finished { result: Ok(()) },
            _ => LaunchState::WarmingUp,
        },
        LaunchState::Finished { result } => LaunchState::Finished { result },
    };
    let action = pending_action(&next);
    (next, action)
}

/// A launch whose spawn succeeds waits once, for `WARM_UP_SECS` seconds, and
/// then reports success, whatever becomes of the server.
pub proof fn lemma_launch_succeeds()
    ensures
        launch_pending(LaunchStateView::Spawning) matches LaunchActionView::Spawn { .. },
        launch_pending(launch_next(LaunchStateView::Spawning, LaunchEventView::Spawned))
            == (LaunchActionView::Sleep { secs: 2 }),
        launch_run(
            LaunchStateView::Spawning,
            seq![LaunchEventView::Spawned, LaunchEventView::Slept],
        ) == (LaunchStateView::Finished { result: Ok(()) }),
{
    let events = seq![LaunchEventView::Spawned, LaunchEventView::Slept];
    assert(events.drop_last() =~= seq![LaunchEventView::Spawned]);
    assert(events.drop_last().drop_last() =~= Seq::<LaunchEventView>::empty());
    reveal_with_fuel(launch_run, 3);
}

/// A launch whose spawn fails ends at once, without a wait, and reports the
/// cause.
pub proof fn lemma_launch_fails(cause: Seq<char>)
    ensures
        launch_next(LaunchStateView::Spawning, LaunchEventView::SpawnFailed { cause }) == (
        LaunchStateView::Finished { result: Err("Failed to start Ollama: "@ + cause) }),
        launch_pending(
            launch_next(LaunchStateView::Spawning, LaunchEventView::SpawnFailed { cause }),
        ) == LaunchActionView::Finish,
{
}

/// A finished launch stays finished, with the same result, whatever event
/// arrives.
pub proof fn lemma_launch_finished_is_final(state: LaunchStateView, events: Seq<LaunchEventView>)
    requires
        state is Finished,
    ensures
        launch_run(state, events) == state,
    decreases events.len(),
{
    if events.len() > 0 {
        lemma_launch_finished_is_final(state, events.drop_last());
    }
}

/// However the driver answers, a launch asks for a wait only after a
/// successful spawn, and reports success only after that wait: a state that
/// waits has seen `Spawned`, and a state finished with success has seen
/// `Spawned` and then `Slept`.
pub proof fn lemma_launch_order(events: Seq<LaunchEventView>)
    ensures
        launch_run(LaunchStateView::Spawning, events) is WarmingUp ==> exists|i: int|
            0 <= i < events.len() && #[trigger] events[i] is Spawned,
        launch_run(LaunchStateView::Spawning, events) == (LaunchStateView::Finished {
            result: Ok(()),
        }) ==> exists|i: int, j: int|
            0 <= i < j < events.len() && #[trigger] events[i] is Spawned
                && #[trigger] events[j] is Slept,
    decreases events.len(),
{
    if events.len() > 0 {
        let before = events.drop_last();
        let last = events.len() - 1;
        lemma_launch_order(before);
        let prior = launch_run(LaunchStateView::Spawning, before);
        let reached = launch_run(LaunchStateView::Spawning, events);
        if reached is WarmingUp {
            if prior is WarmingUp {
                let i = choose|i: int| 0 <= i < before.len() && #[trigger] before[i] is Spawned;
                assert(events[i] is Spawned);
            } else {
                assert(events[last] is Spawned);
            }
        }
        if reached == (LaunchStateView::Finished { result: Ok(()) }) {
            if prior is WarmingUp {
                let i = choose|i: int| 0 <= i < before.len() && #[trigger] before[i] is Spawned;
                assert(events[i] is Spawned && events[last] is Slept);
            } else {
                assert(prior == reached);
                let (i, j) = choose|i: int, j: int|
                    0 <= i < j < before.len() && #[trigger] before[i] is Spawned
                        && #[trigger] before[j] is Slept;
                assert(events[i] is Spawned && events[j] is Slept);
            }
        }
    }
}

} // verus!
