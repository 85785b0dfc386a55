//! The capture window around one page navigation, as a state machine: the
//! caller performs each action on the browser and reports how it ended;
//! the machine decides what comes next.

use vstd::prelude::*;

verus! {

/// The category of notification that one collector drains.
#[derive(Clone, Copy, Debug, PartialEq, Eq, Structural)]
pub enum EventCategory {
    Request,
    Response,
    Finished,
    Failed,
}

/// The number of collectors: one per category.
pub const COLLECTORS: u8 = 4;

/// The settle time that is used where none is configured, in milliseconds.
pub const DEFAULT_SETTLE_MS: u64 = 1000;

/// What a capture can be configured with.
#[derive(Clone, Copy, Debug, PartialEq, Eq, Structural)]
pub struct CaptureConfig {
    /// How long to wait after navigation completes, in milliseconds, so
    /// that subresources still in flight can finish.
    pub settle_ms: u64,
}

impl Default for CaptureConfig {
    fn default() -> (config: Self)
        ensures
            config.settle_ms == DEFAULT_SETTLE_MS,
    {
        CaptureConfig { settle_ms: DEFAULT_SETTLE_MS }
    }
}

/// Where a capture stands.
#[derive(Clone, Copy, Debug, PartialEq, Eq, Structural)]
pub enum SessionState {
    /// Nothing has been asked of the browser yet.
    Idle,
    /// A blank page is being opened.
    OpeningPage,
    /// Network observation is being enabled on the page.
    EnablingNetwork,
    /// `started` collectors run and the next one is being started.
    StartingCollectors { started: u8 },
    /// All collectors run and navigation is being issued.
    Navigating,
    /// Navigation was issued and its completion is awaited.
    AwaitingNavigation,
    /// The settle time is running.
    Settling,
    /// The rendered content is being read.
    ReadingContent,
    /// `running` collectors were told to stop and their confirmed stop is
    /// awaited; `failed` says whether an error waits to be returned.
    StoppingCollectors { running: u8, failed: bool },
    /// All collectors are stopped and the frozen buffer is being analysed.
    Analyzing,
    /// The content and the report were handed out.
    Completed,
    /// The capture failed and the error was handed out.
    Failed,
}

/// What the caller reports to the machine.
#[derive(Clone, Copy, Debug, PartialEq, Eq, Structural)]
pub enum SessionEvent {
    /// The capture is asked for.
    Start,
    /// The action last asked for has been done.
    Succeeded,
    /// The action last asked for has failed.
    Failed,
}

/// What the machine asks of the caller.
#[derive(Clone, Copy, Debug, PartialEq, Eq, Structural)]
pub enum SessionAction {
    /// Nothing: the event does not concern the state.
    Nothing,
    OpenPage,
    EnableNetwork,
    /// Subscribe to the category and start its collector.
    StartCollector(EventCategory),
    Navigate,
    AwaitNavigation,
    /// Sleep for the given number of milliseconds.
    Settle(u64),
    ReadContent,
    /// Signal the given number of running collectors to stop, and report
    /// success once every one of them is confirmed stopped.
    StopCollectors(u8),
    /// Hand the frozen buffer and the elapsed time to the analyzer.
    Analyze,
    /// Hand out the content and the report.
    ReturnReport,
    /// Hand out the error; no report is produced.
    ReturnError,
}

/// A step of the machine: the state it moves to and what it asks for.
#[derive(Clone, Copy, Debug, PartialEq, Eq, Structural)]
pub struct Transition {
    pub next: SessionState,
    pub action: SessionAction,
}

/// The category of the collector that is started in place `index`.
pub open spec fn category_at(index: u8) -> EventCategory {
    if index == 0 {
        EventCategory::Request
    } else if index == 1 {
        EventCategory::Response
    } else if index == 2 {
        EventCategory::Finished
    } else {
        EventCategory::Failed
    }
}

/// How many collectors have been started and are not yet confirmed
/// stopped in a state.
pub open spec fn collectors_running(state: SessionState) -> nat {
    match state {
        SessionState::StartingCollectors { started } => started as nat,
        SessionState::Navigating
        | SessionState::AwaitingNavigation
        | SessionState::Settling
        | SessionState::ReadingContent => COLLECTORS as nat,
        SessionState::StoppingCollectors { running, .. } => running as nat,
        _ => 0,
    }
}

/// Whether a state is one that the machine itself produces.
pub open spec fn state_valid(state: SessionState) -> bool {
    match state {
        SessionState::StartingCollectors { started } => started < COLLECTORS,
        SessionState::StoppingCollectors { running, .. } => 0 < running <= COLLECTORS,
        _ => true,
    }
}

/// Stops the collectors that run, or returns the error at once where none
/// does.
pub open spec fn abandon(running: u8) -> Transition {
    if running == 0 {
        Transition { next: SessionState::Failed, action: SessionAction::ReturnError }
    } else {
        Transition {
            next: SessionState::StoppingCollectors { running, failed: true },
            action: SessionAction::StopCollectors(running),
        }
    }
}

/// The step that the machine takes in `state` on `event`.
pub open spec fn transition(state: SessionState, event: SessionEvent, config: CaptureConfig) -> Transition {
    match (state, event) {
        (SessionState::Idle, SessionEvent::Start) => Transition {
            next: SessionState::OpeningPage,
            action: SessionAction::OpenPage,
        },
        (SessionState::OpeningPage, SessionEvent::Succeeded) => Transition {
            next: SessionState::EnablingNetwork,
            action: SessionAction::EnableNetwork,
        },
        (SessionState::OpeningPage, SessionEvent::Failed) => abandon(0),
        (SessionState::EnablingNetwork, SessionEvent::Succeeded) => Transition {
            next: SessionState::StartingCollectors { started: 0 },
            action: SessionAction::StartCollector(category_at(0)),
        },
        (SessionState::EnablingNetwork, SessionEvent::Failed) => abandon(0),
        (SessionState::StartingCollectors { started }, SessionEvent::Succeeded) => if started
            < COLLECTORS - 1 {
            Transition {
                next: SessionState::StartingCollectors { started: (started + 1) as u8 },
                action: SessionAction::StartCollector(category_at((started + 1) as u8)),
            }
        } else {
            Transition { next: SessionState::Navigating, action: SessionAction::Navigate }
        },
        (SessionState::StartingCollectors { started }, SessionEvent::Failed) => abandon(
            if started < COLLECTORS {
                started
            } else {
                COLLECTORS
            },
        ),
        (SessionState::Navigating, SessionEvent::Succeeded) => Transition {
            next: SessionState::AwaitingNavigation,
            action: SessionAction::AwaitNavigation,
        },
        (SessionState::AwaitingNavigation, SessionEvent::Succeeded) => Transition {
            next: SessionState::Settling,
            action: SessionAction::Settle(config.settle_ms),
        },
        (SessionState::Settling, SessionEvent::Succeeded) => Transition {
            next: SessionState::ReadingContent,
            action: SessionAction::ReadContent,
        },
        (SessionState::ReadingContent, SessionEvent::Succeeded) => Transition {
            next: SessionState::StoppingCollectors { running: COLLECTORS, failed: false },
            action: SessionAction::StopCollectors(COLLECTORS),
        },
        (SessionState::Navigating, SessionEvent::Failed)
        | (SessionState::AwaitingNavigation, SessionEvent::Failed)
        | (SessionState::Settling, SessionEvent::Failed)
        | (SessionState::ReadingContent, SessionEvent::Failed) => abandon(COLLECTORS),
        (SessionState::StoppingCollectors { running, failed }, SessionEvent::Succeeded) => if failed {
            Transition { next: SessionState::Failed, action: SessionAction::ReturnError }
        } else {
            Transition { next: SessionState::Analyzing, action: SessionAction::Analyze }
        },
        (SessionState::StoppingCollectors { running, failed }, _) => Transition {
            next: state,
            action: SessionAction::StopCollectors(running),
        },
        (SessionState::Analyzing, SessionEvent::Succeeded) => Transition {
            next: SessionState::Completed,
            action: SessionAction::ReturnReport,
        },
        (SessionState::Analyzing, SessionEvent::Failed) => abandon(0),
        _ => Transition { next: state, action: SessionAction::Nothing },
    }
}

/// The category of the collector that is started in place `index`.
pub fn collector_category(index: u8) -> (category: EventCategory)
    ensures
        category == category_at(index),
{
    if index == 0 {
        EventCategory::Request
    } else if index == 1 {
        EventCategory::Response
    } else if index == 2 {
        EventCategory::Finished
    } else {
        EventCategory::Failed
    }
}

fn give_up(running: u8) -> (step: Transition)
    ensures
        step == abandon(running),
{
    if running == 0 {
        Transition { next: SessionState::Failed, action: SessionAction::ReturnError }
    } else {
        Transition {
            next: SessionState::StoppingCollectors { running, failed: true },
            action: SessionAction::StopCollectors(running),
        }
    }
}

/// Decides the next state and the next action from the state and the
/// event that the caller reports.
pub fn step(state: SessionState, event: SessionEvent, config: &CaptureConfig) -> (taken: Transition)
    ensures
        taken == transition(state, event, *config),
{
    match state {
        SessionState::Idle => match event {
            SessionEvent::Start => Transition {
                next: SessionState::OpeningPage,
                action: SessionAction::OpenPage,
            },
            _ => Transition { next: state, action: SessionAction::Nothing },
        },
        SessionState::OpeningPage => match event {
            SessionEvent::Succeeded => Transition {
                next: SessionState::EnablingNetwork,
                action: SessionAction::EnableNetwork,
            },
            SessionEvent::Failed => give_up(0),
            SessionEvent::Start => Transition { next: state, action: SessionAction::Nothing },
        },
        SessionState::EnablingNetwork => match event {
            SessionEvent::Succeeded => Transition {
                next: SessionState::StartingCollectors { started: 0 },
                action: SessionAction::StartCollector(collector_category(0)),
            },
            SessionEvent::Failed => give_up(0),
            SessionEvent::Start => Transition { next: state, action: SessionAction::Nothing },
        },
        SessionState::StartingCollectors { started } => match event {
            SessionEvent::Succeeded => {
                if started < COLLECTORS - 1 {
                    Transition {
                        next: SessionState::StartingCollectors { started: started + 1 },
                        action: SessionAction::StartCollector(collector_category(started + 1)),
                    }
                } else {
                    Transition { next: SessionState::Navigating, action: SessionAction::Navigate }
                }
            },
            SessionEvent::Failed => {
                if started < COLLECTORS {
                    give_up(started)
                } else {
                    give_up(COLLECTORS)
                }
            },
            SessionEvent::Start => Transition { next: state, action: SessionAction::Nothing },
        },
        SessionState::Navigating => match event {
            SessionEvent::Succeeded => Transition {
                next: SessionState::AwaitingNavigation,
                action: SessionAction::AwaitNavigation,
            },
            SessionEvent::Failed => give_up(COLLECTORS),
            SessionEvent::Start => Transition { next: state, action: SessionAction::Nothing },
        },
        SessionState::AwaitingNavigation => match event {
            SessionEvent::Succeeded => Transition {
                next: SessionState::Settling,
                action: SessionAction::Settle(config.settle_ms),
            },
            SessionEvent::Failed => give_up(COLLECTORS),
            SessionEvent::Start => Transition { next: state, action: SessionAction::Nothing },
        },
        SessionState::Settling => match event {
            SessionEvent::Succeeded => Transition {
                next: SessionState::ReadingContent,
                action: SessionAction::ReadContent,
            },
            SessionEvent::Failed => give_up(COLLECTORS),
            SessionEvent::Start => Transition { next: state, action: SessionAction::Nothing },
        },
        SessionState::ReadingContent => match event {
            SessionEvent::Succeeded => Transition {
                next: SessionState::StoppingCollectors { running: COLLECTORS, failed: false },
                action: SessionAction::StopCollectors(COLLECTORS),
            },
            SessionEvent::Failed => give_up(COLLECTORS),
            SessionEvent::Start => Transition { next: state, action: SessionAction::Nothing },
        },
        SessionState::StoppingCollectors { running, failed } => match event {
            SessionEvent::Succeeded => {
                if failed {
                    Transition { next: SessionState::Failed, action: SessionAction::ReturnError }
                } else {
                    Transition { next: SessionState::Analyzing, action: SessionAction::Analyze }
                }
            },
            _ => Transition { next: state, action: SessionAction::StopCollectors(running) },
        },
        SessionState::Analyzing => match event {
            SessionEvent::Succeeded => Transition {
                next: SessionState::Completed,
                action: SessionAction::ReturnReport,
            },
            SessionEvent::Failed => give_up(0),
            SessionEvent::Start => Transition { next: state, action: SessionAction::Nothing },
        },
        SessionState::Completed => Transition { next: state, action: SessionAction::Nothing },
        SessionState::Failed => Transition { next: state, action: SessionAction::Nothing },
    }
}

/// The state that the machine is in after it has taken the events in
/// turn, starting idle.
pub open spec fn state_after(events: Seq<SessionEvent>, config: CaptureConfig) -> SessionState
    decreases events.len(),
{
    if events.len() == 0 {
        SessionState::Idle
    } else {
        transition(state_after(events.drop_last(), config), events.last(), config).next
    }
}

/// The action that the machine asks for on the last of the events.
pub open spec fn action_after(events: Seq<SessionEvent>, config: CaptureConfig) -> SessionAction
    recommends
        events.len() > 0,
{
    transition(state_after(events.drop_last(), config), events.last(), config).action
}

/// The machine only produces valid states.
pub proof fn lemma_step_keeps_valid(state: SessionState, event: SessionEvent, config: CaptureConfig)
    requires
        state_valid(state),
    ensures
        state_valid(transition(state, event, config).next),
{
}

/// Every state of a run is valid.
pub proof fn lemma_run_is_valid(events: Seq<SessionEvent>, config: CaptureConfig)
    ensures
        state_valid(state_after(events, config)),
    decreases events.len(),
{
    if events.len() > 0 {
        lemma_run_is_valid(events.drop_last(), config);
        lemma_step_keeps_valid(state_after(events.drop_last(), config), events.last(), config);
    }
}

/// The analysis is asked for only when the stop of every collector has
/// been confirmed, so that the analyzer never reads a buffer that a
/// collector may still write.
pub proof fn lemma_analysis_needs_confirmed_stop(
    state: SessionState,
    event: SessionEvent,
    config: CaptureConfig,
)
    requires
        transition(state, event, config).action == SessionAction::Analyze,
    ensures
        state is StoppingCollectors,
        event == SessionEvent::Succeeded,
        collectors_running(transition(state, event, config).next) == 0,
{
}

/// Navigation is issued only when all collectors run, so that no early
/// request escapes them.
pub proof fn lemma_navigation_needs_all_collectors(
    state: SessionState,
    event: SessionEvent,
    config: CaptureConfig,
)
    requires
        state_valid(state),
        transition(state, event, config).action == SessionAction::Navigate,
    ensures
        state == (SessionState::StartingCollectors { started: (COLLECTORS - 1) as u8 }),
        event == SessionEvent::Succeeded,
        collectors_running(transition(state, event, config).next) == COLLECTORS,
{
}

/// An error is handed out only when no collector runs: collectors that
/// were started are stopped, and their stop confirmed, before a failure
/// surfaces.
pub proof fn lemma_error_needs_stopped_collectors(
    state: SessionState,
    event: SessionEvent,
    config: CaptureConfig,
)
    requires
        state_valid(state),
        transition(state, event, config).action == SessionAction::ReturnError,
    ensures
        collectors_running(transition(state, event, config).next) == 0,
        collectors_running(state) > 0 ==> state is StoppingCollectors && event
            == SessionEvent::Succeeded,
{
}

/// A report is handed out only for a finished analysis, and a failure
/// never yields one.
pub proof fn lemma_report_needs_analysis(
    state: SessionState,
    event: SessionEvent,
    config: CaptureConfig,
)
    requires
        transition(state, event, config).action == SessionAction::ReturnReport,
    ensures
        state == SessionState::Analyzing,
        event == SessionEvent::Succeeded,
        transition(state, event, config).next == SessionState::Completed,
{
}

/// The number of running collectors changes only as the actions say: a
/// confirmed start adds one, a confirmed stop ends them all.
pub proof fn lemma_collectors_change_by_actions(
    state: SessionState,
    event: SessionEvent,
    config: CaptureConfig,
)
    requires
        state_valid(state),
    ensures
        ({
            let before = collectors_running(state);
            let after = collectors_running(transition(state, event, config).next);
            ||| after == before
            ||| (state is StartingCollectors && event == SessionEvent::Succeeded && after == before
                + 1)
            ||| (state is StoppingCollectors && event == SessionEvent::Succeeded && after == 0)
        }),
{
}

/// A run is in the stopping state only right after the machine has asked
/// for the collectors to stop.
pub proof fn lemma_stopping_follows_stop_request(events: Seq<SessionEvent>, config: CaptureConfig)
    requires
        state_after(events, config) is StoppingCollectors,
    ensures
        events.len() > 0,
        action_after(events, config) is StopCollectors,
{
}

/// In every run, the action before a request for analysis is the request
/// to stop the collectors, and the event between them confirms the stop.
pub proof fn lemma_stop_precedes_analysis(events: Seq<SessionEvent>, config: CaptureConfig)
    requires
        events.len() > 0,
        action_after(events, config) == SessionAction::Analyze,
    ensures
        events.len() >= 2,
        action_after(events.drop_last(), config) is StopCollectors,
        events.last() == SessionEvent::Succeeded,
{
    lemma_analysis_needs_confirmed_stop(
        state_after(events.drop_last(), config),
        events.last(),
        config,
    );
    lemma_stopping_follows_stop_request(events.drop_last(), config);
}

} // verus!
