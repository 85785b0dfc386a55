use pageinfo_rs::session::{
    collector_category, step, CaptureConfig, EventCategory, SessionAction, SessionEvent,
    SessionState, Transition, COLLECTORS, DEFAULT_SETTLE_MS,
};

fn run(events: &[SessionEvent], config: &CaptureConfig) -> (SessionState, Vec<SessionAction>) {
    let mut state = SessionState::Idle;
    let mut actions = Vec::new();
    for event in events {
        let taken = step(state, *event, config);
        state = taken.next;
        actions.push(taken.action);
    }
    (state, actions)
}

#[test]
fn default_settle_time_is_one_second() {
    assert_eq!(DEFAULT_SETTLE_MS, 1000);
    assert_eq!(CaptureConfig::default().settle_ms, 1000);
    assert_eq!(COLLECTORS, 4);
}

#[test]
fn collectors_start_in_a_fixed_order() {
    assert_eq!(collector_category(0), EventCategory::Request);
    assert_eq!(collector_category(1), EventCategory::Response);
    assert_eq!(collector_category(2), EventCategory::Finished);
    assert_eq!(collector_category(3), EventCategory::Failed);
}

#[test]
fn successful_capture_takes_the_steps_in_order() {
    let config = CaptureConfig { settle_ms: 250 };
    let mut events = vec![SessionEvent::Start];
    for _ in 0..13 {
        events.push(SessionEvent::Succeeded);
    }
    let (state, actions) = run(&events, &config);
    assert_eq!(state, SessionState::Completed);
    assert_eq!(
        actions,
        vec![
            SessionAction::OpenPage,
            SessionAction::EnableNetwork,
            SessionAction::StartCollector(EventCategory::Request),
            SessionAction::StartCollector(EventCategory::Response),
            SessionAction::StartCollector(EventCategory::Finished),
            SessionAction::StartCollector(EventCategory::Failed),
            SessionAction::Navigate,
            SessionAction::AwaitNavigation,
            SessionAction::Settle(250),
            SessionAction::ReadContent,
            SessionAction::StopCollectors(4),
            SessionAction::Analyze,
            SessionAction::ReturnReport,
            SessionAction::Nothing,
        ]
    );
}

#[test]
fn failure_before_any_collector_returns_the_error_at_once() {
    let config = CaptureConfig::default();
    let (state, actions) = run(&[SessionEvent::Start, SessionEvent::Failed], &config);
    assert_eq!(state, SessionState::Failed);
    assert_eq!(actions, vec![SessionAction::OpenPage, SessionAction::ReturnError]);
    let (state, actions) =
        run(&[SessionEvent::Start, SessionEvent::Succeeded, SessionEvent::Failed], &config);
    assert_eq!(state, SessionState::Failed);
    assert_eq!(actions[2], SessionAction::ReturnError);
    let (state, actions) = run(
        &[
            SessionEvent::Start,
            SessionEvent::Succeeded,
            SessionEvent::Succeeded,
            SessionEvent::Failed,
        ],
        &config,
    );
    assert_eq!(state, SessionState::Failed);
    assert_eq!(actions[3], SessionAction::ReturnError);
}

#[test]
fn failed_subscription_stops_the_collectors_that_run() {
    let config = CaptureConfig::default();
    let (state, actions) = run(
        &[
            SessionEvent::Start,
            SessionEvent::Succeeded,
            SessionEvent::Succeeded,
            SessionEvent::Succeeded,
            SessionEvent::Succeeded,
            SessionEvent::Failed,
        ],
        &config,
    );
    assert_eq!(state, SessionState::StoppingCollectors { running: 2, failed: true });
    assert_eq!(actions[5], SessionAction::StopCollectors(2));
    let taken = step(state, SessionEvent::Succeeded, &config);
    assert_eq!(
        taken,
        Transition { next: SessionState::Failed, action: SessionAction::ReturnError }
    );
}

#[test]
fn failed_navigation_stops_all_collectors_before_the_error() {
    let config = CaptureConfig::default();
    for state in [
        SessionState::Navigating,
        SessionState::AwaitingNavigation,
        SessionState::Settling,
        SessionState::ReadingContent,
    ] {
        let taken = step(state, SessionEvent::Failed, &config);
        assert_eq!(taken.next, SessionState::StoppingCollectors { running: 4, failed: true });
        assert_eq!(taken.action, SessionAction::StopCollectors(4));
        let after = step(taken.next, SessionEvent::Succeeded, &config);
        assert_eq!(after.next, SessionState::Failed);
        assert_eq!(after.action, SessionAction::ReturnError);
    }
}

#[test]
fn analysis_waits_for_the_confirmed_stop() {
    let config = CaptureConfig::default();
    let stopping = SessionState::StoppingCollectors { running: 4, failed: false };
    for event in [SessionEvent::Failed, SessionEvent::Start] {
        let taken = step(stopping, event, &config);
        assert_eq!(taken.next, stopping);
        assert_eq!(taken.action, SessionAction::StopCollectors(4));
    }
    let taken = step(stopping, SessionEvent::Succeeded, &config);
    assert_eq!(taken.next, SessionState::Analyzing);
    assert_eq!(taken.action, SessionAction::Analyze);
}

#[test]
fn settle_time_comes_from_the_configuration() {
    let taken =
        step(SessionState::AwaitingNavigation, SessionEvent::Succeeded, &CaptureConfig::default());
    assert_eq!(taken.action, SessionAction::Settle(1000));
    let taken = step(
        SessionState::AwaitingNavigation,
        SessionEvent::Succeeded,
        &CaptureConfig { settle_ms: 0 },
    );
    assert_eq!(taken.action, SessionAction::Settle(0));
    assert_eq!(taken.next, SessionState::Settling);
}

#[test]
fn events_that_do_not_concern_a_state_change_nothing() {
    let config = CaptureConfig::default();
    for state in [SessionState::Idle, SessionState::Completed, SessionState::Failed] {
        for event in [SessionEvent::Succeeded, SessionEvent::Failed] {
            let taken = step(state, event, &config);
            assert_eq!(taken.next, state);
            assert_eq!(taken.action, SessionAction::Nothing);
        }
    }
    let taken = step(SessionState::Navigating, SessionEvent::Start, &config);
    assert_eq!(taken.next, SessionState::Navigating);
    assert_eq!(taken.action, SessionAction::Nothing);
}
