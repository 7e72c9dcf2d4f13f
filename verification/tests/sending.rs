//! A request that waits for the runner, is sent once, and is answered.

use iphone_use::intent::IntentDispatch;
use iphone_use::outcome::WdaControlOutcome;
use iphone_use::sending::{
    direct_control, ControlConfig, ControlRequest, DirectEvent, DirectRun, DirectStep, IntentEvent,
    IntentRun, IntentStep, SendMove, SendSignal, SendStage,
};
use iphone_use::state::AppState;

const TAP: &str = r#"{"type":"tap","x":0.5,"y":0.5,"ttl_ms":500}"#;

const CONFIG: ControlConfig = ControlConfig {
    direct: true,
    pending: false,
    has_runner: true,
    lease: 300_000,
};

fn request(body: &str) -> ControlRequest<'_> {
    ControlRequest {
        body,
        authed: true,
        control: Some("1"),
        owner: None,
        takeover: None,
    }
}

fn value(text: &str) -> serde_json::Value {
    serde_json::from_str(text).unwrap()
}

fn begun(state: &mut AppState) -> DirectRun {
    direct_control(state, &request(TAP), &CONFIG, 1_000).unwrap()
}

fn acted(outcome: WdaControlOutcome) -> DirectEvent {
    DirectEvent::Acted {
        outcome,
        candidates: None,
        now: 1_300,
    }
}

#[test]
fn a_gesture_is_looked_at_before_the_phone() {
    let refused = |request: ControlRequest| {
        let mut state = AppState::new(0);
        let reply = direct_control(&mut state, &request, &CONFIG, 0).unwrap_err();
        assert!(state.owner.is_none());
        reply
    };
    let mut stranger = request(TAP);
    stranger.authed = false;
    stranger.owner = Some("a");
    let reply = refused(stranger);
    assert_eq!(reply.status, 401);
    assert_eq!(reply.body, r#"{"ok":false,"error":"unauthorized"}"#);
    let mut foreign = request(TAP);
    foreign.control = None;
    foreign.owner = Some("a");
    assert_eq!(refused(foreign).status, 403);
    assert_eq!(refused(request("{")).status, 400);

    let mut state = AppState::new(0);
    let mut named = request(TAP);
    named.owner = Some("a");
    assert!(direct_control(&mut state, &named, &CONFIG, 0).is_ok());
    let other = direct_control(&mut state, &request(TAP), &CONFIG, 10).unwrap_err();
    assert_eq!(other.status, 409);
}

#[test]
fn a_gesture_is_sent_once_and_answered_by_its_outcome() {
    let mut state = AppState::new(0);
    let run = begun(&mut state);
    assert_eq!(run.deadline(), 1_500);
    assert_eq!(run.action().text_field("type"), Some("tap"));
    let (run, step) = run.advance(&mut state, DirectEvent::Locked { now: 1_100 });
    assert!(matches!(step, DirectStep::Dispatch));
    let (run, step) = run.advance(&mut state, DirectEvent::Locked { now: 1_150 });
    assert!(matches!(step, DirectStep::Ignored), "it is not sent again");
    let (run, step) = run.advance(&mut state, acted(WdaControlOutcome::Applied));
    assert!(matches!(step, DirectStep::Answer(reply) if reply.status == 200));
    assert_eq!(state.last_activity, 1_300);
    assert!(state.health.up && state.health.actionable);
    let (_, step) = run.advance(&mut state, DirectEvent::TimedOut);
    assert!(matches!(step, DirectStep::Ignored), "it is answered once");
}

#[test]
fn a_gesture_whose_time_is_up_tells_whether_it_was_sent() {
    let mut state = AppState::new(0);
    let (_, step) = begun(&mut state).advance(&mut state, DirectEvent::TimedOut);
    match step {
        DirectStep::Answer(reply) => {
            assert_eq!(reply.status, 408);
            assert_eq!(value(&reply.body)["retry_safe"], true);
        }
        other => panic!("{other:?}"),
    }
    let (run, _) = begun(&mut state).advance(&mut state, DirectEvent::Locked { now: 1_100 });
    let (_, step) = run.advance(&mut state, DirectEvent::TimedOut);
    match step {
        DirectStep::Answer(reply) => {
            assert_eq!(reply.status, 504);
            assert_eq!(value(&reply.body)["retry_safe"], false);
        }
        other => panic!("{other:?}"),
    }
}

#[test]
fn a_gesture_is_not_sent_to_a_phone_that_was_given_up() {
    let refused = |prepare: fn(&mut AppState), now: u64| {
        let mut state = AppState::new(0);
        let run = begun(&mut state);
        prepare(&mut state);
        let (_, step) = run.advance(&mut state, DirectEvent::Locked { now });
        matches!(step, DirectStep::Answer(reply) if reply.status == 408)
    };
    assert!(!refused(|_| (), 1_499));
    assert!(refused(|_| (), 1_500), "too late");
    assert!(refused(|state| state.released = true, 1_100));
    assert!(refused(
        |state| assert!(state.lifecycle.try_begin_releasing().is_some()),
        1_100
    ));
}

#[test]
fn the_outcome_of_a_gesture_shows_how_the_runner_is() {
    let after = |outcome: WdaControlOutcome| {
        let mut state = AppState::new(0);
        state.health.actionable = true;
        state.actionable = true;
        let run = begun(&mut state);
        let (run, _) = run.advance(&mut state, DirectEvent::Locked { now: 1_100 });
        let _ = run.advance(&mut state, acted(outcome));
        state
    };
    let failed = after(WdaControlOutcome::Failed);
    assert!(failed.health.up && !failed.health.actionable && failed.actionable);
    assert_eq!(failed.last_activity, 0);
    let unsent = after(WdaControlOutcome::NotSent);
    assert!(!unsent.health.up && !unsent.health.actionable && !unsent.actionable);
    let missing = after(WdaControlOutcome::ElementNotFound);
    assert!(missing.health.actionable && missing.actionable);
}

fn intent() -> IntentRun {
    let dispatch = IntentDispatch {
        name: "battery".to_string(),
        args: "{}".to_string(),
        bridge: "iU Bridge".to_string(),
        side_effect: "none".to_string(),
    };
    IntentRun::new(dispatch, "intent-9".to_string(), 15_000)
}

#[test]
fn a_link_is_opened_once_and_answered_by_its_end() {
    let state = AppState::new(0);
    assert_eq!(intent().deadline(), 15_000);
    let (run, step) = intent().advance(&state, IntentEvent::Locked { now: 100 });
    match step {
        IntentStep::Open { link } => {
            assert!(link.starts_with("shortcuts://run-shortcut?name=iU%20Bridge&input=text&text="))
        }
        other => panic!("{other:?}"),
    }
    let (run, step) = run.advance(&state, IntentEvent::Locked { now: 200 });
    assert!(matches!(step, IntentStep::Ignored), "it is not opened again");
    let (run, step) = run.advance(&state, IntentEvent::Opened(Ok(())));
    match step {
        IntentStep::Answer(reply) => assert_eq!(value(&reply.body)["id"], "intent-9"),
        other => panic!("{other:?}"),
    }
    let (_, step) = run.advance(&state, IntentEvent::TimedOut);
    assert!(matches!(step, IntentStep::Ignored));

    let (run, _) = intent().advance(&state, IntentEvent::Locked { now: 100 });
    let (_, step) = run.advance(&state, IntentEvent::Opened(Err("no".to_string())));
    assert!(matches!(step, IntentStep::Answer(reply) if reply.status == 502));
}

#[test]
fn a_link_whose_time_is_up_tells_whether_it_was_opened() {
    let mut state = AppState::new(0);
    let status = |step: IntentStep| match step {
        IntentStep::Answer(reply) => reply.status,
        other => panic!("{other:?}"),
    };
    assert_eq!(status(intent().advance(&state, IntentEvent::TimedOut).1), 408);
    let (run, _) = intent().advance(&state, IntentEvent::Locked { now: 100 });
    assert_eq!(status(run.advance(&state, IntentEvent::TimedOut).1), 504);
    assert_eq!(status(intent().advance(&state, IntentEvent::Locked { now: 15_000 }).1), 408);
    state.released = true;
    assert_eq!(status(intent().advance(&state, IntentEvent::Locked { now: 100 }).1), 408);
}

#[test]
fn a_signal_that_does_not_fit_changes_nothing() {
    assert_eq!(
        SendStage::Waiting.advance(SendSignal::Done),
        (SendStage::Waiting, SendMove::Ignored)
    );
    assert_eq!(
        SendStage::Sent.advance(SendSignal::TooLate),
        (SendStage::Sent, SendMove::Ignored)
    );
    assert_eq!(
        SendStage::Over.advance(SendSignal::Ready),
        (SendStage::Over, SendMove::Ignored)
    );
}
