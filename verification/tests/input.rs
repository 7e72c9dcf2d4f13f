//! One control message from its arrival to its answer.

use iphone_use::auth::AgentAuth;
use iphone_use::device::DevicectlError;
use iphone_use::dispatch::{
    agent_input, InputConfig, InputRequest, InputRun, InputStart, RunEvent, RunStep,
};
use iphone_use::element::ElementRow;
use iphone_use::input::{
    agent_id, alert_probe_allowed, settle_budget, uninstall_request, uninstall_response,
    yields_to_human, ObservedTree, Uninstall,
};
use iphone_use::observe::{Alert, SnapshotCache};
use iphone_use::outcome::{Candidates, WdaControlOutcome};
use iphone_use::reply::Reply;
use iphone_use::settle::{SettleReason, SettleReport};
use iphone_use::state::AppState;

fn value(text: &str) -> serde_json::Value {
    serde_json::from_str(text).unwrap()
}

const TAP: &str = r#"{"type":"tap","x":0.5,"y":0.5}"#;

fn request(body: &str) -> InputRequest<'_> {
    InputRequest {
        body,
        auth: AgentAuth::Granted,
        control: Some("1"),
        owner: None,
        takeover: None,
        return_mode: None,
        since: None,
        settle_ms: None,
        yield_header: None,
        agent_header: None,
    }
}

fn config() -> InputConfig<'static> {
    InputConfig {
        direct: true,
        pending: false,
        managed: true,
        has_runner: true,
        udid: Some("00008110-001234567890001E"),
        lease: 300_000,
    }
}

fn begin(state: &mut AppState, request: &InputRequest, config: &InputConfig) -> (InputRun, RunStep) {
    match agent_input(state, request, config, 1_000) {
        InputStart::Begin(run, step) => (run, step),
        other => panic!("must begin: {other:?}"),
    }
}

fn refused(state: &mut AppState, request: &InputRequest, config: &InputConfig) -> Reply {
    match agent_input(state, request, config, 1_000) {
        InputStart::Answer(reply) => reply,
        other => panic!("must be answered: {other:?}"),
    }
}

fn answer(step: RunStep) -> Reply {
    match step {
        RunStep::Answer(reply) => reply,
        other => panic!("must be an answer: {other:?}"),
    }
}

fn acted(outcome: WdaControlOutcome) -> RunEvent {
    RunEvent::Acted {
        outcome,
        candidates: None,
        now: 2_000,
    }
}

fn acting(state: &mut AppState, request: &InputRequest) -> InputRun {
    let (run, step) = begin(state, request, &config());
    assert!(matches!(step, RunStep::Lock));
    let (run, step) = run.advance(state, &SnapshotCache::new(), RunEvent::Locked { now: 1_500 });
    assert!(matches!(step, RunStep::Dispatch));
    run
}

#[test]
fn an_applied_message_is_answered_at_once() {
    let mut state = AppState::new(0);
    let run = acting(&mut state, &request(TAP));
    assert_eq!(run.action().text_field("type"), Some("tap"));
    assert_eq!(run.deadline(), 16_000);
    let cache = SnapshotCache::new();
    let (run, step) = run.advance(&mut state, &cache, acted(WdaControlOutcome::Applied));
    let reply = answer(step);
    assert_eq!(reply.status, 200);
    assert_eq!(value(&reply.body)["ok"], true);
    assert_eq!(state.last_activity, 1_000);
    let (_, step) = run.advance(&mut state, &cache, acted(WdaControlOutcome::Applied));
    assert!(matches!(step, RunStep::Ignored));
}

#[test]
fn every_outcome_has_its_answer() {
    let answers = [
        (WdaControlOutcome::NotSent, true),
        (WdaControlOutcome::Failed, false),
        (WdaControlOutcome::StaleElementSnapshot, true),
        (WdaControlOutcome::ElementNotFound, true),
        (WdaControlOutcome::NoAlert, true),
    ];
    for (outcome, retry_safe) in answers {
        let mut state = AppState::new(0);
        state.actionable = true;
        let run = acting(&mut state, &request(TAP));
        let (_, step) = run.advance(&mut state, &SnapshotCache::new(), acted(outcome));
        let reply = answer(step);
        assert_ne!(reply.status, 200, "{outcome:?}");
        assert_eq!(value(&reply.body)["retry_safe"], retry_safe, "{outcome:?}");
        assert_eq!(state.actionable, outcome != WdaControlOutcome::NotSent);
    }
}

#[test]
fn an_ambiguous_target_lists_its_candidates() {
    let mut state = AppState::new(0);
    let run = acting(&mut state, &request(TAP));
    let event = RunEvent::Acted {
        outcome: WdaControlOutcome::AmbiguousElement,
        candidates: Some(Candidates {
            snapshot: "tok".to_string(),
            matches: "[1]".to_string(),
        }),
        now: 2_000,
    };
    let (_, step) = run.advance(&mut state, &SnapshotCache::new(), event);
    let body = value(&answer(step).body);
    assert_eq!(body["snapshot"], "tok");
}

#[test]
fn time_running_out_tells_what_was_sent() {
    let mut state = AppState::new(0);
    let cache = SnapshotCache::new();
    let (run, _) = begin(&mut state, &request(TAP), &config());
    let (_, step) = run.advance(&mut state, &cache, RunEvent::TimedOut);
    assert_eq!(value(&answer(step).body)["retry_safe"], true);
    let run = acting(&mut state, &request(TAP));
    let (_, step) = run.advance(&mut state, &cache, RunEvent::TimedOut);
    assert_eq!(value(&answer(step).body)["retry_safe"], false);
    let (run, _) = begin(&mut state, &request(TAP), &config());
    let (_, step) = run.advance(&mut state, &cache, RunEvent::Locked { now: 16_000 });
    assert_eq!(value(&answer(step).body)["retry_safe"], true);
}

fn labelled(label: &str) -> ElementRow {
    ElementRow {
        kind: "Cell".to_string(),
        label: label.to_string(),
        ..Default::default()
    }
}

fn tree(token: &str, label: &str) -> ObservedTree {
    let text = format!(r#"{{"label":"{label}"}}"#);
    ObservedTree {
        snapshot: token.to_string(),
        rows: vec![labelled(label)],
        elements: format!("[{text}]"),
        row_texts: vec![text],
    }
}

fn report(reason: SettleReason) -> SettleReport {
    let mut report = SettleReport::new(500);
    report.settled = matches!(reason, SettleReason::Stable);
    report.reason = reason;
    report
}

#[test]
fn a_watched_action_is_answered_with_what_changed() {
    let mut state = AppState::new(0);
    let mut asked = request(TAP);
    asked.return_mode = Some("delta");
    asked.since = Some("old");
    asked.settle_ms = Some(700);
    let cache = SnapshotCache::new().remember_element_snapshot("old", vec![labelled("a")]);
    let run = acting(&mut state, &asked);
    let (run, step) = run.advance(&mut state, &cache, acted(WdaControlOutcome::Applied));
    assert!(matches!(step, RunStep::Watch { budget: 700 }), "{step:?}");
    let seen = RunEvent::Seen {
        tree: Some(tree("new", "b")),
        report: report(SettleReason::Stable),
        now: 3_000,
    };
    let (run, step) = run.advance(&mut state, &cache, seen);
    assert!(matches!(step, RunStep::ProbeAlert));
    let alert = Some(Alert {
        text: "允许?".to_string(),
        buttons: vec!["好".to_string()],
    });
    let (_, step) = run.advance(&mut state, &cache, RunEvent::Alerted(alert));
    let reply = answer(step);
    assert_eq!(reply.status, 200);
    let body = value(&reply.body);
    assert_eq!(body["ok"], true);
    assert_eq!(body["snapshot"], "new");
    assert_eq!(body["alert"]["text"], "允许?");
    assert!(reply.body.contains(r#""label":"b""#), "{}", reply.body);
}

#[test]
fn a_failed_look_leaves_an_applied_action_applied() {
    let mut state = AppState::new(0);
    let mut asked = request(TAP);
    asked.return_mode = Some("delta");
    let cache = SnapshotCache::new();
    let run = acting(&mut state, &asked);
    let (run, _) = run.advance(&mut state, &cache, acted(WdaControlOutcome::Applied));
    let mut told = report(SettleReason::ObservationFailed);
    told.error = Some("gone".to_string());
    let seen = RunEvent::Seen {
        tree: None,
        report: told,
        now: 15_999,
    };
    let (_, step) = run.advance(&mut state, &cache, seen);
    let reply = answer(step);
    assert_eq!(reply.status, 200);
    assert_eq!(value(&reply.body)["ok"], true);
    assert!(reply.body.contains("gone"));
}

#[test]
fn watching_leaves_time_to_answer() {
    assert!(settle_budget(Some(60_000), 1_000, 16_000) <= 5_000);
    assert_eq!(settle_budget(Some(0), 1_000, 16_000), 0);
    assert!(alert_probe_allowed(1_000, 16_000));
    assert!(!alert_probe_allowed(13_000, 16_000));
}

#[test]
fn a_stranger_and_a_second_session_are_turned_away() {
    let mut state = AppState::new(0);
    let mut denied = request(TAP);
    denied.auth = AgentAuth::Denied;
    assert_eq!(refused(&mut state, &denied, &config()).status, 401);
    let mut foreign = request(TAP);
    foreign.control = None;
    assert_eq!(refused(&mut state, &foreign, &config()).status, 403);
    assert!(state.owner.is_none());
    let mut first = request(TAP);
    first.owner = Some("a");
    begin(&mut state, &first, &config());
    let mut second = request(TAP);
    second.owner = Some("b");
    assert_eq!(refused(&mut state, &second, &config()).status, 409);
    assert_eq!(state.owner.unwrap().name, "a");
}

#[test]
fn a_released_phone_is_brought_back_once() {
    let mut state = AppState::new(0);
    state.released = true;
    match agent_input(&mut state, &request(TAP), &config(), 1_000) {
        InputStart::Reconnect { token, reply } => {
            assert_eq!(reply.status, 503);
            assert!(state.lifecycle.owns(token));
        }
        other => panic!("{other:?}"),
    }
    assert_eq!(refused(&mut state, &request(TAP), &config()).status, 503);
    let mut external = config();
    external.managed = false;
    let mut alone = AppState::new(0);
    alone.released = true;
    assert_ne!(refused(&mut alone, &request(TAP), &external).status, 200);
    assert!(!alone.lifecycle.is_transitioning());
}

#[test]
fn a_message_that_cannot_be_read_or_carried_is_refused() {
    let mut state = AppState::new(0);
    assert_eq!(refused(&mut state, &request("nonsense"), &config()).status, 400);
    let mut bare = config();
    bare.has_runner = false;
    assert_eq!(refused(&mut state, &request(TAP), &bare).status, 503);
    let mut pending = config();
    pending.pending = true;
    assert_eq!(refused(&mut state, &request(TAP), &pending).status, 409);
}

#[test]
fn an_app_is_uninstalled_beside_the_runner() {
    let mut state = AppState::new(0);
    let body = r#"{"type":"uninstall","bundle":"com.example.app"}"#;
    let (run, step) = begin(&mut state, &request(body), &config());
    assert!(matches!(step, RunStep::Uninstall { bundle, .. } if bundle == "com.example.app"));
    let event = RunEvent::Uninstalled(Err(DevicectlError::Timeout));
    let (_, step) = run.advance(&mut state, &SnapshotCache::new(), event);
    assert_ne!(answer(step).status, 200);
    assert_eq!(uninstall_response(&Ok(())).status, 200);
    assert!(matches!(uninstall_request(TAP, None), Uninstall::Other));
    let bad = r#"{"type":"uninstall","bundle":"no good"}"#;
    assert!(matches!(uninstall_request(bad, None), Uninstall::Refused(_)));
}

#[test]
fn a_mirrored_message_yields_to_a_person_where_asked() {
    let mut mirror = config();
    mirror.direct = false;
    let cache = SnapshotCache::new();
    let mut state = AppState::new(0);
    let (run, step) = begin(&mut state, &request(TAP), &mirror);
    assert!(matches!(step, RunStep::Decode));
    let (run, step) = run.advance(&mut state, &cache, RunEvent::Decoded(true));
    assert!(matches!(step, RunStep::BringToFront { .. }));
    let (_, step) = run.advance(&mut state, &cache, RunEvent::Fronted(true));
    assert!(matches!(step, RunStep::Send(reply) if reply.status == 200));

    let mut polite = request(TAP);
    polite.yield_header = Some("1");
    polite.agent_header = Some("me");
    let (run, _) = begin(&mut state, &polite, &mirror);
    let (run, step) = run.advance(&mut state, &cache, RunEvent::Decoded(true));
    assert!(matches!(step, RunStep::Look));
    let (_, step) = run.advance(&mut state, &cache, RunEvent::InFront(false));
    assert_ne!(answer(step).status, 200);
    let (run, _) = begin(&mut state, &polite, &mirror);
    let (_, step) = run.advance(&mut state, &cache, RunEvent::Decoded(false));
    assert_eq!(answer(step).status, 400);
    assert!(yields_to_human(Some("1")));
    assert!(!yields_to_human(None));
    assert_eq!(agent_id(Some("me")), "me");
}
