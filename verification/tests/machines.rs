//! Watching the screen, running a batch, acting on a row, streaming, and letting
//! an idle phone go.

use iphone_use::batch::{AgentActionStep, AgentUiExpectation};
use iphone_use::element::ElementRow;
use iphone_use::errand::{
    scroll_container_candidates, snapshot_element_outcome, wda_error_is_missing_element,
    ElementEnd, Errand, ErrandCommand, ErrandEvent, Job, Sent, SnapshotElementTapError,
};
use iphone_use::json::Json;
use iphone_use::media::{
    agent_mjpeg, agent_screenshot, direct_screenshot_end, is_mjpeg_content_type, is_valid_png,
    mirror_screenshot_end, mjpeg_stream_step, refuse_upstream, ChunkEvent, ChunkStep,
    ScreenshotPlan, Shot, Upstream,
};
use iphone_use::mode::{
    agent_mode, bootstrap_noted, handover_noted, handover_response, started_response, ModeConfig,
    ModeStep,
};
use iphone_use::outcome::WdaControlOutcome;
use iphone_use::reply::Reply;
use iphone_use::run::{gate_event, note_batch, wait_until, Batch, BatchCommand, BatchEvent};
use iphone_use::settle::{
    Settle, SettleEvent, SettleRead, SettleReason, SettleReport, SettleStep,
};
use iphone_use::state::{human_handoff_active, AppState};
use iphone_use::stream::{valid_mjpeg_stream_id, StreamActivity, StreamGuard};
use iphone_use::tree_read::{
    agent_wait_elements_error, read_elements_once_error, TreeAttempt, TreeRead, TreeReadStep,
};
use iphone_use::watchdog::{
    release_retry_backoff, spawn_idle_release_watchdog, WatchCommand, WatchEvent,
    COLD_START_AFTER_MS,
};

fn json(text: &str) -> Json {
    Json::read(text).unwrap()
}

fn value(text: &str) -> serde_json::Value {
    serde_json::from_str(text).unwrap()
}

fn row(kind: &str, label: &str) -> ElementRow {
    ElementRow {
        kind: kind.to_string(),
        label: label.to_string(),
        ..Default::default()
    }
}

fn full_tree() -> Vec<ElementRow> {
    vec![
        row("Application", "设置"),
        row("Cell", "a"),
        row("Cell", "b"),
        row("Cell", "c"),
        row("Cell", "d"),
    ]
}

// Idle release -----------------------------------------------------------------

#[test]
fn release_retry_backoff_grows_and_caps_without_ever_giving_up() {
    let mut failures = 0;
    let first = release_retry_backoff(&mut failures);
    assert_eq!(first, 30);

    let mut previous = first;
    for _ in 0..4 {
        let next = release_retry_backoff(&mut failures);
        assert!(
            next > previous,
            "backoff must grow: {next} after {previous}"
        );
        previous = next;
    }
    // Capped, and still finite forever after — a supervisor we cannot stop is
    // retried every 15 minutes, not abandoned.
    for _ in 0..50 {
        let capped = release_retry_backoff(&mut failures);
        assert_eq!(capped, 900);
    }
}

// The up edge grants a fresh activity window so a runner a human just started
// is not released under them; a crash bounce must not, or a crash loop pins the
// phone forever.
#[test]
fn cold_start_grace_is_long_enough_to_exclude_a_crash_bounce() {
    assert_eq!(COLD_START_AFTER_MS, 600_000);
    // Crash-loop bounces are well under a minute apart.
    assert!(COLD_START_AFTER_MS > 120_000);
}

fn probed(up: Option<bool>, now: u64) -> WatchEvent {
    WatchEvent::Probed {
        up,
        viewers: 0,
        setup_active: false,
        now,
    }
}

#[test]
fn an_idle_phone_is_stopped_and_let_go() {
    let mut state = AppState::new(0);
    let watchdog = spawn_idle_release_watchdog(true, true, true, Some(" 60 ")).unwrap();
    // First seen up: a cold start is a fresh window.
    let (watchdog, command) = watchdog.advance(&mut state, WatchEvent::Woke);
    assert!(matches!(command, WatchCommand::Probe));
    let (watchdog, _) = watchdog.advance(&mut state, probed(Some(true), 1_000));
    assert_eq!(state.last_activity, 1_000);
    // Idle for a minute: stopped.
    let (watchdog, _) = watchdog.advance(&mut state, WatchEvent::Woke);
    let (watchdog, command) = watchdog.advance(&mut state, probed(Some(true), 61_000));
    assert!(matches!(command, WatchCommand::Stop { ask: _ }));
    assert!(state.lifecycle.is_releasing());
    let stopped = WatchEvent::Stopped {
        stopped: true,
        endpoint_down: true,
        now: 62_000,
    };
    let (watchdog, _) = watchdog.advance(&mut state, stopped);
    assert!(state.released);
    assert!(!state.lifecycle.is_transitioning());
    // A released phone is not probed.
    let (_, command) = watchdog.advance(&mut state, WatchEvent::Woke);
    assert!(matches!(command, WatchCommand::Sleep { .. }));
}

#[test]
fn a_failed_stop_is_tried_again_after_a_pause() {
    let mut state = AppState::new(0);
    let watchdog = spawn_idle_release_watchdog(true, true, true, Some("60")).unwrap();
    let (watchdog, _) = watchdog.advance(&mut state, WatchEvent::Woke);
    let (watchdog, command) = watchdog.advance(&mut state, probed(Some(false), 70_000));
    assert!(matches!(command, WatchCommand::Stop { .. }));
    let failed = WatchEvent::Stopped {
        stopped: false,
        endpoint_down: false,
        now: 70_000,
    };
    let (watchdog, _) = watchdog.advance(&mut state, failed);
    assert!(!state.released);
    assert!(!state.lifecycle.is_transitioning());
    let (watchdog, _) = watchdog.advance(&mut state, WatchEvent::Woke);
    let (watchdog, command) = watchdog.advance(&mut state, probed(Some(false), 99_000));
    assert!(matches!(command, WatchCommand::Sleep { .. }), "backing off");
    let (watchdog, _) = watchdog.advance(&mut state, WatchEvent::Woke);
    let (_, command) = watchdog.advance(&mut state, probed(Some(false), 100_001));
    assert!(matches!(command, WatchCommand::Stop { .. }), "tried again");
}

#[test]
fn a_phone_in_use_is_not_stopped() {
    let run = |prepare: fn(&mut AppState), viewers: usize, setup_active: bool| {
        let mut state = AppState::new(0);
        prepare(&mut state);
        let watchdog = spawn_idle_release_watchdog(true, true, true, Some("60")).unwrap();
        let (watchdog, command) = watchdog.advance(&mut state, WatchEvent::Woke);
        if !matches!(command, WatchCommand::Probe) {
            return false;
        }
        let seen = WatchEvent::Probed {
            up: Some(false),
            viewers,
            setup_active,
            now: 70_000,
        };
        let (_, command) = watchdog.advance(&mut state, seen);
        matches!(command, WatchCommand::Stop { .. })
    };
    assert!(run(|_| (), 0, false));
    assert!(!run(|_| (), 1, false), "watched");
    assert!(!run(|_| (), 0, true), "being set up");
    assert!(!run(|state| state.hold_until = Some(80_000), 0, false), "held");
    assert!(!run(|state| state.hold_until = Some(70_001), 0, false), "held to the last moment");
    assert!(run(|state| state.hold_until = Some(70_000), 0, false), "no longer held");
    assert!(!run(|state| state.last_activity = 69_000, 0, false), "active");
    assert!(!run(|state| state.control_pending = 1, 0, false), "driven");
    assert!(!run(|state| state.live_streams = 1, 0, false), "streamed");
}

#[test]
fn nothing_is_watched_without_a_window() {
    assert!(spawn_idle_release_watchdog(true, true, true, None).is_none());
    assert!(spawn_idle_release_watchdog(true, true, true, Some("0")).is_none());
    assert!(spawn_idle_release_watchdog(true, true, true, Some("soon")).is_none());
    assert!(spawn_idle_release_watchdog(false, true, true, Some("60")).is_none());
    assert!(spawn_idle_release_watchdog(true, false, true, Some("60")).is_none());
    assert!(spawn_idle_release_watchdog(true, true, false, Some("60")).is_none());
}

// Modes ------------------------------------------------------------------------

const MANAGED: ModeConfig<'static> = ModeConfig {
    direct: true,
    managed: true,
    pending: false,
    udid: Some("00008110-001234567890001E"),
    setup_installed: true,
};

#[test]
fn the_phone_is_handed_over_and_taken_back() {
    let mut state = AppState::new(0);
    let token = match agent_mode(&mut state, &MANAGED, r#"{"mode":"human"}"#, 1) {
        ModeStep::HandOver { token } => token,
        other => panic!("{other:?}"),
    };
    assert!(state.lifecycle.is_releasing());
    handover_noted(&mut state, token, true);
    assert!(state.released);
    assert!(human_handoff_active(&state.handoff));
    assert_eq!(handover_response(true, false).status, 200);
    assert_eq!(handover_response(false, false).status, 502);

    let token = match agent_mode(&mut state, &MANAGED, r#"{"mode":"agent"}"#, 2) {
        ModeStep::Bootstrap { token, udid } => {
            assert_eq!(udid, "00008110-001234567890001E");
            token
        }
        other => panic!("{other:?}"),
    };
    assert!(!human_handoff_active(&state.handoff));
    bootstrap_noted(&mut state, token, true);
    assert!(state.lifecycle.is_reconnecting());
    assert_eq!(started_response(true, "/l.log").status, 200);
    assert_eq!(value(&started_response(false, "/l.log").body)["ok"], false);
}

#[test]
fn a_mode_that_cannot_be_had_is_refused() {
    let refuse = |config: &ModeConfig, body: &str| {
        let mut state = AppState::new(0);
        match agent_mode(&mut state, config, body, 1) {
            ModeStep::Refused(reply) => reply.status,
            _ => 200,
        }
    };
    assert_eq!(refuse(&MANAGED, r#"{"mode":"mirror"}"#), 409);
    assert_eq!(refuse(&MANAGED, r#"{"mode":"dance"}"#), 400);
    assert_eq!(refuse(&MANAGED, r#"{"mode":"agent","udid":"not hex"}"#), 400);
    assert_eq!(refuse(&MANAGED, r#"{"mode":"agent","udid":"00FF"}"#), 409);
    let mut uninstalled = MANAGED;
    uninstalled.setup_installed = false;
    assert_eq!(refuse(&uninstalled, r#"{"mode":"agent"}"#), 409);
    let mut mirror = MANAGED;
    mirror.direct = false;
    assert_eq!(refuse(&mirror, r#"{"mode":"agent"}"#), 409);
    assert_eq!(refuse(&mirror, r#"{"mode":"mirror"}"#), 200);
    let mut busy = AppState::new(0);
    let _token = busy.lifecycle.try_begin_reconnecting().unwrap();
    assert!(matches!(
        agent_mode(&mut busy, &MANAGED, r#"{"mode":"agent"}"#, 1),
        ModeStep::Refused(reply) if reply.status == 503
    ));
}

// Watching the screen ------------------------------------------------------------

fn read(token: &str, rows: Vec<ElementRow>) -> SettleRead {
    SettleRead::Read {
        token: token.to_string(),
        rows,
    }
}

#[test]
fn two_equal_reads_of_a_full_tree_settle() {
    let (run, step) = Settle::start(1_000, 1_500);
    assert!(matches!(step, SettleStep::Sleep { ms: 150 }));
    let (run, step) = run.settle_and_read_elements(SettleEvent::Slept { now: 1_150 });
    assert!(matches!(step, SettleStep::Read));
    let first = SettleEvent::Tree {
        read: read("a", full_tree()),
        now: 1_200,
    };
    let (run, step) = run.settle_and_read_elements(first);
    assert!(matches!(step, SettleStep::TakeTime));
    let (run, step) = run.settle_and_read_elements(SettleEvent::Time { now: 1_200 });
    assert!(matches!(step, SettleStep::Sleep { ms: 250 }));
    let (run, step) = run.settle_and_read_elements(SettleEvent::Slept { now: 1_450 });
    assert!(matches!(step, SettleStep::Read));
    let second = SettleEvent::Tree {
        read: read("a", full_tree()),
        now: 1_500,
    };
    let (run, step) = run.settle_and_read_elements(second);
    assert!(matches!(step, SettleStep::Finish));
    let (held, report) = run.into_parts();
    assert_eq!(held.unwrap().0, "a");
    assert!(report.settled);
    assert_eq!(report.reason.as_str(), "stable");
    assert_eq!(report.captures, 2);
    assert_eq!(report.waited_ms, 500);
}

#[test]
fn a_sparse_tree_never_counts_as_settled() {
    let bare = || vec![row("Application", "x")];
    let (run, _) = Settle::start(0, 1_000);
    let (run, _) = run.settle_and_read_elements(SettleEvent::Slept { now: 150 });
    let first = SettleEvent::Tree {
        read: read("a", bare()),
        now: 160,
    };
    let (run, _) = run.settle_and_read_elements(first);
    let (run, _) = run.settle_and_read_elements(SettleEvent::Time { now: 160 });
    let (run, _) = run.settle_and_read_elements(SettleEvent::Slept { now: 410 });
    let second = SettleEvent::Tree {
        read: read("a", bare()),
        now: 420,
    };
    let (run, step) = run.settle_and_read_elements(second);
    assert!(matches!(step, SettleStep::TakeTime));
    let (run, step) = run.settle_and_read_elements(SettleEvent::Time { now: 1_000 });
    assert!(matches!(step, SettleStep::Finish));
    let (held, report) = run.into_parts();
    assert!(held.is_some());
    assert!(!report.settled);
    assert!(report.sparse);
    assert_eq!(report.reason, SettleReason::BudgetExhausted);
}

#[test]
fn a_failed_look_keeps_the_last_tree_and_says_so() {
    let (run, _) = Settle::start(0, 1_000);
    let (run, _) = run.settle_and_read_elements(SettleEvent::Slept { now: 150 });
    let first = SettleEvent::Tree {
        read: read("a", full_tree()),
        now: 160,
    };
    let (run, _) = run.settle_and_read_elements(first);
    let (run, _) = run.settle_and_read_elements(SettleEvent::Time { now: 160 });
    let (run, _) = run.settle_and_read_elements(SettleEvent::Slept { now: 410 });
    let second = SettleEvent::Tree {
        read: SettleRead::Failed {
            error: "gone".to_string(),
        },
        now: 420,
    };
    let (run, step) = run.settle_and_read_elements(second);
    assert!(matches!(step, SettleStep::Finish));
    let (held, report) = run.into_parts();
    assert_eq!(held.unwrap().0, "a");
    assert!(report.stale);
    assert!(!report.settled);
    let told = value(&report.to_json());
    assert_eq!(told["reason"], "observation_failed");
    assert_eq!(told["stale"], true);
}

#[test]
fn no_budget_means_no_look() {
    let (run, step) = Settle::start(5, 0);
    assert!(matches!(step, SettleStep::Finish));
    let (held, report) = run.into_parts();
    assert!(held.is_none());
    assert_eq!(report.captures, 0);
    let fresh = SettleReport::new(7);
    assert_eq!(fresh.budget_ms, 7);
}

#[test]
fn a_tree_is_read_at_most_twice() {
    let step = TreeRead::new().advance(TreeAttempt::Failed("one".to_string()));
    let again = match step {
        TreeReadStep::Again(read) => read,
        other => panic!("{other:?}"),
    };
    match again.advance(TreeAttempt::Failed("two".to_string())) {
        TreeReadStep::Failed { first, second } => {
            assert_eq!(
                agent_wait_elements_error(&first, &second),
                "source retry failed: two; first attempt: one"
            );
            assert_eq!(read_elements_once_error(&first, &second), "first error: one: two");
        }
        other => panic!("{other:?}"),
    }
    assert!(matches!(TreeRead::new().advance(TreeAttempt::TimedOut), TreeReadStep::TimedOut));
    assert!(matches!(TreeRead::new().advance(TreeAttempt::Read), TreeReadStep::Done));
}

// A batch ------------------------------------------------------------------------

fn tap() -> AgentActionStep {
    AgentActionStep::Action {
        action: json(r#"{"type":"tap","x":0.5,"y":0.5}"#),
        after_ms: 0,
    }
}

fn open() -> BatchEvent {
    BatchEvent::Gate {
        drivable: true,
        in_time: true,
    }
}

#[test]
fn a_batch_runs_its_steps_in_order() {
    let wait = AgentActionStep::WaitFor {
        expect: AgentUiExpectation {
            application: Some("设置".to_string()),
            present: vec![],
            absent: vec![],
        },
        timeout_ms: 1_000,
        poll_ms: 100,
    };
    let batch = Batch::new(vec![tap(), AgentActionStep::Pause { ms: 5 }, wait]).unwrap();
    let (batch, command) = batch.advance(open());
    assert!(matches!(command, BatchCommand::Act { step: 0 }));
    assert_eq!(batch.action(0).unwrap().text_field("type"), Some("tap"));
    let (batch, command) = batch.advance(BatchEvent::Acted(Some(WdaControlOutcome::Applied)));
    let (batch, command) = match command {
        BatchCommand::Sleep { .. } => batch.advance(BatchEvent::Slept(true)),
        command => (batch, command),
    };
    assert!(matches!(command, BatchCommand::CheckGate), "{command:?}");
    let (batch, command) = batch.advance(open());
    assert!(matches!(command, BatchCommand::Sleep { ms: 5 }));
    let (batch, _) = batch.advance(BatchEvent::Slept(true));
    let (batch, command) = batch.advance(open());
    assert!(matches!(command, BatchCommand::StartWait { timeout_ms: 1_000 }));
    let wrong = BatchEvent::Tree {
        rows: vec![row("Application", "微信")],
        in_time: true,
    };
    let (batch, command) = batch.advance(wrong);
    assert!(matches!(command, BatchCommand::Poll { ms: 100 }));
    let (batch, command) = batch.advance(BatchEvent::Polled);
    assert!(matches!(command, BatchCommand::Read));
    let right = BatchEvent::Tree {
        rows: full_tree(),
        in_time: true,
    };
    let (batch, command) = batch.advance(right);
    match command {
        BatchCommand::Finish { reply, ok, .. } => {
            assert!(ok);
            let body = value(&reply.body);
            assert_eq!(body["ok"], true);
            assert_eq!(body["completed"], 3);
            assert_eq!(body["applied_actions"], 1);
        }
        other => panic!("{other:?}"),
    }
    let (_, command) = batch.advance(open());
    assert!(matches!(command, BatchCommand::Ignored));
}

#[test]
fn an_action_counts_as_applied_before_its_step_is_completed() {
    let slow = AgentActionStep::Action {
        action: json(r#"{"type":"tap","x":0.5,"y":0.5}"#),
        after_ms: 10,
    };
    let batch = Batch::new(vec![tap(), AgentActionStep::Pause { ms: 5 }, slow]).unwrap();
    let (batch, _) = batch.advance(open());
    let (batch, _) = batch.advance(BatchEvent::Acted(Some(WdaControlOutcome::Applied)));
    let (batch, _) = batch.advance(open());
    let (batch, _) = batch.advance(BatchEvent::Slept(true));
    let (batch, _) = batch.advance(open());
    let (batch, command) = batch.advance(BatchEvent::Acted(Some(WdaControlOutcome::Applied)));
    assert!(matches!(command, BatchCommand::Sleep { ms: 10 }));
    let (_, command) = batch.advance(BatchEvent::Slept(false));
    match command {
        BatchCommand::Finish { reply, ok, .. } => {
            assert!(!ok);
            let body = value(&reply.body);
            assert_eq!(body["error"], "batch_deadline_after_action");
            assert_eq!(body["completed"], 2);
            assert_eq!(body["applied_actions"], 2);
            assert_eq!(body["retry_safe"], false);
        }
        other => panic!("{other:?}"),
    }
}

#[test]
fn a_batch_shows_how_the_runner_is() {
    let finish = |ok: bool, unactionable: bool| {
        let mut state = AppState::new(0);
        state.actionable = true;
        let command = BatchCommand::Finish {
            reply: Reply::plain(200, ""),
            ok,
            unactionable,
            drop_session: false,
        };
        note_batch(&mut state, &command, 500);
        state
    };
    let done = finish(true, false);
    assert!(done.health.up && done.health.actionable && done.actionable);
    assert_eq!(done.last_activity, 500);
    let broken = finish(false, true);
    assert!(!broken.health.actionable && !broken.actionable);
    assert_eq!(broken.last_activity, 0);
    let mut state = AppState::new(0);
    note_batch(&mut state, &BatchCommand::Read, 500);
    assert_eq!(state.last_activity, 0);
}

#[test]
fn a_step_starts_only_where_the_phone_may_be_driven() {
    let mut state = AppState::new(0);
    let opens = |state: &AppState, now: u64| {
        matches!(gate_event(state, 100, now), BatchEvent::Gate { drivable: true, in_time: true })
    };
    assert!(opens(&state, 99));
    assert!(!opens(&state, 100));
    state.released = true;
    assert!(!opens(&state, 0));
    assert_eq!(wait_until(50, 100, 20), 70);
    assert_eq!(wait_until(50, 100, 60), 100);
    assert_eq!(wait_until(50, 100, 200), 100);
}

#[test]
fn a_failed_step_stops_the_batch() {
    let batch = Batch::new(vec![tap(), tap()]).unwrap();
    let (batch, _) = batch.advance(open());
    let (batch, command) = batch.advance(BatchEvent::Acted(Some(WdaControlOutcome::Failed)));
    match command {
        BatchCommand::Finish { reply, ok, .. } => {
            assert!(!ok);
            let body = value(&reply.body);
            assert_eq!(body["failed_step"], 0);
            assert_eq!(body["completed"], 0);
            assert_eq!(body["retry_safe"], false);
        }
        other => panic!("{other:?}"),
    }
    let (_, command) = batch.advance(open());
    assert!(matches!(command, BatchCommand::Ignored));
    assert!(Batch::new(vec![]).is_err());
}

#[test]
fn a_batch_stops_at_a_phone_that_went_away() {
    let batch = Batch::new(vec![tap()]).unwrap();
    let gone = BatchEvent::Gate {
        drivable: false,
        in_time: true,
    };
    match batch.advance(gone).1 {
        BatchCommand::Finish { reply, .. } => {
            let body = value(&reply.body);
            assert_eq!(body["applied_actions"], 0);
            assert_eq!(body["outcome"], "not_sent");
            assert_eq!(body["retry_safe"], true);
        }
        other => panic!("{other:?}"),
    }
}

// An errand on a row ---------------------------------------------------------------

fn errand(text: &str, job: Job) -> Errand {
    Errand::start(json(text), job).unwrap()
}

fn rows(rows: Vec<ElementRow>) -> ErrandEvent {
    ErrandEvent::Rows {
        rows,
        snapshot: "s".to_string(),
    }
}

fn ids(list: &[&str]) -> ErrandEvent {
    ErrandEvent::Ids(list.iter().map(|id| id.to_string()).collect())
}

#[test]
fn a_row_is_tapped_when_its_snapshot_still_holds() {
    let run = errand(r#"{"type":"tap","element":1,"snapshot":"s"}"#, Job::Tap);
    let (run, command) = run.advance(rows(vec![row("Application", "x"), row("Button", "OK")]));
    assert!(matches!(command, ErrandCommand::Find { .. }), "{command:?}");
    let (run, command) = run.advance(ids(&["E1"]));
    assert!(matches!(command, ErrandCommand::Click { id } if id == "E1"));
    let (_, command) = run.advance(ErrandEvent::Sent(Sent::Done));
    assert!(matches!(command, ErrandCommand::Finish(Ok(()))));
}

#[test]
fn a_stale_snapshot_or_a_doubtful_match_changes_nothing() {
    let run = errand(r#"{"type":"tap","element":0,"snapshot":"old"}"#, Job::Tap);
    let (_, command) = run.advance(rows(vec![row("Button", "OK")]));
    assert!(matches!(command, ErrandCommand::Finish(Err(SnapshotElementTapError::Stale))));
    let run = errand(r#"{"type":"tap","element":0,"snapshot":"s"}"#, Job::Tap);
    let (run, _) = run.advance(rows(vec![row("Button", "OK")]));
    let (_, command) = run.advance(ids(&["E1", "E2"]));
    assert!(matches!(command, ErrandCommand::Finish(Err(SnapshotElementTapError::Ambiguous))));
    let run = errand(r#"{"type":"tap","element":0,"snapshot":"s"}"#, Job::Tap);
    let (run, _) = run.advance(rows(vec![row("Button", "OK")]));
    let (_, command) = run.advance(ids(&[]));
    assert!(matches!(command, ErrandCommand::Finish(Err(SnapshotElementTapError::NotFound))));
    let run = errand(r#"{"type":"tap","element":7,"snapshot":"s"}"#, Job::Tap);
    let (_, command) = run.advance(rows(vec![row("Button", "OK")]));
    assert!(matches!(command, ErrandCommand::Finish(Err(_))));
    assert!(Errand::start(json(r#"{"type":"tap"}"#), Job::Tap).is_err());
}

#[test]
fn a_press_for_a_menu_is_neither_a_tap_nor_endless() {
    let hold = |duration: &str| {
        let text = format!(
            r#"{{"type":"perform","element":0,"snapshot":"s","action":"menu"{duration}}}"#
        );
        let (run, _) = errand(&text, Job::Perform).advance(rows(vec![row("Cell", "x")]));
        match run.advance(ids(&["E1"])).1 {
            ErrandCommand::Hold { ms, .. } => ms,
            command => panic!("{command:?}"),
        }
    };
    assert_eq!(hold(""), 600);
    assert_eq!(hold(r#","duration_ms":100"#), 300);
    assert_eq!(hold(r#","duration_ms":1200"#), 1200);
    assert_eq!(hold(r#","duration_ms":9000"#), 2000);
}

#[test]
fn everything_that_scrolls_is_looked_up_by_its_class() {
    let chains = scroll_container_candidates();
    assert_eq!(chains.len(), 6);
    assert_eq!(chains[0], "**/XCUIElementTypeTable");
    assert_eq!(chains[5], "**/XCUIElementTypeWebView");
}

/// Runs an `adjust` on a row of a kind up to the point where the value is looked
/// at, which for a slider includes whether it is a position.
fn adjust(kind: &str, value: Option<&str>) -> ErrandCommand {
    let value = match value {
        Some(value) => format!(r#","value":{value}"#),
        None => String::new(),
    };
    let text =
        format!(r#"{{"type":"perform","element":0,"snapshot":"s","action":"adjust"{value}}}"#);
    let run = errand(&text, Job::Perform);
    let (run, command) = run.advance(rows(vec![row(kind, "x")]));
    assert!(matches!(command, ErrandCommand::Find { .. }), "{command:?}");
    let (run, command) = run.advance(ids(&["E1"]));
    match command {
        ErrandCommand::CheckPosition { text } => {
            let inside = text
                .parse::<f64>()
                .is_ok_and(|position| (0.0..=1.0).contains(&position));
            run.advance(ErrandEvent::Position(inside)).1
        }
        command => command,
    }
}

// A JSON number for adjust must be told as a bad value, not as a bad snapshot.
#[test]
fn adjust_values_are_checked_for_shape_before_dispatch() {
    let invalid = |command: ErrandCommand| {
        matches!(
            command,
            ErrandCommand::Finish(Err(SnapshotElementTapError::InvalidValue(_)))
        )
    };
    assert!(invalid(adjust("PickerWheel", Some("5"))));
    assert!(invalid(adjust("PickerWheel", None)));
    assert!(matches!(
        adjust("PickerWheel", Some(r#""5""#)),
        ErrandCommand::Adjust { target, .. } if target == "5"
    ));
    assert!(matches!(
        adjust("Slider", Some(r#""0.5""#)),
        ErrandCommand::Adjust { target, .. } if target == "0.5"
    ));
    assert!(invalid(adjust("Slider", Some(r#""1.5""#))));
    assert!(invalid(adjust("Slider", Some(r#""5""#))), "5 is not a 0..1 position");
}

#[test]
fn a_missing_element_is_told_by_its_status() {
    assert!(wda_error_is_missing_element("POST element/value: HTTP status 404 Not Found"));
    assert!(!wda_error_is_missing_element("HTTP status 400 Bad Request"));
    assert!(matches!(
        snapshot_element_outcome(Ok(())),
        ElementEnd::Dispatched { applied: true }
    ));
    assert!(matches!(
        snapshot_element_outcome(Err(SnapshotElementTapError::Stale)),
        ElementEnd::Final {
            outcome: WdaControlOutcome::StaleElementSnapshot,
            ..
        }
    ));
}

// Streams and pictures ---------------------------------------------------------------

#[test]
fn png_validation_rejects_runt_and_garbage_frames() {
    let sig = [0x89, b'P', b'N', b'G', 0x0d, 0x0a, 0x1a, 0x0a];
    // A short non-PNG body.
    assert!(!is_valid_png(&[0u8; 26]));
    assert!(!is_valid_png(&[]));
    // Right signature but too short to hold an IHDR.
    assert!(!is_valid_png(&sig));
    // Right length but wrong magic (e.g. a JPEG or HTML error page).
    assert!(!is_valid_png(&[0xffu8; 64]));
    // A minimal well-formed-enough PNG header passes.
    let mut ok = sig.to_vec();
    ok.extend_from_slice(&[0u8; 25]); // pad past the 33-byte floor
    assert!(is_valid_png(&ok));
}

#[test]
fn stream_guard_reserves_viewer_slot_atomically() {
    let mut count = 3;
    let fourth = StreamGuard::try_reserve(&mut count, 4).expect("fourth slot");
    assert_eq!(count, 4);
    assert!(StreamGuard::try_reserve(&mut count, 4).is_none());
    fourth.release(&mut count);
    assert_eq!(count, 3);
}

#[test]
fn mjpeg_stream_ids_are_bounded_and_url_safe() {
    assert!(valid_mjpeg_stream_id("browser_01234567"));
    assert!(valid_mjpeg_stream_id("ABC-def_123"));
    assert!(!valid_mjpeg_stream_id("short"));
    assert!(!valid_mjpeg_stream_id("contains/slash"));
    assert!(!valid_mjpeg_stream_id("contains space"));
    assert!(!valid_mjpeg_stream_id(&"a".repeat(65)));
}

#[test]
fn stale_mjpeg_guard_cannot_remove_a_newer_stream_registration() {
    let activity = StreamActivity::new();
    let (activity, older) = activity.register("browser_01234567".into(), 1);
    let (activity, newer) = activity.register("browser_01234567".into(), 2);

    let activity = activity.unregister(older);
    assert!(
        activity.age("browser_01234567", 3).is_some(),
        "dropping an old response must not erase the replacement stream heartbeat"
    );

    let activity = activity.unregister(newer);
    assert!(activity.is_empty());
}

#[test]
fn a_frame_keeps_its_view_fresh() {
    let (activity, guard) = StreamActivity::new().register("browser_01234567".into(), 1);
    assert_eq!(activity.age("browser_01234567", 11), Some(10));
    let activity = activity.touch(&guard, 11);
    assert_eq!(activity.age("browser_01234567", 11), Some(0));
    assert_eq!(activity.age("browser_unknown", 11), None);
}

#[test]
fn mjpeg_proxy_rejects_successful_html_responses() {
    assert!(is_mjpeg_content_type(
        "multipart/x-mixed-replace; boundary=--BoundaryString"
    ));
    assert!(is_mjpeg_content_type("Multipart/X-Mixed-Replace"));
    assert!(!is_mjpeg_content_type("text/html; charset=utf-8"));
    assert!(!is_mjpeg_content_type("image/jpeg"));
    assert!(!is_mjpeg_content_type(""));
}

#[test]
fn a_live_view_is_opened_within_its_limits() {
    let mut state = AppState::new(0);
    let id = Some("browser_01234567");
    for _ in 0..4 {
        assert!(agent_mjpeg(&mut state, true, false, id, true, 9).is_ok());
    }
    let status = |result: Result<StreamGuard, iphone_use::reply::Reply>| match result {
        Ok(_) => 200,
        Err(reply) => reply.status,
    };
    assert_eq!(status(agent_mjpeg(&mut state, true, false, id, true, 9)), 429);
    let mut fresh = AppState::new(0);
    assert_eq!(status(agent_mjpeg(&mut fresh, true, false, Some("bad/id/here"), true, 9)), 400);
    assert_eq!(status(agent_mjpeg(&mut fresh, false, false, id, true, 9)), 409);
    assert_eq!(status(agent_mjpeg(&mut fresh, true, false, id, false, 9)), 503);
    assert_eq!(refuse_upstream(&Upstream::Late).unwrap().status, 504);
    assert_eq!(refuse_upstream(&Upstream::Unreachable).unwrap().status, 502);
    let html = Upstream::Open {
        content_type: Some("text/html".to_string()),
    };
    assert_eq!(refuse_upstream(&html).unwrap().status, 502);
    let stream = Upstream::Open {
        content_type: Some("multipart/x-mixed-replace".to_string()),
    };
    assert!(refuse_upstream(&stream).is_none());
    let refused = Upstream::Refused {
        status: "500 Internal Server Error".to_string(),
    };
    assert!(refuse_upstream(&refused).unwrap().body.contains("500 Internal"));
}

#[test]
fn a_stream_that_fails_ends_after_its_error() {
    assert!(matches!(mjpeg_stream_step(false, ChunkEvent::Chunk), ChunkStep::Forward));
    assert!(matches!(mjpeg_stream_step(false, ChunkEvent::Failed), ChunkStep::FailThenEnd));
    assert!(matches!(mjpeg_stream_step(false, ChunkEvent::Idle), ChunkStep::TimeoutThenEnd));
    assert!(matches!(mjpeg_stream_step(false, ChunkEvent::Ended), ChunkStep::End));
    assert!(matches!(mjpeg_stream_step(true, ChunkEvent::Chunk), ChunkStep::End));
}

#[test]
fn a_picture_is_a_whole_picture() {
    let mut state = AppState::new(0);
    assert!(matches!(
        agent_screenshot(&mut state, true, false, true, 1),
        ScreenshotPlan::Direct
    ));
    assert!(matches!(
        agent_screenshot(&mut state, false, false, true, 1),
        ScreenshotPlan::Mirror
    ));
    assert!(matches!(
        agent_screenshot(&mut state, true, true, true, 1),
        ScreenshotPlan::Refused(reply) if reply.status == 409
    ));
    let broken = direct_screenshot_end(&mut state, &Shot::Taken(vec![1, 2, 3]));
    assert_eq!(broken.unwrap().status, 502);
    assert_eq!(direct_screenshot_end(&mut state, &Shot::TimedOut).unwrap().status, 504);
    assert!(mirror_screenshot_end(&Shot::Failed).is_some());
}
