//! Answers about the screen, and what a request shows of the runner.

use iphone_use::actions::actions_lock_timeout;
use iphone_use::control::{mark_wda_read_path_unactionable, note_control_outcome};
use iphone_use::element::ElementRow;
use iphone_use::health::WdaHealth;
use iphone_use::mode::mirror_recovering;
use iphone_use::observe::{
    agent_elements_failure, agent_elements_reply, source_retry, Alert, ElementsFailure,
    SnapshotCache, SourceRetry, TreeTexts,
};
use iphone_use::outcome::WdaControlOutcome;
use iphone_use::status::{status_health_source, HealthSource};

fn value(text: &str) -> serde_json::Value {
    serde_json::from_str(text).unwrap()
}

fn row(label: &str) -> ElementRow {
    ElementRow {
        kind: "Button".to_string(),
        label: label.to_string(),
        ..Default::default()
    }
}

fn texts(rows: &[ElementRow]) -> TreeTexts {
    let rows: Vec<String> = rows
        .iter()
        .map(|row| format!(r#"{{"label":"{}"}}"#, row.label))
        .collect();
    TreeTexts {
        screen: r#"{"width":390.0,"height":844.0}"#.to_string(),
        ax_stats: r#"{"n":2}"#.to_string(),
        elements: format!("[{}]", rows.join(",")),
        rows,
    }
}

#[test]
fn a_tree_is_answered_whole_where_there_is_nothing_to_compare_it_with() {
    let rows = vec![row("a"), row("b")];
    let texts = texts(&rows);
    let reply = agent_elements_reply(&SnapshotCache::new(), None, "s1", &rows, &texts, &None);
    assert_eq!(reply.status, 200);
    let body = value(&reply.body);
    assert_eq!(body["snapshot"], "s1");
    assert_eq!(body["elements"].as_array().unwrap().len(), 2);
    assert_eq!(body["screen"]["width"], 390.0);
    assert_eq!(body["ax_stats"]["n"], 2);
    assert!(body.get("alert").is_none());
}

#[test]
fn a_tree_is_answered_by_what_changed_since_a_known_one() {
    let before = vec![row("a"), row("b")];
    let cache = SnapshotCache::new().remember_element_snapshot("s1", before);
    let rows = vec![row("a"), row("c")];
    let texts = texts(&rows);
    let reply = agent_elements_reply(&cache, Some("s1"), "s2", &rows, &texts, &None);
    let body = value(&reply.body);
    assert_eq!(body["snapshot"], "s2");
    assert!(body.get("elements").is_none());
    assert!(reply.body.contains(r#"{"label":"c"}"#));
    assert!(!reply.body.contains(r#"{"label":"a"}"#));
}

#[test]
fn a_tree_is_answered_whole_where_the_other_one_is_not_known() {
    let rows = vec![row("a")];
    let texts = texts(&rows);
    let cache = SnapshotCache::new();
    let reply = agent_elements_reply(&cache, Some("gone"), "s2", &rows, &texts, &None);
    assert_eq!(value(&reply.body)["elements"].as_array().unwrap().len(), 1);
}

#[test]
fn an_alert_is_told_with_the_tree() {
    let rows = vec![row("a")];
    let texts = texts(&rows);
    let alert = Some(Alert {
        text: "Allow?".to_string(),
        buttons: vec!["No".to_string(), "Yes".to_string()],
    });
    let reply = agent_elements_reply(&SnapshotCache::new(), None, "s", &rows, &texts, &alert);
    let body = value(&reply.body);
    assert_eq!(body["alert"]["text"], "Allow?");
    assert_eq!(body["alert"]["buttons"][1], "Yes");
}

#[test]
fn every_failure_to_read_the_tree_has_its_own_answer() {
    let source = agent_elements_failure(ElementsFailure::Source);
    assert_eq!(source.status, 502);
    assert_eq!(value(&source.body)["error"], "wda_source_failed");
    let timeout = agent_elements_failure(ElementsFailure::Timeout);
    assert_eq!(timeout.status, 504);
    assert_eq!(value(&timeout.body)["retry_after_secs"], 3);
    let serialization = agent_elements_failure(ElementsFailure::Serialization);
    assert_eq!(serialization.status, 500);
    assert_eq!(value(&serialization.body)["error"], "serialization_failed");
}

#[test]
fn a_failed_read_is_tried_again_until_the_deadline() {
    assert_eq!(source_retry(0, 1000), SourceRetry::Sleep { ms: 250 });
    assert_eq!(source_retry(900, 1000), SourceRetry::Sleep { ms: 100 });
    assert_eq!(source_retry(1000, 1000), SourceRetry::GiveUp);
    assert_eq!(source_retry(2000, 1000), SourceRetry::GiveUp);
}

#[test]
fn an_outcome_shows_whether_the_runner_answers_and_acts() {
    let locked = WdaHealth { up: false, actionable: true, locked: Some(true) };
    let after = |outcome| {
        let mut health = locked;
        note_control_outcome(&mut health, outcome);
        (health.up, health.actionable, health.locked)
    };
    assert_eq!(after(WdaControlOutcome::Applied), (true, true, Some(true)));
    assert_eq!(after(WdaControlOutcome::Failed), (true, false, Some(true)));
    assert_eq!(after(WdaControlOutcome::NotSent), (false, false, Some(true)));
    assert_eq!(after(WdaControlOutcome::NoAlert), (false, true, Some(true)));
}

#[test]
fn a_broken_read_path_is_not_taken_for_an_unreachable_runner() {
    let mut health = WdaHealth { up: true, actionable: true, locked: Some(false) };
    let mut actionable = true;
    mark_wda_read_path_unactionable(&mut health, &mut actionable);
    assert!(health.up && !health.actionable && !actionable);
    assert_eq!(health.locked, Some(false));
}

#[test]
fn a_status_asks_the_runner_only_where_that_disturbs_nothing() {
    assert_eq!(status_health_source(false, false, false), HealthSource::Down);
    assert_eq!(status_health_source(true, true, false), HealthSource::Down);
    assert_eq!(status_health_source(true, false, true), HealthSource::Cached);
    assert_eq!(status_health_source(true, false, false), HealthSource::Refreshed);
}

#[test]
fn a_batch_that_never_gets_the_runner_was_not_sent() {
    let reply = actions_lock_timeout();
    assert_eq!(reply.status, 408);
    let body = value(&reply.body);
    assert_eq!(body["error"], "batch_deadline");
    assert_eq!(body["outcome"], "not_sent");
    assert_eq!(body["retry_safe"], true);
    assert_eq!(body["applied_actions"], 0);
}

#[test]
fn a_mirror_that_opens_again_is_answered_as_recovering() {
    let body = value(&mirror_recovering().body);
    assert_eq!(body["recovering"], true);
    assert_eq!(body["stopped_via_script"], false);
}
