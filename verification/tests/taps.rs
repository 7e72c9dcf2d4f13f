//! Taps on the row that a label or a locator stands for.

use iphone_use::control::CallEnd;
use iphone_use::element::ElementRow;
use iphone_use::errand::Sent;
use iphone_use::locator::AgentElementLocator;
use iphone_use::outcome::{Candidates, WdaControlOutcome};
use iphone_use::tap::{TapCommand, TapEvent, TapTarget, UniqueTap};

fn row(kind: &str, label: &str) -> ElementRow {
    ElementRow {
        kind: kind.to_string(),
        label: label.to_string(),
        identifier: None,
        rect: [
            10f64.to_bits(),
            20f64.to_bits(),
            100f64.to_bits(),
            40f64.to_bits(),
        ],
        depth: 3,
        value: None,
        enabled: None,
        visible: None,
        accessible: None,
        focused: None,
        placeholder: None,
        actions: None,
    }
}

fn tree(rows: Vec<ElementRow>, snapshot: Option<&str>) -> TapEvent {
    TapEvent::Rows {
        rects: rows.iter().map(|_| "[10.0,20.0,100.0,40.0]".to_string()).collect(),
        rows,
        snapshot: snapshot.map(str::to_string),
    }
}

fn by_label(label: &str) -> UniqueTap {
    let (tap, command) = UniqueTap::start(TapTarget::Label(label.to_string()));
    assert!(matches!(command, TapCommand::ReadTree));
    tap
}

fn by_locator(label: Option<&str>, kind: Option<&str>) -> UniqueTap {
    let locator = AgentElementLocator {
        label: label.map(str::to_string),
        identifier: None,
        kind: kind.map(str::to_string),
        value: None,
        focused: None,
        enabled: None,
        visible: None,
    };
    let (tap, command) = UniqueTap::start(TapTarget::Locator(locator));
    assert!(matches!(command, TapCommand::ReadTree));
    tap
}

fn finish(command: TapCommand) -> (WdaControlOutcome, Option<Candidates>, bool) {
    match command {
        TapCommand::Finish { outcome, candidates, drop_session } => {
            (outcome, candidates, drop_session)
        }
        other => panic!("not at an end: {other:?}"),
    }
}

#[test]
fn a_label_that_one_row_has_is_tapped_in_its_middle() {
    let rows = vec![row("Button", "Cancel"), row("Button", "Send")];
    let (tap, command) = by_label("Send").advance(tree(rows, Some("s")));
    match command {
        TapCommand::TapRect { rect } => {
            assert_eq!(rect.map(f64::from_bits), [10.0, 20.0, 100.0, 40.0])
        }
        other => panic!("{other:?}"),
    }
    let (tap, command) = tap.advance(TapEvent::Sent(Sent::Done));
    assert!(matches!(command, TapCommand::Call(CallEnd::Done)));
    let (_, command) = tap.advance(TapEvent::Sent(Sent::Done));
    assert!(matches!(command, TapCommand::Ignored));
}

#[test]
fn a_label_that_no_row_has_is_not_found() {
    let (_, command) = by_label("Send").advance(tree(vec![row("Button", "send")], Some("s")));
    let (outcome, candidates, drop_session) = finish(command);
    assert_eq!(outcome, WdaControlOutcome::ElementNotFound);
    assert!(candidates.is_none());
    assert!(!drop_session);
}

#[test]
fn a_label_that_two_rows_have_is_answered_with_both() {
    let rows = vec![row("Button", "Send"), row("Cell", "Other"), row("Cell", "Send")];
    let (_, command) = by_label("Send").advance(tree(rows, Some("token")));
    let (outcome, candidates, _) = finish(command);
    assert_eq!(outcome, WdaControlOutcome::AmbiguousElement);
    let candidates = candidates.expect("the rows to choose from");
    assert_eq!(candidates.snapshot, "token");
    assert!(candidates.matches.contains(r#""index":0"#));
    assert!(!candidates.matches.contains(r#""index":1"#));
    assert!(candidates.matches.contains(r#""index":2"#));
}

#[test]
fn rows_to_choose_from_are_only_told_with_a_token() {
    let rows = vec![row("Button", "Send"), row("Cell", "Send")];
    let (_, command) = by_label("Send").advance(tree(rows, None));
    let (outcome, candidates, _) = finish(command);
    assert_eq!(outcome, WdaControlOutcome::AmbiguousElement);
    assert!(candidates.is_none());
}

#[test]
fn a_row_without_a_middle_cannot_be_tapped() {
    let (tap, _) = by_label("Send").advance(tree(vec![row("Button", "Send")], Some("s")));
    let (_, command) = tap.advance(TapEvent::NoCenter);
    assert_eq!(finish(command).0, WdaControlOutcome::InvalidElementTarget);
}

#[test]
fn a_tree_that_cannot_be_read_leaves_the_tap_unsent() {
    let (_, command) = by_label("Send").advance(TapEvent::ReadFailed);
    let (outcome, _, drop_session) = finish(command);
    assert_eq!(outcome, WdaControlOutcome::NotSent);
    assert!(drop_session);
}

#[test]
fn a_locator_is_looked_up_on_the_phone_and_clicked() {
    let rows = vec![row("Button", "Send"), row("Cell", "Send")];
    let (tap, command) =
        by_locator(Some("Send"), Some("Button")).advance(tree(rows, Some("s")));
    match command {
        TapCommand::Find { using, value } => {
            assert_eq!(using, "predicate string");
            assert_eq!(
                value,
                "type == 'XCUIElementTypeButton' AND (label == 'Send' OR name == 'Send')"
            );
        }
        other => panic!("{other:?}"),
    }
    let (tap, command) = tap.advance(TapEvent::Ids(vec!["id-1".to_string()]));
    match command {
        TapCommand::Click { id } => assert_eq!(id, "id-1"),
        other => panic!("{other:?}"),
    }
    let (_, command) = tap.advance(TapEvent::Sent(Sent::Failed { never_reached: true }));
    assert!(matches!(command, TapCommand::Call(CallEnd::NeverReached)));
}

#[test]
fn a_locator_that_the_phone_knows_otherwise_is_not_clicked() {
    let find = || {
        by_locator(Some("Send"), Some("Button")).advance(tree(vec![row("Button", "Send")], None)).0
    };
    let (_, command) = find().advance(TapEvent::Ids(vec![]));
    assert_eq!(finish(command).0, WdaControlOutcome::ElementNotFound);
    let (_, command) = find().advance(TapEvent::Ids(vec!["a".to_string(), "b".to_string()]));
    assert_eq!(finish(command).0, WdaControlOutcome::AmbiguousElement);
    let (_, command) = find().advance(TapEvent::ReadFailed);
    assert_eq!(finish(command).0, WdaControlOutcome::NotSent);
}

#[test]
fn an_element_that_went_away_before_the_click_was_not_clicked() {
    let (tap, _) =
        by_locator(Some("Send"), Some("Button")).advance(tree(vec![row("Button", "Send")], None));
    let (tap, _) = tap.advance(TapEvent::Ids(vec!["id-1".to_string()]));
    let (_, command) = tap.advance(TapEvent::Sent(Sent::Missing));
    assert_eq!(finish(command).0, WdaControlOutcome::ElementNotFound);
}

#[test]
fn an_ambiguous_locator_is_not_looked_up() {
    let rows = vec![row("Button", "Send"), row("Cell", "Send")];
    let (_, command) = by_locator(Some("Send"), None).advance(tree(rows, Some("s")));
    let (outcome, candidates, _) = finish(command);
    assert_eq!(outcome, WdaControlOutcome::AmbiguousElement);
    assert!(candidates.is_none());
}
