//! Rows of the element tree: tokens, differences, locators and expectations.

use iphone_use::batch::{agent_expectation_observation, AgentUiExpectation};
use iphone_use::element::{diff_element_rows, ElementRow, ElementRowsDelta};
use iphone_use::json::Json;
use iphone_use::locator::{
    active_application, agent_locator_matches, app_changed_json, locator_wda_query, parse_locator,
    perform_action_kind_permitted, perform_verbs_with_frame_fallback, settle_tree_is_sparse,
    snapshot_row_locator, wda_predicate_literal, AgentElementLocator,
};
use iphone_use::observe::{
    alert_json, attach_alert, ax_counts, element_snapshot_id, elements_delta_json, tree_delta_text,
    Alert, SnapshotCache,
};
use iphone_use::run::observation_text;

fn value(text: &str) -> serde_json::Value {
    serde_json::from_str(text).unwrap()
}

fn rect(numbers: [f64; 4]) -> [u64; 4] {
    numbers.map(f64::to_bits)
}

fn delta_row(kind: &str, label: &str, y: f64) -> ElementRow {
    ElementRow {
        kind: kind.to_string(),
        label: label.to_string(),
        identifier: None,
        rect: rect([10.0, y, 80.0, 44.0]),
        depth: 2,
        value: None,
        enabled: None,
        visible: None,
        accessible: None,
        focused: None,
        placeholder: None,
        ..Default::default()
    }
}

fn stats_row(kind: &str, label: &str, depth: u32) -> ElementRow {
    ElementRow {
        kind: kind.to_string(),
        label: label.to_string(),
        depth,
        ..Default::default()
    }
}

/// How the runner's client writes a row.
fn row_text(row: &ElementRow) -> String {
    let number = |bits: u64| f64::from_bits(bits).to_string();
    let frame: Vec<String> = row.rect.iter().map(|bits| number(*bits)).collect();
    format!(
        r#"{{"kind":"{}","label":"{}","rect":[{}],"depth":{}}}"#,
        row.kind,
        row.label,
        frame.join(","),
        row.depth
    )
}

fn tree_text(rows: &[ElementRow]) -> String {
    let rows: Vec<String> = rows.iter().map(row_text).collect();
    format!("[{}]", rows.join(","))
}

fn locator(label: Option<&str>) -> AgentElementLocator {
    AgentElementLocator {
        label: label.map(str::to_string),
        identifier: None,
        kind: None,
        value: None,
        focused: None,
        enabled: None,
        visible: None,
    }
}

#[test]
fn element_snapshot_changes_with_the_actionable_tree() {
    let row = || ElementRow {
        kind: "Button".to_string(),
        label: "继续".to_string(),
        identifier: Some("continue-button".to_string()),
        rect: rect([10.0, 20.0, 80.0, 44.0]),
        depth: 2,
        value: None,
        enabled: None,
        visible: None,
        accessible: Some(true),
        focused: None,
        placeholder: None,
        ..Default::default()
    };
    let first = vec![row()];
    let mut changed = vec![row()];

    let snapshot = element_snapshot_id(tree_text(&first).as_bytes());
    assert_eq!(snapshot, element_snapshot_id(tree_text(&first).as_bytes()));
    assert!(!snapshot.is_empty());

    changed[0].rect[1] = 120.0_f64.to_bits();
    assert_ne!(snapshot, element_snapshot_id(tree_text(&changed).as_bytes()));
}

#[test]
fn a_snapshot_token_is_a_hash_in_url_safe_letters() {
    // The hash of nothing, and the hash of "abc", in unpadded base64url.
    assert_eq!(
        element_snapshot_id(b""),
        "47DEQpj8HBSa-_TImW-5JCeuQeRkm5NMpJWZG3hSuFU"
    );
    assert_eq!(
        element_snapshot_id(b"abc"),
        "ungWv48Bz-pBQUDeXa4iI7ADYaOWF3qctBD_YfIAFa0"
    );
}

#[test]
fn an_empty_tree_counts_nothing_and_holds_only_containers() {
    let kinds = vec!["Button", "TextField", "Cell"];
    let counts = ax_counts(&Vec::new(), &kinds);
    assert_eq!(counts.n, 0);
    assert_eq!(counts.n_interactive, 0);
    assert_eq!(counts.n_labeled, 0);
    assert!(counts.container_only);
    assert_eq!(counts.max_depth, 0);
}

#[test]
fn a_lone_application_row_is_a_container() {
    let kinds = vec!["Button", "TextField", "Cell"];
    let counts = ax_counts(&vec![stats_row("Application", "SomeGame", 1)], &kinds);
    assert_eq!(counts.n, 1);
    assert_eq!(counts.n_interactive, 0);
    assert!(counts.container_only);
    assert_eq!(counts.max_depth, 1);
}

#[test]
fn a_dense_tree_counts_its_labels_and_depth() {
    let kinds = vec!["Button", "TextField", "Cell"];
    let rows = vec![
        stats_row("Window", "", 1),
        stats_row("Button", "返回", 3),
        stats_row("Button", "", 3),
        stats_row("TextField", "搜索", 4),
        stats_row("Cell", "第一条", 5),
        stats_row("StaticText", "标题", 4),
    ];
    let counts = ax_counts(&rows, &kinds);
    assert_eq!(counts.n, 6);
    assert_eq!(counts.n_interactive, 4);
    assert_eq!(counts.n_labeled as f64 / counts.n_interactive as f64, 0.75);
    assert!(!counts.container_only);
    assert_eq!(counts.max_depth, 5);
}

#[test]
fn adjustable_verbs_keep_the_semantic_less_frame_fallback() {
    let verbs = perform_verbs_with_frame_fallback();
    for verb in ["toggle", "increment", "decrement", "adjust"] {
        assert!(
            verbs.contains(&verb),
            "{verb} must survive a semantic-less row"
        );
    }
    for verb in [
        "menu",
        "double_tap",
        "two_finger_tap",
        "scroll",
        "force_touch",
    ] {
        assert!(
            !verbs.contains(&verb),
            "{verb} must still require a real locator"
        );
    }
}

#[test]
fn app_changed_json_names_the_app_an_action_switched_to() {
    let before = vec![
        delta_row("Application", "设置", 0.0),
        delta_row("Cell", "通用", 80.0),
    ];
    let after = vec![
        delta_row("Application", "微信", 0.0),
        delta_row("Cell", "通讯录", 80.0),
    ];
    assert_eq!(
        app_changed_json(&before, &after).map(|text| value(&text)),
        Some(value(r#"{ "from": "设置", "to": "微信" }"#))
    );
}

#[test]
fn app_changed_json_is_silent_when_the_app_held_still() {
    let before = vec![
        delta_row("Application", "设置", 0.0),
        delta_row("Cell", "通用", 80.0),
    ];
    let after = vec![
        delta_row("Application", "设置", 0.0),
        delta_row("Cell", "关于本机", 80.0),
    ];
    assert_eq!(app_changed_json(&before, &after), None);
}

// A tree with no `Application` row says nothing about the frontmost app —
// that is unknown, not a switch, and must never raise a false alarm.
#[test]
fn app_changed_json_is_silent_when_the_tree_omits_the_application_row() {
    let known = vec![delta_row("Application", "设置", 0.0)];
    let unknown = vec![delta_row("Cell", "通用", 80.0)];
    assert_eq!(app_changed_json(&known, &unknown), None);
    assert_eq!(app_changed_json(&unknown, &known), None);
}

#[test]
fn diff_identical_trees_is_all_unchanged() {
    let baseline = vec![
        delta_row("Button", "继续", 20.0),
        delta_row("Cell", "设置", 80.0),
    ];
    let current = vec![
        delta_row("Button", "继续", 20.0),
        delta_row("Cell", "设置", 80.0),
    ];

    let delta = diff_element_rows(&baseline, &current);
    assert_eq!(
        delta,
        ElementRowsDelta {
            added: vec![],
            changed: vec![],
            removed: vec![],
            unchanged: 2,
        }
    );
}

#[test]
fn diff_matches_identity_across_insertion_shift() {
    // One row inserted at the top must NOT report every later row as
    // changed — identity matching, not index alignment.
    let baseline = vec![
        delta_row("Button", "继续", 20.0),
        delta_row("Cell", "设置", 80.0),
    ];
    let current = vec![
        delta_row("Other", "新横幅", 0.0),
        delta_row("Button", "继续", 20.0),
        delta_row("Cell", "设置", 80.0),
    ];

    let delta = diff_element_rows(&baseline, &current);
    assert_eq!(delta.added, vec![0]);
    assert_eq!(delta.changed, Vec::<usize>::new());
    assert_eq!(delta.removed, Vec::<usize>::new());
    assert_eq!(delta.unchanged, 2);
}

#[test]
fn diff_reports_changed_state_and_removed_rows() {
    let baseline = vec![
        delta_row("Button", "继续", 20.0),
        delta_row("Cell", "已删除的行", 80.0),
        delta_row("Switch", "飞行模式", 140.0),
    ];
    let mut moved = delta_row("Button", "继续", 20.0);
    moved.rect[1] = 300.0_f64.to_bits();
    let mut toggled = delta_row("Switch", "飞行模式", 140.0);
    toggled.value = Some("1".to_string());
    let current = vec![moved, toggled];

    let delta = diff_element_rows(&baseline, &current);
    assert_eq!(delta.added, Vec::<usize>::new());
    assert_eq!(delta.changed, vec![0, 1]);
    assert_eq!(delta.removed, vec![1]);
    assert_eq!(delta.unchanged, 0);
}

#[test]
fn diff_pairs_duplicate_identities_in_document_order() {
    // Two rows with the same identity (e.g. two unlabeled TextFields):
    // dropping one is a removal, not a change to the survivor.
    let baseline = vec![
        delta_row("TextField", "", 20.0),
        delta_row("TextField", "", 80.0),
    ];
    let current = vec![delta_row("TextField", "", 20.0)];

    let delta = diff_element_rows(&baseline, &current);
    assert_eq!(delta.added, Vec::<usize>::new());
    assert_eq!(delta.changed, Vec::<usize>::new());
    assert_eq!(delta.removed, vec![1]);
    assert_eq!(delta.unchanged, 1);
}

#[test]
fn a_frame_that_is_no_number_always_differs_and_the_zeros_do_not() {
    let broken = || vec![delta_row("Cell", "x", f64::NAN)];
    assert_eq!(diff_element_rows(&broken(), &broken()).changed, vec![0]);
    let delta = diff_element_rows(
        &vec![delta_row("Cell", "x", 0.0)],
        &vec![delta_row("Cell", "x", -0.0)],
    );
    assert_eq!(delta.unchanged, 1);
}

#[test]
fn every_row_is_accounted_for() {
    let baseline = vec![
        delta_row("A", "1", 0.0),
        delta_row("A", "1", 1.0),
        delta_row("B", "2", 2.0),
    ];
    let current = vec![
        delta_row("A", "1", 0.0),
        delta_row("C", "3", 3.0),
        delta_row("A", "1", 9.0),
    ];
    let delta = diff_element_rows(&baseline, &current);
    assert_eq!(delta.added.len() + delta.changed.len() + delta.unchanged, current.len());
    assert_eq!(delta.removed.len() + delta.changed.len() + delta.unchanged, baseline.len());
    assert_eq!(delta.removed, vec![2]);
    let mirrored = diff_element_rows(&current, &baseline);
    assert_eq!(mirrored.added, delta.removed);
    assert_eq!(mirrored.removed, delta.added);
    assert_eq!(mirrored.changed.len(), delta.changed.len());
    assert_eq!(mirrored.unchanged, delta.unchanged);
}

#[test]
fn elements_delta_json_carries_current_rows_with_indexes() {
    let baseline = vec![delta_row("Button", "继续", 20.0)];
    let current = vec![
        delta_row("Other", "横幅", 0.0),
        delta_row("Button", "继续", 20.0),
    ];
    let delta = diff_element_rows(&baseline, &current);

    let texts: Vec<String> = current.iter().map(row_text).collect();
    let json = value(&elements_delta_json(&delta, &texts));
    assert_eq!(json["unchanged"], 1);
    assert_eq!(json["removed"].as_array().unwrap().len(), 0);
    let added = json["added"].as_array().unwrap();
    assert_eq!(added.len(), 1);
    assert_eq!(added[0]["index"], 0);
    assert_eq!(added[0]["element"]["label"], "横幅");
}

#[test]
fn a_tree_delta_is_the_text_of_the_difference() {
    let before = vec![delta_row("Application", "设置", 0.0)];
    let after = vec![delta_row("Application", "微信", 0.0)];
    let texts: Vec<String> = after.iter().map(row_text).collect();
    let text = tree_delta_text(&before, &after, &texts);
    assert_eq!(text, elements_delta_json(&diff_element_rows(&before, &after), &texts));
    assert_eq!(value(&text)["removed"], value("[0]"));
}

#[test]
fn alert_block_is_sparse_and_attaches_to_serialized_bodies() {
    assert!(alert_json(&None).is_none());
    let block = value(
        &alert_json(&Some(Alert {
            text: "确认?".to_string(),
            buttons: vec!["继续".to_string(), "取消".to_string()],
        }))
        .unwrap(),
    );
    assert_eq!(block["text"], "确认?");
    assert_eq!(block["buttons"][1], "取消");

    let plain = r#"{"ok":true,"transport":"wda"}"#.to_string();
    assert_eq!(attach_alert(plain.clone(), &None), plain);
    let with = attach_alert(
        plain,
        &Some(Alert {
            text: "t".to_string(),
            buttons: vec![],
        }),
    );
    let parsed = value(&with);
    assert_eq!(parsed["ok"], true);
    assert_eq!(parsed["alert"]["text"], "t");
}

#[test]
fn an_alert_leaves_a_body_that_is_no_object_alone() {
    let alert = Some(Alert {
        text: "t".to_string(),
        buttons: vec![],
    });
    assert_eq!(attach_alert("[1]".to_string(), &alert), "[1]");
    assert_eq!(attach_alert("broken".to_string(), &alert), "broken");
}

#[test]
fn the_cache_keeps_eight_trees_and_the_newest_of_each_token() {
    let mut cache = SnapshotCache::new();
    for i in 0..9 {
        cache = cache.remember_element_snapshot(
            &format!("t{i}"),
            vec![delta_row("Cell", &format!("{i}"), 0.0)],
        );
    }
    assert!(cache.lookup_element_snapshot("t0").is_none());
    assert_eq!(cache.lookup_element_snapshot("t8").unwrap()[0].label, "8");
    cache = cache.remember_element_snapshot("t8", vec![]);
    assert!(cache.lookup_element_snapshot("t8").unwrap().is_empty());
    assert!(cache.lookup_element_snapshot("t1").is_some());
}

#[test]
fn perform_kind_gating_limits_value_verbs_to_drivable_kinds() {
    let row = |kind: &str| ElementRow {
        kind: kind.to_string(),
        label: "目标".to_string(),
        rect: rect([10.0, 20.0, 80.0, 44.0]),
        depth: 2,
        ..Default::default()
    };
    for kind in ["PickerWheel", "Stepper", "Slider"] {
        assert!(perform_action_kind_permitted("increment", &row(kind)));
        assert!(perform_action_kind_permitted("decrement", &row(kind)));
    }
    assert!(!perform_action_kind_permitted("increment", &row("Button")));
    assert!(perform_action_kind_permitted("adjust", &row("Slider")));
    assert!(perform_action_kind_permitted("adjust", &row("PickerWheel")));
    assert!(!perform_action_kind_permitted("adjust", &row("Cell")));
    assert!(perform_action_kind_permitted("toggle", &row("Switch")));
    assert!(!perform_action_kind_permitted("toggle", &row("Button")));
    // A ToggleButton-trait Button carries toggle through its derived
    // actions when the affordances flag populated them.
    let mut toggle_button = row("Button");
    toggle_button.actions = Some(vec!["toggle".to_string()]);
    assert!(perform_action_kind_permitted("toggle", &toggle_button));
    // Gesture verbs stay universal.
    for action in ["menu", "double_tap", "two_finger_tap", "scroll_to_visible"] {
        assert!(perform_action_kind_permitted(action, &row("Cell")));
    }
}

/// An open `<select>` popup lists its options as Cell rows with no label and no
/// identifier. No locator can be built from them, and gestures dismiss the
/// popup, so the verb has to reach the geometry fallback.
#[test]
fn scroll_to_visible_survives_a_semantic_less_row() {
    let verbs = perform_verbs_with_frame_fallback();
    assert!(verbs.contains(&"scroll_to_visible"));

    let cell = ElementRow {
        kind: "Cell".to_string(),
        label: String::new(),
        identifier: None,
        rect: rect([0.0, 1559.0, 440.0, 44.0]),
        depth: 7,
        ..Default::default()
    };
    assert!(
        snapshot_row_locator(&cell).is_none(),
        "an unlabeled, unidentified row must have no semantic locator"
    );
    assert!(perform_action_kind_permitted("scroll_to_visible", &cell));

    // Mutating verbs keep requiring a locator: a mis-resolved tap changes
    // state, a mis-resolved scroll does not.
    for action in ["tap", "menu", "double_tap", "two_finger_tap"] {
        assert!(
            !verbs.contains(&action),
            "{action} must still require a semantic locator"
        );
    }
}

#[test]
fn locator_wda_query_uses_element_clickable_predicate_fields() {
    let locator = AgentElementLocator {
        label: Some("保存到“文件”".to_string()),
        identifier: Some("actionGroupCell".to_string()),
        kind: Some("Cell".to_string()),
        value: None,
        focused: Some(false),
        enabled: Some(true),
        visible: Some(true),
    };

    let (using, value) = locator_wda_query(&locator).unwrap();
    assert_eq!(using, "predicate string");
    assert_eq!(
        value,
        "type == 'XCUIElementTypeCell' AND (label == '保存到“文件”' OR name == '保存到“文件”') AND focused == 0 AND enabled == 1 AND visible == 1"
    );
}

#[test]
fn locator_wda_query_falls_back_to_identifier_and_escapes_predicates() {
    let locator = AgentElementLocator {
        label: None,
        identifier: Some("unique-control".to_string()),
        kind: None,
        value: None,
        focused: None,
        enabled: None,
        visible: None,
    };
    assert_eq!(
        locator_wda_query(&locator),
        Some(("accessibility id", "unique-control".to_string()))
    );
    assert_eq!(
        wda_predicate_literal("O'Reilly\\Files"),
        "'O\\'Reilly\\\\Files'"
    );
}

#[test]
fn snapshot_row_locator_uses_semantics_instead_of_system_rectangle() {
    let row = ElementRow {
        kind: "Button".to_string(),
        label: "保存".to_string(),
        identifier: None,
        rect: rect([358.0, 24.0, 58.0, 36.0]),
        depth: 3,
        value: None,
        enabled: Some(true),
        visible: Some(true),
        accessible: Some(true),
        focused: Some(false),
        placeholder: None,
        ..Default::default()
    };

    let locator = snapshot_row_locator(&row).unwrap();
    assert_eq!(locator.label.as_deref(), Some("保存"));
    assert_eq!(locator.kind.as_deref(), Some("Button"));
    assert_eq!(locator.enabled, Some(true));
    assert_eq!(locator.visible, Some(true));
}

#[test]
fn snapshot_row_locator_allows_coordinate_only_without_semantics() {
    let row = ElementRow {
        kind: String::new(),
        label: String::new(),
        identifier: None,
        rect: rect([10.0, 20.0, 80.0, 44.0]),
        depth: 1,
        value: None,
        enabled: None,
        visible: None,
        accessible: None,
        focused: None,
        placeholder: None,
        ..Default::default()
    };

    assert!(snapshot_row_locator(&row).is_none());
}

#[test]
fn a_locator_is_read_only_from_known_fields() {
    let read = |text: &str| parse_locator(&Json::read(text).unwrap());
    assert_eq!(
        read(r#"{"label":"OK","enabled":true}"#).unwrap().label.as_deref(),
        Some("OK")
    );
    assert!(read(r#"{"label":"OK","colour":"red"}"#).is_none());
    assert!(read(r#"{"label":7}"#).is_none());
    assert!(read("7").is_none());
    assert_eq!(read(r#"["OK"]"#).unwrap().label.as_deref(), Some("OK"));
}

#[test]
fn an_unstated_flag_of_a_row_counts_as_its_usual_value() {
    let row = delta_row("Button", "OK", 0.0);
    let mut wanted = locator(Some("OK"));
    wanted.enabled = Some(true);
    assert!(agent_locator_matches(&row, &wanted));
    wanted.enabled = Some(false);
    assert!(!agent_locator_matches(&row, &wanted));
}

#[test]
fn the_active_application_is_the_first_labelled_one() {
    let rows = vec![
        delta_row("Window", "w", 0.0),
        delta_row("Application", "设置", 0.0),
    ];
    assert_eq!(active_application(&rows).as_deref(), Some("设置"));
    assert_eq!(active_application(&vec![]), None);
    assert!(settle_tree_is_sparse(&vec![]));
}

#[test]
fn batch_expectations_match_application_and_strict_element_state() {
    let rows = vec![
        ElementRow {
            kind: "Application".to_string(),
            label: "招商银行".to_string(),
            identifier: None,
            rect: rect([0.0, 0.0, 440.0, 956.0]),
            depth: 0,
            value: None,
            enabled: None,
            visible: None,
            accessible: None,
            focused: None,
            placeholder: None,
            ..Default::default()
        },
        ElementRow {
            kind: "TextField".to_string(),
            label: "搜索".to_string(),
            identifier: Some("search-field".to_string()),
            rect: rect([20.0, 80.0, 400.0, 44.0]),
            depth: 4,
            value: Some("示例联系人".to_string()),
            enabled: None,
            visible: None,
            accessible: Some(true),
            focused: Some(true),
            placeholder: Some("搜索交易".to_string()),
            ..Default::default()
        },
    ];
    let expect = AgentUiExpectation {
        application: Some("招商银行".to_string()),
        present: vec![AgentElementLocator {
            label: Some("搜索".to_string()),
            identifier: Some("search-field".to_string()),
            kind: Some("TextField".to_string()),
            value: Some("示例联系人".to_string()),
            focused: Some(true),
            enabled: Some(true),
            visible: Some(true),
        }],
        absent: vec![locator(Some("确认转账"))],
    };

    let (matches, observation) = agent_expectation_observation(&rows, &expect);
    assert!(matches);
    let observation = value(&observation_text(&observation));
    assert_eq!(observation["application"], "招商银行");
    assert_eq!(observation["missing_present"], value("[]"));
    assert_eq!(observation["violated_absent"], value("[]"));

    let wrong_app = AgentUiExpectation {
        application: Some("聚焦".to_string()),
        present: vec![],
        absent: vec![],
    };
    assert!(!agent_expectation_observation(&rows, &wrong_app).0);
}

#[test]
fn what_is_missing_and_what_should_be_gone_is_told_by_place() {
    let rows = vec![
        delta_row("Application", "设置", 0.0),
        delta_row("Cell", "通用", 80.0),
        delta_row("Cell", "关于", 120.0),
        delta_row("Cell", "电池", 160.0),
    ];
    let expect = AgentUiExpectation {
        application: None,
        present: vec![locator(Some("通用")), locator(Some("没有"))],
        absent: vec![locator(Some("关于"))],
    };
    let (matches, seen) = agent_expectation_observation(&rows, &expect);
    assert!(!matches);
    assert_eq!(seen.missing_present, vec![1]);
    assert_eq!(seen.violated_absent, vec![0]);
}
