//! What an action may look like, how it is planned, and what is advertised.

use iphone_use::action::{valid_bundle, validate_agent_action_value};
use iphone_use::actions::{actions_deadline, actions_size_allowed, agent_actions};
use iphone_use::apps::system_app_bundle;
use iphone_use::batch::{
    default_agent_actions_poll_ms, default_agent_actions_wait_ms, validate_agent_actions,
    AgentActionStep, AgentUiExpectation,
};
use iphone_use::capability::{
    agent_capabilities, capability_batch_actions, capability_mirror_actions,
    capability_single_step_actions, CapabilityConfig,
};
use iphone_use::control::{
    alert_step, ambiguity_candidates, direct_agent_plan, direct_control_admission,
    direct_control_deadline, direct_control_reply, finish_control,
    unique_label, unique_locator, AlertStep, CallEnd, ControlFreshnessError, ControlPlan,
    DeviceFacts, DirectEnd, UniqueTarget,
};
use iphone_use::element::ElementRow;
use iphone_use::json::Json;
use iphone_use::lifecycle::{WdaLifecycle, WdaLifecycleTransition};
use iphone_use::locator::{perform_action_names, AgentElementLocator};
use iphone_use::mode::{agent_mode, ModeConfig, ModeStep};
use iphone_use::observe::agent_elements_refusal;
use iphone_use::outcome::WdaControlOutcome;
use iphone_use::owner::PhoneOwner;
use iphone_use::reply::Reply;
use iphone_use::state::AppState;

fn json(text: &str) -> Json {
    Json::read(text).unwrap()
}

fn value(text: &str) -> serde_json::Value {
    serde_json::from_str(text).unwrap()
}

fn validate_action(text: &str) -> Result<(), String> {
    validate_agent_action_value(&json(text), 0)
}

fn facts(direct: bool) -> DeviceFacts {
    DeviceFacts {
        direct,
        pending: false,
        transition: WdaLifecycleTransition::Active,
        released: false,
        has_runner: true,
    }
}

#[test]
fn validate_scroll_accepts_element_mode_and_rejects_mixed_targets() {
    assert!(
        validate_action(r#"{"type":"scroll","element":3,"snapshot":"abc","dy":120.0}"#).is_ok()
    );
    // Element scroll with coordinates is contradictory.
    assert!(validate_action(
        r#"{"type":"scroll","element":3,"snapshot":"abc","x":0.5,"dy":120.0}"#
    )
    .is_err());
    // Element scroll still needs a snapshot and a non-zero delta.
    assert!(validate_action(r#"{"type":"scroll","element":3,"dy":120.0}"#).is_err());
    assert!(validate_action(r#"{"type":"scroll","element":3,"snapshot":"abc"}"#).is_err());
    // The classic coordinate mode is untouched.
    assert!(validate_action(r#"{"type":"scroll","x":0.5,"y":0.5,"dy":80.0}"#).is_ok());
    assert!(validate_action(r#"{"type":"scroll","x":0.5,"y":0.5}"#).is_err());
}

#[test]
fn validate_alert_action_requires_exactly_one_target() {
    assert!(validate_action(r#"{"type":"alert","button":"不是 li guo?"}"#).is_ok());
    assert!(validate_action(r#"{"type":"alert","action":"accept"}"#).is_ok());
    assert!(validate_action(r#"{"type":"alert","action":"dismiss"}"#).is_ok());
    assert!(validate_action(r#"{"type":"alert"}"#).is_err());
    assert!(validate_action(r#"{"type":"alert","button":""}"#).is_err());
    assert!(validate_action(r#"{"type":"alert","action":"explode"}"#).is_err());
    assert!(validate_action(r#"{"type":"alert","button":"OK","action":"accept"}"#).is_err());
}

#[test]
fn validate_set_value_requires_element_snapshot_and_bounded_value() {
    assert!(validate_action(
        r#"{"type":"set_value","element":2,"snapshot":"abc","value":"你好"}"#
    )
    .is_ok());
    // Empty string means "clear the field" and is valid.
    assert!(
        validate_action(r#"{"type":"set_value","element":2,"snapshot":"abc","value":""}"#).is_ok()
    );
    assert!(validate_action(r#"{"type":"set_value","snapshot":"abc","value":"你好"}"#).is_err());
    assert!(validate_action(r#"{"type":"set_value","element":2,"value":"你好"}"#).is_err());
    assert!(validate_action(r#"{"type":"set_value","element":2,"snapshot":"abc"}"#).is_err());
    let oversized = "字".repeat(1_001);
    assert!(validate_action(&format!(
        r#"{{"type":"set_value","element":2,"snapshot":"abc","value":"{oversized}"}}"#
    ))
    .is_err());
}

#[test]
fn validate_perform_requires_snapshot_binding_and_known_action() {
    assert!(validate_action(
        r#"{"type":"perform","element":4,"snapshot":"abc","action":"increment"}"#
    )
    .is_ok());
    assert!(validate_action(
        r#"{"type":"perform","element":4,"snapshot":"abc","action":"menu","duration_ms":1200}"#
    )
    .is_ok());
    assert!(validate_action(
        r#"{"type":"perform","element":4,"snapshot":"abc","action":"adjust","value":"0.7"}"#
    )
    .is_ok());
    assert!(validate_action(
        r#"{"type":"perform","element":4,"snapshot":"abc","action":"pinch","scale":2.0,"velocity":1.5}"#
    )
    .is_ok());
    assert!(validate_action(
        r#"{"type":"perform","element":4,"snapshot":"abc","action":"rotate","rotation":1.57}"#
    )
    .is_ok());

    // Snapshot binding is mandatory (same contract as set_value).
    assert!(
        validate_action(r#"{"type":"perform","snapshot":"abc","action":"increment"}"#).is_err()
    );
    assert!(validate_action(r#"{"type":"perform","element":4,"action":"increment"}"#).is_err());
    // Unknown verbs fail closed at validation, matching the runtime's
    // unsupported_perform_action.
    assert!(validate_action(
        r#"{"type":"perform","element":4,"snapshot":"abc","action":"levitate"}"#
    )
    .is_err());
    assert!(validate_action(r#"{"type":"perform","element":4,"snapshot":"abc"}"#).is_err());
}

#[test]
fn validate_perform_scopes_parameters_to_their_actions() {
    // value is exclusive to adjust — required there, rejected elsewhere.
    assert!(validate_action(
        r#"{"type":"perform","element":4,"snapshot":"abc","action":"adjust"}"#
    )
    .is_err());
    assert!(validate_action(
        r#"{"type":"perform","element":4,"snapshot":"abc","action":"increment","value":"5"}"#
    )
    .is_err());
    let oversized = "字".repeat(501);
    assert!(validate_action(&format!(
        r#"{{"type":"perform","element":4,"snapshot":"abc","action":"adjust","value":"{oversized}"}}"#
    ))
    .is_err());
    // duration_ms only for menu/force_press, bounded.
    assert!(validate_action(
        r#"{"type":"perform","element":4,"snapshot":"abc","action":"double_tap","duration_ms":500}"#
    )
    .is_err());
    assert!(validate_action(
        r#"{"type":"perform","element":4,"snapshot":"abc","action":"menu","duration_ms":10001}"#
    )
    .is_err());
    // pinch requires a bounded scale; rotate a bounded non-zero rotation.
    assert!(validate_action(
        r#"{"type":"perform","element":4,"snapshot":"abc","action":"pinch"}"#
    )
    .is_err());
    assert!(validate_action(
        r#"{"type":"perform","element":4,"snapshot":"abc","action":"pinch","scale":0.0}"#
    )
    .is_err());
    assert!(validate_action(
        r#"{"type":"perform","element":4,"snapshot":"abc","action":"rotate","rotation":0.0}"#
    )
    .is_err());
    assert!(validate_action(
        r#"{"type":"perform","element":4,"snapshot":"abc","action":"menu","scale":2.0}"#
    )
    .is_err());
    assert!(validate_action(
        r#"{"type":"perform","element":4,"snapshot":"abc","action":"toggle","velocity":1.0}"#
    )
    .is_err());
    assert!(validate_action(
        r#"{"type":"perform","element":4,"snapshot":"abc","action":"menu","pressure":1.0}"#
    )
    .is_err());
    assert!(validate_action(
        r#"{"type":"perform","element":4,"snapshot":"abc","action":"force_press","pressure":0.8,"duration_ms":900}"#
    )
    .is_ok());
}

#[test]
fn an_error_names_the_step_and_the_type() {
    assert_eq!(
        validate_agent_action_value(&json(r#"{"type":"levitate"}"#), 3),
        Err(r#"steps[3].action has unsupported type "levitate""#.to_string())
    );
}

#[test]
fn bundles_are_plain_names() {
    assert!(valid_bundle("com.apple.Preferences"));
    assert!(!valid_bundle(""));
    assert!(!valid_bundle("com apple"));
    assert!(!valid_bundle("../etc"));
    assert_eq!(system_app_bundle("Settings"), Some("com.apple.Preferences"));
    assert_eq!(system_app_bundle("no such app"), None);
}

/// One well-formed message for every type that is advertised, and for some that
/// are not.
fn samples() -> Vec<(&'static str, &'static str)> {
    vec![
        ("alert", r#"{"type":"alert","action":"accept"}"#),
        ("back", r#"{"type":"back"}"#),
        ("drag", r#"{"type":"drag","x1":0.5,"y1":0.5,"x2":0.5,"y2":0.1}"#),
        ("home", r#"{"type":"home"}"#),
        ("key", r#"{"type":"key","name":"return"}"#),
        ("keyboard", r#"{"type":"keyboard","action":"dismiss"}"#),
        ("launch_app", r#"{"type":"launch_app","bundle":"com.apple.Preferences"}"#),
        ("longpress", r#"{"type":"longpress","x":0.5,"y":0.5}"#),
        ("perform", r#"{"type":"perform","element":1,"snapshot":"s","action":"toggle"}"#),
        ("picker", r#"{"type":"picker","column":0,"value":"5"}"#),
        ("scroll", r#"{"type":"scroll","x":0.5,"y":0.5,"dy":80.0}"#),
        ("set_value", r#"{"type":"set_value","element":1,"snapshot":"s","value":"v"}"#),
        ("shortcut", r#"{"type":"shortcut","name":"home"}"#),
        ("swipe", r#"{"type":"swipe","x1":0.5,"y1":0.5,"x2":0.5,"y2":0.1}"#),
        ("tap", r#"{"type":"tap","x":0.5,"y":0.5}"#),
        ("tap_locator", r#"{"type":"tap_locator","locator":{"label":"OK"}}"#),
        ("text", r#"{"type":"text","text":"hi"}"#),
        ("down", r#"{"type":"down","x":0.5,"y":0.5}"#),
        ("up", r#"{"type":"up","x":0.5,"y":0.5}"#),
        ("uninstall", r#"{"type":"uninstall","bundle":"com.example.app"}"#),
        ("levitate", r#"{"type":"levitate"}"#),
    ]
}

#[test]
fn capability_catalogue_matches_the_dispatchers() {
    for name in capability_single_step_actions() {
        let sample = samples()
            .into_iter()
            .find(|(known, _)| *known == name)
            .unwrap_or_else(|| panic!("{name} has no sample"));
        let plan = direct_agent_plan(&json(sample.1));
        assert!(
            !matches!(plan, ControlPlan::Refuse(WdaControlOutcome::Unsupported)),
            "{name} is advertised and not carried out: {plan:?}"
        );
    }
    for (name, sample) in samples() {
        let plan = direct_agent_plan(&json(sample));
        let carried = !matches!(plan, ControlPlan::Refuse(WdaControlOutcome::Unsupported));
        assert_eq!(
            carried,
            capability_single_step_actions().contains(&name),
            "{name}"
        );
        assert_eq!(
            validate_agent_action_value(&json(sample), 0).is_ok(),
            capability_batch_actions().contains(&name),
            "{name}"
        );
    }
    for name in capability_batch_actions() {
        assert!(samples().iter().any(|(known, _)| *known == name), "{name}");
    }
    assert!(capability_mirror_actions().contains(&"tap"));
}

#[test]
fn a_message_becomes_the_plan_that_it_asks_for() {
    assert!(matches!(
        direct_agent_plan(&json(r#"{"type":"launch_app","name":" 设置 "}"#)),
        ControlPlan::LaunchApp { bundle } if bundle == "com.apple.Preferences"
    ));
    assert!(matches!(
        direct_agent_plan(&json(r#"{"type":"tap","label":"OK"}"#)),
        ControlPlan::TapLabel { label } if label == "OK"
    ));
    assert!(matches!(
        direct_agent_plan(&json(r#"{"type":"levitate"}"#)),
        ControlPlan::Refuse(WdaControlOutcome::Unsupported)
    ));
    assert!(matches!(
        direct_agent_plan(&json(r#"{"type":"perform","element":1,"snapshot":"s","action":"fly"}"#)),
        ControlPlan::Refuse(WdaControlOutcome::UnsupportedPerformAction)
    ));
}

#[test]
fn a_finished_call_tells_what_it_proves() {
    assert_eq!(finish_control(CallEnd::Done).outcome, WdaControlOutcome::Applied);
    assert!(finish_control(CallEnd::Done).actionable);
    let never = finish_control(CallEnd::NeverReached);
    assert_eq!(never.outcome, WdaControlOutcome::NotSent);
    assert!(!never.actionable);
    let failed = finish_control(CallEnd::Failed);
    assert_eq!(failed.outcome, WdaControlOutcome::Failed);
    assert!(failed.drop_session);
    let launch = direct_agent_plan(&json(r#"{"type":"launch_app","bundle":"com.example.app"}"#));
    assert_eq!(launch.finish(true, CallEnd::Done).outcome, WdaControlOutcome::Applied);
    assert_eq!(launch.finish(true, CallEnd::NeverReached).outcome, WdaControlOutcome::Failed);
    let home = direct_agent_plan(&json(r#"{"type":"home"}"#));
    assert_eq!(home.finish(true, CallEnd::NeverReached).outcome, WdaControlOutcome::NotSent);
}

#[test]
fn an_alert_button_must_be_there() {
    let buttons = Some(vec!["允许".to_string(), "不允许".to_string()]);
    assert!(matches!(
        alert_step(&Some("允许".to_string()), &None, &buttons),
        AlertStep::Press { name } if name == "允许"
    ));
    assert!(matches!(
        alert_step(&Some("也许".to_string()), &None, &buttons),
        AlertStep::Refuse(_)
    ));
    assert!(matches!(
        alert_step(&None, &Some("accept".to_string()), &None),
        AlertStep::Refuse(WdaControlOutcome::NoAlert)
    ));
    assert!(matches!(
        alert_step(&None, &Some("accept".to_string()), &buttons),
        AlertStep::Accept
    ));
    assert!(matches!(
        alert_step(&None, &Some("dismiss".to_string()), &buttons),
        AlertStep::Dismiss
    ));
}

fn labelled(label: &str) -> ElementRow {
    ElementRow {
        kind: "Button".to_string(),
        label: label.to_string(),
        ..Default::default()
    }
}

#[test]
fn a_label_must_name_one_row() {
    let rows = vec![labelled("a"), labelled("b"), labelled("b")];
    assert_eq!(unique_label(&rows, "a"), UniqueTarget::Row(0));
    assert_eq!(unique_label(&rows, "c"), UniqueTarget::NotFound);
    assert_eq!(unique_label(&rows, "b"), UniqueTarget::Ambiguous(vec![1, 2]));
    let locator = AgentElementLocator {
        label: Some("b".to_string()),
        identifier: None,
        kind: None,
        value: None,
        focused: None,
        enabled: None,
        visible: None,
    };
    assert_eq!(unique_locator(&rows, &locator), UniqueTarget::Ambiguous(vec![1, 2]));
    let rects = vec!["[0]".to_string(), "[1]".to_string(), "[2]".to_string()];
    let candidates = ambiguity_candidates(&rows, &vec![1, 2], &rects, "tok".to_string());
    assert_eq!(candidates.snapshot, "tok");
    let listed = value(&candidates.matches);
    assert_eq!(listed[0]["rect"], value("[1]"));
    assert_eq!(listed.as_array().unwrap().len(), 2);
}

#[test]
fn direct_control_deadline_is_server_monotonic_and_bounded() {
    let now = 7_000;
    // A remote browser's wall clock is audit-only and may differ.
    let valid = json(r#"{"type": "tap", "ttl_ms": 2000, "issued_at_ms": 1}"#);
    let deadline = direct_control_deadline(&valid, now).unwrap();
    assert_eq!(deadline - now, 2000);
    assert_eq!(
        direct_control_deadline(&json(r#"{"ttl_ms": 0}"#), now),
        Err(ControlFreshnessError::Invalid)
    );
    assert_eq!(
        direct_control_deadline(&json(r#"{"ttl_ms": 2501}"#), now),
        Err(ControlFreshnessError::Invalid)
    );
    assert_eq!(
        direct_control_deadline(&json("{}"), now),
        Err(ControlFreshnessError::Missing)
    );
}

#[test]
fn live_control_is_admitted_only_to_a_phone_that_can_be_driven() {
    let body = r#"{"type":"tap","x":0.5,"y":0.5,"ttl_ms":500}"#;
    let (message, deadline) = direct_control_admission(facts(true), body, 100).unwrap();
    assert_eq!(message.text_field("type"), Some("tap"));
    assert_eq!(deadline, 600);
    let status = |facts: DeviceFacts, body: &str| match direct_control_admission(facts, body, 0) {
        Ok(_) => 200,
        Err(reply) => reply.status,
    };
    assert_ne!(status(facts(false), body), 200);
    assert_ne!(status(facts(true), "{"), 200);
    let mut pending = facts(true);
    pending.pending = true;
    assert_ne!(status(pending, body), 200);
    let mut released = facts(true);
    released.released = true;
    assert_ne!(status(released, body), 200);
    let applied = direct_control_reply(&DirectEnd::Outcome {
        outcome: WdaControlOutcome::Applied,
        candidates: None,
    });
    assert_eq!(applied.status, 200);
    let late = direct_control_reply(&DirectEnd::DeadlinePassed { dispatched: true });
    assert_eq!(value(&late.body)["retry_safe"], false);
    let unsent = direct_control_reply(&DirectEnd::DeadlinePassed { dispatched: false });
    assert_eq!(value(&unsent.body)["retry_safe"], true);
}

fn tap_step() -> AgentActionStep {
    AgentActionStep::Action {
        action: json(r#"{"type":"tap","x":0.5,"y":0.5}"#),
        after_ms: 0,
    }
}

#[test]
fn a_batch_is_checked_as_a_whole() {
    assert!(validate_agent_actions(&vec![tap_step()]).is_ok());
    assert!(validate_agent_actions(&vec![]).is_err());
    let many: Vec<AgentActionStep> = (0..33).map(|_| tap_step()).collect();
    assert!(validate_agent_actions(&many).is_err());
    assert!(validate_agent_actions(&vec![AgentActionStep::Pause { ms: 0 }]).is_err());
    let wait = AgentActionStep::WaitFor {
        expect: AgentUiExpectation {
            application: None,
            present: vec![],
            absent: vec![],
        },
        timeout_ms: default_agent_actions_wait_ms(),
        poll_ms: default_agent_actions_poll_ms(),
    };
    assert!(validate_agent_actions(&vec![wait]).is_err());
    let huge = AgentActionStep::Action {
        action: json(r#"{"type":"levitate"}"#),
        after_ms: 0,
    };
    assert!(validate_agent_actions(&vec![tap_step(), huge]).is_err());
}

#[test]
fn a_batch_needs_a_directly_driven_phone() {
    assert!(agent_actions(100, Ok(vec![tap_step()]), facts(true)).is_ok());
    let refused = |size: usize, steps: Result<Vec<AgentActionStep>, String>, facts: DeviceFacts| {
        agent_actions(size, steps, facts).unwrap_err()
    };
    let mirrored = refused(100, Ok(vec![tap_step()]), facts(false));
    assert_eq!(mirrored.status, 409);
    assert!(mirrored.body.contains("batch_requires_direct_wda"));
    assert_eq!(refused(1_000_000, Ok(vec![tap_step()]), facts(true)).status, 400);
    assert_eq!(refused(10, Err("no steps".to_string()), facts(true)).status, 400);
    assert_eq!(actions_deadline(5), 75_005);
}

#[test]
fn a_long_request_is_refused_whatever_was_read_of_it() {
    assert!(actions_size_allowed(65_536));
    assert!(!actions_size_allowed(65_537));
    let read = agent_actions(65_537, Ok(vec![tap_step()]), facts(true)).unwrap_err();
    let unread = agent_actions(65_537, Err(String::new()), facts(true)).unwrap_err();
    assert_eq!(read.status, 400);
    assert!(read.body.contains("request body exceeds 65536 bytes"));
    assert_eq!(read.body, unread.body);
    assert!(agent_actions(65_536, Ok(vec![tap_step()]), facts(true)).is_ok());
}

#[test]
fn text_is_escaped_in_an_answer() {
    let raw = "q\" b\\ \u{8}\t\n\u{c}\r\u{1}\u{1f}\u{7f}/é";
    let reply = agent_actions(10, Err(raw.to_string()), facts(true)).unwrap_err();
    let escaped = "q\\\" b\\\\ \\b\\t\\n\\f\\r\\u0001\\u001f\u{7f}/é\"";
    assert!(reply.body.contains(escaped), "{}", reply.body);
}

fn capabilities(
    state: &AppState,
    config: CapabilityConfig,
    owner: Option<&str>,
    takeover: bool,
    now: u64,
) -> serde_json::Value {
    let takeover = if takeover { Some("1") } else { None };
    let reply = agent_capabilities(state, config, owner, takeover, now, 300_000);
    assert_eq!(reply.status, 200);
    value(&reply.body)
}

const DIRECT: CapabilityConfig = CapabilityConfig {
    direct: true,
    managed: false,
    pending: false,
};

const MIRROR: CapabilityConfig = CapabilityConfig {
    direct: false,
    managed: false,
    pending: false,
};

fn strings(value: &serde_json::Value) -> Vec<String> {
    value
        .as_array()
        .expect("array")
        .iter()
        .map(|v| v.as_str().expect("string").to_string())
        .collect()
}

#[test]
fn the_endpoint_advertises_exactly_the_closed_perform_set() {
    let json = capabilities(&AppState::new(0), DIRECT, None, false, 0);
    let advertised = strings(&json["supported"]["perform_actions"]);
    let expected: Vec<String> = perform_action_names().iter().map(|a| a.to_string()).collect();
    assert_eq!(advertised, expected, "endpoint returned a different set: {json}");
    assert!(advertised.iter().any(|a| a == "scroll_to_visible"));
    assert!(
        !advertised.iter().any(|a| a == "tap"),
        "a top-level action leaked into the perform set: {json}"
    );
}

#[test]
fn mirror_advertises_only_what_it_can_actually_carry() {
    let json = capabilities(&AppState::new(0), MIRROR, None, false, 0);
    assert_eq!(json["backend"], "mirror");
    assert_eq!(json["supported"]["element_tree"], false);
    assert!(strings(&json["supported"]["batch_actions"]).is_empty());
    assert!(strings(&json["supported"]["perform_actions"]).is_empty());
    assert_eq!(json["supported"]["observation"]["return_delta"], false);
    assert_eq!(json["supported"]["modes"], value(r#"["mirror"]"#));
    let single = strings(&json["supported"]["single_step_actions"]);
    assert!(single.iter().any(|a| a == "tap"), "{json}");
    for element_shaped in ["perform", "set_value", "tap_locator", "launch_app"] {
        assert!(
            !single.iter().any(|a| a == element_shaped),
            "mirror advertised {element_shaped}: {json}"
        );
    }

    // The refusals the advertisement is based on.
    let batch = agent_actions(100, Ok(vec![tap_step()]), facts(false)).unwrap_err();
    assert_eq!(batch.status, 409);
    assert!(batch.body.contains("batch_requires_direct_wda"), "{}", batch.body);
    let elements: Reply = agent_elements_refusal(facts(false)).unwrap();
    assert_eq!(elements.status, 409);
    assert!(elements.body.contains("backend_is_mirror"));
}

#[test]
fn direct_and_mirror_advertise_different_surfaces() {
    let direct = capabilities(&AppState::new(0), DIRECT, None, false, 0);
    let mirror = capabilities(&AppState::new(0), MIRROR, None, false, 0);
    assert_ne!(
        direct["supported"], mirror["supported"],
        "both backends advertised the same capabilities"
    );
    assert_eq!(direct["supported"]["element_tree"], true);
    assert!(!strings(&direct["supported"]["batch_actions"]).is_empty());
    assert!(strings(&direct["supported"]["single_step_actions"])
        .iter()
        .any(|a| a == "perform"));
}

#[test]
fn an_externally_managed_endpoint_advertises_no_lifecycle_modes() {
    let mut state = AppState::new(0);
    let json = capabilities(&state, DIRECT, None, false, 0);
    assert_eq!(json["recovery_owner"], "external");
    assert_eq!(json["supported"]["modes"], value("[]"));
    assert_eq!(json["supported"]["lifecycle_managed_here"], false);

    // The refusal that justifies it.
    let config = ModeConfig {
        direct: true,
        managed: false,
        pending: false,
        udid: None,
        setup_installed: true,
    };
    match agent_mode(&mut state, &config, r#"{"mode":"human"}"#, 0) {
        ModeStep::Refused(reply) => {
            assert_eq!(reply.status, 409);
            assert!(reply.body.contains("wda_is_externally_managed"));
        }
        other => panic!("must be refused: {other:?}"),
    }
}

/// The lease states, decided read-only. An expired record blocks nobody, and
/// the holder must be told about its own phone.
#[test]
fn lease_states_are_classified_without_touching_the_lease() {
    let mut state = AppState::new(0);
    let now = 1_000_000;

    // Anonymous caller, no lease.
    let json = capabilities(&state, DIRECT, None, false, now);
    assert_eq!(json["available"]["detail"]["ownership"], "free");

    state.owner = Some(PhoneOwner {
        name: "agent-a".to_string(),
        last_seen: now,
    });

    // The holder itself.
    let json = capabilities(&state, DIRECT, Some("agent-a"), false, now);
    assert_eq!(json["available"]["detail"]["ownership"], "self");
    assert_ne!(json["available"]["blocked_by"], "owned_by_other");

    // Somebody else.
    let json = capabilities(&state, DIRECT, Some("agent-b"), false, now);
    assert_eq!(json["available"]["detail"]["ownership"], "refused");
    assert_eq!(json["available"]["blocked_by"], "owned_by_other");
    assert_eq!(json["available"]["ok"], false);
    assert_eq!(json["available"]["detail"]["needs_owner_identity"], false);

    // An anonymous caller is REFUSED by a live lease, so this is a definite
    // false, not unknown. What would change it is naming itself.
    let json = capabilities(&state, DIRECT, None, false, now);
    assert_eq!(json["available"]["detail"]["ownership"], "refused");
    assert_eq!(json["available"]["ok"], false);
    assert_eq!(json["available"]["detail"]["needs_owner_identity"], true);

    // The lease must be untouched by all of that.
    let held = state.owner.as_ref().unwrap();
    assert_eq!(held.name, "agent-a");
    assert_eq!(held.last_seen, now, "the lease was refreshed");

    // An explicit takeover would be admitted, but the phone is not this
    // caller's yet — saying `self` would hide the eviction.
    let json = capabilities(&state, DIRECT, Some("agent-b"), true, now);
    assert_eq!(
        json["available"]["detail"]["ownership"], "takeover_permitted",
        "a takeover against another holder reported as self: {json}"
    );
    let still = state.owner.as_ref().unwrap();
    assert_eq!(still.name, "agent-a", "a capability probe performed the takeover");
    assert_eq!(still.last_seen, now);

    // The holder's own takeover header is still just `self`.
    let json = capabilities(&state, DIRECT, Some("agent-a"), true, now);
    assert_eq!(json["available"]["detail"]["ownership"], "self");

    // An expired record blocks nobody.
    let later = now + 301_000;
    let json = capabilities(&state, DIRECT, Some("agent-b"), false, later);
    assert_eq!(json["available"]["detail"]["ownership"], "expired");
    assert_ne!(json["available"]["blocked_by"], "owned_by_other");
    // And an anonymous caller is not blocked by a dead lease either.
    let json = capabilities(&state, DIRECT, None, false, later);
    assert_eq!(json["available"]["detail"]["ownership"], "expired");
    assert_eq!(json["available"]["detail"]["needs_owner_identity"], false);
}

/// Discovery must not wake the phone or take it from whoever holds it.
#[test]
fn capabilities_contacts_no_wda_and_takes_no_lease() {
    let state = AppState::new(0);
    let owner_before = state.owner.as_ref().map(|o| o.name.clone());
    let reply = agent_capabilities(&state, DIRECT, None, None, 0, 300_000);
    assert_eq!(reply.status, 200);
    let json = value(&reply.body);
    assert_eq!(
        state.owner.as_ref().map(|o| o.name.clone()),
        owner_before,
        "capability discovery touched the owner lease"
    );
    assert_eq!(json["available"]["evidence"], "cache");
}

/// `supported` is static and must not collapse just because the phone is
/// unavailable right now — that separation is the point of the endpoint.
#[test]
fn supported_capabilities_survive_an_unavailable_phone() {
    let mut state = AppState::new(0);
    state.released = true;
    let json = capabilities(&state, DIRECT, None, false, 0);
    assert_eq!(json["available"]["ok"], false);
    assert_eq!(json["available"]["blocked_by"], "released");
    let actions = json["supported"]["single_step_actions"].as_array().unwrap();
    assert!(
        actions.iter().any(|a| a == "tap"),
        "supported collapsed with availability: {json}"
    );
    assert!(json["supported"]["batch_actions"]
        .as_array()
        .is_some_and(|batch| batch.iter().any(|a| a == "perform")));
}

#[test]
fn a_phone_in_transition_is_not_available() {
    let mut state = AppState::new(0);
    let token = state.lifecycle.try_begin_releasing().unwrap();
    let json = capabilities(&state, DIRECT, None, false, 0);
    assert_eq!(json["available"]["ok"], false);
    assert!(state.lifecycle.finish_releasing(token));
    assert_eq!(WdaLifecycle::new().current(), WdaLifecycleTransition::Active);
}
