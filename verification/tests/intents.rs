//! The registry of intents, the calls made through it, and their errors.

use iphone_use::intent::{
    agent_intent, choose_intent, intent_gate, read_intent_call, refusal_response, IntentEnd,
    IntentRefusal,
};
use iphone_use::intents::{
    agent_intents, correlation_id, intent_deep_link, intent_error_parts, intent_error_response,
    load_intents_registry, new_intent_correlation_id, parse_intents_registry,
    registry_size_allowed, valid_bridge_shortcut_name, valid_intent_name, IntentError,
    IntentsRegistry, IntentsRegistryLoad, RegistryFile,
};
use iphone_use::json::Json;
use iphone_use::percent::percent_encode_component;
use iphone_use::state::AppState;

fn json(text: &str) -> Json {
    Json::read(text).unwrap()
}

fn value(text: &str) -> serde_json::Value {
    serde_json::from_str(text).unwrap()
}

fn parts(error: &IntentError) -> (u16, serde_json::Value) {
    let (status, body) = intent_error_parts(error);
    (status, value(&body))
}

fn loaded(load: IntentsRegistryLoad) -> IntentsRegistry {
    match load {
        IntentsRegistryLoad::Loaded(registry) => registry,
        _ => panic!("the registry must load"),
    }
}

#[test]
fn intents_registry_missing_file_is_missing_not_an_error() {
    assert!(matches!(
        load_intents_registry(&RegistryFile::Missing),
        IntentsRegistryLoad::Missing
    ));
}

#[test]
fn intents_registry_valid_file_parses() {
    let file = RegistryFile::Text(
        r#"{"version":3,"bridge":{"name":"iU Bridge","required_version":3},
                "intents":[{"name":"ping","summary":"liveness","side_effect":"none",
                            "min_bridge_version":3,"status":"validated"}]}"#
            .to_string(),
    );
    let registry = loaded(load_intents_registry(&file));
    assert_eq!(registry.bridge_name, "iU Bridge");
    assert_eq!(registry.bridge_required_version, 3);
    assert_eq!(registry.intents.len(), 1);
    let ping = &registry.intents[0];
    assert_eq!(ping.name, "ping");
    assert_eq!(ping.summary, "liveness");
    assert_eq!(ping.side_effect, "none");
    assert_eq!(ping.min_bridge_version, 3);
    assert_eq!(ping.status, "validated");
    assert_eq!(ping.confirm, "none");
    assert_eq!(ping.args_schema, "{}");
    assert_eq!(ping.returns_schema, "{}");
}

#[test]
fn intents_registry_skips_malformed_entries_and_duplicates() {
    let registry = loaded(parse_intents_registry(&json(
        r#"{
            "version": 3,
            "bridge": {"name": "iU Bridge", "required_version": 3},
            "intents": [
                {"name": "battery", "side_effect": "none"},
                {"name": "battery", "side_effect": "read"},
                {"name": "no side effect declared"},
                {"name": "bad_side", "side_effect": "mutate"},
                {"name": "坏名字", "side_effect": "none"},
                {"name": "bad_schema", "side_effect": "none", "args_schema": "not an object"},
                {"name": "bad_confirm", "side_effect": "write", "confirm": "maybe"},
                {"name": "ok_write", "side_effect": "write", "confirm": "operator",
                 "min_bridge_version": 3, "permission": "Messages", "status": "planned"}
            ]
        }"#,
    )));
    let names: Vec<&str> = registry
        .intents
        .iter()
        .map(|entry| entry.name.as_str())
        .collect();
    assert_eq!(names, vec!["battery", "ok_write"]);
    // First occurrence wins on duplicates.
    assert_eq!(registry.intents[0].side_effect, "none");
    let ok_write = &registry.intents[1];
    assert_eq!(ok_write.confirm, "operator");
    assert_eq!(ok_write.min_bridge_version, 3);
    assert_eq!(ok_write.permission.as_deref(), Some("Messages"));
    assert_eq!(ok_write.status, "planned");
}

#[test]
fn intents_registry_oversized_file_fails_closed() {
    assert!(registry_size_allowed(256 * 1024));
    assert!(!registry_size_allowed(256 * 1024 + 1));
    assert!(matches!(
        load_intents_registry(&RegistryFile::Large { bytes: 256 * 1024 + 1 }),
        IntentsRegistryLoad::Unreadable(_)
    ));
}

#[test]
fn intents_registry_invalid_json_fails_closed() {
    assert!(matches!(
        load_intents_registry(&RegistryFile::Text("{not json".to_string())),
        IntentsRegistryLoad::Unreadable(_)
    ));
}

#[test]
fn intents_registry_requires_a_bridge_name() {
    assert!(matches!(
        parse_intents_registry(&json(r#"{"version": 3, "intents": []}"#)),
        IntentsRegistryLoad::Unreadable(_)
    ));
}

#[test]
fn a_registry_that_cannot_be_read_says_why() {
    let stat = load_intents_registry(&RegistryFile::StatFailed("denied".to_string()));
    assert!(matches!(&stat, IntentsRegistryLoad::Unreadable(reason) if reason.contains("denied")));
    let read = load_intents_registry(&RegistryFile::ReadFailed("broken".to_string()));
    assert!(matches!(&read, IntentsRegistryLoad::Unreadable(reason) if reason.contains("broken")));
    let text = load_intents_registry(&RegistryFile::Text("[1,".to_string()));
    assert!(matches!(&text, IntentsRegistryLoad::Unreadable(reason) if reason.contains("EOF")));
}

#[test]
fn the_registry_is_listed_with_its_schemas() {
    let load = parse_intents_registry(&json(
        r#"{"bridge":{"name":"B","required_version":2},"intents":[
            {"name":"echo","side_effect":"none","args_schema":{"text":"string"}}]}"#,
    ));
    let reply = agent_intents(&load, "/r.json");
    assert_eq!(reply.status, 200);
    let body = value(&reply.body);
    assert_eq!(body["intents"][0]["name"], "echo");
    assert_eq!(body["intents"][0]["args_schema"]["text"], "string");
    let missing = agent_intents(&IntentsRegistryLoad::Missing, "/r.json");
    assert_eq!(missing.status, 200);
    assert!(missing.body.contains("/r.json"));
    assert_eq!(value(&missing.body)["intents"].as_array().unwrap().len(), 0);
}

#[test]
fn names_are_plain_and_short() {
    assert!(valid_intent_name("send_message"));
    assert!(!valid_intent_name(""));
    assert!(!valid_intent_name("坏名字"));
    assert!(!valid_intent_name("no side effect"));
    assert!(valid_bridge_shortcut_name("iU Bridge"));
    assert!(!valid_bridge_shortcut_name(""));
    assert!(!valid_bridge_shortcut_name("a\nb"));
}

#[test]
fn percent_encoding_is_rfc3986_component_strict() {
    assert_eq!(percent_encode_component("AZaz09-._~"), "AZaz09-._~");
    assert_eq!(
        percent_encode_component("a b&c=你"),
        "a%20b%26c%3D%E4%BD%A0"
    );
    assert_eq!(percent_encode_component("?#/+%"), "%3F%23%2F%2B%25");
}

#[test]
fn four_byte_and_two_byte_characters_are_encoded_whole() {
    assert_eq!(percent_encode_component("é"), "%C3%A9");
    assert_eq!(percent_encode_component("😀"), "%F0%9F%98%80");
    assert_eq!(percent_decode("%F0%9F%98%80"), "😀");
}

fn percent_decode(input: &str) -> String {
    let bytes = input.as_bytes();
    let mut out = Vec::new();
    let mut i = 0;
    while i < bytes.len() {
        if bytes[i] == b'%' {
            let hex = std::str::from_utf8(&bytes[i + 1..i + 3]).unwrap();
            out.push(u8::from_str_radix(hex, 16).unwrap());
            i += 3;
        } else {
            out.push(bytes[i]);
            i += 1;
        }
    }
    String::from_utf8(out).unwrap()
}

#[test]
fn intent_deep_link_encodes_cjk_and_specials_and_round_trips() {
    let args = r#"{"text": "你好 world &=?#+%\"", "count": 3}"#;
    let url = intent_deep_link("iU Bridge", "send_message", "intent-00ff", args);
    let prefix = "shortcuts://run-shortcut?name=iU%20Bridge&input=text&text=";
    assert!(url.starts_with(prefix), "unexpected url: {url}");
    let encoded = &url[prefix.len()..];
    // The encoded payload must contain only unreserved chars and %XX —
    // no raw separators, spaces, quotes, or non-ASCII may leak through.
    assert!(encoded
        .chars()
        .all(|c| c.is_ascii_alphanumeric() || "-._~%".contains(c)));
    let decoded = value(&percent_decode(encoded));
    assert_eq!(decoded["verb"], "send_message");
    assert_eq!(decoded["id"], "intent-00ff");
    assert_eq!(decoded["args"], value(args));
}

#[test]
fn intent_correlation_ids_are_prefixed_hex_and_distinct() {
    let a = new_intent_correlation_id(1);
    let b = new_intent_correlation_id(1);
    assert!(a.starts_with("intent-"));
    assert_eq!(a.len(), "intent-".len() + 16);
    assert!(a["intent-".len()..].chars().all(|c| c.is_ascii_hexdigit()));
    assert_ne!(a, b);
}

#[test]
fn without_chance_a_call_is_named_by_the_clock() {
    assert_eq!(
        correlation_id(&Some(vec![0, 1, 2, 3, 0xfc, 0xfd, 0xfe, 0xff]), 7),
        "intent-00010203fcfdfeff"
    );
    let clocked = correlation_id(&None, 0x1234);
    assert_eq!(clocked, "intent-0000000000001234");
}

#[test]
fn intent_error_taxonomy_is_honest() {
    let (status, body) = parts(&IntentError::NotFound {
        name: "nope".to_string(),
        known: vec!["battery".to_string()],
        registry_hint: None,
    });
    assert_eq!(status, 404);
    assert_eq!(body["error"], "intent_not_found");
    assert_eq!(body["outcome"], "not_sent");
    assert_eq!(body["retry_safe"], true);
    assert_eq!(body["known"], value(r#"["battery"]"#));

    let (status, body) = parts(&IntentError::BridgeUnavailable {
        reason: "down".to_string(),
    });
    assert_eq!(status, 503);
    assert_eq!(body["error"], "intent_bridge_unavailable");
    assert_eq!(body["outcome"], "not_sent");
    assert_eq!(body["retry_safe"], true);
    // devicectl is a hint only — never auto-dispatched.
    assert_eq!(body["fallback"], "devicectl");

    let (status, body) = parts(&IntentError::NotSent);
    assert_eq!(status, 408);
    assert_eq!(body["outcome"], "not_sent");
    assert_eq!(body["retry_safe"], true);
    assert_eq!(body["fallback"], "devicectl");

    let (status, body) = parts(&IntentError::DispatchTimeout {
        id: "intent-1".to_string(),
    });
    assert_eq!(status, 504);
    assert_eq!(body["error"], "intent_timeout");
    assert_eq!(body["outcome"], "unknown");
    assert_eq!(body["retry_safe"], false);
    assert_eq!(body["result_path"], "/agent/inbox");

    let (status, body) = parts(&IntentError::DispatchFailed {
        id: "intent-1".to_string(),
        detail: "boom".to_string(),
    });
    assert_eq!(status, 502);
    assert_eq!(body["outcome"], "unknown");
    assert_eq!(body["retry_safe"], false);

    let (status, body) = parts(&IntentError::OperatorConfirmationRequired {
        name: "send_message".to_string(),
    });
    assert_eq!(status, 403);
    assert_eq!(body["outcome"], "not_sent");
    assert_eq!(body["retry_safe"], true);

    let (status, body) = parts(&IntentError::ArgsTooLarge { bytes: 4096 });
    assert_eq!(status, 400);
    assert_eq!(body["outcome"], "not_sent");
    assert_eq!(body["retry_safe"], true);

    let (status, body) = parts(&IntentError::InvalidRequest {
        detail: "x".to_string(),
    });
    assert_eq!(status, 400);
    assert_eq!(body["outcome"], "not_sent");
    assert_eq!(body["retry_safe"], true);
}

#[test]
fn an_intent_error_is_answered_with_its_parts() {
    let error = IntentError::ArgsTooLarge { bytes: 4096 };
    let (status, body) = intent_error_parts(&error);
    let reply = intent_error_response(&error);
    assert_eq!(reply.status, status);
    assert_eq!(reply.body, body);
}

fn registry() -> IntentsRegistryLoad {
    parse_intents_registry(&json(
        r#"{"bridge":{"name":"iU Bridge","required_version":3},"intents":[
            {"name":"ping","side_effect":"none"},
            {"name":"send","side_effect":"write","confirm":"operator"}]}"#,
    ))
}

#[test]
fn only_a_curated_intent_is_chosen() {
    let call = read_intent_call(r#"{"name":"ping","args":{"a":1}}"#).unwrap();
    assert_eq!(call.name, "ping");
    assert_eq!(call.args, r#"{"a":1}"#);
    let dispatch = choose_intent(call, &registry(), "/r.json").unwrap();
    assert_eq!(dispatch.bridge, "iU Bridge");
    assert_eq!(dispatch.side_effect, "none");
    assert!(dispatch
        .link("intent-1")
        .starts_with("shortcuts://run-shortcut?name=iU%20Bridge&input=text&text="));

    let unknown = read_intent_call(r#"{"name":"rm_rf"}"#).unwrap();
    assert!(matches!(
        choose_intent(unknown, &registry(), "/r.json"),
        Err(IntentError::NotFound { known, .. }) if known == vec!["ping", "send"]
    ));
    let unconfirmed = read_intent_call(r#"{"name":"send"}"#).unwrap();
    assert!(matches!(
        choose_intent(unconfirmed, &registry(), "/r.json"),
        Err(IntentError::OperatorConfirmationRequired { .. })
    ));
    let confirmed = read_intent_call(r#"{"name":"send","operator_confirmed":true}"#).unwrap();
    assert!(choose_intent(confirmed, &registry(), "/r.json").is_ok());
    let unregistered = read_intent_call(r#"{"name":"ping"}"#).unwrap();
    assert!(matches!(
        choose_intent(unregistered, &IntentsRegistryLoad::Missing, "/r.json"),
        Err(IntentError::NotFound { registry_hint: Some(_), .. })
    ));
}

#[test]
fn a_call_that_is_not_a_call_is_refused() {
    assert!(matches!(
        read_intent_call("nonsense"),
        Err(IntentError::InvalidRequest { .. })
    ));
    assert!(matches!(
        read_intent_call(r#"{"args":{}}"#),
        Err(IntentError::InvalidRequest { .. })
    ));
    let long = "x".repeat(3000);
    let body = format!(r#"{{"name":"ping","args":{{"t":"{long}"}}}}"#);
    assert!(matches!(
        read_intent_call(&body),
        Err(IntentError::ArgsTooLarge { .. })
    ));
}

#[test]
fn a_call_needs_a_phone_that_can_be_driven() {
    let mut state = AppState::new(0);
    assert!(matches!(
        intent_gate(&mut state, true, true, true, 5, 100),
        Some(IntentRefusal::NoTarget)
    ));
    assert!(matches!(
        intent_gate(&mut state, true, false, false, 5, 100),
        Some(IntentRefusal::Error(IntentError::BridgeUnavailable { .. }))
    ));
    assert!(matches!(
        intent_gate(&mut state, true, false, true, 100, 100),
        Some(IntentRefusal::Error(IntentError::NotSent))
    ));
    assert!(intent_gate(&mut state, true, false, true, 5, 100).is_none());
    state.released = true;
    let refused = intent_gate(&mut state, true, false, true, 5, 100).unwrap();
    assert_eq!(refusal_response(&refused).status, 503);
}

#[test]
fn a_call_is_answered_by_how_far_it_came() {
    let call = read_intent_call(r#"{"name":"ping"}"#).unwrap();
    let dispatch = choose_intent(call, &registry(), "/r.json").unwrap();
    let opened = agent_intent(&dispatch, "intent-9", &IntentEnd::Opened);
    assert_eq!(opened.status, 200);
    assert_eq!(value(&opened.body)["id"], "intent-9");
    let failed = agent_intent(&dispatch, "intent-9", &IntentEnd::Failed { detail: "x".to_string() });
    assert_eq!(failed.status, 502);
    assert_eq!(value(&failed.body)["retry_safe"], false);
    let late = agent_intent(&dispatch, "intent-9", &IntentEnd::DeadlinePassed { dispatched: true });
    assert_eq!(late.status, 504);
    assert_eq!(value(&late.body)["retry_safe"], false);
    let unsent = agent_intent(&dispatch, "intent-9", &IntentEnd::DeadlinePassed { dispatched: false });
    assert_eq!(unsent.status, 408);
    assert_eq!(value(&unsent.body)["retry_safe"], true);
    let never = agent_intent(&dispatch, "intent-9", &IntentEnd::NotSent);
    assert_eq!(value(&never.body)["retry_safe"], true);
}
