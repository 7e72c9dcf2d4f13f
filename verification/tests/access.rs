//! Who may ask, who drives, and what a browser session looks like.

use iphone_use::auth::{
    admit_change, agent_auth, auth_response, bearer_credential, browser_or_agent_auth,
    check_bearer, ct_eq, has_phone_control_header, AgentAuth, AuthLimiter,
};
use iphone_use::ice::{build_ice_servers, ice_servers_json, turn_creds, IceState};
use iphone_use::inbox::Inbox;
use iphone_use::lease::{Holder, LeaseState};
use iphone_use::owner::{
    agent_owner, arbitrate_owner, claim_phone_owner, owner_claim_from_headers, owner_status,
    valid_owner_name, OwnerClaim, PhoneOwner,
};
use iphone_use::reply::{binary_headers, with_security_headers, Media, Reply};
use iphone_use::session::{
    clear_session_cookie, is_authed, login_destination, login_form, login_gate, login_open,
    login_submit, logout, make_session_cookie, phone, render_login, request_is_https, root,
    session_cookie, setup, LoginFault, LoginStep,
};
use iphone_use::socket::{is_same_origin, new_session_id, ws_upgrade, Origin};

const AUTH_MAX_FAILURES: u32 = 5;

fn value(text: &str) -> serde_json::Value {
    serde_json::from_str(text).unwrap()
}

fn named(name: &str) -> OwnerClaim {
    OwnerClaim::Named(name.to_string())
}

// The lease makes the second of two sessions hear "no, and here is who" instead
// of stepping on the first.
#[test]
fn a_named_client_takes_the_lease_and_others_are_refused_until_it_lapses() {
    let lease = 300_000;
    let t0 = 5_000_000;
    let mut slot: Option<PhoneOwner> = None;
    assert!(arbitrate_owner(&mut slot, &named("bank-flow"), t0, lease).is_ok());
    let refused = arbitrate_owner(&mut slot, &named("tester"), t0 + 10_000, lease)
        .expect_err("a second session must be refused");
    assert_eq!(refused.owner, "bank-flow");
    assert_eq!(refused.lease_remaining_secs, 290);
    assert!(
        arbitrate_owner(&mut slot, &OwnerClaim::Anonymous, t0 + 10_000, lease).is_err(),
        "an unnamed client is refused while someone holds the phone"
    );
    // The owner keeps refreshing.
    assert!(arbitrate_owner(&mut slot, &named("bank-flow"), t0 + 200_000, lease).is_ok());
    assert!(arbitrate_owner(&mut slot, &named("tester"), t0 + 480_000, lease).is_err());
    // ... and once it stops, the lease lapses and the next client takes it.
    assert!(arbitrate_owner(&mut slot, &named("tester"), t0 + 501_000, lease).is_ok());
    assert_eq!(slot.as_ref().map(|o| o.name.as_str()), Some("tester"));
}

#[test]
fn anonymous_clients_never_hold_a_lease_and_a_takeover_replaces_one() {
    let lease = 300_000;
    let t0 = 5_000_000;
    let mut slot: Option<PhoneOwner> = None;
    assert!(arbitrate_owner(&mut slot, &OwnerClaim::Anonymous, t0, lease).is_ok());
    assert!(slot.is_none(), "legacy clients leave the phone unowned");
    assert!(arbitrate_owner(&mut slot, &named("a"), t0, lease).is_ok());
    let takeover = OwnerClaim::Takeover("b".to_string());
    assert!(arbitrate_owner(&mut slot, &takeover, t0 + 1_000, lease).is_ok());
    assert_eq!(slot.as_ref().map(|o| o.name.as_str()), Some("b"));
    assert!(arbitrate_owner(&mut slot, &named("a"), t0 + 2_000, lease).is_err());
}

#[test]
fn owner_names_are_short_printable_ascii() {
    assert!(valid_owner_name("bank-flow"));
    assert!(valid_owner_name("mcp 12345"));
    assert!(!valid_owner_name(""));
    assert!(!valid_owner_name("a\"b"));
    assert!(!valid_owner_name("名字"));
    assert!(!valid_owner_name(&"x".repeat(65)));
}

#[test]
fn a_claim_is_read_from_its_headers() {
    assert!(matches!(owner_claim_from_headers(None, None), Ok(OwnerClaim::Anonymous)));
    assert!(matches!(
        owner_claim_from_headers(Some("a"), None),
        Ok(OwnerClaim::Named(name)) if name == "a"
    ));
    assert!(matches!(
        owner_claim_from_headers(Some("a"), Some("1")),
        Ok(OwnerClaim::Takeover(name)) if name == "a"
    ));
    assert_eq!(owner_claim_from_headers(Some("名"), None).unwrap_err().status, 400);
    let mut slot: Option<PhoneOwner> = None;
    assert!(claim_phone_owner(&mut slot, Some("a"), None, 0, 300_000).is_ok());
    let refused = claim_phone_owner(&mut slot, Some("b"), None, 1_000, 300_000).unwrap_err();
    assert_eq!(refused.status, 409);
    assert_eq!(value(&refused.body)["owner"], "a");
}

#[test]
fn a_session_gives_the_phone_back() {
    let mut slot: Option<PhoneOwner> = None;
    assert!(claim_phone_owner(&mut slot, Some("a"), None, 0, 300_000).is_ok());
    let (name, left) = owner_status(&slot, 10_000, 300_000);
    assert_eq!(name.as_deref(), Some("a"));
    assert_eq!(left, 290);
    let stranger = agent_owner(&mut slot, r#"{"release":true}"#, Some("b"), None, 0, 300_000);
    assert_ne!(stranger.status, 200);
    assert!(slot.is_some());
    let own = agent_owner(&mut slot, r#"{"release":true}"#, Some("a"), None, 0, 300_000);
    assert_eq!(own.status, 200, "{}", own.body);
    assert!(slot.is_none());
    assert_eq!(owner_status(&slot, 0, 300_000).0, None);
}

#[test]
fn auth_limiter_not_locked_initially() {
    let limiter = AuthLimiter::new();
    assert!(!limiter.is_locked(0));
    assert_eq!(limiter.failures, 0);
}

#[test]
fn auth_limiter_locks_after_max_failures() {
    let mut limiter = AuthLimiter::new();
    for _ in 0..AUTH_MAX_FAILURES {
        assert!(!limiter.is_locked(0), "should not lock before reaching max");
        limiter.record_failure(0);
    }
    assert!(limiter.is_locked(0), "should be locked after max failures");
    assert!(limiter.is_locked(29_999));
    assert!(!limiter.is_locked(30_000));
}

#[test]
fn auth_limiter_four_failures_not_locked() {
    let mut limiter = AuthLimiter::new();
    for _ in 0..(AUTH_MAX_FAILURES - 1) {
        limiter.record_failure(0);
    }
    assert!(
        !limiter.is_locked(0),
        "4 failures should not trigger lockout (max=5)"
    );
}

#[test]
fn auth_limiter_success_resets_counter_and_lifts_lockout() {
    let mut limiter = AuthLimiter::new();
    for _ in 0..AUTH_MAX_FAILURES {
        limiter.record_failure(0);
    }
    assert!(limiter.is_locked(0));
    limiter.record_success();
    assert!(!limiter.is_locked(0), "success should lift active lockout");
    assert_eq!(limiter.failures, 0, "success should reset failure counter");
}

#[test]
fn a_right_attempt_starts_the_count_anew() {
    let mut limiter = AuthLimiter::new();
    for _ in 0..7 {
        limiter.record_failure(1_000);
    }
    assert!(limiter.is_locked(2_000));
    limiter.record_success();
    for now in [2_000, 2_001, 90_000, u64::MAX] {
        assert!(!limiter.is_locked(now));
        limiter.record_failure(now);
        assert!(!limiter.is_locked(now));
    }
    limiter.record_failure(100_000);
    assert!(limiter.is_locked(129_999));
    assert!(!limiter.is_locked(130_000));
    // At the end of the clock the door stays closed.
    limiter.record_failure(u64::MAX - 1);
    assert!(limiter.is_locked(u64::MAX - 1));
}

#[test]
fn auth_limiter_lockout_expires_after_duration() {
    let now = 60_000;
    let mut limiter = AuthLimiter::new();
    // A lockout that already expired.
    limiter.failures = AUTH_MAX_FAILURES;
    limiter.locked_until = Some(now - 1_000);
    assert!(
        !limiter.is_locked(now),
        "expired lockout should not block requests"
    );
}

#[test]
fn a_bearer_is_compared_with_the_token_or_else_the_password() {
    assert_eq!(bearer_credential(Some(b"Bearer  abc ")).as_deref(), Some(&b"abc"[..]));
    assert_eq!(bearer_credential(Some(b"Basic abc")), None);
    assert!(ct_eq(b"same", b"same"));
    assert!(!ct_eq(b"same", b"diff"));
    assert!(!ct_eq(b"same", b"longer"));
    assert!(check_bearer(Some(b"t"), Some(b"p"), Some(b"Bearer t")));
    assert!(!check_bearer(Some(b"t"), Some(b"p"), Some(b"Bearer p")));
    assert!(check_bearer(None, Some(b"p"), Some(b"Bearer p")));
    assert!(check_bearer(None, None, None));
}

#[test]
fn a_locked_door_tries_no_credential() {
    let mut limiter = AuthLimiter::new();
    for _ in 0..5 {
        let auth = agent_auth(&mut limiter, None, Some(b"p"), Some(b"Bearer x"), 0);
        assert_eq!(auth, AgentAuth::Denied);
    }
    assert_eq!(
        agent_auth(&mut limiter, None, Some(b"p"), Some(b"Bearer p"), 1),
        AgentAuth::Locked
    );
    assert_eq!(
        agent_auth(&mut limiter, None, Some(b"p"), Some(b"Bearer p"), 30_000),
        AgentAuth::Granted
    );
    assert_eq!(limiter.failures, 0);
    assert_eq!(
        browser_or_agent_auth(true, &mut limiter, None, Some(b"p"), None, 0),
        AgentAuth::Granted
    );
    assert_eq!(auth_response(AgentAuth::Locked).unwrap().status, 429);
    assert_eq!(auth_response(AgentAuth::Denied).unwrap().status, 401);
    assert!(auth_response(AgentAuth::Granted).is_none());
}

#[test]
fn a_change_needs_the_header_that_a_foreign_page_cannot_set() {
    assert!(has_phone_control_header(Some("1")));
    assert!(!has_phone_control_header(None));
    assert!(admit_change(AgentAuth::Granted, Some("1")).is_none());
    assert_eq!(admit_change(AgentAuth::Granted, None).unwrap().status, 403);
    assert_eq!(admit_change(AgentAuth::Denied, Some("1")).unwrap().status, 401);
}

#[test]
fn the_last_to_ask_holds_the_pointer() {
    let mut state = LeaseState::new();
    assert!(!state.allows_injection());
    let viewer = state.acquire(Holder::Viewer("v".to_string()), 0);
    assert!(state.allows_injection());
    let agent = state.acquire(Holder::Agent("a".to_string()), 1);
    state.release_if_current(&viewer);
    assert!(state.allows_injection(), "an old lease must not end a newer one");
    state.release_if_current(&agent);
    assert!(!state.allows_injection());
    state.release_if_current(&agent);
    assert!(!state.allows_injection());
    // An old grant of the same holder is worth as little.
    let first = state.acquire(Holder::Agent("a".to_string()), 2);
    let second = state.acquire(Holder::Agent("a".to_string()), 2);
    state.release_if_current(&first);
    assert!(state.allows_injection());
    state.release_if_current(&second);
    assert!(!state.allows_injection());
}

#[test]
fn ice_servers_stun_only_by_default() {
    let servers = build_ice_servers(None, None, None);
    assert_eq!(servers.len(), 1);
    assert_eq!(servers[0].urls[0], "stun:stun.l.google.com:19302");
}

#[test]
fn ice_servers_with_env_turn() {
    let servers = build_ice_servers(
        Some("turn:turn.example.com:3478,turns:turn.example.com:5349".to_string()),
        Some("user".to_string()),
        Some("pass".to_string()),
    );
    assert_eq!(servers.len(), 2);
    assert_eq!(servers[1].urls.len(), 2);
    assert_eq!(servers[1].username, "user");
    assert_eq!(servers[1].credential, "pass");
}

#[test]
fn ice_servers_empty_turn_urls_ignored() {
    let servers = build_ice_servers(Some("   ".to_string()), None, None);
    assert_eq!(servers.len(), 1);
}

#[test]
fn ice_json_normalizes_to_array_stun() {
    let servers = build_ice_servers(None, None, None);
    let json = ice_servers_json(&servers);
    let v = value(&json);
    assert!(v["iceServers"].is_array());
    assert_eq!(
        v["iceServers"][0]["urls"][0],
        "stun:stun.l.google.com:19302"
    );
    // No username/credential on a bare STUN entry.
    assert!(v["iceServers"][0].get("username").is_none());
}

#[test]
fn ice_json_includes_turn_creds() {
    let servers = build_ice_servers(
        Some("turn:t.example:3478".to_string()),
        Some("u".to_string()),
        Some("c".to_string()),
    );
    let json = ice_servers_json(&servers);
    let v = value(&json);
    assert_eq!(v["iceServers"][1]["username"], "u");
    assert_eq!(v["iceServers"][1]["credential"], "c");
}

#[test]
fn relay_credentials_are_for_sessions_only() {
    let state = IceState::new(build_ice_servers(None, None, None));
    assert_eq!(state.servers().len(), 1);
    assert_eq!(turn_creds(true, &state).body, state.json());
    assert_eq!(turn_creds(false, &state).status, 401);
}

#[test]
fn session_cookie_parsing() {
    assert_eq!(
        session_cookie(Some("foo=bar; phone_session=abc.def.ghi; baz=qux")),
        Some("abc.def.ghi".to_string())
    );
}

#[test]
fn session_cookie_absent() {
    assert_eq!(session_cookie(Some("foo=bar")), None);
    assert_eq!(session_cookie(None), None);
}

#[test]
fn a_session_cookie_is_read_back_and_cleared() {
    let cookie = make_session_cookie("abc", 60, true);
    assert!(cookie.starts_with("phone_session=abc;"));
    assert!(cookie.contains("Secure"));
    assert!(cookie.contains("Max-Age=60"));
    assert_eq!(session_cookie(Some(&cookie)).as_deref(), Some("abc"));
    assert!(!make_session_cookie("abc", 60, false).contains("Secure"));
    assert!(clear_session_cookie(false).contains("Max-Age=0"));
    assert!(request_is_https(true, None));
    assert!(request_is_https(false, Some("https")));
    assert!(!request_is_https(false, Some("http")));
}

#[test]
fn without_a_password_everyone_is_in() {
    assert!(is_authed(false, None));
    assert!(is_authed(true, Some(true)));
    assert!(!is_authed(true, Some(false)));
    assert!(!is_authed(true, None));
}

#[test]
fn a_login_stays_on_this_site() {
    assert_eq!(login_destination(Some("https://evil.example")), "/phone");
    assert_eq!(login_destination(Some("/setup")), "/setup");
    assert_eq!(login_destination(None), "/phone");
}

#[test]
fn a_login_goes_through_its_limiter() {
    let mut limiter = AuthLimiter::new();
    assert!(matches!(login_gate(&limiter, false, "", None, 0), LoginStep::Open));
    assert!(matches!(login_gate(&limiter, true, "pw", None, 0), LoginStep::Compare));
    assert!(matches!(login_gate(&limiter, true, "", None, 0), LoginStep::Refused(_)));
    let open = login_open("phone_session=o".to_string(), Some("/setup"));
    assert_eq!(open.cookie.as_deref(), Some("phone_session=o"));
    assert_eq!(open.location.as_deref(), Some("/setup"));
    let wrong = login_submit(&mut limiter, false, String::new(), None, 0);
    assert_eq!(wrong.status, 401);
    assert_eq!(limiter.failures, 1);
    let right = login_submit(&mut limiter, true, "phone_session=x".to_string(), None, 0);
    assert_eq!(right.cookie.as_deref(), Some("phone_session=x"));
    assert_eq!(right.location.as_deref(), Some("/phone"));
    assert_eq!(limiter.failures, 0);
    for _ in 0..5 {
        limiter.record_failure(0);
    }
    assert!(matches!(login_gate(&limiter, true, "pw", None, 0), LoginStep::Refused(reply) if reply.status == 429));
    assert!(render_login(LoginFault::WrongPassword, None).contains("<form"));
    assert_eq!(login_form(true, None).location.as_deref(), Some("/phone"));
    assert_eq!(login_form(false, None).status, 200);
}

#[test]
fn pages_are_for_sessions() {
    assert_eq!(root().location.as_deref(), Some("/phone"));
    let page = phone(true, "<html>".to_string());
    assert_eq!(page.status, 200);
    assert_eq!(page.body, "<html>");
    assert!(matches!(page.media, Media::Html));
    assert!(phone(false, "<html>".to_string()).location.is_some());
    assert!(setup(false, "<html>".to_string()).location.is_some());
    assert!(logout(false).cookie.unwrap().contains("Max-Age=0"));
}

#[test]
fn every_answer_carries_the_security_headers() {
    let headers = with_security_headers(&Reply::fixed(200, "{}"));
    let get = |name: &str| {
        headers
            .iter()
            .find(|(key, _)| key.eq_ignore_ascii_case(name))
            .map(|(_, value)| value.as_str())
    };
    assert!(get("content-type").unwrap().starts_with("application/json"));
    assert_eq!(get("cache-control"), Some("no-store"));
    assert_eq!(get("x-frame-options"), Some("DENY"));
    assert_eq!(get("referrer-policy"), Some("no-referrer"));
    let image = binary_headers("image/png");
    assert!(image.iter().any(|(_, value)| value == "image/png"));
}

#[test]
fn a_channel_is_opened_only_from_this_site() {
    let origin = |scheme: &str, authority: &str| {
        Some(Origin {
            scheme: Some(scheme.to_string()),
            authority: Some(authority.to_string()),
        })
    };
    assert!(is_same_origin(&origin("https", "Phone.example:8443"), Some("phone.EXAMPLE:8443")));
    assert!(!is_same_origin(&origin("ftp", "phone.example"), Some("phone.example")));
    assert!(!is_same_origin(&origin("https", "evil.example"), Some("phone.example")));
    assert!(!is_same_origin(&None, Some("phone.example")));

    assert_eq!(ws_upgrade(true, None, None, true).unwrap().status, 409);
    assert!(ws_upgrade(false, Some("http://phone.example"), Some("phone.example"), true).is_none());
    assert!(ws_upgrade(false, Some("http://phone.example:80"), Some("phone.example:80"), true)
        .is_none());
    let foreign = ws_upgrade(false, Some("http://evil.example"), Some("phone.example"), true);
    assert_eq!(foreign.unwrap().status, 403);
    let broken = ws_upgrade(false, Some("not an origin"), Some("phone.example"), true);
    assert_eq!(broken.unwrap().status, 403);
    assert_eq!(ws_upgrade(false, None, None, false).unwrap().status, 401);
}

#[test]
fn viewers_are_numbered() {
    let mut counter = 41;
    assert_eq!(new_session_id(&mut counter, 7), "viewer-7-41");
    assert_eq!(counter, 42);
    assert_ne!(new_session_id(&mut counter, 7), "viewer-7-41");
}

#[test]
fn the_inbox_keeps_the_latest_documents() {
    let mut inbox = Inbox::new();
    for i in 0..65 {
        let reply = inbox.agent_inbox_post(&format!(r#"{{"n":{i}}}"#), 1_000 + i);
        assert_eq!(reply.status, 200);
    }
    inbox.agent_inbox_post("just text", 5_000);
    let items = value(&inbox.agent_inbox_get().body);
    let items = items["items"].as_array().unwrap().clone();
    assert_eq!(items.len(), 64);
    assert_eq!(items.last().unwrap()["body"], "just text");
    assert_eq!(items[0]["body"]["n"], 2);
    let drained = value(&inbox.agent_inbox_drain().body);
    assert_eq!(drained["items"].as_array().unwrap().len(), 64);
    let empty = value(&inbox.agent_inbox_get().body);
    assert_eq!(empty["items"].as_array().unwrap().len(), 0);
}
