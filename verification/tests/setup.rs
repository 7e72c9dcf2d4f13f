//! The setup helper's reports, its log, and the launch job that starts it.

use iphone_use::device::{
    detect_connected_device, devicectl_end, devicectl_uninstall, valid_wda_udid, DevicectlError,
};
use iphone_use::launchd::{
    fresh_plist, inherited_variables, stop_wda_runner, wait_launchd_job_gone, xml_escape,
    BootCommand, BootEvent, Bootstrap, GoneStep,
};
use iphone_use::search::{last_bytes, rest_after_last, size_of_text};
use iphone_use::setup::{
    classify_build_state, derive_wda_build, owner_recorded, parse_setup_blocked_on,
    parse_setup_log_blocked_on, parse_setup_status, read_raw_setup_status, read_setup_blocked_on,
    read_status, recent_log_start, setup_blocker_hint, setup_in_flight_from, setup_owner_alive,
    tail_lines, WdaBuild, WdaSetupStatus, BUILD_STALE_SECS, LEGACY_SETUP_ACTIVE_WITHIN_MS,
    SETUP_HEARTBEAT_STALE_SECS,
};

fn protocol_status(active: bool, terminal: bool, heartbeat_ts: u64) -> WdaSetupStatus {
    WdaSetupStatus {
        phase: "building".into(),
        blocked_on: String::new(),
        message: String::new(),
        ts: heartbeat_ts,
        schema_version: 1,
        active,
        terminal,
        owner_pid: 4242,
        owner_start: "Fri Sep  5 14:00:00 2026".into(),
        heartbeat_ts,
    }
}

// The idle watchdog must not kill a build it is watching start — but it must
// also not be fooled by a crash loop that stamps the status file every round.
#[test]
fn a_live_owner_with_a_fresh_heartbeat_is_in_flight() {
    let now = 1_000_000;
    let alive = |pid: u32, start: &str| pid == 4242 && start.starts_with("Fri Sep");
    assert!(setup_in_flight_from(&protocol_status(true, false, now - 10), now, None, alive));
}

#[test]
fn a_terminal_or_inactive_record_is_never_in_flight() {
    let now = 1_000_000;
    let alive = |_: u32, _: &str| true;
    assert!(
        !setup_in_flight_from(&protocol_status(false, true, now), now, None, alive),
        "a finished/failed/backed-off attempt is not activity, however fresh"
    );
    assert!(
        !setup_in_flight_from(&protocol_status(false, false, now), now, None, alive),
        "inactive without terminal (mid-handoff) is not activity either"
    );
}

#[test]
fn a_stale_heartbeat_or_a_dead_owner_is_not_in_flight() {
    let now = 1_000_000;
    let alive = |_: u32, _: &str| true;
    assert!(
        !setup_in_flight_from(
            &protocol_status(true, false, now - SETUP_HEARTBEAT_STALE_SECS - 1),
            now,
            None,
            alive
        ),
        "four missed beats means the helper died without writing EXIT"
    );
    let dead = |_: u32, _: &str| false;
    assert!(
        !setup_in_flight_from(&protocol_status(true, false, now), now, None, dead),
        "a reused pid with a different start time is not our owner"
    );
}

#[test]
fn a_legacy_status_file_falls_back_to_its_mtime() {
    let mut status = protocol_status(true, false, 1);
    status.schema_version = 0; // written by an older helper: no protocol fields
    let never = |_: u32, _: &str| unreachable!("legacy files do not know their owner");
    assert!(setup_in_flight_from(&status, 1, Some(30_000), never));
    assert!(!setup_in_flight_from(
        &status,
        1,
        Some(LEGACY_SETUP_ACTIVE_WITHIN_MS),
        never
    ));
    assert!(!setup_in_flight_from(&status, 1, None, never));
}

#[test]
fn an_owner_is_alive_when_its_start_is_the_recorded_one() {
    assert!(setup_owner_alive("Fri Sep  5 14:00:00 2026\n", "Fri Sep  5 14:00:00 2026"));
    assert!(!setup_owner_alive("Thu Jan  1 00:00:00 1970", "Fri Sep  5 14:00:00 2026"));
    assert!(owner_recorded(7, "x"));
    assert!(!owner_recorded(0, "x"));
    assert!(!owner_recorded(7, ""));
}

#[test]
fn setup_status_accepts_every_setup_script_blocker() {
    for blocker in ["warp", "proxy", "usb", "trust", "ddi", "account", "locked", "wda"] {
        let payload = format!(r#"{{"blocked_on":"{blocker}","ts":1000}}"#);
        assert_eq!(parse_setup_blocked_on(&payload, 1100), blocker);
        assert!(
            setup_blocker_hint(blocker).is_some(),
            "{blocker} must have an actionable status hint"
        );
    }
    assert!(setup_blocker_hint("").is_none());
    assert!(setup_blocker_hint("surprise").is_none());
    assert!(setup_blocker_hint("warp").unwrap().contains("fd00::/8"));
    assert!(setup_blocker_hint("warp")
        .unwrap()
        .contains("Traffic only mode"));
    // A signed-out Xcode must send the operator to Accounts, not to a log.
    assert!(setup_blocker_hint("account")
        .unwrap()
        .contains("Settings → Accounts"));
    // A locked phone clears by unlocking it, and setup is already
    // retrying — it must not read as a failed build to inspect.
    let locked = setup_blocker_hint("locked").unwrap();
    assert!(locked.contains("unlock"), "{locked}");
    assert!(locked.contains("retrying"), "{locked}");
    assert!(!locked.contains("wda-agent.log"), "{locked}");
    assert!(!locked.contains("doctor"), "{locked}");
}

#[test]
fn setup_log_fallback_recognizes_signed_out_xcode_from_latest_attempt_only() {
    let signed_out = "== Checking prerequisites\n\
        ✓ Xcode: Xcode 26.6\n\
        ✗ Xcode has no signed-in Apple account. Open Xcode → Settings → Accounts,\n";
    assert_eq!(parse_setup_log_blocked_on(signed_out), "account");

    // A later attempt that got past signing must clear the stale blocker.
    let recovered = format!("{signed_out}== Checking prerequisites\n✓ Team: 43G3AR9DT8\n");
    assert_eq!(parse_setup_log_blocked_on(&recovered), "");
}

fn build_status(phase: &str, ts: u64) -> WdaSetupStatus {
    WdaSetupStatus {
        phase: phase.to_string(),
        blocked_on: String::new(),
        message: String::new(),
        ts,
        ..Default::default()
    }
}

#[test]
fn build_state_separates_working_from_gave_up() {
    // These two look identical in `setup_blocked_on` (both empty).
    assert_eq!(classify_build_state("building", 90), "building");
    assert_eq!(classify_build_state("building-fail", 90), "failed");
}

#[test]
fn build_state_covers_the_helper_phase_vocabulary() {
    for phase in ["prereq", "ddi-wait", "trust", "serving", "supervisor"] {
        assert_eq!(classify_build_state(phase, 10), "building", "{phase}");
    }
    for phase in [
        "ddi-fail",
        "building-fail",
        "signing-fail",
        "supervisor-fail",
        "daemon-fail",
    ] {
        assert_eq!(classify_build_state(phase, 10), "failed", "{phase}");
    }
    assert_eq!(classify_build_state("ready", 10), "ready");
    assert_eq!(classify_build_state("", 10), "unknown");
}

#[test]
fn build_state_calls_a_silent_helper_stalled_not_building() {
    // The helper rewrites its status every poll while building, so this much
    // silence means the process died without writing a -fail phase.
    assert_eq!(
        classify_build_state("building", BUILD_STALE_SECS + 1),
        "stalled"
    );
    // A finished run stays terminal no matter how old it is.
    assert_eq!(classify_build_state("ready", 99_999), "ready");
    assert_eq!(classify_build_state("building-fail", 99_999), "failed");
}

#[test]
fn wda_build_attaches_a_log_tail_only_when_the_log_is_the_answer() {
    let log = || "line one\n\nline two\nboom: xcodebuild failed\n".to_string();

    let failed = derive_wda_build(Some(&build_status("building-fail", 1000)), 1100, log);
    assert_eq!(failed.state, "failed");
    assert_eq!(failed.age_secs, 100);
    assert_eq!(failed.since, 1000);
    assert!(failed.log_tail.contains("boom: xcodebuild failed"));
    // Blank lines are dropped so the tail carries signal, not padding.
    assert!(!failed.log_tail.contains("\n\n"));

    // Mid-build and ready poll constantly; don't ship a log on every poll.
    let building = derive_wda_build(Some(&build_status("building", 1000)), 1100, log);
    assert_eq!(building.state, "building");
    assert!(building.log_tail.is_empty());

    let ready = derive_wda_build(Some(&build_status("ready", 1000)), 1100, log);
    assert_eq!(ready.state, "ready");
    assert!(ready.log_tail.is_empty());

    // A stalled helper is the other case where you must read the log.
    let stalled = derive_wda_build(Some(&build_status("building", 1000)), 9000, log);
    assert_eq!(stalled.state, "stalled");
    assert!(stalled.log_tail.contains("boom"));
}

#[test]
fn a_log_that_is_not_the_answer_is_not_read() {
    let unread = || -> String { panic!("the log must not be read") };
    assert_eq!(derive_wda_build(None, 1000, unread).state, "unknown");
    for phase in ["building", "ready"] {
        let build = derive_wda_build(Some(&build_status(phase, 1000)), 1100, unread);
        assert!(build.log_tail.is_empty());
    }
}

#[test]
fn an_owner_that_decides_nothing_is_not_asked_about() {
    let now = 10_000;
    let never = |_: u32, _: &str| -> bool { panic!("the owner must not be asked about") };
    for status in [
        protocol_status(false, true, now),
        protocol_status(false, false, now),
        protocol_status(true, false, now - 61),
    ] {
        assert!(!setup_in_flight_from(&status, now, None, never));
    }
}

#[test]
fn wda_build_without_a_status_file_is_unknown_not_failed() {
    let b = derive_wda_build(None, 1000, || "irrelevant".to_string());
    assert_eq!(b.state, "unknown");
    assert_eq!(b.since, 0);
    assert!(b.log_tail.is_empty());
    assert_eq!(WdaBuild::unknown().state, "unknown");
}

#[test]
fn wda_build_json_is_valid_and_escapes_log_text() {
    let b = derive_wda_build(Some(&build_status("building-fail", 1000)), 1100, || {
        "error: \"quoted\"\n\tand a backslash \\ and a newline".to_string()
    });
    let v: serde_json::Value = serde_json::from_str(&b.to_json())
        .expect("wda_build must be valid JSON inside the status body");
    assert_eq!(v["state"], "failed");
    assert_eq!(v["phase"], "building-fail");
    assert_eq!(v["age_secs"], 100);
    assert!(v["log_tail"].as_str().unwrap().contains("\"quoted\""));
}

#[test]
fn build_log_tail_is_bounded_on_both_lines_and_bytes() {
    let many = (0..500)
        .map(|i| format!("line {i}"))
        .collect::<Vec<_>>()
        .join("\n");
    let tail = tail_lines(&many, 12, 1200);
    assert_eq!(tail.lines().count(), 12);
    assert!(tail.contains("line 499"), "keeps the END of the log");
    assert!(!tail.contains("line 400"));

    // A single pathological line is capped by bytes, not left unbounded.
    let huge = "x".repeat(50_000);
    assert!(tail_lines(&huge, 12, 1200).len() <= 1200);
}

#[test]
fn build_log_tail_never_splits_a_utf8_char() {
    // A byte-cap naively applied to CJK build output would panic.
    let cjk = "构建失败：找不到设备\n".repeat(500);
    let tail = tail_lines(&cjk, 12, 1200);
    assert!(tail.len() <= 1200);
    assert!(tail.contains("构建失败"));
}

#[test]
fn a_log_end_over_the_limit_keeps_as_much_as_fits() {
    assert_eq!(tail_lines("abcdef", 3, 4), "cdef");
    assert_eq!(last_bytes("a构建", 4), "建");
    assert_eq!(last_bytes("a构建", 7), "a构建");
    assert_eq!(size_of_text("a构建"), 7);
    assert_eq!(rest_after_last("a==b==c", "=="), "c");
    assert_eq!(rest_after_last("abc", "=="), "abc");
}

#[test]
fn setup_status_rejects_stale_unknown_or_invalid_input() {
    assert_eq!(
        parse_setup_blocked_on(r#"{"blocked_on":"wda","ts":1000}"#, 1301),
        ""
    );
    assert_eq!(
        parse_setup_blocked_on(r#"{"blocked_on":"surprise","ts":1000}"#, 1000),
        ""
    );
    assert_eq!(parse_setup_blocked_on("not-json", 1000), "");
}

#[test]
fn setup_status_preserves_fresh_progress_without_calling_it_a_blocker() {
    let status = parse_setup_status(
        r#"{"phase":"building","blocked_on":"","message":"building + launching WDA (90s elapsed)","ts":1000}"#,
        1100,
    )
    .unwrap();
    assert_eq!(status.phase, "building");
    assert_eq!(status.blocked_on, "");
    assert_eq!(status.message, "building + launching WDA (90s elapsed)");
}

#[test]
fn a_status_with_a_field_of_the_wrong_kind_is_none() {
    assert!(read_status(r#"{"phase":7,"ts":5}"#).is_none());
    assert!(read_status(r#"{"active":"yes","ts":5}"#).is_none());
    assert!(read_status("7").is_none());
    assert!(read_status("{}").is_none(), "the time is always told");
    assert_eq!(read_status(r#"{"ts":5}"#).unwrap().schema_version, 0);
    let long = format!(r#"{{"message":"{}","ts":5}}"#, "x".repeat(5_000));
    assert!(read_raw_setup_status(&long).unwrap().message.len() < 5_000);
}

#[test]
fn setup_log_fallback_recognizes_usb_failure_from_latest_attempt_only() {
    let unplugged = "\u{1b}[1m== Checking prerequisites\u{1b}[0m\n\
        == Resolving target device\n\
        target 00008150-000A60EC1A02401C is not currently connected over USB.";
    assert_eq!(parse_setup_log_blocked_on(unplugged), "usb");

    let recovered = "== Checking prerequisites\n\
        target 00008150-000A60EC1A02401C is not currently connected over USB.\n\
        == Checking prerequisites\n\
        iPhone on USB: 00008150-000A60EC1A02401C\n\
        prerequisites passed";
    assert_eq!(parse_setup_log_blocked_on(recovered), "");
    assert_eq!(
        parse_setup_log_blocked_on("USB relay diagnostics completed"),
        ""
    );
}

#[test]
fn setup_log_fallback_recognizes_warp_from_latest_attempt_only() {
    let connected = "== Checking prerequisites\n\
        WARP is ON and will block WDA (the CoreDevice tunnel dies).";
    assert_eq!(parse_setup_log_blocked_on(connected), "warp");

    let recovered = "== Checking prerequisites\n\
        WARP is ON and will block WDA (the CoreDevice tunnel dies).\n\
        == Checking prerequisites\n\
        System proxies (HTTP/HTTPS/SOCKS): none enabled\n\
        prerequisites passed";
    assert_eq!(parse_setup_log_blocked_on(recovered), "");

    let missing_bypass = "== Checking prerequisites\n\
        WARP is connected, but its effective Split Tunnel exclusions do not cover the CoreDevice device tunnel.";
    assert_eq!(parse_setup_log_blocked_on(missing_bypass), "warp");
}

#[test]
fn a_structured_report_outranks_the_log() {
    let unread = || -> String { panic!("the log must not be read") };
    assert_eq!(read_setup_blocked_on("usb".to_string(), unread), "usb");
    assert_eq!(read_setup_blocked_on(String::new(), || "warp".to_string()), "warp");
    assert_eq!(recent_log_start(None, 10), None);
    assert_eq!(recent_log_start(Some(0), 10), Some(0));
}

#[test]
fn launch_agent_values_are_xml_escaped() {
    assert_eq!(
        xml_escape(r#"/Users/A&B/<phone>"quoted".sh"#),
        "/Users/A&amp;B/&lt;phone&gt;&quot;quoted&quot;.sh"
    );
}

#[test]
fn a_fresh_job_names_its_script_and_what_it_inherits() {
    let names = inherited_variables();
    assert!(!names.is_empty());
    let given = vec![(names[0].to_string(), "a<b".to_string())];
    let text = fresh_plist("label", "/s & t.sh", "/l.log", "00008110-001234567890001E", &given);
    assert!(text.contains("<string>/s &amp; t.sh</string>"));
    assert!(text.contains("a&lt;b"));
    assert!(text.contains("00008110-001234567890001E"));
}

#[test]
fn managed_wda_target_requires_a_canonical_udid() {
    assert!(valid_wda_udid("00008110-001234567890001E"));
    assert!(!valid_wda_udid(""));
    assert!(!valid_wda_udid("phone one"));
    assert!(!valid_wda_udid("../other-device"));
}

#[test]
fn the_one_connected_phone_is_the_target() {
    let first = "AAAAAAAA-0000-1111-2222-BBBBBBBBBBBB";
    let second = "CCCCCCCC-0000-1111-2222-DDDDDDDDDDDD";
    let one = format!("Name Identifier State\niPhone {first} connected\niPad {second} disconnected\n");
    assert_eq!(detect_connected_device(&one).unwrap(), first);
    assert!(matches!(
        detect_connected_device("nothing here"),
        Err(DevicectlError::TargetRequired(0))
    ));
    let two = format!("a {first} connected\nb {second} (connected)\na {first} connected\n");
    assert!(matches!(
        detect_connected_device(&two),
        Err(DevicectlError::TargetRequired(2))
    ));
}

#[test]
fn an_app_is_removed_by_name() {
    let args = devicectl_uninstall("DEV", "com.example.app");
    assert!(args.contains(&"DEV".to_string()));
    assert_eq!(args.last().unwrap(), "com.example.app");
    assert!(devicectl_end(true, "").is_ok());
    assert!(matches!(
        devicectl_end(false, "no such app"),
        Err(DevicectlError::Failed(text)) if text.contains("no such app")
    ));
}

fn drive(run: Bootstrap, events: Vec<BootEvent>) -> (Bootstrap, Vec<String>) {
    let mut run = run;
    let mut seen = Vec::new();
    for event in events {
        let (next, command) = run.advance(event);
        run = next;
        seen.push(format!("{command:?}"));
    }
    (run, seen)
}

#[test]
fn a_job_that_was_never_there_is_written_checked_and_loaded() {
    let (run, first) =
        Bootstrap::write_and_bootstrap_wda_agent(true, "00008110-001234567890001E", "new".to_string())
            .unwrap();
    assert!(matches!(first, BootCommand::Read));
    let (_, seen) = drive(
        run,
        vec![
            BootEvent::Absent,
            BootEvent::Done(true),
            BootEvent::Done(true),
            BootEvent::Done(true),
        ],
    );
    assert!(seen[0].starts_with("StageFresh"));
    assert_eq!(seen[1], "Lint");
    assert_eq!(seen[2], "Protect");
}

#[test]
fn nothing_is_started_without_a_script_or_a_phone() {
    assert!(Bootstrap::write_and_bootstrap_wda_agent(
        false,
        "00008110-001234567890001E",
        String::new()
    )
    .is_none());
    assert!(Bootstrap::write_and_bootstrap_wda_agent(true, "bad udid", String::new()).is_none());
}

#[test]
fn a_runner_counts_as_stopped_only_when_its_job_is_gone() {
    assert!(stop_wda_runner(true, true, true));
    assert!(!stop_wda_runner(true, true, false));
    assert!(matches!(wait_launchd_job_gone(false, 0), GoneStep::Gone));
    assert!(matches!(wait_launchd_job_gone(true, 0), GoneStep::Sleep { .. }));
    assert!(matches!(wait_launchd_job_gone(true, 1_000_000), GoneStep::StillThere));
}
