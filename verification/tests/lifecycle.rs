//! Who owns a transition of the phone, what is known of the runner, and how long
//! a bring-up is waited for.

use iphone_use::capability::CapabilityConfig;
use iphone_use::health::{
    apply_wda_health_probe, apply_wda_health_probe_tracked, classify_wda_death,
    finish_wda_readiness_wait, run_wda_readiness_wait, wda_death_hint, HealthBoard,
    ReadinessEvent, ReadinessStep, WdaDeath, WdaHealth, WdaReadinessBudget, WdaReadinessOutcome,
    WdaReadinessOwnership,
};
use iphone_use::lifecycle::{WdaLifecycle, WdaLifecycleTransition, WdaTransitionToken};
use iphone_use::setup::{parse_setup_blocked_on, WdaBuild};
use iphone_use::state::{
    abort_health_probe_for_idle, agent_hold, await_runner, human_handoff_active,
    may_probe_health, mirror_state_fresh, set_human_handoff, try_take_hold, AppState,
    HumanHandoff, LAST_TIME,
};
use iphone_use::status::{agent_status, status_device_state, status_hint, StatusFacts};

fn health(up: bool, actionable: bool, locked: Option<bool>) -> WdaHealth {
    WdaHealth {
        up,
        actionable,
        locked,
    }
}

// The two orderings of a hold and a release, one at a time.
#[test]
fn a_hold_that_lands_first_makes_the_release_back_out() {
    let mut lifecycle = WdaLifecycle::new();
    let mut hold_until: Option<u64> = None;
    let now = 1_000;
    assert!(try_take_hold(&lifecycle, &mut hold_until, 30, now));
    let token = lifecycle.try_begin_releasing().expect("release begins");
    let held = hold_until.is_some_and(|until| until > now);
    assert!(held, "the re-check after the claim must see the lease and back out");
    assert!(lifecycle.finish_releasing(token));
}

#[test]
fn a_release_that_begins_first_refuses_the_hold_until_it_is_done() {
    let mut lifecycle = WdaLifecycle::new();
    let mut hold_until: Option<u64> = None;
    let token = lifecycle.try_begin_releasing().expect("release begins");
    assert!(!try_take_hold(&lifecycle, &mut hold_until, 30, 0), "503 while releasing");
    assert!(hold_until.is_none(), "a refused hold writes no lease");
    assert!(lifecycle.finish_releasing(token));
    assert!(
        try_take_hold(&lifecycle, &mut hold_until, 30, 0),
        "and is accepted once the release is over"
    );
}

#[test]
fn a_hold_is_asked_for_in_seconds() {
    let mut state = AppState::new(0);
    let reply = agent_hold(&mut state, r#"{"secs":60}"#, 1_000);
    assert_eq!(reply.status, 200);
    assert!(state.held(60_999), "a hold lasts as long as it was asked for");
    assert!(!state.held(61_000));
    assert_eq!(state.hold_remaining_secs(1_000), 60);
    assert_eq!(state.hold_remaining_secs(60_999), 0, "what is left is told in whole seconds");
    assert_eq!(agent_hold(&mut state, "nonsense", 0).status, 400);
    let token = state.lifecycle.try_begin_releasing().unwrap();
    assert_eq!(agent_hold(&mut state, r#"{"secs":60}"#, 0).status, 503);
    assert!(state.lifecycle.finish_releasing(token));
}

#[test]
fn a_severed_session_is_not_blamed_on_a_human() {
    // The reported symptom: WDA still answers /status but every action
    // fails after a tunnel reconnect or a sleep.
    let reason = classify_wda_death(
        health(true, true, Some(false)),
        health(true, false, Some(false)),
        false,
        false,
    );
    assert_eq!(reason, Some("session_severed"));
    assert!(wda_death_hint("session_severed").contains("WARP"));
}

#[test]
fn death_reasons_separate_the_four_real_causes() {
    let alive = health(true, true, Some(false));
    // Runner/relay gone entirely, or the phone's Wi-Fi address moved.
    assert_eq!(
        classify_wda_death(alive, health(false, false, None), false, false),
        Some("unreachable")
    );
    // Phone locked under a live runner.
    assert_eq!(
        classify_wda_death(alive, health(true, false, Some(true)), false, false),
        Some("device_locked")
    );
    // We stopped it ourselves — nobody needs to go repair anything.
    assert_eq!(
        classify_wda_death(alive, health(false, false, None), true, false),
        Some("idle_release")
    );
    assert_eq!(
        classify_wda_death(alive, health(false, false, None), false, true),
        Some("idle_release")
    );
}

#[test]
fn only_a_fall_from_working_counts_as_a_death() {
    let alive = health(true, true, Some(false));
    let dead = health(false, false, None);
    // Still fine → not a death.
    assert_eq!(classify_wda_death(alive, alive, false, false), None);
    // Was already down → not a NEW death; must not overwrite the real cause
    // recorded at the original transition with a later generic one.
    assert_eq!(classify_wda_death(dead, dead, false, false), None);
    // Coming back up is not a death either.
    assert_eq!(classify_wda_death(dead, alive, false, false), None);
}

#[test]
fn intentional_release_outranks_the_crash_signatures() {
    // An idle release also presents as "up:false" — reporting that as
    // `unreachable` would send agents chasing a phantom outage.
    let alive = health(true, true, Some(false));
    assert_eq!(
        classify_wda_death(alive, health(true, false, Some(true)), true, false),
        Some("idle_release")
    );
}

#[test]
fn every_death_reason_carries_recovery_guidance() {
    for reason in [
        "idle_release",
        "device_locked",
        "session_severed",
        "unreachable",
    ] {
        assert!(
            !wda_death_hint(reason).is_empty(),
            "{reason} has no recovery hint"
        );
    }
    assert_eq!(wda_death_hint(""), "");
    assert_eq!(wda_death_hint("something-new"), "");
}

#[test]
fn recovery_clears_the_recorded_cause() {
    let mut slot = health(true, true, Some(false));
    let mut actionable = true;
    let mut released = false;
    let mut death = WdaDeath::default();

    // Dies...
    apply_wda_health_probe_tracked(
        &mut slot,
        &mut actionable,
        &mut released,
        false,
        &mut death,
        health(true, false, Some(false)),
        77,
    );
    assert_eq!(death.reason, "session_severed");
    assert_eq!(death.at, 77);
    assert!(!actionable);

    // ...and comes back. A stale epitaph next to a healthy runner would be
    // read as a live problem.
    apply_wda_health_probe_tracked(
        &mut slot,
        &mut actionable,
        &mut released,
        false,
        &mut death,
        health(true, true, Some(false)),
        78,
    );
    assert_eq!(death.reason, "");
    assert!(actionable);
}

#[test]
fn an_idle_release_ends_a_probe_but_never_pending_control() {
    assert!(abort_health_probe_for_idle(0));
    assert!(!abort_health_probe_for_idle(1));
    assert!(may_probe_health(true, false, 0));
    assert!(!may_probe_health(true, true, 0));
    assert!(!may_probe_health(true, false, 1));
    assert!(!may_probe_health(false, false, 0));
    assert!(mirror_state_fresh(Some(10), 10));
    assert!(!mirror_state_fresh(None, 10));
}

#[test]
fn wda_lifecycle_serializes_release_and_reconnect_in_both_orders() {
    let mut lifecycle = WdaLifecycle::new();

    let reconnect = lifecycle
        .try_begin_reconnecting()
        .expect("reconnect begins");
    assert!(lifecycle.is_reconnecting());
    assert!(lifecycle.try_begin_releasing().is_none());
    assert!(lifecycle.finish_reconnecting(reconnect));

    let release = lifecycle.try_begin_releasing().expect("release begins");
    assert!(lifecycle.is_releasing());
    assert!(lifecycle.try_begin_reconnecting().is_none());
    assert!(lifecycle.finish_releasing(release));

    assert!(!lifecycle.is_transitioning());

    // Each round gets its own generation, so a token never matches twice.
    let again = lifecycle
        .try_begin_reconnecting()
        .expect("second reconnect");
    assert!(
        !lifecycle.finish_reconnecting(reconnect),
        "a spent token must not end a later round"
    );
    assert!(lifecycle.is_reconnecting());
    assert!(lifecycle.finish_reconnecting(again));
}

#[test]
fn a_generation_and_a_phase_share_one_word() {
    for phase in [
        WdaLifecycleTransition::Active,
        WdaLifecycleTransition::Releasing,
        WdaLifecycleTransition::Reconnecting,
    ] {
        for generation in [0, 1, (1 << 56) - 1] {
            let word = WdaLifecycle::encode(generation, phase);
            assert_eq!(WdaLifecycle::decode(word), (generation, phase));
        }
    }
    assert_eq!(WdaLifecycle::encode(3, WdaLifecycleTransition::Reconnecting), 0x302);
    assert_eq!(WdaLifecycle::encode(1 << 56, WdaLifecycleTransition::Releasing), 1);
}

#[test]
fn evidence_is_published_once_and_only_by_the_owner_of_the_round() {
    let mut lifecycle = WdaLifecycle::new();
    let first = lifecycle.try_begin_reconnecting().unwrap();
    assert_eq!(lifecycle.publish_if_current(first, || 7), Some(7));
    assert!(lifecycle.finish(first));
    assert!(!lifecycle.finish(first));
    let dead = || -> u8 { panic!("a dead round must not publish") };
    assert_eq!(lifecycle.publish_if_current(first, dead), None);
}

#[test]
fn a_wait_that_ends_ready_counts_as_activity() {
    let mut state = AppState::new(0);
    state.released = true;
    let token = state.lifecycle.try_begin_reconnecting().unwrap();
    let probed = |actionable: bool, now: u64| ReadinessEvent::Probed {
        health: Some(health(true, actionable, Some(false))),
        now,
    };
    let step = await_runner(&mut state, token, true, 300, short_budget(), probed(false, 50));
    assert_eq!(step, ReadinessStep::TakeTime);
    assert!(state.health.up && !state.released);
    assert_eq!(state.last_activity, 0);
    let step = await_runner(&mut state, token, true, 300, short_budget(), probed(true, 90));
    assert_eq!(step, ReadinessStep::Done(WdaReadinessOutcome::Ready));
    assert!(state.actionable);
    assert_eq!(state.last_activity, 90);
    assert!(state.lifecycle.is_reconnecting(), "the owner ends the round");
    assert!(state.lifecycle.finish_reconnecting(token));
    let step = await_runner(&mut state, token, true, 300, short_budget(), probed(true, 95));
    assert_eq!(step, ReadinessStep::Done(WdaReadinessOutcome::Superseded));
    assert_eq!(state.last_activity, 90);
}

#[test]
fn every_deadline_can_be_told_up_to_the_last_time() {
    assert_eq!(LAST_TIME, u64::MAX - 14_400_000);
    let mut state = AppState::new(0);
    assert_eq!(agent_hold(&mut state, r#"{"secs":14400}"#, LAST_TIME).status, 200);
    assert_eq!(state.hold_until, Some(u64::MAX));
}

#[test]
fn a_spent_token_ends_no_later_round_of_either_kind() {
    let mut lifecycle = WdaLifecycle::new();
    let spent = lifecycle.try_begin_releasing().unwrap();
    assert!(lifecycle.finish_releasing(spent));
    for _ in 0..3 {
        assert!(!lifecycle.finish_releasing(spent));
        let reconnect = lifecycle.try_begin_reconnecting().unwrap();
        assert!(lifecycle.try_begin_releasing().is_none());
        assert!(!lifecycle.finish_releasing(spent));
        assert!(lifecycle.is_reconnecting());
        assert!(lifecycle.finish_reconnecting(reconnect));
        let release = lifecycle.try_begin_releasing().unwrap();
        assert!(!lifecycle.finish_releasing(spent));
        assert!(lifecycle.owns(release));
        assert!(lifecycle.finish_releasing(release));
    }
}

#[test]
fn locked_but_up_reconnect_clears_released_before_timeout_finishes() {
    let mut health_slot = WdaHealth::down();
    let mut actionable = false;
    let mut released = true;
    let mut lifecycle = WdaLifecycle::new();
    let token = lifecycle
        .try_begin_reconnecting()
        .expect("reconnect begins");
    let locked = health(true, false, Some(true));

    assert!(!apply_wda_health_probe(
        &mut health_slot,
        &mut actionable,
        &mut released,
        locked,
    ));
    assert!(!released);
    assert!(!actionable);
    assert!(health_slot.up);
    assert!(!health_slot.actionable);
    assert_eq!(health_slot.locked, Some(true));

    // The readiness deadline expires without actionability: the runner still
    // owns the device, while reconnecting ends and status can honestly tell
    // the user to unlock instead of reconnecting again.
    finish_wda_readiness_wait(&mut lifecycle, token, WdaReadinessOutcome::Deadline);
    assert!(!lifecycle.is_reconnecting());
    assert_eq!(health_slot.locked, Some(true));
}

fn short_budget() -> WdaReadinessBudget {
    WdaReadinessBudget {
        total: 300,
        probe: 80,
        poll: 10,
    }
}

fn board() -> HealthBoard {
    HealthBoard {
        health: WdaHealth::down(),
        actionable: false,
        released: true,
    }
}

/// What the runner answers, how long a probe takes, and what setup reports.
struct World<'a> {
    answer: Option<WdaHealth>,
    probe_ms: u64,
    setup: &'a str,
    probes: u32,
    now: u64,
}

impl World<'_> {
    fn run(
        &mut self,
        lifecycle: &WdaLifecycle,
        board: &mut HealthBoard,
        token: WdaTransitionToken,
        budget: WdaReadinessBudget,
    ) -> WdaReadinessOutcome {
        let deadline = self.now + budget.total;
        let mut event = ReadinessEvent::Round { now: self.now };
        loop {
            match run_wda_readiness_wait(lifecycle, board, token, true, deadline, budget, event) {
                ReadinessStep::ReadSetup => {
                    event = ReadinessEvent::Setup {
                        blocked: !parse_setup_blocked_on(self.setup, 1_000).is_empty(),
                        now: self.now,
                    };
                }
                ReadinessStep::Probe { until } => {
                    self.probes += 1;
                    let answer = if self.now + self.probe_ms > until {
                        self.now = until;
                        None
                    } else {
                        self.now += self.probe_ms;
                        self.answer
                    };
                    event = ReadinessEvent::Probed {
                        health: answer,
                        now: self.now,
                    };
                }
                ReadinessStep::TakeTime => event = ReadinessEvent::Rest { now: self.now },
                ReadinessStep::Sleep { ms } => {
                    self.now += ms;
                    event = ReadinessEvent::Round { now: self.now };
                }
                ReadinessStep::Done(outcome) => return outcome,
            }
        }
    }
}

fn world(answer: Option<WdaHealth>) -> World<'static> {
    World {
        answer,
        probe_ms: 5,
        setup: "",
        probes: 0,
        now: 1_000,
    }
}

/// Drive the loop to `Ready` against a healthy runner.
#[test]
fn readiness_loop_reaches_ready_and_publishes_evidence() {
    let mut lifecycle = WdaLifecycle::new();
    let token = lifecycle.try_begin_reconnecting().unwrap();
    let mut board = board();
    let outcome = world(Some(health(true, true, Some(false)))).run(
        &lifecycle,
        &mut board,
        token,
        short_budget(),
    );
    assert_eq!(outcome, WdaReadinessOutcome::Ready);
    assert!(board.actionable);
    assert!(!board.released);
}

/// A locked phone ends the wait promptly instead of burning the budget.
#[test]
fn readiness_loop_ends_on_a_locked_phone() {
    let mut lifecycle = WdaLifecycle::new();
    let token = lifecycle.try_begin_reconnecting().unwrap();
    let mut board = board();
    let mut world = world(Some(health(true, false, Some(true))));
    let outcome = world.run(&lifecycle, &mut board, token, short_budget());
    assert_eq!(outcome, WdaReadinessOutcome::Locked);
    assert!(
        world.now - 1_000 < short_budget().total,
        "a locked phone burned the whole budget"
    );
    assert_eq!(
        board.health.locked,
        Some(true),
        "the lock state must be published"
    );
}

/// A published prerequisite ends the wait before the runner is ever contacted:
/// the retry loop cannot clear something only a person can.
#[test]
fn readiness_loop_ends_on_a_setup_blocker_without_touching_wda() {
    let mut lifecycle = WdaLifecycle::new();
    let token = lifecycle.try_begin_reconnecting().unwrap();
    let mut board = board();
    let mut world = world(Some(health(true, true, Some(false))));
    world.setup = r#"{"phase":"lock-backoff","blocked_on":"locked","message":"fixture","ts":1000}"#;
    let outcome = world.run(&lifecycle, &mut board, token, short_budget());
    assert_eq!(outcome, WdaReadinessOutcome::SetupBlocked);
    assert_eq!(
        world.probes, 0,
        "a published blocker must end the wait before probing WDA"
    );
    assert!(!board.actionable);
}

/// A probe that hangs must be cut off by the ABSOLUTE deadline: the wait ends
/// at its budget even though the probe's own ceiling is longer.
#[test]
fn a_hanging_probe_cannot_push_the_wait_past_its_deadline() {
    let mut lifecycle = WdaLifecycle::new();
    let token = lifecycle.try_begin_reconnecting().unwrap();
    let mut board = board();
    let mut world = world(Some(health(true, true, Some(false))));
    world.probe_ms = 1_500;
    let budget = WdaReadinessBudget {
        total: 200,
        // Deliberately larger than `total`: only the absolute deadline can
        // stop this probe.
        probe: 30_000,
        poll: 10,
    };
    let outcome = world.run(&lifecycle, &mut board, token, budget);
    assert_eq!(outcome, WdaReadinessOutcome::Deadline);
    assert!(
        world.now - 1_000 < 900,
        "a hanging probe ran past the budget: {}",
        world.now
    );
    assert!(!board.actionable);
}

/// With the runner refusing connections, the wait ends at its deadline and not
/// meaningfully beyond it.
#[test]
fn readiness_loop_ends_at_its_deadline_without_overrunning() {
    let mut lifecycle = WdaLifecycle::new();
    let token = lifecycle.try_begin_reconnecting().unwrap();
    let mut board = board();
    let mut world = world(Some(WdaHealth::down()));
    let budget = short_budget();
    let outcome = world.run(&lifecycle, &mut board, token, budget);
    let elapsed = world.now - 1_000;
    assert_eq!(outcome, WdaReadinessOutcome::Deadline);
    assert!(elapsed >= budget.total, "returned before the budget: {elapsed}");
    assert!(
        elapsed < budget.total + budget.probe + budget.poll,
        "overran the budget: {elapsed}"
    );
}

/// A round taken over mid-wait must end as `Superseded`, publish nothing, and
/// leave the new round alone.
#[test]
fn readiness_loop_reports_superseded_when_another_round_takes_over() {
    let mut lifecycle = WdaLifecycle::new();
    let first = lifecycle.try_begin_reconnecting().unwrap();
    assert!(lifecycle.finish_reconnecting(first));
    let second = lifecycle.try_begin_reconnecting().unwrap();
    let mut slate = board();
    let outcome = world(Some(WdaHealth::down())).run(&lifecycle, &mut slate, first, short_budget());
    assert_eq!(outcome, WdaReadinessOutcome::Superseded);
    assert!(
        lifecycle.is_reconnecting(),
        "a superseded round ended the current one"
    );
    assert_eq!(slate, board());
    assert!(lifecycle.finish_reconnecting(second));
}

#[test]
fn evidence_that_arrives_after_the_deadline_is_discarded() {
    let mut lifecycle = WdaLifecycle::new();
    let token = lifecycle.try_begin_reconnecting().unwrap();
    let mut slate = board();
    let step = run_wda_readiness_wait(
        &lifecycle,
        &mut slate,
        token,
        true,
        100,
        short_budget(),
        ReadinessEvent::Probed {
            health: Some(health(true, true, Some(false))),
            now: 100,
        },
    );
    assert_eq!(step, ReadinessStep::Done(WdaReadinessOutcome::Deadline));
    assert_eq!(slate, board());
}

/// Giving up a wait must not leave the reconnect set forever.
#[test]
fn a_cancelled_readiness_wait_still_ends_its_reconnect() {
    let mut lifecycle = WdaLifecycle::new();
    let token = lifecycle.try_begin_reconnecting().unwrap();
    let ownership = WdaReadinessOwnership::new(token);
    let step = run_wda_readiness_wait(
        &lifecycle,
        &mut board(),
        token,
        true,
        300,
        short_budget(),
        ReadinessEvent::Round { now: 0 },
    );
    assert_eq!(step, ReadinessStep::ReadSetup);
    assert!(ownership.abandon(&mut lifecycle));
    assert!(
        !lifecycle.is_transitioning(),
        "a cancelled readiness wait left the reconnect set"
    );
}

/// A wait that never took a step still releases its generation.
#[test]
fn a_readiness_future_dropped_before_its_first_poll_releases_its_generation() {
    let mut lifecycle = WdaLifecycle::new();
    let token = lifecycle.try_begin_reconnecting().unwrap();
    let never_polled = WdaReadinessOwnership::new(token);
    assert!(never_polled.abandon(&mut lifecycle));
    assert!(
        !lifecycle.is_transitioning(),
        "a never-polled readiness future kept its reconnect"
    );
}

#[test]
fn a_resolved_wait_is_not_ended_twice() {
    let mut lifecycle = WdaLifecycle::new();
    let token = lifecycle.try_begin_reconnecting().unwrap();
    let mut ownership = WdaReadinessOwnership::new(token);
    ownership.resolve(&mut lifecycle, WdaReadinessOutcome::Ready);
    assert!(!lifecycle.is_transitioning());
    let next = lifecycle.try_begin_reconnecting().unwrap();
    assert!(!ownership.abandon(&mut lifecycle));
    assert!(lifecycle.finish_reconnecting(next));
    assert_eq!(WdaReadinessOutcome::SetupBlocked.as_str(), "setup_blocked");
}

/// A superseded task must neither publish its round's observation nor end the
/// round that replaced it, and neither attempt may panic.
#[test]
fn a_superseded_task_publishes_nothing_and_finishes_nothing() {
    let mut lifecycle = WdaLifecycle::new();
    let first = lifecycle.try_begin_reconnecting().expect("first round");
    assert!(lifecycle.finish_reconnecting(first));
    let second = lifecycle.try_begin_reconnecting().expect("second round");

    let mut health_slot = WdaHealth::down();
    let mut actionable = false;
    let mut released = true;
    let stale = health(true, true, Some(false));
    // The first round's late probe tries to land its evidence.
    let published = lifecycle.publish_if_current(first, || {
        apply_wda_health_probe(&mut health_slot, &mut actionable, &mut released, stale)
    });
    assert!(
        published.is_none(),
        "a superseded round must publish nothing"
    );
    assert!(!actionable);
    assert!(released);
    assert!(!health_slot.up);

    // And its late finish must not end the round that replaced it.
    finish_wda_readiness_wait(&mut lifecycle, first, WdaReadinessOutcome::Deadline);
    assert!(
        lifecycle.is_reconnecting(),
        "a stale task ended a newer generation"
    );
    assert!(lifecycle.finish_reconnecting(second));
    assert!(!lifecycle.is_transitioning());
}

/// A token that lost ownership must not end a *release* either.
#[test]
fn a_stale_reconnect_token_cannot_end_a_release() {
    let mut lifecycle = WdaLifecycle::new();
    let reconnect = lifecycle.try_begin_reconnecting().expect("reconnect");
    assert!(lifecycle.finish_reconnecting(reconnect));
    let release = lifecycle.try_begin_releasing().expect("release");

    finish_wda_readiness_wait(&mut lifecycle, reconnect, WdaReadinessOutcome::Superseded);
    assert!(
        lifecycle.is_releasing(),
        "a reconnect token ended a release"
    );
    assert!(lifecycle.finish_releasing(release));
}

/// Finishing twice, or after being superseded, is a normal outcome and must be
/// reported rather than asserted.
#[test]
fn repeated_finishes_report_false_instead_of_panicking() {
    let mut lifecycle = WdaLifecycle::new();
    let token = lifecycle.try_begin_reconnecting().expect("reconnect");
    assert!(lifecycle.finish_reconnecting(token));
    assert!(
        !lifecycle.finish_reconnecting(token),
        "second finish is a no-op"
    );
    finish_wda_readiness_wait(&mut lifecycle, token, WdaReadinessOutcome::Ready);
    assert!(!lifecycle.is_transitioning());
}

/// A `Superseded` outcome owns nothing, so it must not even attempt a finish —
/// including in the window where its generation is somehow current again.
#[test]
fn a_superseded_outcome_never_finishes_even_its_own_generation() {
    let mut lifecycle = WdaLifecycle::new();
    let token = lifecycle.try_begin_reconnecting().expect("reconnect");
    finish_wda_readiness_wait(&mut lifecycle, token, WdaReadinessOutcome::Superseded);
    assert!(
        lifecycle.is_reconnecting(),
        "a superseded outcome must leave the transition to its owner"
    );
    assert!(lifecycle.finish_reconnecting(token));
}

fn status_facts(health: WdaHealth) -> StatusFacts {
    StatusFacts {
        config: CapabilityConfig {
            direct: true,
            managed: true,
            pending: false,
        },
        instance: "default".to_string(),
        udid: Some("00008110-001234567890001E".to_string()),
        lease: 300_000,
        health,
        mirror: None,
        mirror_in_front: false,
        version: "1.0.0".to_string(),
        latest: Some("v1.1.0".to_string()),
        viewers: 0,
        stream_age: None,
        setup_phase: String::new(),
        setup_message: String::new(),
        setup_blocked_on: String::new(),
        build: WdaBuild::unknown().to_json(),
    }
}

/// Evidence cached before a bring-up must not let a status request end that
/// bring-up or report the phone drivable. Repeating the request must change
/// nothing, and the owner must still be able to finish normally afterwards.
#[test]
fn status_never_ends_a_reconnect_that_cached_actionability_precedes() {
    let mut state = AppState::new(0);
    let cached = health(true, true, Some(false));
    assert!(apply_wda_health_probe(
        &mut state.health,
        &mut state.actionable,
        &mut state.released,
        cached,
    ));
    assert!(state.actionable);

    // A new bring-up starts; the cached value is still true.
    let token = state
        .lifecycle
        .try_begin_reconnecting()
        .expect("bring-up starts");

    for _ in 0..3 {
        let reply = agent_status(&status_facts(cached), &state, 0);
        assert_eq!(reply.status, 200);
        let body = reply.body;
        assert!(
            body.contains(r#""reconnecting":true"#),
            "status ended a live reconnect: {body}"
        );
        assert!(
            body.contains(r#""drivable":false"#),
            "status reported a rebuilding runner as drivable: {body}"
        );
        assert!(state.lifecycle.is_reconnecting());
    }

    // The owner can still finish normally after those observations.
    assert!(state.lifecycle.finish_reconnecting(token));
    assert!(!state.lifecycle.is_transitioning());
}

#[test]
fn status_tells_of_a_phone_that_is_ready() {
    let state = AppState::new(0);
    let facts = status_facts(health(true, true, Some(false)));
    let reply = agent_status(&facts, &state, 5_000);
    let body: serde_json::Value = serde_json::from_str(&reply.body).unwrap();
    assert_eq!(body["drivable"], true);
    assert_eq!(body["device_state"], "ready");
    assert_eq!(body["update_available"], true);
    assert_eq!(status_device_state(&facts, &state), "ready");
    // A runner that answers and cannot act is no state of its own.
    let stalled = status_facts(health(true, false, Some(false)));
    assert_eq!(status_device_state(&stalled, &state), "offline");
    let locked = status_facts(health(true, false, Some(true)));
    assert_eq!(status_device_state(&locked, &state), "locked");
    let down = status_facts(WdaHealth::down());
    let body: serde_json::Value =
        serde_json::from_str(&agent_status(&down, &state, 5_000).body).unwrap();
    assert_eq!(body["drivable"], false);
    assert!(!status_hint(&down, &state).is_empty());
}

#[test]
fn a_handoff_is_remembered_until_it_is_taken_back() {
    let mut handoff = HumanHandoff::new();
    assert!(!human_handoff_active(&handoff));
    set_human_handoff(&mut handoff, true);
    assert!(human_handoff_active(&handoff));
    set_human_handoff(&mut handoff, false);
    assert!(!human_handoff_active(&handoff));
}

#[test]
fn activity_holds_and_control_are_counted() {
    let mut state = AppState::new(100);
    assert_eq!(state.idle_for(400), 300);
    state.touch_activity(350);
    assert_eq!(state.idle_for(400), 50);
    assert!(state.begin_wda_control());
    assert_eq!(state.control_pending, 1);
    state.end_wda_control();
    assert_eq!(state.control_pending, 0);
    assert!(!state.viewer_busy(0));
    assert!(state.viewer_busy(1));
    state.health = health(true, true, Some(false));
    state.actionable = true;
    state.note_started();
    assert_eq!(state.health, WdaHealth::down());
    assert!(!state.actionable);
    state.note_released();
    assert!(state.released);
    assert_eq!(state.lifecycle.current(), WdaLifecycleTransition::Active);
}
