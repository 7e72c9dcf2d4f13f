//! What is known of the runner's health, how it is lost, and the wait for it to
//! come back.

use vstd::prelude::*;

use crate::lifecycle::{
    owned, round_over, LifecycleView, WdaLifecycle, WdaLifecycleTransition, WdaTransitionToken,
};
use crate::text::same_text;

verus! {

/// One completed observation of the runner.
#[derive(Clone, Copy, Debug, PartialEq, Eq, Structural)]
pub struct WdaHealth {
    /// It answers at all.
    pub up: bool,
    /// It carries out actions.
    pub actionable: bool,
    /// The phone's lock state, where it is known.
    pub locked: Option<bool>,
}

impl WdaHealth {
    /// Nothing answers.
    pub fn down() -> (health: WdaHealth)
        ensures
            health == (WdaHealth { up: false, actionable: false, locked: None }),
    {
        WdaHealth { up: false, actionable: false, locked: None }
    }
}

/// Why the runner last stopped being drivable, and when; an empty reason where
/// it has not.
#[derive(Clone, Copy, Debug, PartialEq, Eq)]
pub struct WdaDeath {
    pub reason: &'static str,
    /// Unix seconds of the transition.
    pub at: u64,
}

impl Default for WdaDeath {
    fn default() -> (death: WdaDeath)
        ensures
            death.reason@ == ""@,
            death.at == 0,
    {
        WdaDeath { reason: "", at: 0 }
    }
}

/// The cause of a fall from working to not working; `None` where there was no
/// such fall. A stop on purpose outranks what it looks like from outside.
pub open spec fn death_cause(
    prev: WdaHealth,
    new: WdaHealth,
    released: bool,
    releasing: bool,
) -> Option<Seq<char>> {
    if !prev.actionable || new.actionable {
        None
    } else if released || releasing {
        Some("idle_release"@)
    } else if new.up && new.locked == Some(true) {
        Some("device_locked"@)
    } else if new.up {
        Some("session_severed"@)
    } else {
        Some("unreachable"@)
    }
}

pub fn classify_wda_death(
    prev: WdaHealth,
    new: WdaHealth,
    released: bool,
    releasing: bool,
) -> (cause: Option<&'static str>)
    ensures
        match cause {
            Some(cause) => death_cause(prev, new, released, releasing) == Some(cause@),
            None => death_cause(prev, new, released, releasing) is None,
        },
{
    if !prev.actionable || new.actionable {
        return None;
    }
    if released || releasing {
        return Some("idle_release");
    }
    if new.up {
        if let Some(true) = new.locked {
            return Some("device_locked");
        }
        return Some("session_severed");
    }
    Some("unreachable")
}

/// Only a fall counts: an observation that is still working, or that follows one
/// that was not, is never taken for a new death.
pub proof fn law_only_a_fall_is_a_death(
    prev: WdaHealth,
    new: WdaHealth,
    released: bool,
    releasing: bool,
)
    ensures
        death_cause(prev, new, released, releasing) is Some <==> prev.actionable
            && !new.actionable,
        prev.actionable && !new.actionable && (released || releasing) ==> death_cause(
            prev,
            new,
            released,
            releasing,
        ) == Some("idle_release"@),
{
}

/// What to do about a death.
pub open spec fn death_hint(reason: Seq<char>) -> Seq<char> {
    if reason == "idle_release"@ {
        "WDA was released on purpose after idle — the next control request re-bootstraps it; nothing is broken"@
    } else if reason == "device_locked"@ {
        "the iPhone locked while WDA was driving it — unlock it and keep it awake"@
    } else if reason == "session_severed"@ {
        "WDA still answers but its test session was torn down — a WARP/VPN reconnect, Mac sleep, or a phone lock does this; restart the direct device service, and if WARP is on, exclude the CoreDevice tunnel"@
    } else if reason == "unreachable"@ {
        "WDA stopped answering entirely — the runner exited, the 8100/9100 relay died, or the phone's Wi-Fi address changed; re-run setup-wda.sh and check the relay"@
    } else {
        ""@
    }
}

pub fn wda_death_hint(reason: &str) -> (hint: &'static str)
    ensures
        hint@ == death_hint(reason@),
{
    if same_text(reason, "idle_release") {
        "WDA was released on purpose after idle — the next control request re-bootstraps it; nothing is broken"
    } else if same_text(reason, "device_locked") {
        "the iPhone locked while WDA was driving it — unlock it and keep it awake"
    } else if same_text(reason, "session_severed") {
        "WDA still answers but its test session was torn down — a WARP/VPN reconnect, Mac sleep, or a phone lock does this; restart the direct device service, and if WARP is on, exclude the CoreDevice tunnel"
    } else if same_text(reason, "unreachable") {
        "WDA stopped answering entirely — the runner exited, the 8100/9100 relay died, or the phone's Wi-Fi address changed; re-run setup-wda.sh and check the relay"
    } else {
        ""
    }
}

/// Commits one completed observation: it becomes the cached health and the
/// cached actionability, and a runner that answers is no longer released.
/// Returns whether the runner carries out actions.
pub fn apply_wda_health_probe(
    health_slot: &mut WdaHealth,
    actionable: &mut bool,
    released: &mut bool,
    health: WdaHealth,
) -> (ready: bool)
    ensures
        ready == health.actionable,
        *final(health_slot) == health,
        *final(actionable) == health.actionable,
        *final(released) == (*old(released) && !health.up),
{
    *health_slot = health;
    *actionable = health.actionable;
    if health.up {
        *released = false;
    }
    health.actionable
}

/// The recorded death after an observation: a new cause replaces it, a working
/// runner clears it, anything else leaves it.
pub open spec fn death_after(
    death: (Seq<char>, u64),
    prev: WdaHealth,
    health: WdaHealth,
    released: bool,
    releasing: bool,
    now: u64,
) -> (Seq<char>, u64) {
    match death_cause(prev, health, released, releasing) {
        Some(cause) => (cause, now),
        None => if health.actionable {
            (""@, 0u64)
        } else {
            death
        },
    }
}

/// [`apply_wda_health_probe`], and the cause of death beside it.
pub fn apply_wda_health_probe_tracked(
    health_slot: &mut WdaHealth,
    actionable: &mut bool,
    released: &mut bool,
    releasing: bool,
    death: &mut WdaDeath,
    health: WdaHealth,
    now: u64,
) -> (ready: bool)
    ensures
        ready == health.actionable,
        *final(health_slot) == health,
        *final(actionable) == health.actionable,
        *final(released) == (*old(released) && !health.up),
        (final(death).reason@, final(death).at) == death_after(
            (old(death).reason@, old(death).at),
            *old(health_slot),
            health,
            *old(released),
            releasing,
            now,
        ),
{
    match classify_wda_death(*health_slot, health, *released, releasing) {
        Some(reason) => {
            *death = WdaDeath { reason, at: now };
        },
        None => {
            if health.actionable {
                *death = WdaDeath { reason: "", at: 0 };
            }
        },
    }
    apply_wda_health_probe(health_slot, actionable, released, health)
}

/// Why a readiness wait ended.
#[derive(Clone, Copy, Debug, PartialEq, Eq, Structural)]
pub enum WdaReadinessOutcome {
    /// An action succeeded.
    Ready,
    /// The runner answers but the phone is locked.
    Locked,
    /// Setup reported a prerequisite that only a person can meet.
    SetupBlocked,
    /// The budget ran out.
    Deadline,
    /// Another round took over.
    Superseded,
}

impl WdaReadinessOutcome {
    pub fn as_str(self) -> (name: &'static str)
        ensures
            name@ == match self {
                WdaReadinessOutcome::Ready => "ready"@,
                WdaReadinessOutcome::Locked => "locked"@,
                WdaReadinessOutcome::SetupBlocked => "setup_blocked"@,
                WdaReadinessOutcome::Deadline => "deadline"@,
                WdaReadinessOutcome::Superseded => "superseded"@,
            },
    {
        match self {
            WdaReadinessOutcome::Ready => "ready",
            WdaReadinessOutcome::Locked => "locked",
            WdaReadinessOutcome::SetupBlocked => "setup_blocked",
            WdaReadinessOutcome::Deadline => "deadline",
            WdaReadinessOutcome::Superseded => "superseded",
        }
    }
}

/// The lifecycle after a wait on the token's round has ended.
pub open spec fn wait_finished(
    lifecycle: LifecycleView,
    token: WdaTransitionToken,
    outcome: WdaReadinessOutcome,
) -> LifecycleView {
    if outcome != WdaReadinessOutcome::Superseded && owned(lifecycle, token) {
        round_over(lifecycle)
    } else {
        lifecycle
    }
}

/// Ends the reconnect that the token owns. A superseded wait ends nothing.
pub fn finish_wda_readiness_wait(
    lifecycle: &mut WdaLifecycle,
    token: WdaTransitionToken,
    outcome: WdaReadinessOutcome,
)
    requires
        token.round().phase == WdaLifecycleTransition::Reconnecting,
    ensures
        final(lifecycle)@ == wait_finished(old(lifecycle)@, token, outcome),
{
    if outcome == WdaReadinessOutcome::Superseded {
        return;
    }
    let _ = lifecycle.finish_reconnecting(token);
}

/// Time limits of one readiness wait, in milliseconds.
#[derive(Clone, Copy, Debug, PartialEq, Eq, Structural)]
pub struct WdaReadinessBudget {
    /// For the whole wait.
    pub total: u64,
    /// For one probe.
    pub probe: u64,
    /// Between two probes.
    pub poll: u64,
}

impl Default for WdaReadinessBudget {
    fn default() -> (budget: WdaReadinessBudget)
        ensures
            budget == (WdaReadinessBudget { total: 420_000, probe: 20_000, poll: 2_000 }),
    {
        WdaReadinessBudget { total: 420_000, probe: 20_000, poll: 2_000 }
    }
}

/// The claim of a readiness wait on its round, from before the wait starts until
/// it is resolved or given up.
#[derive(Debug)]
pub struct WdaReadinessOwnership {
    token: WdaTransitionToken,
    resolved: bool,
}

impl WdaReadinessOwnership {
    pub closed spec fn token(&self) -> WdaTransitionToken {
        self.token
    }

    pub closed spec fn resolved(&self) -> bool {
        self.resolved
    }

    pub fn new(token: WdaTransitionToken) -> (ownership: WdaReadinessOwnership)
        ensures
            ownership.token() == token,
            !ownership.resolved(),
    {
        WdaReadinessOwnership { token, resolved: false }
    }

    /// The wait has come to its end.
    pub fn resolve(&mut self, lifecycle: &mut WdaLifecycle, outcome: WdaReadinessOutcome)
        requires
            old(self).token().round().phase == WdaLifecycleTransition::Reconnecting,
        ensures
            final(self).resolved(),
            final(self).token() == old(self).token(),
            final(lifecycle)@ == wait_finished(old(lifecycle)@, old(self).token(), outcome),
    {
        self.resolved = true;
        finish_wda_readiness_wait(lifecycle, self.token, outcome);
    }

    /// The wait is given up, perhaps before it began. Where it was not resolved
    /// its round ends now, so that nobody is left waiting on it; returns whether
    /// that was so.
    pub fn abandon(self, lifecycle: &mut WdaLifecycle) -> (ended: bool)
        requires
            self.token().round().phase == WdaLifecycleTransition::Reconnecting,
        ensures
            ended == (!self.resolved() && owned(old(lifecycle)@, self.token())),
            final(lifecycle)@ == (if ended {
                round_over(old(lifecycle)@)
            } else {
                old(lifecycle)@
            }),
    {
        if self.resolved {
            return false;
        }
        lifecycle.finish_reconnecting(self.token)
    }
}

/// However a wait on its own round ends, resolved or given up, the round is over
/// afterwards.
pub proof fn law_a_wait_never_outlives_its_round(
    lifecycle: LifecycleView,
    token: WdaTransitionToken,
    outcome: WdaReadinessOutcome,
)
    requires
        owned(lifecycle, token),
        token.round().phase == WdaLifecycleTransition::Reconnecting,
        outcome != WdaReadinessOutcome::Superseded,
    ensures
        wait_finished(lifecycle, token, outcome).phase == WdaLifecycleTransition::Active,
        round_over(lifecycle).phase == WdaLifecycleTransition::Active,
{
}

/// A wait whose round was taken over leaves the round that replaced it alone.
pub proof fn law_a_superseded_wait_ends_nothing(
    lifecycle: LifecycleView,
    token: WdaTransitionToken,
    outcome: WdaReadinessOutcome,
)
    requires
        !owned(lifecycle, token),
    ensures
        wait_finished(lifecycle, token, outcome) == lifecycle,
{
}

/// The health that is shared by everyone who asks.
#[derive(Clone, Copy, Debug, PartialEq, Eq, Structural)]
pub struct HealthBoard {
    pub health: WdaHealth,
    pub actionable: bool,
    /// The runner has given the phone up.
    pub released: bool,
}

/// What happened since the last step of a readiness wait. All times are
/// milliseconds on one monotonic clock.
#[derive(Clone, Copy, Debug, PartialEq, Eq, Structural)]
pub enum ReadinessEvent {
    /// A round of the wait starts.
    Round { now: u64 },
    /// Setup's status was read: whether it names a blocker, and the time after
    /// the read.
    Setup { blocked: bool, now: u64 },
    /// The probe completed, or did not complete in time.
    Probed { health: Option<WdaHealth>, now: u64 },
    /// There was nothing to probe, or the probe decided nothing.
    Rest { now: u64 },
}

/// What a readiness wait does next.
#[derive(Clone, Copy, Debug, PartialEq, Eq, Structural)]
pub enum ReadinessStep {
    ReadSetup,
    /// Probe the runner, giving up at this time.
    Probe { until: u64 },
    /// Take the time and come back with `Rest`.
    TakeTime,
    /// Sleep this long, then start the next round.
    Sleep { ms: u64 },
    Done(WdaReadinessOutcome),
}

/// The observation that a step publishes: a probe that completed before the
/// deadline, in a round that is still owned.
pub open spec fn published(
    owns: bool,
    deadline: u64,
    event: ReadinessEvent,
) -> Option<WdaHealth> {
    match event {
        ReadinessEvent::Probed { health: Some(health), now } => if now < deadline && owns {
            Some(health)
        } else {
            None
        },
        _ => None,
    }
}

/// The board after an observation was committed.
pub open spec fn board_after(board: HealthBoard, health: Option<WdaHealth>) -> HealthBoard {
    match health {
        Some(health) => HealthBoard {
            health,
            actionable: health.actionable,
            released: board.released && !health.up,
        },
        None => board,
    }
}

pub open spec fn min_of(a: int, b: int) -> int {
    if a < b {
        a
    } else {
        b
    }
}

/// What a readiness wait does next.
pub open spec fn readiness_next(
    owns: bool,
    has_runner: bool,
    deadline: u64,
    budget: WdaReadinessBudget,
    event: ReadinessEvent,
) -> ReadinessStep {
    match event {
        ReadinessEvent::Round { now } => if !owns {
            ReadinessStep::Done(WdaReadinessOutcome::Superseded)
        } else if now >= deadline {
            ReadinessStep::Done(WdaReadinessOutcome::Deadline)
        } else {
            ReadinessStep::ReadSetup
        },
        ReadinessEvent::Setup { blocked, now } => if blocked {
            ReadinessStep::Done(WdaReadinessOutcome::SetupBlocked)
        } else if now >= deadline {
            ReadinessStep::Done(WdaReadinessOutcome::Deadline)
        } else if has_runner {
            ReadinessStep::Probe { until: min_of(deadline as int, now + budget.probe) as u64 }
        } else {
            ReadinessStep::TakeTime
        },
        ReadinessEvent::Probed { health, now } => match health {
            None => ReadinessStep::TakeTime,
            Some(health) => if now >= deadline {
                ReadinessStep::Done(WdaReadinessOutcome::Deadline)
            } else if !owns {
                ReadinessStep::Done(WdaReadinessOutcome::Superseded)
            } else if health.actionable {
                ReadinessStep::Done(WdaReadinessOutcome::Ready)
            } else if health.up && health.locked == Some(true) {
                ReadinessStep::Done(WdaReadinessOutcome::Locked)
            } else {
                ReadinessStep::TakeTime
            },
        },
        ReadinessEvent::Rest { now } => if now >= deadline {
            ReadinessStep::Done(WdaReadinessOutcome::Deadline)
        } else {
            ReadinessStep::Sleep { ms: min_of(budget.poll as int, deadline - now) as u64 }
        },
    }
}

/// One step of the wait for the runner to become drivable. Evidence reaches the
/// board only while the token owns its round and the deadline has not passed.
pub fn run_wda_readiness_wait(
    lifecycle: &WdaLifecycle,
    board: &mut HealthBoard,
    token: WdaTransitionToken,
    has_runner: bool,
    deadline: u64,
    budget: WdaReadinessBudget,
    event: ReadinessEvent,
) -> (step: ReadinessStep)
    ensures
        step == readiness_next(
            owned(lifecycle@, token),
            has_runner,
            deadline,
            budget,
            event,
        ),
        *final(board) == board_after(
            *old(board),
            published(owned(lifecycle@, token), deadline, event),
        ),
{
    match event {
        ReadinessEvent::Round { now } => {
            if !lifecycle.owns(token) {
                ReadinessStep::Done(WdaReadinessOutcome::Superseded)
            } else if now >= deadline {
                ReadinessStep::Done(WdaReadinessOutcome::Deadline)
            } else {
                ReadinessStep::ReadSetup
            }
        },
        ReadinessEvent::Setup { blocked, now } => {
            if blocked {
                ReadinessStep::Done(WdaReadinessOutcome::SetupBlocked)
            } else if now >= deadline {
                ReadinessStep::Done(WdaReadinessOutcome::Deadline)
            } else if has_runner {
                let until: u64 = if budget.probe < deadline - now {
                    now + budget.probe
                } else {
                    deadline
                };
                ReadinessStep::Probe { until }
            } else {
                ReadinessStep::TakeTime
            }
        },
        ReadinessEvent::Probed { health, now } => match health {
            None => ReadinessStep::TakeTime,
            Some(health) => {
                if now >= deadline {
                    return ReadinessStep::Done(WdaReadinessOutcome::Deadline);
                }
                if !lifecycle.owns(token) {
                    return ReadinessStep::Done(WdaReadinessOutcome::Superseded);
                }
                let mut slot = board.health;
                let mut actionable = board.actionable;
                let mut released = board.released;
                let ready = apply_wda_health_probe(
                    &mut slot,
                    &mut actionable,
                    &mut released,
                    health,
                );
                *board = HealthBoard { health: slot, actionable, released };
                if ready {
                    return ReadinessStep::Done(WdaReadinessOutcome::Ready);
                }
                if let Some(true) = health.locked {
                    if health.up {
                        return ReadinessStep::Done(WdaReadinessOutcome::Locked);
                    }
                }
                ReadinessStep::TakeTime
            },
        },
        ReadinessEvent::Rest { now } => {
            if now >= deadline {
                ReadinessStep::Done(WdaReadinessOutcome::Deadline)
            } else {
                let remaining: u64 = deadline - now;
                ReadinessStep::Sleep {
                    ms: if budget.poll < remaining {
                        budget.poll
                    } else {
                        remaining
                    },
                }
            }
        },
    }
}

/// Evidence that arrives after the deadline, or after another round took over,
/// changes nothing and never reports ready.
pub proof fn law_late_evidence_is_discarded(
    board: HealthBoard,
    owns: bool,
    has_runner: bool,
    deadline: u64,
    budget: WdaReadinessBudget,
    health: WdaHealth,
    now: u64,
)
    requires
        now >= deadline || !owns,
    ensures
        board_after(
            board,
            published(owns, deadline, ReadinessEvent::Probed { health: Some(health), now }),
        ) == board,
        readiness_next(
            owns,
            has_runner,
            deadline,
            budget,
            ReadinessEvent::Probed { health: Some(health), now },
        ) != ReadinessStep::Done(WdaReadinessOutcome::Ready),
{
}

/// No probe and no sleep of a wait runs past its deadline, however long its own
/// ceiling is.
pub proof fn law_a_wait_stays_inside_its_budget(
    owns: bool,
    has_runner: bool,
    deadline: u64,
    budget: WdaReadinessBudget,
    event: ReadinessEvent,
)
    ensures
        readiness_next(owns, has_runner, deadline, budget, event) matches ReadinessStep::Probe {
            until,
        } ==> until <= deadline,
        event matches ReadinessEvent::Rest { now } ==> (readiness_next(
            owns,
            has_runner,
            deadline,
            budget,
            event,
        ) matches ReadinessStep::Sleep { ms } ==> now + ms <= deadline),
{
}

/// A wait reports ready only on a probe that completed in time, in a round that
/// was still owned, and that found the runner carrying out actions; the board
/// then says so.
pub proof fn law_ready_is_backed_by_evidence(
    board: HealthBoard,
    owns: bool,
    has_runner: bool,
    deadline: u64,
    budget: WdaReadinessBudget,
    event: ReadinessEvent,
)
    requires
        readiness_next(owns, has_runner, deadline, budget, event) == ReadinessStep::Done(
            WdaReadinessOutcome::Ready,
        ),
    ensures
        owns,
        board_after(board, published(owns, deadline, event)).actionable,
        board_after(board, published(owns, deadline, event)).health.actionable,
{
}

/// The lengths and some letters of words, which tell them apart.
proof fn lemma_death_words()
    ensures
        ""@.len() == 0,
        "unreachable"@.len() == 11,
        "idle_release"@.len() == 12,
        "device_locked"@.len() == 13,
        "session_severed"@.len() == 15,
{
    reveal_strlit("");
    reveal_strlit("unreachable");
    reveal_strlit("idle_release");
    reveal_strlit("device_locked");
    reveal_strlit("session_severed");
}

/// A death has one cause: the phone was given back, it locked, its session was
/// torn down, or it answers no more; and each cause has its own advice.
pub proof fn law_a_death_is_told_by_its_cause(
    prev: WdaHealth,
    new: WdaHealth,
    released: bool,
    releasing: bool,
)
    ensures
        prev.actionable && !new.actionable && (released || releasing) ==> death_cause(
            prev,
            new,
            released,
            releasing,
        ) == Some("idle_release"@),
        prev.actionable && !new.actionable && !released && !releasing && new.up && new.locked
            == Some(true) ==> death_cause(prev, new, released, releasing) == Some(
            "device_locked"@,
        ),
        prev.actionable && !new.actionable && !released && !releasing && new.up && new.locked
            != Some(true) ==> death_cause(prev, new, released, releasing) == Some(
            "session_severed"@,
        ),
        prev.actionable && !new.actionable && !released && !releasing && !new.up ==> death_cause(
            prev,
            new,
            released,
            releasing,
        ) == Some("unreachable"@),
        !prev.actionable || new.actionable ==> death_cause(prev, new, released, releasing) is None,
        death_hint("idle_release"@)
            == "WDA was released on purpose after idle — the next control request re-bootstraps it; nothing is broken"@,
        death_hint("device_locked"@)
            == "the iPhone locked while WDA was driving it — unlock it and keep it awake"@,
        death_hint("session_severed"@)
            == "WDA still answers but its test session was torn down — a WARP/VPN reconnect, Mac sleep, or a phone lock does this; restart the direct device service, and if WARP is on, exclude the CoreDevice tunnel"@,
        death_hint("unreachable"@)
            == "WDA stopped answering entirely — the runner exited, the 8100/9100 relay died, or the phone's Wi-Fi address changed; re-run setup-wda.sh and check the relay"@,
        death_hint(""@) == ""@,
{
    lemma_death_words();
}

/// A death is kept with its time until the runner can act again; a runner that
/// was no better before leaves an earlier one as it was.
pub proof fn law_a_death_is_kept_until_the_runner_acts(
    death: (Seq<char>, u64),
    prev: WdaHealth,
    health: WdaHealth,
    released: bool,
    releasing: bool,
    now: u64,
)
    ensures
        ({
            let after = death_after(death, prev, health, released, releasing, now);
            &&& prev.actionable && !health.actionable ==> after.1 == now && Some(after.0)
                == death_cause(prev, health, released, releasing)
            &&& health.actionable ==> after == (""@, 0u64)
            &&& !prev.actionable && !health.actionable ==> after == death
        }),
{
}

/// What is made known of the runner: its health as it was seen; and a phone that
/// was given back counts as in use again once its runner is up.
pub proof fn law_seen_health_is_made_known(board: HealthBoard, health: WdaHealth)
    ensures
        board_after(board, Some(health)).health == health,
        board_after(board, Some(health)).actionable == health.actionable,
        health.up ==> !board_after(board, Some(health)).released,
        !health.up ==> board_after(board, Some(health)).released == board.released,
        board_after(board, None) == board,
{
}

/// The wait for the runner, step by step: it asks for the setup, looks at the
/// runner where there is one, rests, and asks again; it ends where another round
/// has begun, the time is up, the setup needs a person, the phone is locked, or
/// the runner is ready.
pub proof fn law_a_wait_goes_on_until_it_is_decided(
    owns: bool,
    has_runner: bool,
    deadline: u64,
    budget: WdaReadinessBudget,
    blocked: bool,
    health: WdaHealth,
    now: u64,
)
    requires
        now + budget.probe <= u64::MAX,
    ensures
        ({
            let step = readiness_next(owns, has_runner, deadline, budget, ReadinessEvent::Round {
                now,
            });
            &&& step is ReadSetup <==> owns && now < deadline
            &&& !owns ==> step == ReadinessStep::Done(WdaReadinessOutcome::Superseded)
            &&& owns && now >= deadline ==> step == ReadinessStep::Done(
                WdaReadinessOutcome::Deadline,
            )
        }),
        ({
            let step = readiness_next(owns, has_runner, deadline, budget, ReadinessEvent::Setup {
                blocked,
                now,
            });
            &&& blocked <==> step == ReadinessStep::Done(WdaReadinessOutcome::SetupBlocked)
            &&& !blocked && now >= deadline ==> step == ReadinessStep::Done(
                WdaReadinessOutcome::Deadline,
            )
            &&& !blocked && now < deadline && has_runner ==> (step matches ReadinessStep::Probe {
                until,
            } && until <= deadline && until <= now + budget.probe && (until == deadline || until
                == now + budget.probe))
            &&& !blocked && now < deadline && !has_runner ==> step is TakeTime
        }),
        ({
            let step = readiness_next(owns, has_runner, deadline, budget, ReadinessEvent::Probed {
                health: Some(health),
                now,
            });
            &&& step == ReadinessStep::Done(WdaReadinessOutcome::Ready) <==> now < deadline && owns
                && health.actionable
            &&& step == ReadinessStep::Done(WdaReadinessOutcome::Locked) <==> now < deadline && owns
                && !health.actionable && health.up && health.locked == Some(true)
            &&& step == ReadinessStep::Done(WdaReadinessOutcome::Deadline) <==> now >= deadline
            &&& step == ReadinessStep::Done(WdaReadinessOutcome::Superseded) <==> now < deadline
                && !owns
            &&& step is TakeTime <==> now < deadline && owns && !health.actionable && !(health.up
                && health.locked == Some(true))
            &&& published(owns, deadline, ReadinessEvent::Probed { health: Some(health), now })
                == (if now < deadline && owns {
                Some(health)
            } else {
                None
            })
        }),
        readiness_next(
            owns,
            has_runner,
            deadline,
            budget,
            ReadinessEvent::Probed { health: None, now },
        ) is TakeTime,
        ({
            let step = readiness_next(owns, has_runner, deadline, budget, ReadinessEvent::Rest {
                now,
            });
            &&& now >= deadline ==> step == ReadinessStep::Done(WdaReadinessOutcome::Deadline)
            &&& now < deadline ==> (step matches ReadinessStep::Sleep { ms } && ms <= budget.poll
                && now + ms <= deadline && (ms == budget.poll || now + ms == deadline))
        }),
{
}

/// A wait that was decided ends its own round; one that another round replaced
/// ends nothing.
pub proof fn law_a_decided_wait_ends_its_round(
    lifecycle: LifecycleView,
    token: WdaTransitionToken,
    outcome: WdaReadinessOutcome,
)
    ensures
        outcome !is Superseded && lifecycle == token.round() ==> wait_finished(
            lifecycle,
            token,
            outcome,
        ).phase is Active,
        wait_finished(lifecycle, token, outcome).generation == lifecycle.generation,
        outcome is Superseded || lifecycle != token.round() ==> wait_finished(
            lifecycle,
            token,
            outcome,
        ) == lifecycle,
{
}

} // verus!
