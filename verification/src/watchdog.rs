//! The idle watch: it frees a phone that nobody drives, watches or holds.

use vstd::prelude::*;

use crate::lifecycle::{
    next_round, round_over, LifecycleView, WdaLifecycleTransition, WdaTransitionToken,
};
use crate::state::{hold_live, let_go, since, AppState, AppView};
use crate::reply::opt_str;
use crate::text::{number_in, parse_u64, trim, trimmed};

verus! {

/// Seconds to wait after so many failed attempts in a row: thirty, twice as long
/// each time, and fifteen minutes at most.
pub open spec fn backoff_secs(failures: nat) -> u64 {
    if failures <= 1 {
        30
    } else if failures == 2 {
        60
    } else if failures == 3 {
        120
    } else if failures == 4 {
        240
    } else if failures == 5 {
        480
    } else {
        900
    }
}

pub open spec fn one_more_failure(failures: u32) -> u32 {
    if failures < u32::MAX {
        (failures + 1) as u32
    } else {
        failures
    }
}

/// Counts one more failed attempt, and tells how many seconds to wait.
pub fn release_retry_backoff(failures: &mut u32) -> (secs: u64)
    ensures
        *final(failures) == one_more_failure(*old(failures)),
        secs == backoff_secs(one_more_failure(*old(failures)) as nat),
{
    *failures = failures.saturating_add(1);
    let n: u32 = *failures;
    if n <= 1 {
        30
    } else if n == 2 {
        60
    } else if n == 3 {
        120
    } else if n == 4 {
        240
    } else if n == 5 {
        480
    } else {
        900
    }
}

/// Waiting grows with each failure, from half a minute to a quarter of an hour,
/// and never ends the attempts.
pub proof fn law_backoff_grows_to_its_cap(a: nat, b: nat)
    requires
        a <= b,
    ensures
        30 <= backoff_secs(a) <= backoff_secs(b) <= 900,
        1 <= a < b <= 6 ==> backoff_secs(a) < backoff_secs(b),
        b >= 6 ==> backoff_secs(b) == 900,
{
}

/// How long the runner must have been down for its return to count as a start by
/// a person, in milliseconds. A crash and its recovery are much quicker.
pub const COLD_START_AFTER_MS: u64 = 600000;

/// Where the idle watch stands.
#[derive(Clone, Copy, Debug, PartialEq, Eq, Structural)]
enum Stage {
    Resting,
    Probing,
    /// The runner is being stopped; `down` where it did not answer before.
    Stopping { token: WdaTransitionToken, down: bool },
}

/// Where the idle watch stands.
pub enum StageView {
    Resting,
    Probing,
    Stopping { round: LifecycleView, down: bool },
}

/// The idle watch.
#[derive(Debug)]
pub struct Watchdog {
    window: u64,
    was_up: bool,
    down_since: Option<u64>,
    backoff_until: Option<u64>,
    failures: u32,
    stage: Stage,
}

/// The content of a [`Watchdog`].
pub struct WatchView {
    /// How long the phone must be idle, in milliseconds.
    pub window: u64,
    pub was_up: bool,
    pub down_since: Option<u64>,
    pub backoff_until: Option<u64>,
    pub failures: u32,
    pub stage: StageView,
}

impl View for Watchdog {
    type V = WatchView;

    closed spec fn view(&self) -> WatchView {
        WatchView {
            window: self.window,
            was_up: self.was_up,
            down_since: self.down_since,
            backoff_until: self.backoff_until,
            failures: self.failures,
            stage: match self.stage {
                Stage::Resting => StageView::Resting,
                Stage::Probing => StageView::Probing,
                Stage::Stopping { token, down } => StageView::Stopping {
                    round: token.round(),
                    down,
                },
            },
        }
    }
}

/// What happened; `now` is milliseconds on one monotonic clock.
#[derive(Clone, Copy, Debug, PartialEq, Eq, Structural)]
pub enum WatchEvent {
    Woke,
    /// Whether the runner answers, where it could be asked; how many browsers
    /// are connected; and whether setup is at work.
    Probed { up: Option<bool>, viewers: usize, setup_active: bool, now: u64 },
    /// Whether the runner was stopped, and whether it no longer answers.
    Stopped { stopped: bool, endpoint_down: bool, now: u64 },
}

/// What to do next.
#[derive(Clone, Copy, Debug, PartialEq, Eq, Structural)]
pub enum WatchCommand {
    Sleep { ms: u64 },
    /// Ask the runner whether it answers.
    Probe,
    /// Stop the runner, and ask it afterwards whether it still answers.
    Stop { ask: bool },
    /// The event does not fit; nothing changed.
    Ignored,
}

/// Nobody drives, watches or holds the phone, and nobody has for a whole window.
pub open spec fn quiet(state: AppView, viewers: usize, window: u64, now: u64) -> bool {
    &&& state.live_streams == 0
    &&& viewers == 0
    &&& !hold_live(state.hold_until, now)
    &&& since(now, state.last_activity) >= window
    &&& state.control_pending == 0
}

/// Whether a failed attempt still has to be waited out.
pub open spec fn backing_off(w: WatchView, now: u64) -> bool {
    w.backoff_until matches Some(until) && now < until
}

pub open spec fn rest() -> WatchCommand {
    WatchCommand::Sleep { ms: 20000 }
}

pub open spec fn resting(w: WatchView) -> WatchView {
    WatchView { stage: StageView::Resting, ..w }
}

/// A release begins: nothing else can change the runner until it is over.
pub open spec fn stopping(w: WatchView, state: AppView, down: bool) -> (
    WatchView,
    AppView,
    WatchCommand,
) {
    let round = next_round(state.lifecycle, WdaLifecycleTransition::Releasing);
    (
        WatchView { stage: StageView::Stopping { round, down }, ..w },
        AppView { lifecycle: round, ..state },
        WatchCommand::Stop { ask: !down },
    )
}

/// The runner does not answer. That is mostly a runner that is rebuilt over and
/// over, and asks a person to unlock the phone each time: an idle phone is
/// freed from that as well.
pub open spec fn down_next(
    w: WatchView,
    state: AppView,
    viewers: usize,
    setup_active: bool,
    now: u64,
) -> (WatchView, AppView, WatchCommand) {
    let seen = WatchView {
        was_up: false,
        down_since: if w.was_up || w.down_since is None {
            Some(now)
        } else {
            w.down_since
        },
        ..w
    };
    if quiet(state, viewers, w.window, now) && !setup_active && !backing_off(w, now)
        && state.lifecycle.phase == WdaLifecycleTransition::Active {
        stopping(seen, state, true)
    } else {
        (resting(seen), state, rest())
    }
}

/// The runner answers. Its first answer after a long silence begins a whole new
/// window; one after a short silence does not, or a runner that crashes again
/// and again would keep the phone forever.
pub open spec fn up_next(w: WatchView, state: AppView, viewers: usize, now: u64) -> (
    WatchView,
    AppView,
    WatchCommand,
) {
    let seen = WatchView { was_up: true, down_since: None, ..w };
    if !w.was_up {
        let cold = w.down_since matches Some(then) ==> since(now, then) >= COLD_START_AFTER_MS;
        (
            resting(seen),
            if cold {
                AppView { last_activity: now, ..state }
            } else {
                state
            },
            rest(),
        )
    } else if quiet(state, viewers, w.window, now) && !backing_off(w, now)
        && state.lifecycle.phase == WdaLifecycleTransition::Active {
        stopping(seen, state, false)
    } else {
        (resting(seen), state, rest())
    }
}

/// A stop is over. It counts where the runner was stopped and, if it answered
/// before, no longer answers; else it is tried again later.
pub open spec fn stopped_next(
    w: WatchView,
    state: AppView,
    round: LifecycleView,
    confirmed: bool,
    now: u64,
) -> (WatchView, AppView, WatchCommand) {
    let over = AppView {
        lifecycle: if state.lifecycle == round {
            round_over(state.lifecycle)
        } else {
            state.lifecycle
        },
        ..state
    };
    if confirmed {
        (
            resting(
                WatchView { was_up: false, backoff_until: None, failures: 0, ..w },
            ),
            let_go(over),
            rest(),
        )
    } else {
        let failures = one_more_failure(w.failures);
        (
            resting(
                WatchView {
                    failures,
                    backoff_until: Some((now + backoff_secs(failures as nat) * 1000) as u64),
                    ..w
                },
            ),
            over,
            rest(),
        )
    }
}

/// The idle watch and the phone after an event, and what to do next.
pub open spec fn watch_next(w: WatchView, state: AppView, e: WatchEvent) -> (
    WatchView,
    AppView,
    WatchCommand,
) {
    match (w.stage, e) {
        (StageView::Resting, WatchEvent::Woke) => if state.released || state.lifecycle.phase
            != WdaLifecycleTransition::Active || state.control_pending != 0 {
            (w, state, rest())
        } else {
            (WatchView { stage: StageView::Probing, ..w }, state, WatchCommand::Probe)
        },
        (StageView::Probing, WatchEvent::Probed { up, viewers, setup_active, now }) => match up {
            None => (resting(w), state, rest()),
            Some(false) => down_next(w, state, viewers, setup_active, now),
            Some(true) => up_next(w, state, viewers, now),
        },
        (
            StageView::Stopping { round, down },
            WatchEvent::Stopped { stopped, endpoint_down, now },
        ) => stopped_next(w, state, round, stopped && (down || endpoint_down), now),
        _ => (w, state, WatchCommand::Ignored),
    }
}

/// How long the phone must be idle: the number that the setting writes, and
/// never where it writes none.
pub open spec fn idle_window_secs(setting: Option<Seq<char>>) -> u64 {
    match setting {
        Some(text) => match number_in(trimmed(text)) {
            Some(secs) => secs,
            None => 0,
        },
        None => 0,
    }
}

/// The setting in milliseconds; a number too large for that is as good as the
/// largest.
pub open spec fn idle_window_ms(setting: Option<Seq<char>>) -> u64 {
    let secs = idle_window_secs(setting);
    if secs <= u64::MAX / 1000 {
        (secs * 1000) as u64
    } else {
        u64::MAX
    }
}

/// The idle watch, where there is one: for a runner that this server starts and
/// stops itself, with a window that is set.
pub fn spawn_idle_release_watchdog(
    direct: bool,
    managed: bool,
    has_runner: bool,
    setting: Option<&str>,
) -> (watchdog: Option<Watchdog>)
    ensures
        watchdog is Some == (direct && managed && has_runner && idle_window_secs(opt_str(setting))
            > 0),
        watchdog matches Some(watchdog) ==> watchdog@ == (WatchView {
            window: idle_window_ms(opt_str(setting)),
            was_up: false,
            down_since: None,
            backoff_until: None,
            failures: 0,
            stage: StageView::Resting,
        }),
{
    if !direct || !managed || !has_runner {
        return None;
    }
    let secs: u64 = match setting {
        Some(text) => match parse_u64(trim(text)) {
            Some(secs) => secs,
            None => 0,
        },
        None => 0,
    };
    if secs == 0 {
        return None;
    }
    let window: u64 = if secs <= u64::MAX / 1000 {
        secs * 1000
    } else {
        u64::MAX
    };
    Some(
        Watchdog {
            window,
            was_up: false,
            down_since: None,
            backoff_until: None,
            failures: 0,
            stage: Stage::Resting,
        },
    )
}

fn is_quiet(state: &AppState, viewers: usize, window: u64, now: u64) -> (is: bool)
    ensures
        is == quiet(state@, viewers, window, now),
{
    !state.viewer_busy(viewers) && !state.held(now) && state.idle_for(now) >= window
        && state.control_pending == 0
}

impl Watchdog {
    #[verifier::type_invariant]
    spec fn inv(&self) -> bool {
        self.stage matches Stage::Stopping { token, .. } ==> token.round().phase
            == WdaLifecycleTransition::Releasing
    }

    fn waits(&self, now: u64) -> (waits: bool)
        ensures
            waits == backing_off(self@, now),
    {
        match self.backoff_until {
            Some(until) => now < until,
            None => false,
        }
    }

    fn rested(self, was_up: bool, down_since: Option<u64>) -> (watchdog: Watchdog)
        ensures
            watchdog@ == resting(WatchView { was_up, down_since, ..self@ }),
    {
        Watchdog {
            window: self.window,
            was_up,
            down_since,
            backoff_until: self.backoff_until,
            failures: self.failures,
            stage: Stage::Resting,
        }
    }

    fn begun(
        self,
        was_up: bool,
        down_since: Option<u64>,
        token: WdaTransitionToken,
        down: bool,
    ) -> (watchdog: Watchdog)
        requires
            token.round().phase == WdaLifecycleTransition::Releasing,
        ensures
            watchdog@ == (WatchView {
                was_up,
                down_since,
                stage: StageView::Stopping { round: token.round(), down },
                ..self@
            }),
    {
        Watchdog {
            window: self.window,
            was_up,
            down_since,
            backoff_until: self.backoff_until,
            failures: self.failures,
            stage: Stage::Stopping { token, down },
        }
    }

    fn probed(
        self,
        state: &mut AppState,
        up: bool,
        viewers: usize,
        setup_active: bool,
        now: u64,
    ) -> (next: (Watchdog, WatchCommand))
        ensures
            (next.0@, final(state)@, next.1) == (if up {
                up_next(self@, old(state)@, viewers, now)
            } else {
                down_next(self@, old(state)@, viewers, setup_active, now)
            }),
    {
        let was_up = self.was_up;
        let down_since: Option<u64> = if up {
            None
        } else if was_up {
            Some(now)
        } else {
            match self.down_since {
                Some(then) => Some(then),
                None => Some(now),
            }
        };
        if up && !was_up {
            let cold = match self.down_since {
                Some(then) => now.saturating_sub(then) >= COLD_START_AFTER_MS,
                None => true,
            };
            if cold {
                state.touch_activity(now);
            }
            return (self.rested(true, None), WatchCommand::Sleep { ms: 20000 });
        }
        let free = is_quiet(state, viewers, self.window, now) && (up || !setup_active)
            && !self.waits(now);
        if free {
            if let Some(token) = state.lifecycle.try_begin_releasing() {
                return (self.begun(up, down_since, token, !up), WatchCommand::Stop { ask: up });
            }
        }
        (self.rested(up, down_since), WatchCommand::Sleep { ms: 20000 })
    }

    fn stopped(
        self,
        state: &mut AppState,
        token: WdaTransitionToken,
        confirmed: bool,
        now: u64,
    ) -> (next: (Watchdog, WatchCommand))
        requires
            now <= u64::MAX - 900000,
            token.round().phase == WdaLifecycleTransition::Releasing,
        ensures
            (next.0@, final(state)@, next.1) == stopped_next(
                self@,
                old(state)@,
                token.round(),
                confirmed,
                now,
            ),
    {
        state.lifecycle.finish_releasing(token);
        if confirmed {
            state.note_released();
            let next = Watchdog {
                window: self.window,
                was_up: false,
                down_since: self.down_since,
                backoff_until: None,
                failures: 0,
                stage: Stage::Resting,
            };
            return (next, WatchCommand::Sleep { ms: 20000 });
        }
        let mut failures: u32 = self.failures;
        let secs: u64 = release_retry_backoff(&mut failures);
        let next = Watchdog {
            window: self.window,
            was_up: self.was_up,
            down_since: self.down_since,
            backoff_until: Some(now + secs * 1000),
            failures,
            stage: Stage::Resting,
        };
        (next, WatchCommand::Sleep { ms: 20000 })
    }

    /// The idle watch after an event, and what to do next. `state` is held by
    /// this call alone: what it looks at and what it begins are one step, so
    /// that no request can come in between.
    pub fn advance(self, state: &mut AppState, event: WatchEvent) -> (next: (
        Watchdog,
        WatchCommand,
    ))
        requires
            event matches WatchEvent::Stopped { now, .. } ==> now <= u64::MAX - 900000,
        ensures
            (next.0@, final(state)@, next.1) == watch_next(self@, old(state)@, event),
    {
        proof {
            use_type_invariant(&self);
        }
        match (self.stage, event) {
            (Stage::Resting, WatchEvent::Woke) => {
                if state.released || state.lifecycle.is_transitioning() || state.control_pending
                    != 0 {
                    (self, WatchCommand::Sleep { ms: 20000 })
                } else {
                    let next = Watchdog {
                        window: self.window,
                        was_up: self.was_up,
                        down_since: self.down_since,
                        backoff_until: self.backoff_until,
                        failures: self.failures,
                        stage: Stage::Probing,
                    };
                    (next, WatchCommand::Probe)
                }
            },
            (Stage::Probing, WatchEvent::Probed { up, viewers, setup_active, now }) => match up {
                Some(up) => self.probed(state, up, viewers, setup_active, now),
                None => {
                    let was_up = self.was_up;
                    let down_since = self.down_since;
                    (self.rested(was_up, down_since), WatchCommand::Sleep { ms: 20000 })
                },
            },
            (
                Stage::Stopping { token, down },
                WatchEvent::Stopped { stopped, endpoint_down, now },
            ) => self.stopped(state, token, stopped && (down || endpoint_down), now),
            (_, _) => (self, WatchCommand::Ignored),
        }
    }
}

/// The runner is stopped only where nobody drives, watches or holds the phone,
/// nobody has for a whole window, no attempt is waited out, and no transition is
/// under way; and never while setup is at work on a runner that does not answer.
pub proof fn law_only_an_idle_phone_is_stopped(w: WatchView, state: AppView, e: WatchEvent)
    requires
        watch_next(w, state, e).2 is Stop,
    ensures
        e matches WatchEvent::Probed { up: Some(up), viewers, setup_active, now } && {
            &&& quiet(state, viewers, w.window, now)
            &&& !backing_off(w, now)
            &&& state.lifecycle.phase == WdaLifecycleTransition::Active
            &&& !up ==> !setup_active
        },
{
}

/// A phone counts as released only after a stop that is confirmed, and then
/// nobody owns it and nothing is known of its runner.
pub proof fn law_released_means_stopped(w: WatchView, state: AppView, e: WatchEvent)
    requires
        !state.released,
        watch_next(w, state, e).1.released,
    ensures
        e matches WatchEvent::Stopped { stopped: true, .. } && w.stage is Stopping,
        watch_next(w, state, e).1.owner is None,
        !watch_next(w, state, e).1.actionable,
        !watch_next(w, state, e).1.health.up,
{
}

/// What holds of the idle watch and its phone: a stop that is under way owns the
/// phone's release.
pub open spec fn watch_sound(w: WatchView, state: AppView) -> bool {
    w.stage matches StageView::Stopping { round, .. } ==> {
        &&& round.phase == WdaLifecycleTransition::Releasing
        &&& state.lifecycle == round
    }
}

/// The idle watch ends every release that it begins, whether or not the runner
/// could be stopped.
pub proof fn law_every_release_is_ended(w: WatchView, state: AppView, e: WatchEvent)
    requires
        watch_sound(w, state),
    ensures
        watch_sound(watch_next(w, state, e).0, watch_next(w, state, e).1),
        w.stage is Stopping && e is Stopped ==> {
            &&& watch_next(w, state, e).0.stage is Resting
            &&& watch_next(w, state, e).1.lifecycle.phase == WdaLifecycleTransition::Active
        },
        w.stage is Resting && watch_next(w, state, e).0.stage is Resting ==> watch_next(
            w,
            state,
            e,
        ).1.lifecycle == state.lifecycle,
{
}

/// A stop that did not take is tried again: it counts as one more failure and is
/// waited out, and the phone does not count as released.
pub proof fn law_a_failed_stop_is_tried_again(
    w: WatchView,
    state: AppView,
    endpoint_down: bool,
    now: u64,
)
    requires
        w.stage is Stopping,
        now <= u64::MAX - 900000,
    ensures
        ({
            let e = WatchEvent::Stopped { stopped: false, endpoint_down, now };
            let (after, phone, _) = watch_next(w, state, e);
            &&& after.failures == one_more_failure(w.failures)
            &&& after.stage is Resting
            &&& backing_off(after, now)
            &&& !backing_off(after, (now + 900000) as u64)
            &&& phone.released == state.released
        }),
{
}

/// The watch stops a phone exactly where nobody watches it live, holds it, waits
/// for it or has used it for the whole window, no stop failed a moment ago, and
/// nothing is under way; a runner that is down only while no setup runs, one that
/// just came up not before the next look.
pub proof fn law_a_phone_is_stopped_where_nobody_needs_it(
    w: WatchView,
    state: AppView,
    up: bool,
    viewers: usize,
    setup_active: bool,
    now: u64,
)
    requires
        w.stage is Probing,
    ensures
        ({
            let (after, kept, command) = watch_next(w, state, WatchEvent::Probed {
                up: Some(up),
                viewers,
                setup_active,
                now,
            });
            let idle = state.live_streams == 0 && viewers == 0 && !(state.hold_until matches Some(
                until,
            ) && now < until) && now >= state.last_activity + w.window && state.control_pending
                == 0;
            let waits = w.backoff_until matches Some(until) && now < until;
            &&& up && w.window > 0 ==> (command is Stop <==> w.was_up && idle && !waits
                && state.lifecycle.phase is Active)
            &&& !up && w.window > 0 ==> (command is Stop <==> idle && !waits && !setup_active
                && state.lifecycle.phase is Active)
            &&& command matches WatchCommand::Stop { ask } ==> ask == up && (after.stage
                matches StageView::Stopping { round, down } && down == !up && kept.lifecycle == round)
            &&& command !is Stop ==> command == (WatchCommand::Sleep { ms: 20000 }) && after.stage
                is Resting && kept.lifecycle == state.lifecycle
            &&& after.was_up == up
            &&& up ==> after.down_since is None
            &&& !up && (w.was_up || w.down_since is None) ==> after.down_since == Some(now)
            &&& !up && !w.was_up && w.down_since is Some ==> after.down_since == w.down_since
            &&& after.failures == w.failures && after.backoff_until == w.backoff_until
                && after.window == w.window
        }),
{
}

/// A runner that comes up after ten minutes away, or for the first time, counts as
/// use of the phone; one that was away for less does not.
pub proof fn law_a_cold_start_counts_as_use(
    w: WatchView,
    state: AppView,
    viewers: usize,
    setup_active: bool,
    now: u64,
)
    requires
        w.stage is Probing,
        !w.was_up,
    ensures
        ({
            let kept = watch_next(w, state, WatchEvent::Probed {
                up: Some(true),
                viewers,
                setup_active,
                now,
            }).1;
            &&& w.down_since is None ==> kept.last_activity == now
            &&& w.down_since matches Some(then) ==> (now >= then + 600000 ==> kept.last_activity
                == now)
            &&& w.down_since matches Some(then) ==> (now < then + 600000 ==> kept.last_activity
                == state.last_activity)
        }),
{
}

/// The watch looks only at a phone that is in use and that no gesture waits for; a
/// look that tells nothing changes nothing.
pub proof fn law_the_watch_looks_only_at_a_phone_in_use(
    w: WatchView,
    state: AppView,
    viewers: usize,
    setup_active: bool,
    now: u64,
)
    ensures
        w.stage is Resting ==> {
            let next = watch_next(w, state, WatchEvent::Woke);
            &&& next.2 is Probe <==> !state.released && state.lifecycle.phase is Active
                && state.control_pending == 0
            &&& next.2 !is Probe ==> next.2 == (WatchCommand::Sleep { ms: 20000 }) && next.0 == w
            &&& next.1 == state
        },
        w.stage is Probing ==> {
            let next = watch_next(w, state, WatchEvent::Probed {
                up: None,
                viewers,
                setup_active,
                now,
            });
            next.1 == state && next.0.was_up == w.was_up && next.0.down_since == w.down_since
                && next.2 == (WatchCommand::Sleep { ms: 20000 })
        },
{
}

/// A stop counts only where the runner is seen to be gone; it gives the phone
/// back and forgets earlier failures. One that does not is counted, and tried
/// again after a while that grows with each.
pub proof fn law_a_stop_counts_where_the_runner_is_gone(
    w: WatchView,
    state: AppView,
    stopped: bool,
    endpoint_down: bool,
    now: u64,
)
    requires
        w.stage is Stopping,
        now <= u64::MAX - 900000,
        w.failures < u32::MAX,
    ensures
        ({
            let (after, kept, command) = watch_next(w, state, WatchEvent::Stopped {
                stopped,
                endpoint_down,
                now,
            });
            let gone = stopped && (w.stage->down || endpoint_down);
            &&& gone ==> kept.released && kept.owner is None && after.failures == 0
                && after.backoff_until is None && !after.was_up
            &&& !gone ==> kept.released == state.released && kept.owner == state.owner
                && after.failures == w.failures + 1 && after.was_up == w.was_up
            &&& !gone && w.failures == 0 ==> after.backoff_until == Some((now + 30000) as u64)
            &&& !gone && w.failures == 1 ==> after.backoff_until == Some((now + 60000) as u64)
            &&& !gone && w.failures == 2 ==> after.backoff_until == Some((now + 120000) as u64)
            &&& !gone && w.failures == 3 ==> after.backoff_until == Some((now + 240000) as u64)
            &&& !gone && w.failures == 4 ==> after.backoff_until == Some((now + 480000) as u64)
            &&& !gone && w.failures >= 5 ==> after.backoff_until == Some((now + 900000) as u64)
            &&& state.lifecycle == w.stage->round ==> kept.lifecycle.phase is Active
            &&& state.lifecycle != w.stage->round ==> kept.lifecycle == state.lifecycle
            &&& after.stage is Resting && command == (WatchCommand::Sleep { ms: 20000 })
        }),
{
}

/// The window is as many seconds as the setting says; a setting that is missing
/// or is no number is none.
pub proof fn law_the_window_is_what_the_setting_says(text: Seq<char>)
    ensures
        idle_window_secs(None) == 0,
        number_in(trimmed(text)) matches Some(secs) ==> idle_window_secs(Some(text)) == secs,
        number_in(trimmed(text)) is None ==> idle_window_secs(Some(text)) == 0,
        idle_window_secs(Some(text)) <= u64::MAX / 1000 ==> idle_window_ms(Some(text))
            == idle_window_secs(Some(text)) * 1000,
        COLD_START_AFTER_MS == 600000,
{
}

} // verus!
