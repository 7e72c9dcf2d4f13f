//! What the server knows of its phone: whether it is in use, held, released or
//! handed to a person.

use vstd::prelude::*;

use crate::health::{
    board_after, published, readiness_next, run_wda_readiness_wait, HealthBoard, ReadinessEvent,
    ReadinessStep, WdaDeath, WdaHealth, WdaReadinessBudget, WdaReadinessOutcome,
};
use crate::json::{field_of, json_document, unsigned_of, Json};
use crate::lifecycle::{
    owned, LifecycleView, WdaLifecycle, WdaLifecycleTransition, WdaTransitionToken,
};
use crate::owner::{slot_view, OwnerView, PhoneOwner};
use crate::reply::{json_reply, json_retry_reply, Reply, ReplyView};
use crate::text::{decimal, decimal_text, join3};

verus! {

/// Whether the phone was handed to a person who uses it by hand.
#[derive(Clone, Copy, Debug, PartialEq, Eq, Structural)]
pub struct HumanHandoff {
    active: bool,
}

impl HumanHandoff {
    pub closed spec fn handed(self) -> bool {
        self.active
    }

    /// The phone starts out with the agents.
    pub fn new() -> (handoff: HumanHandoff)
        ensures
            !handoff.handed(),
    {
        HumanHandoff { active: false }
    }
}

pub fn human_handoff_active(handoff: &HumanHandoff) -> (active: bool)
    ensures
        active == handoff.handed(),
{
    handoff.active
}

pub fn set_human_handoff(handoff: &mut HumanHandoff, active: bool)
    ensures
        final(handoff).handed() == active,
{
    *handoff = HumanHandoff { active };
}

/// What the server knows of its phone. Times are milliseconds on one monotonic
/// clock.
#[derive(Debug)]
pub struct AppState {
    pub lifecycle: WdaLifecycle,
    /// The runner was stopped so that a person can use the phone.
    pub released: bool,
    pub health: WdaHealth,
    pub actionable: bool,
    pub death: WdaDeath,
    pub owner: Option<PhoneOwner>,
    pub handoff: HumanHandoff,
    pub hold_until: Option<u64>,
    /// When the phone was last driven or watched.
    pub last_activity: u64,
    /// Open live views.
    pub live_streams: usize,
    /// Control requests that wait for the runner or use it.
    pub control_pending: usize,
}

/// The content of an [`AppState`].
pub struct AppView {
    pub lifecycle: LifecycleView,
    pub released: bool,
    pub health: WdaHealth,
    pub actionable: bool,
    pub death: (Seq<char>, u64),
    pub owner: Option<OwnerView>,
    pub handed: bool,
    pub hold_until: Option<u64>,
    pub last_activity: u64,
    pub live_streams: usize,
    pub control_pending: usize,
}

impl View for AppState {
    type V = AppView;

    open spec fn view(&self) -> AppView {
        AppView {
            lifecycle: self.lifecycle@,
            released: self.released,
            health: self.health,
            actionable: self.actionable,
            death: (self.death.reason@, self.death.at),
            owner: slot_view(self.owner),
            handed: self.handoff.handed(),
            hold_until: self.hold_until,
            last_activity: self.last_activity,
            live_streams: self.live_streams,
            control_pending: self.control_pending,
        }
    }
}

/// Milliseconds from one time to a later one.
pub open spec fn since(now: u64, then: u64) -> int {
    if now > then {
        now - then
    } else {
        0
    }
}

/// Whole seconds left to a hold.
pub open spec fn hold_left(hold_until: Option<u64>, now: u64) -> int {
    match hold_until {
        Some(until) => since(until, now) / 1000,
        None => 0,
    }
}

/// Whether a hold keeps the phone: it is set, and its end is still ahead.
pub open spec fn hold_live(hold_until: Option<u64>, now: u64) -> bool {
    hold_until matches Some(until) && now < until
}

/// The state in which the runner is stopped and the phone free for a person.
pub open spec fn let_go(state: AppView) -> AppView {
    AppView {
        actionable: false,
        health: WdaHealth { up: false, actionable: false, locked: None },
        released: true,
        owner: None,
        ..state
    }
}

/// The state in which a runner was started of which nothing is known yet.
pub open spec fn nothing_known(state: AppView) -> AppView {
    AppView {
        actionable: false,
        health: WdaHealth { up: false, actionable: false, locked: None },
        ..state
    }
}

impl AppState {
    /// A server that has just started.
    pub fn new(now: u64) -> (state: AppState)
        ensures
            state@ == (AppView {
                lifecycle: LifecycleView { generation: 0, phase: WdaLifecycleTransition::Active },
                released: false,
                health: WdaHealth { up: false, actionable: false, locked: None },
                actionable: false,
                death: (""@, 0u64),
                owner: None,
                handed: false,
                hold_until: None,
                last_activity: now,
                live_streams: 0,
                control_pending: 0,
            }),
    {
        AppState {
            lifecycle: WdaLifecycle::new(),
            released: false,
            health: WdaHealth::down(),
            actionable: false,
            death: WdaDeath { reason: "", at: 0 },
            owner: None,
            handoff: HumanHandoff::new(),
            hold_until: None,
            last_activity: now,
            live_streams: 0,
            control_pending: 0,
        }
    }

    /// The phone was driven or watched just now. Reading the status does not
    /// count: a page does that all the time.
    pub fn touch_activity(&mut self, now: u64)
        ensures
            final(self)@ == (AppView { last_activity: now, ..old(self)@ }),
    {
        self.last_activity = now;
    }

    /// Whole seconds left to the hold, or nothing.
    pub fn hold_remaining_secs(&self, now: u64) -> (secs: u64)
        ensures
            secs == hold_left(self@.hold_until, now),
    {
        match self.hold_until {
            Some(until) => until.saturating_sub(now) / 1000,
            None => 0,
        }
    }

    /// Whether a hold keeps the phone.
    pub fn held(&self, now: u64) -> (held: bool)
        ensures
            held == hold_live(self@.hold_until, now),
    {
        match self.hold_until {
            Some(until) => now < until,
            None => false,
        }
    }

    /// Whether someone watches: a live view is open, or a browser is connected.
    pub fn viewer_busy(&self, viewers: usize) -> (busy: bool)
        ensures
            busy == (self@.live_streams > 0 || viewers > 0),
    {
        self.live_streams > 0 || viewers > 0
    }

    /// Milliseconds since the phone was last driven or watched.
    pub fn idle_for(&self, now: u64) -> (ms: u64)
        ensures
            ms == since(now, self@.last_activity),
    {
        now.saturating_sub(self.last_activity)
    }

    /// A control request begins to wait for the runner. Returns false where no
    /// more can be counted.
    pub fn begin_wda_control(&mut self) -> (counted: bool)
        ensures
            counted == (old(self)@.control_pending < usize::MAX),
            final(self)@ == (AppView {
                control_pending: if counted {
                    (old(self)@.control_pending + 1) as usize
                } else {
                    old(self)@.control_pending
                },
                ..old(self)@
            }),
    {
        if self.control_pending < usize::MAX {
            self.control_pending = self.control_pending + 1;
            true
        } else {
            false
        }
    }

    /// A counted control request is over.
    pub fn end_wda_control(&mut self)
        ensures
            final(self)@ == (AppView {
                control_pending: if old(self)@.control_pending > 0 {
                    (old(self)@.control_pending - 1) as usize
                } else {
                    0
                },
                ..old(self)@
            }),
    {
        if self.control_pending > 0 {
            self.control_pending = self.control_pending - 1;
        }
    }

    /// The runner is stopped: nobody drives the phone any more.
    pub fn note_released(&mut self)
        ensures
            final(self)@ == let_go(old(self)@),
    {
        self.actionable = false;
        self.health = WdaHealth::down();
        self.released = true;
        self.owner = None;
    }

    /// A runner was started; what was known of the last one says nothing of it.
    pub fn note_started(&mut self)
        ensures
            final(self)@ == nothing_known(old(self)@),
    {
        self.actionable = false;
        self.health = WdaHealth::down();
    }
}

/// Whether a background look at the runner's health may begin: none runs, and
/// no control request waits. Control always goes first.
pub fn may_probe_health(has_runner: bool, probe_running: bool, control_pending: usize) -> (may:
    bool)
    ensures
        may == (has_runner && !probe_running && control_pending == 0),
{
    has_runner && !probe_running && control_pending == 0
}

/// Whether the idle watch may stop a background look at the runner's health to
/// take its place: only where no control request waits.
pub fn abort_health_probe_for_idle(control_pending: usize) -> (abort: bool)
    ensures
        abort == (control_pending == 0),
{
    control_pending == 0
}

/// Whether what was last seen of the mirror is still recent: less than a second
/// old.
pub fn mirror_state_fresh(seen_at: Option<u64>, now: u64) -> (fresh: bool)
    ensures
        fresh == (seen_at matches Some(at) && since(now, at) < 1000),
{
    match seen_at {
        Some(at) => now.saturating_sub(at) < 1000,
        None => false,
    }
}

/// The hold after a request for so many seconds; none clears it.
pub open spec fn hold_for(secs: u64, now: u64) -> Option<u64> {
    if secs > 0 {
        Some((now + secs * 1000) as u64)
    } else {
        None
    }
}

/// Takes or clears the hold, unless a release has begun: a release that began
/// first refuses it, and one that begins later sees it.
pub fn try_take_hold(
    lifecycle: &WdaLifecycle,
    hold_until: &mut Option<u64>,
    secs: u64,
    now: u64,
) -> (taken: bool)
    requires
        now + secs * 1000 <= u64::MAX,
    ensures
        taken == (lifecycle@.phase != WdaLifecycleTransition::Releasing),
        *final(hold_until) == (if taken {
            hold_for(secs, now)
        } else {
            *old(hold_until)
        }),
{
    if lifecycle.is_releasing() {
        return false;
    }
    *hold_until = if secs > 0 {
        Some(now + secs * 1000)
    } else {
        None
    };
    true
}

/// The seconds that a request wants to hold the phone, where they are allowed.
pub open spec fn hold_asked(body: Seq<char>) -> Option<u64> {
    match json_document(body) {
        Some(v) => match unsigned_of(field_of(v, "secs"@)) {
            Some(secs) => if secs <= 14400 {
                Some(secs)
            } else {
                None
            },
            None => None,
        },
        None => None,
    }
}

/// The answer to a request to hold the phone.
pub open spec fn hold_reply(body: Seq<char>, phase: WdaLifecycleTransition) -> ReplyView {
    match hold_asked(body) {
        None => json_reply(
            400,
            r#"{"ok":false,"error":"invalid_hold","hint":"secs must be an integer from 0 to 14400"}"#@,
        ),
        Some(secs) => if phase == WdaLifecycleTransition::Releasing {
            json_retry_reply(
                503,
                5,
                r#"{"ok":false,"error":"device_release_in_progress","hint":"retry the hold after the release finishes"}"#@,
            )
        } else {
            json_reply(
                200,
                r#"{"ok":true,"hold_remaining_secs":"#@ + decimal(secs as nat) + "}"@,
            )
        },
    }
}

/// Takes or clears the hold on request. A hold that was taken is activity.
pub fn agent_hold(state: &mut AppState, body: &str, now: u64) -> (reply: Reply)
    requires
        now <= u64::MAX - 14400000,
    ensures
        reply@ == hold_reply(body@, old(state)@.lifecycle.phase),
        final(state)@ == (if reply@.status == 200 {
            AppView {
                hold_until: hold_for(hold_asked(body@)->0, now),
                last_activity: now,
                ..old(state)@
            }
        } else {
            old(state)@
        }),
{
    let asked: Option<u64> = match Json::parse(body) {
        Some(v) => match v.unsigned_field("secs") {
            Some(secs) => if secs <= 14400 {
                Some(secs)
            } else {
                None
            },
            None => None,
        },
        None => None,
    };
    let secs: u64 = match asked {
        Some(secs) => secs,
        None => {
            return Reply::fixed(
                400,
                r#"{"ok":false,"error":"invalid_hold","hint":"secs must be an integer from 0 to 14400"}"#,
            );
        },
    };
    if !try_take_hold(&state.lifecycle, &mut state.hold_until, secs, now) {
        return Reply::fixed_retry(
            503,
            5,
            r#"{"ok":false,"error":"device_release_in_progress","hint":"retry the hold after the release finishes"}"#,
        );
    }
    state.touch_activity(now);
    let number = decimal_text(secs);
    let text = join3(r#"{"ok":true,"hold_remaining_secs":"#, number.as_str(), "}");
    Reply::json(200, text)
}

/// The time of an event of a readiness wait.
pub open spec fn readiness_time(event: ReadinessEvent) -> u64 {
    match event {
        ReadinessEvent::Round { now } => now,
        ReadinessEvent::Setup { now, .. } => now,
        ReadinessEvent::Probed { now, .. } => now,
        ReadinessEvent::Rest { now } => now,
    }
}

/// What is known of the phone after a step of a readiness wait: the evidence
/// that the step publishes, and a wait that ends in a runner that can act counts
/// as activity.
pub open spec fn state_waited(
    state: AppView,
    published: Option<WdaHealth>,
    step: ReadinessStep,
    now: u64,
) -> AppView {
    let board = board_after(
        HealthBoard {
            health: state.health,
            actionable: state.actionable,
            released: state.released,
        },
        published,
    );
    AppView {
        health: board.health,
        actionable: board.actionable,
        released: board.released,
        last_activity: if step == ReadinessStep::Done(WdaReadinessOutcome::Ready) {
            now
        } else {
            state.last_activity
        },
        ..state
    }
}

/// One step of the wait for the runner that was started.
pub fn await_runner(
    state: &mut AppState,
    token: WdaTransitionToken,
    has_runner: bool,
    deadline: u64,
    budget: WdaReadinessBudget,
    event: ReadinessEvent,
) -> (step: ReadinessStep)
    ensures
        step == readiness_next(
            owned(old(state)@.lifecycle, token),
            has_runner,
            deadline,
            budget,
            event,
        ),
        final(state)@ == state_waited(
            old(state)@,
            published(owned(old(state)@.lifecycle, token), deadline, event),
            step,
            readiness_time(event),
        ),
{
    let mut board = HealthBoard {
        health: state.health,
        actionable: state.actionable,
        released: state.released,
    };
    let step = run_wda_readiness_wait(
        &state.lifecycle,
        &mut board,
        token,
        has_runner,
        deadline,
        budget,
        event,
    );
    state.health = board.health;
    state.actionable = board.actionable;
    state.released = board.released;
    if step == ReadinessStep::Done(WdaReadinessOutcome::Ready) {
        let now: u64 = match event {
            ReadinessEvent::Round { now } => now,
            ReadinessEvent::Setup { now, .. } => now,
            ReadinessEvent::Probed { now, .. } => now,
            ReadinessEvent::Rest { now } => now,
        };
        state.touch_activity(now);
    }
    step
}

/// The last time from which every deadline that the server sets can be told.
pub const LAST_TIME: u64 = 18446744073695151615;

/// Up to that time there is room for the deadline of a message, of a gesture and
/// of a batch, for the longest watching of the screen, for the longest hold, and
/// for the longest pause before a release is tried again.
pub proof fn law_every_deadline_can_be_told(now: u64)
    requires
        now <= LAST_TIME,
    ensures
        now + crate::input::input_deadline_ms() <= u64::MAX,
        now + crate::actions::actions_deadline_ms() <= u64::MAX,
        now <= u64::MAX - 2500,
        now <= u64::MAX - 5000,
        now <= u64::MAX - 14400000,
        now <= u64::MAX - 900000,
{
}

/// A hold that was taken for some seconds keeps the phone for exactly that long;
/// one of no seconds keeps nothing.
pub proof fn law_a_hold_lasts_as_long_as_asked(secs: u64, now: u64, later: u64)
    requires
        now <= later,
        now + secs * 1000 <= u64::MAX,
    ensures
        hold_live(hold_for(secs, now), later) == (later < now + secs * 1000),
        hold_left(hold_for(secs, now), now) == secs,
{
}

/// A phone that is given back is nobody's, is known to be away, and nothing is
/// known of its runner any more; of a runner that was just started nothing is
/// known either, but the phone stays whose it is. All else stays as it was.
pub proof fn law_giving_back_forgets_the_runner_and_the_owner(state: AppView)
    ensures
        ({
            let after = let_go(state);
            &&& after.released && after.owner is None && !after.actionable
            &&& !after.health.up && !after.health.actionable && after.health.locked is None
            &&& after.lifecycle == state.lifecycle && after.handed == state.handed
            &&& after.hold_until == state.hold_until && after.last_activity == state.last_activity
            &&& after.death == state.death && after.live_streams == state.live_streams
            &&& after.control_pending == state.control_pending
        }),
        ({
            let after = nothing_known(state);
            &&& !after.actionable && !after.health.up && !after.health.actionable
                && after.health.locked is None
            &&& after.released == state.released && after.owner == state.owner
            &&& after.lifecycle == state.lifecycle && after.handed == state.handed
            &&& after.hold_until == state.hold_until && after.last_activity == state.last_activity
        }),
{
}

/// A hold is taken for as many seconds as asked, four hours at most, except while
/// the phone is being given back; no seconds end it.
pub proof fn law_a_hold_is_taken_as_asked(
    body: Seq<char>,
    phase: WdaLifecycleTransition,
    secs: u64,
    now: u64,
)
    ensures
        hold_asked(body) == Some(secs) <==> (json_document(body) matches Some(v) && unsigned_of(
            field_of(v, "secs"@),
        ) == Some(secs) && secs <= 14400),
        hold_reply(body, phase).status == 200 <==> hold_asked(body) is Some && phase !is Releasing,
        hold_asked(body) is None ==> hold_reply(body, phase).status == 400,
        hold_asked(body) is Some && phase is Releasing ==> hold_reply(body, phase).status == 503
            && hold_reply(body, phase).retry_after == Some(5u64),
        hold_asked(body) == Some(secs) && phase !is Releasing ==> hold_reply(body, phase).body
            == r#"{"ok":true,"hold_remaining_secs":"#@ + decimal(secs as nat) + "}"@,
        hold_for(0, now) is None,
        secs > 0 && now + secs * 1000 <= u64::MAX ==> (hold_for(secs, now) matches Some(until)
            && until == now + secs * 1000),
        hold_live(Some(secs), now) <==> now < secs,
        !hold_live(None, now),
        now <= secs ==> hold_left(Some(secs), now) == (secs - now) / 1000,
        now > secs ==> hold_left(Some(secs), now) == 0,
        hold_left(None, now) == 0,
{
}

/// The runner is looked at only where there is one, nobody looks already and no
/// gesture waits for it; and what was seen of the mirror is fresh for a second.
pub proof fn law_looking_never_gets_in_the_way(
    has_runner: bool,
    probe_running: bool,
    control_pending: usize,
    seen_at: u64,
    now: u64,
    said: bool,
)
    ensures
        call_ensures(may_probe_health, (has_runner, probe_running, control_pending), said) ==> (said
            <==> has_runner && !probe_running && control_pending == 0),
        call_ensures(abort_health_probe_for_idle, (control_pending,), said) ==> (said
            <==> control_pending == 0),
        call_ensures(mirror_state_fresh, (Some(seen_at), now), said) ==> (said <==> now < seen_at
            + 1000),
        call_ensures(mirror_state_fresh, (None, now), said) ==> !said,
{
}

/// Waiting for the runner makes what it was seen to be known, and counts as use
/// of the phone once the runner is ready.
pub proof fn law_a_wait_makes_known_what_was_seen(
    state: AppView,
    seen: WdaHealth,
    step: ReadinessStep,
    now: u64,
)
    ensures
        ({
            let after = state_waited(state, None, step, now);
            after.health == state.health && after.actionable == state.actionable && after.released
                == state.released
        }),
        step == ReadinessStep::Done(WdaReadinessOutcome::Ready) ==> state_waited(
            state,
            Some(seen),
            step,
            now,
        ).last_activity == now,
        step != ReadinessStep::Done(WdaReadinessOutcome::Ready) ==> state_waited(
            state,
            Some(seen),
            step,
            now,
        ).last_activity == state.last_activity,
        state_waited(state, Some(seen), step, now).health == seen,
        state_waited(state, Some(seen), step, now).lifecycle == state.lifecycle,
        state_waited(state, Some(seen), step, now).owner == state.owner,
{
}

} // verus!
