//! A request to the runner: it waits for the runner, is sent at most once, and
//! is answered by what became of it.

use vstd::prelude::*;

use crate::auth::{
    has_phone_control_header, missing_header_reply, missing_phone_control_header_response,
};
use crate::control::{
    control_admission, direct_control_admission, direct_control_reply, direct_reply, health_after,
    mark_wda_read_path_unactionable, note_control_outcome, DeviceFacts, DirectEnd,
};
use crate::input::may_dispatch;
use crate::intent::{agent_intent, intent_answer, IntentDispatch, IntentEnd};
use crate::intents::link_text;
use crate::json::{Json, JsonView};
use crate::lifecycle::WdaLifecycleTransition;
use crate::outcome::{Candidates, WdaControlOutcome};
use crate::owner::{claim_phone_owner, owner_after, owner_refusal};
use crate::reply::{opt_str, plain_reply, Reply, ReplyView};
use crate::state::{AppState, AppView};

verus! {

/// Where a request stands.
#[derive(Clone, Copy, Debug, PartialEq, Eq, Structural)]
pub enum SendStage {
    /// The runner is waited for.
    Waiting,
    /// The request was handed to the runner.
    Sent,
    Over,
}

/// What happened to a request.
#[derive(Clone, Copy, Debug, PartialEq, Eq, Structural)]
pub enum SendSignal {
    /// The runner is at hand, and the phone may still be driven.
    Ready,
    /// The runner is at hand too late.
    TooLate,
    /// The deadline passed.
    TimedOut,
    /// The runner is done with the request.
    Done,
}

/// What follows for a request.
#[derive(Clone, Copy, Debug, PartialEq, Eq, Structural)]
pub enum SendMove {
    /// It is handed to the runner.
    Dispatch,
    /// It is answered as not sent.
    NotSent,
    /// It is answered as timed out.
    TimeUp { dispatched: bool },
    /// It is answered by what the runner said.
    Tell,
    /// The signal does not fit; nothing changes.
    Ignored,
}

pub open spec fn send_next(stage: SendStage, signal: SendSignal) -> (SendStage, SendMove) {
    match (stage, signal) {
        (SendStage::Waiting, SendSignal::Ready) => (SendStage::Sent, SendMove::Dispatch),
        (SendStage::Waiting, SendSignal::TooLate) => (SendStage::Over, SendMove::NotSent),
        (SendStage::Waiting, SendSignal::TimedOut) => (
            SendStage::Over,
            SendMove::TimeUp { dispatched: false },
        ),
        (SendStage::Sent, SendSignal::TimedOut) => (
            SendStage::Over,
            SendMove::TimeUp { dispatched: true },
        ),
        (SendStage::Sent, SendSignal::Done) => (SendStage::Over, SendMove::Tell),
        _ => (stage, SendMove::Ignored),
    }
}

impl SendStage {
    /// The stage after a signal, and what follows.
    pub fn advance(self, signal: SendSignal) -> (next: (SendStage, SendMove))
        ensures
            next == send_next(self, signal),
    {
        match (self, signal) {
            (SendStage::Waiting, SendSignal::Ready) => (SendStage::Sent, SendMove::Dispatch),
            (SendStage::Waiting, SendSignal::TooLate) => (SendStage::Over, SendMove::NotSent),
            (SendStage::Waiting, SendSignal::TimedOut) => (
                SendStage::Over,
                SendMove::TimeUp { dispatched: false },
            ),
            (SendStage::Sent, SendSignal::TimedOut) => (
                SendStage::Over,
                SendMove::TimeUp { dispatched: true },
            ),
            (SendStage::Sent, SendSignal::Done) => (SendStage::Over, SendMove::Tell),
            (_, _) => (self, SendMove::Ignored),
        }
    }
}

/// What follows for a request in a run of signals.
pub open spec fn moves(stage: SendStage, signals: Seq<SendSignal>) -> Seq<SendMove>
    decreases signals.len(),
{
    if signals.len() == 0 {
        Seq::empty()
    } else {
        let (next, first) = send_next(stage, signals[0]);
        seq![first] + moves(next, signals.skip(1))
    }
}

/// Whether a request was handed to the runner by one of the first `n` moves.
pub open spec fn dispatched_within(all: Seq<SendMove>, n: int) -> bool {
    exists|j: int| 0 <= j < n && #[trigger] all[j] is Dispatch
}

/// Whatever happens, a request that waits is handed to the runner at most once,
/// and one that does not wait any more is not handed on again; a request whose
/// time is up tells whether it was handed on before; and one that was answered is
/// left alone.
pub proof fn law_a_request_is_sent_at_most_once(stage: SendStage, signals: Seq<SendSignal>)
    ensures
        moves(stage, signals).len() == signals.len(),
        forall|i: int|
            0 <= i < signals.len() && #[trigger] moves(stage, signals)[i] is Dispatch ==> stage
                == SendStage::Waiting && !dispatched_within(moves(stage, signals), i),
        forall|i: int|
            0 <= i < signals.len() ==> (
            #[trigger] moves(stage, signals)[i] matches SendMove::TimeUp { dispatched }
                ==> dispatched == (stage == SendStage::Sent || dispatched_within(
                moves(stage, signals),
                i,
            ))),
        forall|i: int|
            0 <= i < signals.len() && #[trigger] moves(stage, signals)[i] is NotSent ==> stage
                != SendStage::Sent && !dispatched_within(moves(stage, signals), i),
        forall|i: int|
            0 <= i < signals.len() && stage == SendStage::Over ==> #[trigger] moves(
                stage,
                signals,
            )[i] is Ignored,
    decreases signals.len(),
{
    if signals.len() > 0 {
        let (next, first) = send_next(stage, signals[0]);
        let rest = moves(next, signals.skip(1));
        let all = moves(stage, signals);
        law_a_request_is_sent_at_most_once(next, signals.skip(1));
        assert forall|i: int| 0 < i < signals.len() implies #[trigger] all[i] == rest[i - 1]
            && dispatched_within(all, i) == (first is Dispatch || dispatched_within(rest, i - 1)) by {
            if dispatched_within(all, i) {
                let j = choose|j: int| 0 <= j < i && #[trigger] all[j] is Dispatch;
                if j > 0 {
                    assert(rest[j - 1] is Dispatch);
                }
            }
            if dispatched_within(rest, i - 1) {
                let j = choose|j: int| 0 <= j < i - 1 && #[trigger] rest[j] is Dispatch;
                assert(all[j + 1] is Dispatch);
            }
            assert(all[0] == first);
        }
        assert(all[0] == first);
    }
}

/// Whether a request may be handed on, once the runner is at hand.
pub open spec fn sendable(state: AppView, deadline: u64, now: u64) -> bool {
    now < deadline && state.lifecycle.phase == WdaLifecycleTransition::Active && !state.released
}

fn signal_of(state: &AppState, deadline: u64, now: u64) -> (signal: SendSignal)
    ensures
        signal == (if sendable(state@, deadline, now) {
            SendSignal::Ready
        } else {
            SendSignal::TooLate
        }),
{
    if may_dispatch(now, deadline, &state.lifecycle, state.released) {
        SendSignal::Ready
    } else {
        SendSignal::TooLate
    }
}

/// A browser's gesture as it arrived.
#[derive(Clone, Copy, Debug)]
pub struct ControlRequest<'a> {
    pub body: &'a str,
    /// Whether it came from a browser that has logged in.
    pub authed: bool,
    /// The header that a foreign page cannot set.
    pub control: Option<&'a str>,
    pub owner: Option<&'a str>,
    pub takeover: Option<&'a str>,
}

/// How the server is set up.
#[derive(Clone, Copy, Debug)]
pub struct ControlConfig {
    pub direct: bool,
    pub pending: bool,
    pub has_runner: bool,
    /// How long an owner's lease lasts, in milliseconds.
    pub lease: u64,
}

/// A browser's gesture on its way.
#[derive(Debug)]
pub struct DirectRun {
    action: Json,
    deadline: u64,
    stage: SendStage,
}

/// The content of a [`DirectRun`].
pub struct DirectView {
    pub action: JsonView,
    pub deadline: u64,
    pub stage: SendStage,
}

impl View for DirectRun {
    type V = DirectView;

    closed spec fn view(&self) -> DirectView {
        DirectView { action: self.action@, deadline: self.deadline, stage: self.stage }
    }
}

pub open spec fn control_facts(state: AppView, c: ControlConfig) -> DeviceFacts {
    DeviceFacts {
        direct: c.direct,
        pending: c.pending,
        transition: state.lifecycle.phase,
        released: state.released,
        has_runner: c.has_runner,
    }
}

/// What becomes of a gesture and of the phone's state when it arrives: the
/// sender is looked at first, then who drives the phone, then the phone.
pub open spec fn direct_start(state: AppView, r: ControlRequest, c: ControlConfig, now: u64) -> (
    AppView,
    Result<DirectView, ReplyView>,
) {
    if !r.authed {
        (state, Err(plain_reply(401, r#"{"ok":false,"error":"unauthorized"}"#@)))
    } else if opt_str(r.control) != Some("1"@) {
        (state, Err(missing_header_reply()))
    } else {
        let after = AppView {
            owner: owner_after(state.owner, opt_str(r.owner), opt_str(r.takeover), now, c.lease),
            ..state
        };
        match owner_refusal(state.owner, opt_str(r.owner), opt_str(r.takeover), now, c.lease) {
            Some(reply) => (after, Err(reply)),
            None => match control_admission(control_facts(after, c), r.body@) {
                Err(reply) => (after, Err(reply)),
                Ok((action, ttl)) => (
                    after,
                    Ok(
                        DirectView {
                            action,
                            deadline: (now + ttl) as u64,
                            stage: SendStage::Waiting,
                        },
                    ),
                ),
            },
        }
    }
}

/// Takes a browser's gesture in. `now` is the time of its arrival.
pub fn direct_control(state: &mut AppState, r: &ControlRequest, c: &ControlConfig, now: u64) -> (
    start: Result<DirectRun, Reply>)
    requires
        now <= u64::MAX - 2500,
    ensures
        final(state)@ == direct_start(old(state)@, *r, *c, now).0,
        match start {
            Ok(run) => direct_start(old(state)@, *r, *c, now).1 == Ok::<DirectView, ReplyView>(
                run@,
            ),
            Err(reply) => direct_start(old(state)@, *r, *c, now).1 == Err::<DirectView, ReplyView>(
                reply@,
            ),
        },
{
    if !r.authed {
        return Err(Reply::plain(401, r#"{"ok":false,"error":"unauthorized"}"#));
    }
    if !has_phone_control_header(r.control) {
        return Err(missing_phone_control_header_response());
    }
    if let Err(reply) = claim_phone_owner(&mut state.owner, r.owner, r.takeover, now, c.lease) {
        return Err(reply);
    }
    let facts = DeviceFacts {
        direct: c.direct,
        pending: c.pending,
        transition: state.lifecycle.current(),
        released: state.released,
        has_runner: c.has_runner,
    };
    match direct_control_admission(facts, r.body, now) {
        Err(reply) => Err(reply),
        Ok((action, deadline)) => Ok(DirectRun { action, deadline, stage: SendStage::Waiting }),
    }
}

/// The phone's state after the outcome of a gesture.
pub open spec fn control_noted(state: AppView, outcome: WdaControlOutcome, now: u64) -> AppView {
    AppView {
        health: health_after(state.health, outcome),
        actionable: state.actionable && outcome != WdaControlOutcome::NotSent,
        last_activity: if outcome == WdaControlOutcome::Applied {
            now
        } else {
            state.last_activity
        },
        ..state
    }
}

fn note_control(state: &mut AppState, outcome: WdaControlOutcome, now: u64)
    ensures
        final(state)@ == control_noted(old(state)@, outcome, now),
{
    note_control_outcome(&mut state.health, outcome);
    match outcome {
        WdaControlOutcome::Applied => {
            state.touch_activity(now);
        },
        WdaControlOutcome::NotSent => {
            mark_wda_read_path_unactionable(&mut state.health, &mut state.actionable);
        },
        _ => {},
    }
}

/// What happened to a gesture on its way.
#[derive(Debug)]
pub enum DirectEvent {
    /// The runner is at hand.
    Locked { now: u64 },
    /// The deadline passed.
    TimedOut,
    Acted { outcome: WdaControlOutcome, candidates: Option<Candidates>, now: u64 },
}

/// What to do next for a gesture.
#[derive(Debug)]
pub enum DirectStep {
    /// Hand the action to the runner, once.
    Dispatch,
    Answer(Reply),
    /// The event does not fit; nothing changed.
    Ignored,
}

/// The content of a [`DirectStep`].
pub enum DirectStepView {
    Dispatch,
    Answer(ReplyView),
    Ignored,
}

impl View for DirectStep {
    type V = DirectStepView;

    open spec fn view(&self) -> DirectStepView {
        match *self {
            DirectStep::Dispatch => DirectStepView::Dispatch,
            DirectStep::Answer(reply) => DirectStepView::Answer(reply@),
            DirectStep::Ignored => DirectStepView::Ignored,
        }
    }
}

pub open spec fn direct_signal(deadline: u64, state: AppView, event: DirectEvent) -> SendSignal {
    match event {
        DirectEvent::Locked { now } => if sendable(state, deadline, now) {
            SendSignal::Ready
        } else {
            SendSignal::TooLate
        },
        DirectEvent::TimedOut => SendSignal::TimedOut,
        DirectEvent::Acted { .. } => SendSignal::Done,
    }
}

/// What follows for a gesture.
pub open spec fn direct_step(next: SendMove, event: DirectEvent) -> DirectStepView {
    match next {
        SendMove::Dispatch => DirectStepView::Dispatch,
        SendMove::NotSent => DirectStepView::Answer(direct_reply(DirectEnd::TooLate)),
        SendMove::TimeUp { dispatched } => DirectStepView::Answer(
            direct_reply(DirectEnd::DeadlinePassed { dispatched }),
        ),
        SendMove::Tell => DirectStepView::Answer(
            direct_reply(
                DirectEnd::Outcome {
                    outcome: event->Acted_outcome,
                    candidates: event->Acted_candidates,
                },
            ),
        ),
        SendMove::Ignored => DirectStepView::Ignored,
    }
}

/// A gesture after an event, and what to do next.
pub open spec fn direct_next(run: DirectView, state: AppView, event: DirectEvent) -> (
    DirectView,
    DirectStepView,
) {
    let (stage, next) = send_next(run.stage, direct_signal(run.deadline, state, event));
    (DirectView { stage, ..run }, direct_step(next, event))
}

/// The phone's state after an event: what the runner said of a gesture shows how
/// it is.
pub open spec fn direct_state(run: DirectView, state: AppView, event: DirectEvent) -> AppView {
    match event {
        DirectEvent::Acted { outcome, now, .. } => if run.stage == SendStage::Sent {
            control_noted(state, outcome, now)
        } else {
            state
        },
        _ => state,
    }
}

impl DirectRun {
    /// The action that is handed to the runner.
    pub fn action(&self) -> (action: &Json)
        ensures
            action@ == self@.action,
    {
        &self.action
    }

    /// The time by which the gesture must be answered.
    pub fn deadline(&self) -> (deadline: u64)
        ensures
            deadline == self@.deadline,
    {
        self.deadline
    }

    fn at(self, stage: SendStage) -> (run: DirectRun)
        ensures
            run@ == (DirectView { stage, ..self@ }),
    {
        DirectRun { action: self.action, deadline: self.deadline, stage }
    }

    /// A gesture after an event, and what to do next.
    pub fn advance(self, state: &mut AppState, event: DirectEvent) -> (next: (
        DirectRun,
        DirectStep,
    ))
        ensures
            (next.0@, next.1@) == direct_next(self@, old(state)@, event),
            final(state)@ == direct_state(self@, old(state)@, event),
    {
        let signal = match &event {
            DirectEvent::Locked { now } => signal_of(state, self.deadline, *now),
            DirectEvent::TimedOut => SendSignal::TimedOut,
            DirectEvent::Acted { .. } => SendSignal::Done,
        };
        let (stage, next) = self.stage.advance(signal);
        let step = match (next, event) {
            (SendMove::Dispatch, _) => DirectStep::Dispatch,
            (SendMove::NotSent, _) => DirectStep::Answer(direct_control_reply(&DirectEnd::TooLate)),
            (SendMove::TimeUp { dispatched }, _) => DirectStep::Answer(
                direct_control_reply(&DirectEnd::DeadlinePassed { dispatched }),
            ),
            (SendMove::Tell, DirectEvent::Acted { outcome, candidates, now }) => {
                note_control(state, outcome, now);
                DirectStep::Answer(direct_control_reply(&DirectEnd::Outcome { outcome, candidates }))
            },
            (_, _) => DirectStep::Ignored,
        };
        (self.at(stage), step)
    }
}

/// What is done for a gesture in a run of events, each in the state of the phone
/// that it finds.
pub open spec fn direct_steps(run: DirectView, events: Seq<(AppView, DirectEvent)>) -> Seq<
    DirectStepView,
>
    decreases events.len(),
{
    if events.len() == 0 {
        Seq::empty()
    } else {
        let (next, first) = direct_next(run, events[0].0, events[0].1);
        seq![first] + direct_steps(next, events.skip(1))
    }
}

/// Whether a gesture was handed to the runner by one of the first `n` steps.
pub open spec fn gesture_sent(steps: Seq<DirectStepView>, n: int) -> bool {
    exists|j: int| 0 <= j < n && #[trigger] steps[j] is Dispatch
}

spec fn direct_signals(deadline: u64, events: Seq<(AppView, DirectEvent)>) -> Seq<SendSignal> {
    Seq::new(events.len(), |i: int| direct_signal(deadline, events[i].0, events[i].1))
}

proof fn lemma_direct_moves(run: DirectView, events: Seq<(AppView, DirectEvent)>)
    ensures
        direct_steps(run, events).len() == events.len(),
        moves(run.stage, direct_signals(run.deadline, events)).len() == events.len(),
        forall|i: int|
            0 <= i < events.len() ==> #[trigger] direct_steps(run, events)[i] == direct_step(
                moves(run.stage, direct_signals(run.deadline, events))[i],
                events[i].1,
            ),
    decreases events.len(),
{
    if events.len() > 0 {
        let signals = direct_signals(run.deadline, events);
        let (next, first) = direct_next(run, events[0].0, events[0].1);
        lemma_direct_moves(next, events.skip(1));
        assert(signals.skip(1) =~= direct_signals(run.deadline, events.skip(1)));
        let rest = direct_steps(next, events.skip(1));
        let rest_moves = moves(next.stage, signals.skip(1));
        assert forall|i: int| 0 <= i < events.len() implies #[trigger] direct_steps(run, events)[i]
            == direct_step(moves(run.stage, signals)[i], events[i].1) by {
            if i > 0 {
                assert(direct_steps(run, events)[i] == rest[i - 1]);
                assert(moves(run.stage, signals)[i] == rest_moves[i - 1]);
                assert(events.skip(1)[i - 1] == events[i]);
            }
        }
    }
}

/// Whatever happens, a gesture is handed to the runner at most once, and never
/// where the phone may no longer be driven; and when its deadline passes, the
/// answer tells whether it was handed on.
pub proof fn law_a_gesture_is_sent_at_most_once(
    run: DirectView,
    events: Seq<(AppView, DirectEvent)>,
)
    requires
        run.stage == SendStage::Waiting,
    ensures
        direct_steps(run, events).len() == events.len(),
        forall|i: int|
            0 <= i < events.len() && #[trigger] direct_steps(run, events)[i] is Dispatch ==> {
                &&& !gesture_sent(direct_steps(run, events), i)
                &&& events[i].1 matches DirectEvent::Locked { now } && sendable(
                    events[i].0,
                    run.deadline,
                    now,
                )
            },
        forall|i: int|
            0 <= i < events.len() && events[i].1 is TimedOut && #[trigger] direct_steps(
                run,
                events,
            )[i] is Answer ==> direct_steps(run, events)[i] == DirectStepView::Answer(
                crate::outcome::deadline_reply(gesture_sent(direct_steps(run, events), i)),
            ),
{
    let signals = direct_signals(run.deadline, events);
    let all = moves(run.stage, signals);
    let steps = direct_steps(run, events);
    lemma_direct_moves(run, events);
    law_a_request_is_sent_at_most_once(run.stage, signals);
    lemma_moves_fit(run.stage, signals);
    assert forall|i: int| 0 <= i < events.len() implies gesture_sent(steps, i)
        == #[trigger] dispatched_within(all, i) by {
        if gesture_sent(steps, i) {
            let j = choose|j: int| 0 <= j < i && #[trigger] steps[j] is Dispatch;
            assert(all[j] is Dispatch);
        }
        if dispatched_within(all, i) {
            let j = choose|j: int| 0 <= j < i && #[trigger] all[j] is Dispatch;
            assert(steps[j] is Dispatch);
        }
    }
    assert forall|i: int| 0 <= i < events.len() && #[trigger] steps[i] is Dispatch implies {
        &&& !gesture_sent(steps, i)
        &&& events[i].1 matches DirectEvent::Locked { now } && sendable(
            events[i].0,
            run.deadline,
            now,
        )
    } by {
        assert(all[i] is Dispatch);
        assert(signals[i] == SendSignal::Ready);
        assert(gesture_sent(steps, i) == dispatched_within(all, i));
    }
    assert forall|i: int|
        0 <= i < events.len() && events[i].1 is TimedOut
            && #[trigger] steps[i] is Answer implies steps[i] == DirectStepView::Answer(
        crate::outcome::deadline_reply(gesture_sent(steps, i)),
    ) by {
        assert(signals[i] == SendSignal::TimedOut);
        assert(all[i] is TimeUp);
        assert(gesture_sent(steps, i) == dispatched_within(all, i));
    }
}

/// What follows fits the signal that it follows on.
proof fn lemma_moves_fit(stage: SendStage, signals: Seq<SendSignal>)
    ensures
        moves(stage, signals).len() == signals.len(),
        forall|i: int|
            0 <= i < signals.len() ==> {
                let next = #[trigger] moves(stage, signals)[i];
                &&& next is Dispatch ==> signals[i] == SendSignal::Ready
                &&& next is NotSent ==> signals[i] == SendSignal::TooLate
                &&& next is TimeUp ==> signals[i] == SendSignal::TimedOut
                &&& next is Tell ==> signals[i] == SendSignal::Done
            },
    decreases signals.len(),
{
    if signals.len() > 0 {
        let next = send_next(stage, signals[0]).0;
        lemma_moves_fit(next, signals.skip(1));
        let rest = moves(next, signals.skip(1));
        assert forall|i: int| 0 < i < signals.len() implies #[trigger] moves(stage, signals)[i]
            == rest[i - 1] && signals[i] == signals.skip(1)[i - 1] by {}
    }
}

/// A request for a shortcut on its way.
#[derive(Debug)]
pub struct IntentRun {
    dispatch: IntentDispatch,
    id: String,
    deadline: u64,
    stage: SendStage,
}

/// The content of an [`IntentRun`].
pub struct IntentView {
    pub dispatch: IntentDispatch,
    pub id: Seq<char>,
    pub deadline: u64,
    pub stage: SendStage,
}

impl View for IntentRun {
    type V = IntentView;

    closed spec fn view(&self) -> IntentView {
        IntentView {
            dispatch: self.dispatch,
            id: self.id@,
            deadline: self.deadline,
            stage: self.stage,
        }
    }
}

/// What happened to a request for a shortcut on its way.
#[derive(Debug)]
pub enum IntentEvent {
    /// The runner is at hand.
    Locked { now: u64 },
    /// The deadline passed.
    TimedOut,
    /// The link was opened, or could not be.
    Opened(Result<(), String>),
}

/// What to do next for a request for a shortcut.
#[derive(Debug)]
pub enum IntentStep {
    /// Open this link on the phone, once.
    Open { link: String },
    Answer(Reply),
    /// The event does not fit; nothing changed.
    Ignored,
}

/// The content of an [`IntentStep`].
pub enum IntentStepView {
    Open { link: Seq<char> },
    Answer(ReplyView),
    Ignored,
}

impl View for IntentStep {
    type V = IntentStepView;

    open spec fn view(&self) -> IntentStepView {
        match *self {
            IntentStep::Open { link } => IntentStepView::Open { link: link@ },
            IntentStep::Answer(reply) => IntentStepView::Answer(reply@),
            IntentStep::Ignored => IntentStepView::Ignored,
        }
    }
}

pub open spec fn intent_signal(deadline: u64, state: AppView, event: IntentEvent) -> SendSignal {
    match event {
        IntentEvent::Locked { now } => if sendable(state, deadline, now) {
            SendSignal::Ready
        } else {
            SendSignal::TooLate
        },
        IntentEvent::TimedOut => SendSignal::TimedOut,
        IntentEvent::Opened(_) => SendSignal::Done,
    }
}

/// How the sending ended, by what was said of the link.
pub open spec fn opened_end(end: Result<(), String>) -> IntentEnd {
    match end {
        Ok(_) => IntentEnd::Opened,
        Err(detail) => IntentEnd::Failed { detail },
    }
}

/// What follows for a request for a shortcut.
pub open spec fn intent_step(run: IntentView, next: SendMove, event: IntentEvent) -> IntentStepView {
    match next {
        SendMove::Dispatch => IntentStepView::Open {
            link: link_text(
                run.dispatch.bridge@,
                run.dispatch.name@,
                run.id,
                run.dispatch.args@,
            ),
        },
        SendMove::NotSent => IntentStepView::Answer(
            intent_answer(run.dispatch, run.id, IntentEnd::NotSent),
        ),
        SendMove::TimeUp { dispatched } => IntentStepView::Answer(
            intent_answer(run.dispatch, run.id, IntentEnd::DeadlinePassed { dispatched }),
        ),
        SendMove::Tell => IntentStepView::Answer(
            intent_answer(run.dispatch, run.id, opened_end(event->Opened_0)),
        ),
        SendMove::Ignored => IntentStepView::Ignored,
    }
}

/// A request for a shortcut after an event, and what to do next.
pub open spec fn intent_next(run: IntentView, state: AppView, event: IntentEvent) -> (
    IntentView,
    IntentStepView,
) {
    let (stage, next) = send_next(run.stage, intent_signal(run.deadline, state, event));
    (IntentView { stage, ..run }, intent_step(run, next, event))
}

impl IntentRun {
    /// A request under the name of its call, which waits for the runner.
    pub fn new(dispatch: IntentDispatch, id: String, deadline: u64) -> (run: IntentRun)
        ensures
            run@ == (IntentView { dispatch, id: id@, deadline, stage: SendStage::Waiting }),
    {
        IntentRun { dispatch, id, deadline, stage: SendStage::Waiting }
    }

    /// The time by which the request must be answered.
    pub fn deadline(&self) -> (deadline: u64)
        ensures
            deadline == self@.deadline,
    {
        self.deadline
    }

    fn at(self, stage: SendStage) -> (run: IntentRun)
        ensures
            run@ == (IntentView { stage, ..self@ }),
    {
        IntentRun { dispatch: self.dispatch, id: self.id, deadline: self.deadline, stage }
    }

    fn answer(&self, end: &IntentEnd) -> (step: IntentStep)
        ensures
            step@ == IntentStepView::Answer(intent_answer(self@.dispatch, self@.id, *end)),
    {
        IntentStep::Answer(agent_intent(&self.dispatch, self.id.as_str(), end))
    }

    /// A request after an event, and what to do next.
    pub fn advance(self, state: &AppState, event: IntentEvent) -> (next: (IntentRun, IntentStep))
        ensures
            (next.0@, next.1@) == intent_next(self@, state@, event),
    {
        let signal = match &event {
            IntentEvent::Locked { now } => signal_of(state, self.deadline, *now),
            IntentEvent::TimedOut => SendSignal::TimedOut,
            IntentEvent::Opened(_) => SendSignal::Done,
        };
        let (stage, next) = self.stage.advance(signal);
        let step = match (next, event) {
            (SendMove::Dispatch, _) => IntentStep::Open {
                link: self.dispatch.link(self.id.as_str()),
            },
            (SendMove::NotSent, _) => self.answer(&IntentEnd::NotSent),
            (SendMove::TimeUp { dispatched }, _) => self.answer(
                &IntentEnd::DeadlinePassed { dispatched },
            ),
            (SendMove::Tell, IntentEvent::Opened(Ok(_))) => self.answer(&IntentEnd::Opened),
            (SendMove::Tell, IntentEvent::Opened(Err(detail))) => self.answer(
                &IntentEnd::Failed { detail },
            ),
            (_, _) => IntentStep::Ignored,
        };
        (self.at(stage), step)
    }
}

/// What is done for a request for a shortcut in a run of events, each in the
/// state of the phone that it finds.
pub open spec fn intent_steps(run: IntentView, events: Seq<(AppView, IntentEvent)>) -> Seq<
    IntentStepView,
>
    decreases events.len(),
{
    if events.len() == 0 {
        Seq::empty()
    } else {
        let (next, first) = intent_next(run, events[0].0, events[0].1);
        seq![first] + intent_steps(next, events.skip(1))
    }
}

/// Whether a link was opened by one of the first `n` steps.
pub open spec fn link_opened(steps: Seq<IntentStepView>, n: int) -> bool {
    exists|j: int| 0 <= j < n && #[trigger] steps[j] is Open
}

spec fn intent_signals(deadline: u64, events: Seq<(AppView, IntentEvent)>) -> Seq<SendSignal> {
    Seq::new(events.len(), |i: int| intent_signal(deadline, events[i].0, events[i].1))
}

proof fn lemma_intent_moves(run: IntentView, events: Seq<(AppView, IntentEvent)>)
    ensures
        intent_steps(run, events).len() == events.len(),
        moves(run.stage, intent_signals(run.deadline, events)).len() == events.len(),
        forall|i: int|
            0 <= i < events.len() ==> #[trigger] intent_steps(run, events)[i] == intent_step(
                run,
                moves(run.stage, intent_signals(run.deadline, events))[i],
                events[i].1,
            ),
    decreases events.len(),
{
    if events.len() > 0 {
        let signals = intent_signals(run.deadline, events);
        let (next, first) = intent_next(run, events[0].0, events[0].1);
        lemma_intent_moves(next, events.skip(1));
        assert(signals.skip(1) =~= intent_signals(run.deadline, events.skip(1)));
        let rest = intent_steps(next, events.skip(1));
        let rest_moves = moves(next.stage, signals.skip(1));
        assert forall|i: int| 0 <= i < events.len() implies #[trigger] intent_steps(run, events)[i]
            == intent_step(run, moves(run.stage, signals)[i], events[i].1) by {
            if i > 0 {
                assert(intent_steps(run, events)[i] == rest[i - 1]);
                assert(moves(run.stage, signals)[i] == rest_moves[i - 1]);
                assert(events.skip(1)[i - 1] == events[i]);
            }
        }
    }
}

/// Whatever happens, the link of a request is opened at most once, it carries
/// what was asked for, and it is never opened where the phone may no longer be
/// driven; and when the deadline passes, the answer tells whether it was opened.
pub proof fn law_a_link_is_opened_at_most_once(
    run: IntentView,
    events: Seq<(AppView, IntentEvent)>,
)
    requires
        run.stage == SendStage::Waiting,
    ensures
        intent_steps(run, events).len() == events.len(),
        forall|i: int|
            0 <= i < events.len() ==> (
            #[trigger] intent_steps(run, events)[i] matches IntentStepView::Open { link } ==> {
                &&& !link_opened(intent_steps(run, events), i)
                &&& link == link_text(
                    run.dispatch.bridge@,
                    run.dispatch.name@,
                    run.id,
                    run.dispatch.args@,
                )
                &&& events[i].1 matches IntentEvent::Locked { now } && sendable(
                    events[i].0,
                    run.deadline,
                    now,
                )
            }),
        forall|i: int|
            0 <= i < events.len() && events[i].1 is TimedOut && #[trigger] intent_steps(
                run,
                events,
            )[i] is Answer ==> intent_steps(run, events)[i] == IntentStepView::Answer(
                intent_answer(
                    run.dispatch,
                    run.id,
                    IntentEnd::DeadlinePassed {
                        dispatched: link_opened(intent_steps(run, events), i),
                    },
                ),
            ),
{
    let signals = intent_signals(run.deadline, events);
    let all = moves(run.stage, signals);
    let steps = intent_steps(run, events);
    lemma_intent_moves(run, events);
    law_a_request_is_sent_at_most_once(run.stage, signals);
    lemma_moves_fit(run.stage, signals);
    assert forall|i: int| 0 <= i < events.len() implies link_opened(steps, i)
        == #[trigger] dispatched_within(all, i) by {
        if link_opened(steps, i) {
            let j = choose|j: int| 0 <= j < i && #[trigger] steps[j] is Open;
            assert(all[j] is Dispatch);
        }
        if dispatched_within(all, i) {
            let j = choose|j: int| 0 <= j < i && #[trigger] all[j] is Dispatch;
            assert(steps[j] is Open);
        }
    }
    assert forall|i: int| 0 <= i < events.len() && #[trigger] steps[i] is Open implies {
        &&& !link_opened(steps, i)
        &&& all[i] is Dispatch
        &&& events[i].1 matches IntentEvent::Locked { now } && sendable(
            events[i].0,
            run.deadline,
            now,
        )
    } by {
        assert(all[i] is Dispatch);
        assert(signals[i] == SendSignal::Ready);
        assert(link_opened(steps, i) == dispatched_within(all, i));
    }
    assert forall|i: int|
        0 <= i < events.len() && events[i].1 is TimedOut
            && #[trigger] steps[i] is Answer implies steps[i] == IntentStepView::Answer(
        intent_answer(
            run.dispatch,
            run.id,
            IntentEnd::DeadlinePassed { dispatched: link_opened(steps, i) },
        ),
    ) by {
        assert(signals[i] == SendSignal::TimedOut);
        assert(all[i] is TimeUp);
        assert(link_opened(steps, i) == dispatched_within(all, i));
    }
}

/// What a request that waits or was sent comes to by each thing that happens: it
/// is sent once it may be, and told by what came of it; and time running out
/// knows whether it had been sent.
pub proof fn law_time_running_out_knows_what_was_sent(signal: SendSignal)
    ensures
        send_next(SendStage::Waiting, SendSignal::Ready) == (SendStage::Sent, SendMove::Dispatch),
        send_next(SendStage::Waiting, SendSignal::TooLate) == (SendStage::Over, SendMove::NotSent),
        send_next(SendStage::Waiting, SendSignal::TimedOut) == (
            SendStage::Over,
            SendMove::TimeUp { dispatched: false },
        ),
        send_next(SendStage::Sent, SendSignal::TimedOut) == (
            SendStage::Over,
            SendMove::TimeUp { dispatched: true },
        ),
        send_next(SendStage::Sent, SendSignal::Done) == (SendStage::Over, SendMove::Tell),
        send_next(SendStage::Over, signal) == (SendStage::Over, SendMove::Ignored),
        send_next(SendStage::Waiting, SendSignal::Done).1 is Ignored,
        send_next(SendStage::Sent, SendSignal::Ready).1 is Ignored,
        send_next(SendStage::Sent, SendSignal::TooLate).1 is Ignored,
{
}

/// A gesture from the browser is taken up only from someone who is logged in and
/// whose page sent it, whom no lease of another keeps away, for a phone that can
/// take it; and it lives for as long as it says.
pub proof fn law_a_gesture_passes_every_gate(
    state: AppView,
    r: ControlRequest,
    c: ControlConfig,
    now: u64,
)
    requires
        now <= u64::MAX - 2500,
    ensures
        ({
            let (after, start) = direct_start(state, r, c, now);
            let header = r.control is Some && r.control->0@ == "1"@;
            let taken = owner_refusal(
                state.owner,
                opt_str(r.owner),
                opt_str(r.takeover),
                now,
                c.lease,
            );
            let facts = DeviceFacts {
                direct: c.direct,
                pending: c.pending,
                transition: state.lifecycle.phase,
                released: state.released,
                has_runner: c.has_runner,
            };
            &&& !r.authed ==> after == state && start == Err::<DirectView, ReplyView>(
                plain_reply(401, r#"{"ok":false,"error":"unauthorized"}"#@),
            )
            &&& r.authed && !header ==> after == state && start == Err::<DirectView, ReplyView>(
                missing_header_reply(),
            )
            &&& r.authed && header && taken is Some ==> start == Err::<DirectView, ReplyView>(
                taken->0,
            )
            &&& r.authed && header && taken is None ==> {
                &&& control_admission(facts, r.body@) matches Err(reply) ==> start == Err::<
                    DirectView,
                    ReplyView,
                >(reply)
                &&& control_admission(facts, r.body@) matches Ok((action, ttl)) ==> (start matches Ok(
                    run,
                ) && run.action == action && run.deadline == (now + ttl) as u64 && run.stage
                    == SendStage::Waiting)
            }
            &&& after.lifecycle == state.lifecycle && after.released == state.released
                && after.health == state.health
        }),
{
}

/// A gesture is sent only in time and to a phone that is in use, and is answered
/// by what became of it.
pub proof fn law_a_gesture_is_answered_by_its_outcome(
    run: DirectView,
    state: AppView,
    outcome: WdaControlOutcome,
    candidates: Option<Candidates>,
    now: u64,
)
    ensures
        run.stage == SendStage::Waiting ==> {
            let next = direct_next(run, state, DirectEvent::Locked { now });
            let may = now < run.deadline && state.lifecycle.phase is Active && !state.released;
            &&& may ==> next.1 is Dispatch && next.0.stage == SendStage::Sent
            &&& !may ==> next.1 == DirectStepView::Answer(direct_reply(DirectEnd::TooLate))
            &&& direct_next(run, state, DirectEvent::TimedOut).1 == DirectStepView::Answer(
                direct_reply(DirectEnd::DeadlinePassed { dispatched: false }),
            )
        },
        run.stage == SendStage::Sent ==> {
            let event = DirectEvent::Acted { outcome, candidates, now };
            &&& direct_next(run, state, event).1 == DirectStepView::Answer(
                direct_reply(DirectEnd::Outcome { outcome, candidates }),
            )
            &&& direct_next(run, state, DirectEvent::TimedOut).1 == DirectStepView::Answer(
                direct_reply(DirectEnd::DeadlinePassed { dispatched: true }),
            )
            &&& outcome is Applied ==> direct_state(run, state, event).last_activity == now
            &&& outcome !is Applied ==> direct_state(run, state, event).last_activity
                == state.last_activity
            &&& outcome is NotSent ==> !direct_state(run, state, event).actionable
            &&& outcome !is NotSent ==> direct_state(run, state, event).actionable
                == state.actionable
            &&& direct_state(run, state, event).lifecycle == state.lifecycle
            &&& direct_state(run, state, event).owner == state.owner
        },
{
}

/// The link that is opened is the one of the request, made with its own id; and
/// the request is answered, under that id, by what became of it.
pub proof fn law_an_intent_is_answered_by_its_end(
    run: IntentView,
    state: AppView,
    end: Result<(), String>,
    now: u64,
)
    ensures
        run.stage == SendStage::Waiting ==> {
            let next = intent_next(run, state, IntentEvent::Locked { now });
            let may = now < run.deadline && state.lifecycle.phase is Active && !state.released;
            &&& may ==> next.0.stage == SendStage::Sent && next.1 == (IntentStepView::Open {
                link: link_text(
                    run.dispatch.bridge@,
                    run.dispatch.name@,
                    run.id,
                    run.dispatch.args@,
                ),
            })
            &&& !may ==> next.1 == IntentStepView::Answer(
                intent_answer(run.dispatch, run.id, IntentEnd::NotSent),
            )
            &&& intent_next(run, state, IntentEvent::TimedOut).1 == IntentStepView::Answer(
                intent_answer(
                    run.dispatch,
                    run.id,
                    IntentEnd::DeadlinePassed { dispatched: false },
                ),
            )
        },
        run.stage == SendStage::Sent ==> {
            let next = intent_next(run, state, IntentEvent::Opened(end));
            &&& end is Ok ==> next.1 == IntentStepView::Answer(
                intent_answer(run.dispatch, run.id, IntentEnd::Opened),
            )
            &&& end matches Err(detail) ==> next.1 == IntentStepView::Answer(
                intent_answer(run.dispatch, run.id, IntentEnd::Failed { detail }),
            )
            &&& intent_next(run, state, IntentEvent::TimedOut).1 == IntentStepView::Answer(
                intent_answer(
                    run.dispatch,
                    run.id,
                    IntentEnd::DeadlinePassed { dispatched: true },
                ),
            )
        },
{
}

} // verus!
