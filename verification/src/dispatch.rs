//! One control message from its arrival to its answer.

use vstd::prelude::*;

use crate::auth::{admit_change, change_refusal, AgentAuth};
use crate::control::mark_wda_read_path_unactionable;
use crate::device::DevicectlError;
use crate::health::WdaHealth;
use crate::input::{
    action_baseline, agent_id, agent_named, alert_probe_allowed, applied_body, applied_response,
    gate_reconnects, gate_reply, input_deadline, input_deadline_ms, input_document, input_gate,
    input_message, may_dispatch, mirror_reply, mirror_response, observation_budget, settle_budget,
    unapplied_reply, unapplied_response, uninstall_asked, uninstall_reply, uninstall_request,
    uninstall_response, wants_delta, yields, yields_to_human, InputEnd, InputFacts, InputGate,
    MirrorEnd, ObservedTree, Uninstall, UninstallView, Watched,
};
use crate::json::{field_of, json_document, text_of, Json, JsonView};
use crate::lifecycle::{
    next_round, owned, LifecycleView, WdaLifecycleTransition, WdaTransitionToken,
};
use crate::observe::{with_alert, Alert, SnapshotCache, SnapshotView};
use crate::outcome::{deadline_reply, Candidates, WdaControlOutcome};
use crate::owner::{claim_phone_owner, owner_after, owner_refusal};
use crate::reply::{json_reply, opt_str, opt_text, plain_reply, Reply, ReplyView};
use crate::settle::SettleReport;
use crate::state::{human_handoff_active, AppState, AppView};

verus! {

/// A message as it arrived.
#[derive(Clone, Copy, Debug)]
pub struct InputRequest<'a> {
    pub body: &'a str,
    /// What became of its credential.
    pub auth: AgentAuth,
    /// The header that a foreign page cannot set.
    pub control: Option<&'a str>,
    pub owner: Option<&'a str>,
    pub takeover: Option<&'a str>,
    /// What the sender wants to see of the result.
    pub return_mode: Option<&'a str>,
    pub since: Option<&'a str>,
    pub settle_ms: Option<u64>,
    pub yield_header: Option<&'a str>,
    pub agent_header: Option<&'a str>,
}

/// How the server is set up.
#[derive(Clone, Copy, Debug)]
pub struct InputConfig<'a> {
    pub direct: bool,
    pub pending: bool,
    pub managed: bool,
    pub has_runner: bool,
    pub udid: Option<&'a str>,
    /// How long an owner's lease lasts, in milliseconds.
    pub lease: u64,
}

/// Where a message stands.
#[derive(Clone, Copy, Debug, PartialEq, Eq, Structural)]
pub enum RunStage {
    Uninstalling,
    /// The runner is waited for.
    Locking,
    /// The action was handed to the runner.
    Acting,
    /// The action was applied, and the screen is watched.
    Watching,
    /// The action was applied, and a system alert is looked for.
    Probing,
    Decoding,
    Looking,
    Fronting,
    Over,
}

/// A message on its way.
#[derive(Debug)]
pub struct InputRun {
    action: Json,
    since: Option<String>,
    settle_ms: Option<u64>,
    want_delta: bool,
    deadline: u64,
    watched: Option<Watched>,
    yields: bool,
    agent: String,
    stage: RunStage,
}

/// The content of an [`InputRun`].
pub struct RunView {
    pub action: JsonView,
    pub since: Option<Seq<char>>,
    pub settle_ms: Option<u64>,
    pub want_delta: bool,
    pub deadline: u64,
    pub watched: Option<Watched>,
    pub yields: bool,
    pub agent: Seq<char>,
    pub stage: RunStage,
}

impl View for InputRun {
    type V = RunView;

    closed spec fn view(&self) -> RunView {
        RunView {
            action: self.action@,
            since: opt_text(self.since),
            settle_ms: self.settle_ms,
            want_delta: self.want_delta,
            deadline: self.deadline,
            watched: self.watched,
            yields: self.yields,
            agent: self.agent@,
            stage: self.stage,
        }
    }
}

/// What to do next for a message.
#[derive(Debug)]
pub enum RunStep {
    Answer(Reply),
    /// Remove an app.
    Uninstall { udid: Option<String>, bundle: String },
    /// Wait for the runner until the deadline.
    Lock,
    /// Hand the action to the runner, once.
    Dispatch,
    /// Watch the screen for this long.
    Watch { budget: u64 },
    ProbeAlert,
    /// Read the message as one for the mirror.
    Decode,
    /// Look whether the mirror is in front.
    Look,
    /// Take the pointer for this agent, and bring the mirror to the front.
    BringToFront { agent: String },
    /// Send the message to the mirror, and answer.
    Send(Reply),
    /// The event does not fit; nothing changed.
    Ignored,
}

/// The content of a [`RunStep`].
pub enum StepView {
    Answer(ReplyView),
    Uninstall { udid: Option<Seq<char>>, bundle: Seq<char> },
    Lock,
    Dispatch,
    Watch { budget: u64 },
    ProbeAlert,
    Decode,
    Look,
    BringToFront { agent: Seq<char> },
    Send(ReplyView),
    Ignored,
}

impl View for RunStep {
    type V = StepView;

    open spec fn view(&self) -> StepView {
        match *self {
            RunStep::Answer(reply) => StepView::Answer(reply@),
            RunStep::Uninstall { udid, bundle } => StepView::Uninstall {
                udid: opt_text(udid),
                bundle: bundle@,
            },
            RunStep::Lock => StepView::Lock,
            RunStep::Dispatch => StepView::Dispatch,
            RunStep::Watch { budget } => StepView::Watch { budget },
            RunStep::ProbeAlert => StepView::ProbeAlert,
            RunStep::Decode => StepView::Decode,
            RunStep::Look => StepView::Look,
            RunStep::BringToFront { agent } => StepView::BringToFront { agent: agent@ },
            RunStep::Send(reply) => StepView::Send(reply@),
            RunStep::Ignored => StepView::Ignored,
        }
    }
}

/// What becomes of a message when it arrives.
#[derive(Debug)]
pub enum InputStart {
    Answer(Reply),
    /// Answer, and start the runner again.
    Reconnect { token: WdaTransitionToken, reply: Reply },
    Begin(InputRun, RunStep),
}

/// The content of an [`InputStart`].
pub enum StartView {
    Answer(ReplyView),
    Reconnect { round: LifecycleView, reply: ReplyView },
    Begin(RunView, StepView),
}

impl View for InputStart {
    type V = StartView;

    open spec fn view(&self) -> StartView {
        match *self {
            InputStart::Answer(reply) => StartView::Answer(reply@),
            InputStart::Reconnect { token, reply } => StartView::Reconnect {
                round: token.round(),
                reply: reply@,
            },
            InputStart::Begin(run, step) => StartView::Begin(run@, step@),
        }
    }
}

/// A message that begins its way at a stage.
pub open spec fn run_at(r: InputRequest, action: JsonView, stage: RunStage, now: u64) -> RunView {
    RunView {
        action,
        since: opt_str(r.since),
        settle_ms: r.settle_ms,
        want_delta: opt_str(r.return_mode) == Some("delta"@),
        deadline: (now + input_deadline_ms()) as u64,
        watched: None,
        yields: yields(opt_str(r.yield_header)),
        agent: agent_named(opt_str(r.agent_header)),
        stage,
    }
}

pub open spec fn input_facts(c: InputConfig, state: AppView) -> InputFacts {
    InputFacts {
        direct: c.direct,
        pending: c.pending,
        released: state.released,
        managed: c.managed,
        handed: state.handed,
    }
}

/// A message that may use the phone.
pub open spec fn admitted_start(
    state: AppView,
    r: InputRequest,
    c: InputConfig,
    now: u64,
) -> StartView {
    if c.direct {
        match input_document(
            r.body@,
            c.has_runner,
            now,
            (now + input_deadline_ms()) as u64,
        ) {
            Err(reply) => StartView::Answer(reply),
            Ok(action) => StartView::Begin(
                run_at(r, action, RunStage::Locking, now),
                StepView::Lock,
            ),
        }
    } else {
        StartView::Begin(run_at(r, JsonView::Null, RunStage::Decoding, now), StepView::Decode)
    }
}

/// A message of a session that may drive the phone.
pub open spec fn gated_start(state: AppView, r: InputRequest, c: InputConfig, now: u64) -> (
    AppView,
    StartView,
) {
    let facts = input_facts(c, state);
    let phase = state.lifecycle.phase;
    match uninstall_asked(r.body@, opt_str(c.udid)) {
        UninstallView::Refused(reply) => (state, StartView::Answer(reply)),
        UninstallView::Run { udid, bundle } => (
            state,
            StartView::Begin(
                run_at(r, JsonView::Null, RunStage::Uninstalling, now),
                StepView::Uninstall { udid, bundle },
            ),
        ),
        UninstallView::Other => match gate_reply(facts, phase) {
            Some(reply) => if gate_reconnects(facts, phase) {
                let round = next_round(state.lifecycle, WdaLifecycleTransition::Reconnecting);
                (
                    AppView { lifecycle: round, last_activity: now, ..state },
                    StartView::Reconnect { round, reply },
                )
            } else {
                (state, StartView::Answer(reply))
            },
            None => (
                AppView { last_activity: now, ..state },
                admitted_start(state, r, c, now),
            ),
        },
    }
}

/// What becomes of a message and of the phone's state when it arrives: the
/// sender is looked at first, then who drives the phone, then the phone.
pub open spec fn input_start(state: AppView, r: InputRequest, c: InputConfig, now: u64) -> (
    AppView,
    StartView,
) {
    match change_refusal(r.auth, opt_str(r.control)) {
        Some(reply) => (state, StartView::Answer(reply)),
        None => {
            let after = AppView {
                owner: owner_after(
                    state.owner,
                    opt_str(r.owner),
                    opt_str(r.takeover),
                    now,
                    c.lease,
                ),
                ..state
            };
            match owner_refusal(
                state.owner,
                opt_str(r.owner),
                opt_str(r.takeover),
                now,
                c.lease,
            ) {
                Some(reply) => (after, StartView::Answer(reply)),
                None => gated_start(after, r, c, now),
            }
        },
    }
}

fn own_text(text: Option<&str>) -> (out: Option<String>)
    ensures
        opt_text(out) == opt_str(text),
{
    match text {
        Some(text) => Some(text.to_string()),
        None => None,
    }
}

fn begin(r: &InputRequest, action: Json, stage: RunStage, now: u64) -> (run: InputRun)
    requires
        now + input_deadline_ms() <= u64::MAX,
    ensures
        run@ == run_at(*r, action@, stage, now),
{
    InputRun {
        action,
        since: own_text(r.since),
        settle_ms: r.settle_ms,
        want_delta: wants_delta(r.return_mode),
        deadline: input_deadline(now),
        watched: None,
        yields: yields_to_human(r.yield_header),
        agent: agent_id(r.agent_header),
        stage,
    }
}

/// Takes a message in.
pub fn agent_input(state: &mut AppState, r: &InputRequest, c: &InputConfig, now: u64) -> (start:
    InputStart)
    requires
        now + input_deadline_ms() <= u64::MAX,
    ensures
        (final(state)@, start@) == input_start(old(state)@, *r, *c, now),
        start matches InputStart::Reconnect { token, .. } ==> owned(
            final(state)@.lifecycle,
            token,
        ),
{
    if let Some(reply) = admit_change(r.auth, r.control) {
        return InputStart::Answer(reply);
    }
    if let Err(reply) = claim_phone_owner(&mut state.owner, r.owner, r.takeover, now, c.lease) {
        return InputStart::Answer(reply);
    }
    match uninstall_request(r.body, c.udid) {
        Uninstall::Refused(reply) => {
            return InputStart::Answer(reply);
        },
        Uninstall::Run { udid, bundle } => {
            let run = begin(r, Json::Null, RunStage::Uninstalling, now);
            return InputStart::Begin(run, RunStep::Uninstall { udid, bundle });
        },
        Uninstall::Other => {},
    }
    let facts = InputFacts {
        direct: c.direct,
        pending: c.pending,
        released: state.released,
        managed: c.managed,
        handed: human_handoff_active(&state.handoff),
    };
    match input_gate(&mut state.lifecycle, facts) {
        InputGate::Refused(reply) => {
            return InputStart::Answer(reply);
        },
        InputGate::Reconnect { token, reply } => {
            state.touch_activity(now);
            return InputStart::Reconnect { token, reply };
        },
        InputGate::Open => {},
    }
    state.touch_activity(now);
    if !c.direct {
        let run = begin(r, Json::Null, RunStage::Decoding, now);
        return InputStart::Begin(run, RunStep::Decode);
    }
    match input_message(r.body, c.has_runner, now, input_deadline(now)) {
        Err(reply) => InputStart::Answer(reply),
        Ok(action) => {
            let run = begin(r, action, RunStage::Locking, now);
            InputStart::Begin(run, RunStep::Lock)
        },
    }
}

/// What happened to a message on its way.
#[derive(Debug)]
pub enum RunEvent {
    Uninstalled(Result<(), DevicectlError>),
    /// The runner is at hand.
    Locked { now: u64 },
    /// The deadline passed.
    TimedOut,
    Acted { outcome: WdaControlOutcome, candidates: Option<Candidates>, now: u64 },
    /// The screen was watched.
    Seen { tree: Option<ObservedTree>, report: SettleReport, now: u64 },
    Alerted(Option<Alert>),
    Decoded(bool),
    InFront(bool),
    Fronted(bool),
}

pub open spec fn run_stage(run: RunView, stage: RunStage) -> RunView {
    RunView { stage, ..run }
}

pub open spec fn answered(run: RunView, reply: ReplyView) -> (RunView, StepView) {
    (run_stage(run, RunStage::Over), StepView::Answer(reply))
}

/// The token that the action itself carries.
pub open spec fn own_token(run: RunView) -> Option<Seq<char>> {
    text_of(field_of(run.action, "snapshot"@))
}

/// The answer to an action that was applied.
pub open spec fn applied_reply(
    run: RunView,
    watched: Option<Watched>,
    cache: Seq<SnapshotView>,
    alert: Option<Alert>,
) -> ReplyView {
    json_reply(
        200,
        applied_body(watched, action_baseline(run.since, own_token(run), cache), alert),
    )
}

/// The runner carried the action out, or did not.
pub open spec fn acted_next(
    run: RunView,
    cache: Seq<SnapshotView>,
    outcome: WdaControlOutcome,
    candidates: Option<Candidates>,
    now: u64,
) -> (RunView, StepView) {
    if outcome !is Applied {
        answered(run, unapplied_reply(InputEnd::Unapplied { outcome, candidates }))
    } else if run.want_delta {
        (
            run_stage(run, RunStage::Watching),
            StepView::Watch {
                budget: observation_budget(run.settle_ms, now, run.deadline) as u64,
            },
        )
    } else {
        answered(run, applied_reply(run, None, cache, None))
    }
}

/// A message after an event, and what to do next.
pub open spec fn run_next(
    run: RunView,
    state: AppView,
    cache: Seq<SnapshotView>,
    event: RunEvent,
) -> (RunView, StepView) {
    match (run.stage, event) {
        (RunStage::Uninstalling, RunEvent::Uninstalled(end)) => answered(
            run,
            uninstall_reply(end),
        ),
        (RunStage::Locking, RunEvent::Locked { now }) => if now < run.deadline
            && state.lifecycle.phase == WdaLifecycleTransition::Active && !state.released {
            (run_stage(run, RunStage::Acting), StepView::Dispatch)
        } else {
            answered(run, unapplied_reply(InputEnd::TooLate))
        },
        (RunStage::Locking, RunEvent::TimedOut) => answered(
            run,
            unapplied_reply(InputEnd::DeadlinePassed { dispatched: false }),
        ),
        (RunStage::Acting, RunEvent::TimedOut) => answered(
            run,
            unapplied_reply(InputEnd::DeadlinePassed { dispatched: true }),
        ),
        (RunStage::Acting, RunEvent::Acted { outcome, candidates, now }) => acted_next(
            run,
            cache,
            outcome,
            candidates,
            now,
        ),
        (RunStage::Watching, RunEvent::Seen { tree, report, now }) => if run.deadline - now > 3000 {
            (
                RunView {
                    watched: Some(Watched { tree, report }),
                    stage: RunStage::Probing,
                    ..run
                },
                StepView::ProbeAlert,
            )
        } else {
            answered(run, applied_reply(run, Some(Watched { tree, report }), cache, None))
        },
        (RunStage::Probing, RunEvent::Alerted(alert)) => answered(
            run,
            applied_reply(run, run.watched, cache, alert),
        ),
        (RunStage::Decoding, RunEvent::Decoded(ok)) => if !ok {
            answered(run, mirror_reply(MirrorEnd::Undecodable))
        } else if run.yields {
            (run_stage(run, RunStage::Looking), StepView::Look)
        } else {
            (
                run_stage(run, RunStage::Fronting),
                StepView::BringToFront { agent: run.agent },
            )
        },
        (RunStage::Looking, RunEvent::InFront(front)) => if front {
            (
                run_stage(run, RunStage::Fronting),
                StepView::BringToFront { agent: run.agent },
            )
        } else {
            answered(run, mirror_reply(MirrorEnd::Yielded))
        },
        (RunStage::Fronting, RunEvent::Fronted(front)) => if front {
            (
                run_stage(run, RunStage::Over),
                StepView::Send(mirror_reply(MirrorEnd::Sent)),
            )
        } else {
            answered(run, mirror_reply(MirrorEnd::Dropped))
        },
        _ => (run, StepView::Ignored),
    }
}

/// The phone's state after an event: an action that could not be handed on shows
/// that none can.
pub open spec fn run_state(run: RunView, state: AppView, event: RunEvent) -> AppView {
    if run.stage == RunStage::Acting && (event matches RunEvent::Acted { outcome, .. } && outcome
        == WdaControlOutcome::NotSent) {
        AppView {
            health: WdaHealth { actionable: false, ..state.health },
            actionable: false,
            ..state
        }
    } else {
        state
    }
}

pub open spec fn event_formed(event: RunEvent) -> bool {
    event matches RunEvent::Seen { tree: Some(tree), .. } ==> tree.well_formed()
}

impl InputRun {
    #[verifier::type_invariant]
    spec fn inv(&self) -> bool {
        self.watched matches Some(watched) ==> (watched.tree matches Some(tree)
            ==> tree.well_formed())
    }

    /// The action that is handed to the runner.
    pub fn action(&self) -> (action: &Json)
        ensures
            action@ == self@.action,
    {
        &self.action
    }

    /// The time by which the message must be answered.
    pub fn deadline(&self) -> (deadline: u64)
        ensures
            deadline == self@.deadline,
    {
        self.deadline
    }

    fn at(self, stage: RunStage) -> (run: InputRun)
        ensures
            run@ == run_stage(self@, stage),
    {
        proof {
            use_type_invariant(&self);
        }
        InputRun {
            action: self.action,
            since: self.since,
            settle_ms: self.settle_ms,
            want_delta: self.want_delta,
            deadline: self.deadline,
            watched: self.watched,
            yields: self.yields,
            agent: self.agent,
            stage,
        }
    }

    fn answer(self, reply: Reply) -> (next: (InputRun, RunStep))
        ensures
            (next.0@, next.1@) == answered(self@, reply@),
    {
        (self.at(RunStage::Over), RunStep::Answer(reply))
    }

    fn applied(
        &self,
        watched: &Option<Watched>,
        cache: &SnapshotCache,
        alert: &Option<Alert>,
    ) -> (reply: Reply)
        requires
            *watched matches Some(watched) ==> (watched.tree matches Some(tree)
                ==> tree.well_formed()),
        ensures
            reply@ == applied_reply(self@, *watched, cache@, *alert),
    {
        let since = match &self.since {
            Some(since) => Some(since.as_str()),
            None => None,
        };
        let own = self.action.text_field("snapshot");
        applied_response(watched, since, own, cache, alert)
    }

    fn acted(
        self,
        state: &mut AppState,
        cache: &SnapshotCache,
        outcome: WdaControlOutcome,
        candidates: Option<Candidates>,
        now: u64,
    ) -> (next: (InputRun, RunStep))
        ensures
            (next.0@, next.1@) == acted_next(self@, cache@, outcome, candidates, now),
            final(state)@ == (if outcome == WdaControlOutcome::NotSent {
                AppView {
                    health: WdaHealth { actionable: false, ..old(state)@.health },
                    actionable: false,
                    ..old(state)@
                }
            } else {
                old(state)@
            }),
    {
        let applied = match outcome {
            WdaControlOutcome::Applied => true,
            _ => false,
        };
        if !applied {
            match outcome {
                WdaControlOutcome::NotSent => {
                    mark_wda_read_path_unactionable(&mut state.health, &mut state.actionable);
                },
                _ => {},
            }
            let reply = unapplied_response(&InputEnd::Unapplied { outcome, candidates });
            return self.answer(reply);
        }
        if self.want_delta {
            let budget: u64 = settle_budget(self.settle_ms, now, self.deadline);
            return (self.at(RunStage::Watching), RunStep::Watch { budget });
        }
        let reply = self.applied(&None, cache, &None);
        self.answer(reply)
    }

    fn seen(
        self,
        cache: &SnapshotCache,
        tree: Option<ObservedTree>,
        report: SettleReport,
        now: u64,
    ) -> (next: (InputRun, RunStep))
        requires
            self@.stage == RunStage::Watching,
            tree matches Some(tree) ==> tree.well_formed(),
        ensures
            (next.0@, next.1@) == (if self@.deadline - now > 3000 {
                (
                    RunView {
                        watched: Some(Watched { tree, report }),
                        stage: RunStage::Probing,
                        ..self@
                    },
                    StepView::ProbeAlert,
                )
            } else {
                answered(
                    self@,
                    applied_reply(self@, Some(Watched { tree, report }), cache@, None),
                )
            }),
    {
        let watched = Some(Watched { tree, report });
        if alert_probe_allowed(now, self.deadline) {
            let run = InputRun {
                action: self.action,
                since: self.since,
                settle_ms: self.settle_ms,
                want_delta: self.want_delta,
                deadline: self.deadline,
                watched,
                yields: self.yields,
                agent: self.agent,
                stage: RunStage::Probing,
            };
            return (run, RunStep::ProbeAlert);
        }
        let reply = self.applied(&watched, cache, &None);
        self.answer(reply)
    }

    fn to_front(self) -> (next: (InputRun, RunStep))
        ensures
            (next.0@, next.1@) == (
                run_stage(self@, RunStage::Fronting),
                StepView::BringToFront { agent: self@.agent },
            ),
    {
        let agent = self.agent.clone();
        (self.at(RunStage::Fronting), RunStep::BringToFront { agent })
    }

    /// A message after an event, and what to do next. `cache` is the cache in
    /// which the tree that was seen is already kept.
    pub fn advance(self, state: &mut AppState, cache: &SnapshotCache, event: RunEvent) -> (next: (
        InputRun,
        RunStep,
    ))
        requires
            event_formed(event),
        ensures
            (next.0@, next.1@) == run_next(self@, old(state)@, cache@, event),
            final(state)@ == run_state(self@, old(state)@, event),
    {
        proof {
            use_type_invariant(&self);
        }
        match (self.stage, event) {
            (RunStage::Uninstalling, RunEvent::Uninstalled(end)) => {
                let reply = uninstall_response(&end);
                self.answer(reply)
            },
            (RunStage::Locking, RunEvent::Locked { now }) => {
                if may_dispatch(now, self.deadline, &state.lifecycle, state.released) {
                    (self.at(RunStage::Acting), RunStep::Dispatch)
                } else {
                    self.answer(unapplied_response(&InputEnd::TooLate))
                }
            },
            (RunStage::Locking, RunEvent::TimedOut) => self.answer(
                unapplied_response(&InputEnd::DeadlinePassed { dispatched: false }),
            ),
            (RunStage::Acting, RunEvent::TimedOut) => self.answer(
                unapplied_response(&InputEnd::DeadlinePassed { dispatched: true }),
            ),
            (RunStage::Acting, RunEvent::Acted { outcome, candidates, now }) => self.acted(
                state,
                cache,
                outcome,
                candidates,
                now,
            ),
            (RunStage::Watching, RunEvent::Seen { tree, report, now }) => self.seen(
                cache,
                tree,
                report,
                now,
            ),
            (RunStage::Probing, RunEvent::Alerted(alert)) => {
                let reply = self.applied(&self.watched, cache, &alert);
                self.answer(reply)
            },
            (RunStage::Decoding, RunEvent::Decoded(ok)) => {
                if !ok {
                    self.answer(mirror_response(MirrorEnd::Undecodable))
                } else if self.yields {
                    (self.at(RunStage::Looking), RunStep::Look)
                } else {
                    self.to_front()
                }
            },
            (RunStage::Looking, RunEvent::InFront(front)) => {
                if front {
                    self.to_front()
                } else {
                    self.answer(mirror_response(MirrorEnd::Yielded))
                }
            },
            (RunStage::Fronting, RunEvent::Fronted(front)) => {
                if front {
                    (self.at(RunStage::Over), RunStep::Send(mirror_response(MirrorEnd::Sent)))
                } else {
                    self.answer(mirror_response(MirrorEnd::Dropped))
                }
            },
            (_, _) => (self, RunStep::Ignored),
        }
    }
}

/// An action that was applied is always answered as applied: however long the
/// screen is watched, whatever is seen of it and whether or not the watching
/// fails, the answer is a success. A slow or failed look never turns an applied
/// action into an unknown one.
pub proof fn law_an_applied_action_stays_applied(
    run: RunView,
    state: AppView,
    cache: Seq<SnapshotView>,
    event: RunEvent,
)
    ensures
        run.stage == RunStage::Acting && (event matches RunEvent::Acted { outcome, .. } && outcome
            is Applied) ==> {
            let (after, step) = run_next(run, state, cache, event);
            ||| after.stage == RunStage::Watching
            ||| step matches StepView::Answer(reply) && reply.status == 200
        },
        run.stage == RunStage::Watching || run.stage == RunStage::Probing ==> {
            let (after, step) = run_next(run, state, cache, event);
            ||| after.stage == RunStage::Watching && step is Ignored
            ||| after.stage == RunStage::Probing
            ||| step matches StepView::Answer(reply) && reply.status == 200
        },
{
}

/// An action is handed to the runner at most once: only a message that waits for
/// the runner hands one on, and it never waits again.
pub proof fn law_a_message_acts_at_most_once(
    run: RunView,
    state: AppView,
    cache: Seq<SnapshotView>,
    event: RunEvent,
)
    ensures
        run_next(run, state, cache, event).1 is Dispatch ==> run.stage == RunStage::Locking
            && run_next(run, state, cache, event).0.stage == RunStage::Acting,
        run_next(run, state, cache, event).0.stage == RunStage::Locking ==> run.stage
            == RunStage::Locking,
        run.stage == RunStage::Over ==> run_next(run, state, cache, event) == (
            run,
            StepView::Ignored,
        ),
{
}

/// A message whose time runs out is safe to send again only where it was not
/// handed on yet.
pub proof fn law_time_running_out_tells_what_was_sent(
    run: RunView,
    state: AppView,
    cache: Seq<SnapshotView>,
)
    ensures
        run.stage == RunStage::Locking ==> run_next(run, state, cache, RunEvent::TimedOut).1
            == StepView::Answer(crate::outcome::deadline_reply(false)),
        run.stage == RunStage::Acting ==> run_next(run, state, cache, RunEvent::TimedOut).1
            == StepView::Answer(crate::outcome::deadline_reply(true)),
{
}

/// A message that is refused for its sender changes nothing, and one that is
/// refused for its session drives nothing.
pub proof fn law_a_refused_sender_changes_nothing(
    state: AppView,
    r: InputRequest,
    c: InputConfig,
    now: u64,
)
    ensures
        change_refusal(r.auth, opt_str(r.control)) is Some ==> input_start(state, r, c, now).0
            == state,
        owner_refusal(
            state.owner,
            opt_str(r.owner),
            opt_str(r.takeover),
            now,
            c.lease,
        ) is Some ==> input_start(state, r, c, now).1 is Answer && input_start(
            state,
            r,
            c,
            now,
        ).0.lifecycle == state.lifecycle,
{
}

/// A message is taken up only from a sender that may change things and whom no
/// lease of another keeps away; a request to remove an app is followed whatever
/// state the phone is in, every other one only where the phone can take it.
pub proof fn law_a_message_passes_every_gate(
    state: AppView,
    r: InputRequest,
    c: InputConfig,
    now: u64,
)
    requires
        now + input_deadline_ms() <= u64::MAX,
    ensures
        ({
            let (after, start) = input_start(state, r, c, now);
            let auth = change_refusal(r.auth, opt_str(r.control));
            let taken = owner_refusal(
                state.owner,
                opt_str(r.owner),
                opt_str(r.takeover),
                now,
                c.lease,
            );
            let asked = uninstall_asked(r.body@, opt_str(c.udid));
            let facts = InputFacts {
                direct: c.direct,
                pending: c.pending,
                released: state.released,
                managed: c.managed,
                handed: state.handed,
            };
            let gate = gate_reply(facts, state.lifecycle.phase);
            &&& auth matches Some(reply) ==> start == StartView::Answer(reply) && after == state
            &&& auth is None && taken is Some ==> start == StartView::Answer(taken->0)
            &&& auth is None && taken is None ==> {
                &&& after.owner == owner_after(
                    state.owner,
                    opt_str(r.owner),
                    opt_str(r.takeover),
                    now,
                    c.lease,
                )
                &&& asked matches UninstallView::Refused(reply) ==> start == StartView::Answer(
                    reply,
                )
                &&& asked matches UninstallView::Run { udid, bundle } ==> (start matches
                    StartView::Begin(run, step) && step == (StepView::Uninstall { udid, bundle })
                    && run.stage == RunStage::Uninstalling && after.last_activity
                    == state.last_activity)
                &&& asked is Other && gate is Some && !gate_reconnects(
                    facts,
                    state.lifecycle.phase,
                ) ==> start == StartView::Answer(gate->0) && after.last_activity
                    == state.last_activity && after.lifecycle == state.lifecycle
                &&& asked is Other && gate_reconnects(facts, state.lifecycle.phase) ==> (start
                    matches StartView::Reconnect { round, reply } && gate == Some(reply)
                    && after.lifecycle == round && round == next_round(
                    state.lifecycle,
                    WdaLifecycleTransition::Reconnecting,
                ) && after.last_activity == now)
                &&& asked is Other && gate is None ==> after.last_activity == now
                    && after.lifecycle == state.lifecycle
                &&& asked is Other && gate is None && !c.direct ==> (start matches StartView::Begin(
                    run,
                    StepView::Decode,
                ) && run.stage == RunStage::Decoding)
                &&& asked is Other && gate is None && c.direct && input_document(
                    r.body@,
                    c.has_runner,
                    now,
                    (now + 15000) as u64,
                ) is Ok ==> (start matches StartView::Begin(run, StepView::Lock) && run.stage
                    == RunStage::Locking && Some(run.action) == json_document(r.body@))
            }
            &&& after.released == state.released && after.handed == state.handed && after.health
                == state.health && after.actionable == state.actionable
        }),
{
}

/// What a message asks for is kept with it as it came: what to tell afterwards,
/// how long to watch, whether to yield and who sends it; and it has fifteen
/// seconds.
pub proof fn law_a_message_keeps_what_it_asks_for(
    state: AppView,
    r: InputRequest,
    c: InputConfig,
    now: u64,
)
    requires
        now + input_deadline_ms() <= u64::MAX,
    ensures
        input_start(state, r, c, now).1 matches StartView::Begin(run, step) ==> {
            &&& run.since == opt_str(r.since)
            &&& run.settle_ms == r.settle_ms
            &&& run.want_delta <==> r.return_mode is Some && r.return_mode->0@ == "delta"@
            &&& run.deadline == now + 15000
            &&& run.watched is None
            &&& run.yields == yields(opt_str(r.yield_header))
            &&& run.agent == agent_named(opt_str(r.agent_header))
        },
{
}

/// A message is sent only in time and to a phone that is in use; what it came to
/// is answered at once where nothing is to be told, and else watched first.
pub proof fn law_a_message_is_sent_and_watched(
    run: RunView,
    state: AppView,
    cache: Seq<SnapshotView>,
    outcome: WdaControlOutcome,
    candidates: Option<Candidates>,
    now: u64,
)
    ensures
        run.stage == RunStage::Locking ==> {
            let next = run_next(run, state, cache, RunEvent::Locked { now });
            let may = now < run.deadline && state.lifecycle.phase is Active && !state.released;
            &&& may ==> next.1 is Dispatch && next.0.stage == RunStage::Acting
            &&& !may ==> next.1 == StepView::Answer(deadline_reply(false)) && next.0.stage
                == RunStage::Over
            &&& run_next(run, state, cache, RunEvent::TimedOut).1 == StepView::Answer(
                deadline_reply(false),
            )
        },
        run.stage == RunStage::Acting ==> {
            let event = RunEvent::Acted { outcome, candidates, now };
            let next = run_next(run, state, cache, event);
            &&& run_next(run, state, cache, RunEvent::TimedOut).1 == StepView::Answer(
                deadline_reply(true),
            )
            &&& outcome !is Applied ==> next.1 == StepView::Answer(
                unapplied_reply(InputEnd::Unapplied { outcome, candidates }),
            ) && next.0.stage == RunStage::Over
            &&& outcome is Applied && !run.want_delta ==> (next.1 matches StepView::Answer(reply)
                && reply == json_reply(200, with_alert(r#"{"ok":true,"transport":"wda"}"#@, None)))
            &&& outcome is Applied && run.want_delta ==> next.0.stage == RunStage::Watching
                && (next.1 matches StepView::Watch { budget } && budget == observation_budget(
                run.settle_ms,
                now,
                run.deadline,
            ))
            &&& outcome is NotSent ==> !run_state(run, state, event).actionable && !run_state(
                run,
                state,
                event,
            ).health.actionable
            &&& outcome !is NotSent ==> run_state(run, state, event) == state
        },
{
}

/// What was seen after an action is told with it: with the alert that stands on
/// the screen, where there was time to look for one.
pub proof fn law_what_was_seen_is_told(
    run: RunView,
    state: AppView,
    cache: Seq<SnapshotView>,
    tree: Option<ObservedTree>,
    report: SettleReport,
    alert: Option<Alert>,
    now: u64,
)
    ensures
        run.stage == RunStage::Watching ==> {
            let next = run_next(run, state, cache, RunEvent::Seen { tree, report, now });
            let seen = Watched { tree, report };
            let baseline = action_baseline(
                run.since,
                text_of(field_of(run.action, "snapshot"@)),
                cache,
            );
            &&& run.deadline - now > 3000 ==> next.1 is ProbeAlert && next.0.stage
                == RunStage::Probing && next.0.watched == Some(seen) && next.0.since == run.since
                && next.0.action == run.action
            &&& run.deadline - now <= 3000 ==> next.0.stage == RunStage::Over && next.1
                == StepView::Answer(json_reply(200, applied_body(Some(seen), baseline, None)))
        },
        run.stage == RunStage::Probing ==> {
            let next = run_next(run, state, cache, RunEvent::Alerted(alert));
            let baseline = action_baseline(
                run.since,
                text_of(field_of(run.action, "snapshot"@)),
                cache,
            );
            next.0.stage == RunStage::Over && next.1 == StepView::Answer(
                json_reply(200, applied_body(run.watched, baseline, alert)),
            )
        },
{
}

/// To a mirrored phone a message is sent only once its window is in front; a
/// sender that yields does not bring it there.
pub proof fn law_a_yielding_sender_does_not_push_in(
    run: RunView,
    state: AppView,
    cache: Seq<SnapshotView>,
    ok: bool,
)
    ensures
        run.stage == RunStage::Decoding ==> {
            let next = run_next(run, state, cache, RunEvent::Decoded(ok));
            &&& !ok ==> next.1 == StepView::Answer(mirror_reply(MirrorEnd::Undecodable))
            &&& ok && run.yields ==> next.1 is Look && next.0.stage == RunStage::Looking
            &&& ok && !run.yields ==> next.1 == (StepView::BringToFront { agent: run.agent })
                && next.0.stage == RunStage::Fronting
        },
        run.stage == RunStage::Looking ==> {
            let next = run_next(run, state, cache, RunEvent::InFront(ok));
            &&& !ok ==> next.1 == StepView::Answer(mirror_reply(MirrorEnd::Yielded))
            &&& ok ==> next.1 == (StepView::BringToFront { agent: run.agent }) && next.0.stage
                == RunStage::Fronting
        },
        run.stage == RunStage::Fronting ==> {
            let next = run_next(run, state, cache, RunEvent::Fronted(ok));
            &&& ok ==> next.1 == StepView::Send(plain_reply(200, "ok"@)) && next.0.stage
                == RunStage::Over
            &&& !ok ==> next.1 == StepView::Answer(mirror_reply(MirrorEnd::Dropped))
        },
{
}

} // verus!
