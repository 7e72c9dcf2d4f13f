//! Running a validated batch: one step after the other, each action sent at most
//! once, and a stop at the first failure.

use vstd::prelude::*;

use crate::batch::{
    agent_expectation_observation, batch_error, observation_met, observe, step_views,
    validate_agent_actions, AgentActionStep, Observation, ObservationView, StepView,
};
use crate::control::{mark_wda_read_path_unactionable, note_control_outcome};
use crate::element::ElementRow;
use crate::health::{min_of, WdaHealth};
use crate::lifecycle::WdaLifecycleTransition;
use crate::outcome::{batch_report, WdaControlOutcome};
use crate::reply::{
    array_of, array_text, bool_text, index_array, index_items, json_reply, json_string_text,
    object_text, opt_str, opt_string_text, opt_text, texts, ObjectText, Reply, ReplyView,
};
use crate::state::{AppState, AppView};
use crate::text::{decimal, join2};

verus! {

/// The fields of an observation that was met.
pub open spec fn observation_fields(o: ObservationView) -> Seq<(Seq<char>, Seq<char>)> {
    seq![
        ("absent_unproven"@, array_text(index_items(o.absent_unproven))),
        ("application"@, opt_string_text(o.application)),
        ("application_matches"@, bool_text(o.application_matches)),
        ("missing_present"@, array_text(index_items(o.missing_present))),
        ("read"@, bool_text(true)),
        ("rows"@, decimal(o.rows)),
        ("sparse"@, bool_text(o.sparse)),
        ("violated_absent"@, array_text(index_items(o.violated_absent))),
    ]
}

pub fn observation_text(o: &Observation) -> (text: String)
    ensures
        text@ == object_text(observation_fields(o@)),
{
    let unproven = index_array(&o.absent_unproven);
    let missing = index_array(&o.missing_present);
    let violated = index_array(&o.violated_absent);
    let application = match &o.application {
        Some(a) => Some(a.as_str()),
        None => None,
    };
    let body = ObjectText::new().raw("absent_unproven", unproven.as_str()).opt_text(
        "application",
        application,
    ).flag("application_matches", o.application_matches).raw(
        "missing_present",
        missing.as_str(),
    ).flag("read", true).count("rows", o.rows as u64).flag("sparse", o.sparse).raw(
        "violated_absent",
        violated.as_str(),
    );
    assert(body.fields() =~= observation_fields(o@));
    body.finish()
}

/// What a failed wait has to show: how often it tried and read, its last valid
/// observation if it had any, and whether that one is out of date because the
/// latest read failed.
#[derive(Debug)]
pub struct WaitLog {
    pub attempts: u64,
    pub reads: u64,
    pub last: Option<Observation>,
    pub last_error: Option<String>,
}

/// The content of a [`WaitLog`].
pub struct WaitView {
    pub attempts: u64,
    pub reads: u64,
    pub last: Option<ObservationView>,
    pub last_error: Option<Seq<char>>,
}

impl View for WaitLog {
    type V = WaitView;

    open spec fn view(&self) -> WaitView {
        WaitView {
            attempts: self.attempts,
            reads: self.reads,
            last: match self.last {
                Some(o) => Some(o@),
                None => None,
            },
            last_error: opt_text(self.last_error),
        }
    }
}

pub open spec fn error_field(error: Option<Seq<char>>) -> Seq<(Seq<char>, Seq<char>)> {
    match error {
        Some(error) => seq![("read_error"@, json_string_text(error))],
        None => Seq::empty(),
    }
}

/// The fields of the observation that a failed wait reports. `read` is false
/// where no tree was ever read; `stale` is there where the screen was read
/// before but the latest read failed.
pub open spec fn wait_fields(
    last: Option<ObservationView>,
    attempts: u64,
    reads: u64,
    last_read_failed: bool,
    error: Option<Seq<char>>,
) -> Seq<(Seq<char>, Seq<char>)> {
    match last {
        None => seq![
            ("attempts"@, decimal(attempts as nat)),
            (
                "hint"@,
                json_string_text(
                    "no readable element tree was obtained; nothing here proves an element is absent"@,
                ),
            ),
            ("read"@, bool_text(false)),
        ] + error_field(error) + seq![("reads"@, decimal(reads as nat))],
        Some(o) => seq![
            ("absent_unproven"@, array_text(index_items(o.absent_unproven))),
            ("application"@, opt_string_text(o.application)),
            ("application_matches"@, bool_text(o.application_matches)),
            ("attempts"@, decimal(attempts as nat)),
            ("missing_present"@, array_text(index_items(o.missing_present))),
            ("read"@, bool_text(true)),
        ] + error_field(error) + seq![
            ("reads"@, decimal(reads as nat)),
            ("rows"@, decimal(o.rows)),
            ("sparse"@, bool_text(o.sparse)),
        ] + (if last_read_failed {
            seq![("stale"@, bool_text(true))]
        } else {
            Seq::empty()
        }) + seq![("violated_absent"@, array_text(index_items(o.violated_absent)))],
    }
}

fn put_error(body: ObjectText, error: Option<&str>) -> (next: ObjectText)
    ensures
        next.fields() == body.fields() + error_field(opt_str(error)),
{
    match error {
        Some(error) => {
            let next = body.text("read_error", error);
            assert(next.fields() =~= body.fields() + error_field(opt_str(Some(error))));
            next
        },
        None => {
            assert(body.fields() =~= body.fields() + error_field(None));
            body
        },
    }
}

/// The observation that a failed wait reports.
pub fn agent_wait_observation(
    last: &Option<Observation>,
    attempts: u64,
    reads: u64,
    last_read_failed: bool,
    error: Option<&str>,
) -> (text: String)
    ensures
        text@ == object_text(
            wait_fields(
                match *last {
                    Some(o) => Some(o@),
                    None => None,
                },
                attempts,
                reads,
                last_read_failed,
                opt_str(error),
            ),
        ),
{
    match last {
        None => {
            let body = ObjectText::new().count("attempts", attempts).text(
                "hint",
                "no readable element tree was obtained; nothing here proves an element is absent",
            ).flag("read", false);
            let body = put_error(body, error).count("reads", reads);
            assert(body.fields() =~= wait_fields(
                None,
                attempts,
                reads,
                last_read_failed,
                opt_str(error),
            ));
            body.finish()
        },
        Some(o) => {
            let unproven = index_array(&o.absent_unproven);
            let missing = index_array(&o.missing_present);
            let violated = index_array(&o.violated_absent);
            let application = match &o.application {
                Some(a) => Some(a.as_str()),
                None => None,
            };
            let body = ObjectText::new().raw("absent_unproven", unproven.as_str()).opt_text(
                "application",
                application,
            ).flag("application_matches", o.application_matches).count("attempts", attempts).raw(
                "missing_present",
                missing.as_str(),
            ).flag("read", true);
            let body = put_error(body, error).count("reads", reads).count(
                "rows",
                o.rows as u64,
            ).flag("sparse", o.sparse);
            let body = if last_read_failed {
                body.flag("stale", true)
            } else {
                body
            };
            let body = body.raw("violated_absent", violated.as_str());
            assert(body.fields() =~= wait_fields(
                Some(o@),
                attempts,
                reads,
                last_read_failed,
                opt_str(error),
            ));
            body.finish()
        },
    }
}

/// Where a batch stands.
#[derive(Debug)]
pub enum Phase {
    /// Before the step: may it be started?
    Gate,
    /// The step's action was handed out.
    Acting,
    /// The action was applied; its animation is given time.
    AfterAction,
    Pausing,
    Waiting(WaitLog),
    Over,
}

/// The content of a [`Phase`].
pub enum PhaseView {
    Gate,
    Acting,
    AfterAction,
    Pausing,
    Waiting(WaitView),
    Over,
}

impl View for Phase {
    type V = PhaseView;

    open spec fn view(&self) -> PhaseView {
        match *self {
            Phase::Gate => PhaseView::Gate,
            Phase::Acting => PhaseView::Acting,
            Phase::AfterAction => PhaseView::AfterAction,
            Phase::Pausing => PhaseView::Pausing,
            Phase::Waiting(log) => PhaseView::Waiting(log@),
            Phase::Over => PhaseView::Over,
        }
    }
}

/// A batch under way.
#[derive(Debug)]
pub struct Batch {
    steps: Vec<AgentActionStep>,
    index: usize,
    applied: usize,
    results: Vec<String>,
    phase: Phase,
}

/// The content of a [`Batch`].
pub struct BatchView {
    pub steps: Seq<StepView>,
    /// The step that is next or under way; all before it are completed.
    pub index: nat,
    /// How many actions are known to be applied.
    pub applied: nat,
    /// The JSON texts of the completed steps' results.
    pub results: Seq<Seq<char>>,
    pub phase: PhaseView,
}

impl View for Batch {
    type V = BatchView;

    closed spec fn view(&self) -> BatchView {
        BatchView {
            steps: step_views(self.steps@),
            index: self.index as nat,
            applied: self.applied as nat,
            results: texts(self.results@),
            phase: self.phase@,
        }
    }
}

/// How many of the first `n` steps are actions.
pub open spec fn actions_before(steps: Seq<StepView>, n: nat) -> nat
    decreases n,
{
    if n == 0 {
        0
    } else {
        actions_before(steps, (n - 1) as nat) + if steps[n - 1] is Action {
            1nat
        } else {
            0nat
        }
    }
}

proof fn lemma_actions_before(steps: Seq<StepView>, n: nat)
    ensures
        actions_before(steps, n) <= n,
        actions_before(steps, n + 1) == actions_before(steps, n) + if steps[n as int] is Action {
            1nat
        } else {
            0nat
        },
    decreases n,
{
    if n > 0 {
        lemma_actions_before(steps, (n - 1) as nat);
    }
}

/// What every batch under way satisfies: one result for each completed step, a
/// phase that fits the step, and as many applied actions as there are actions
/// among the completed steps, with the one under way once it is known to be
/// applied.
pub open spec fn batch_valid(b: BatchView) -> bool {
    let behind = b.applied == actions_before(b.steps, b.index);
    let with_this = b.index < b.steps.len() && b.steps[b.index as int] is Action && b.applied
        == actions_before(b.steps, b.index + 1);
    &&& b.index <= b.steps.len()
    &&& b.results.len() == b.index
    &&& match b.phase {
        PhaseView::Over => behind || with_this,
        PhaseView::Gate => b.index < b.steps.len() && behind,
        PhaseView::Acting => b.index < b.steps.len() && behind
            && b.steps[b.index as int] is Action,
        PhaseView::AfterAction => with_this,
        PhaseView::Pausing => b.index < b.steps.len() && behind
            && b.steps[b.index as int] is Pause,
        PhaseView::Waiting(_) => b.index < b.steps.len() && behind
            && b.steps[b.index as int] is WaitFor,
    }
}

/// What happened since the last step of the machine.
#[derive(Debug)]
pub enum BatchEvent {
    /// Whether the phone may be driven, and whether the batch has time left.
    Gate { drivable: bool, in_time: bool },
    /// The action's outcome; `None` where the batch deadline came first.
    Acted(Option<WdaControlOutcome>),
    /// Whether a sleep ran to its end before the batch deadline.
    Slept(bool),
    /// The tree was read, and whether the wait has time left.
    Tree { rows: Vec<ElementRow>, in_time: bool },
    /// The read failed, and whether the wait has time left.
    ReadFailed { error: String, in_time: bool },
    /// The read did not come back before the end of the wait.
    ReadTimedOut,
    /// The pause between two reads is over.
    Polled,
}

/// What to do next.
#[derive(Debug)]
pub enum BatchCommand {
    /// Look whether the next step may start.
    CheckGate,
    /// Send the action of this step, once.
    Act { step: usize },
    /// Sleep, at most until the batch deadline.
    Sleep { ms: u64 },
    /// Start a wait of at most this long, and read the tree.
    StartWait { timeout_ms: u64 },
    Read,
    /// Sleep between two reads, at most until the end of the wait.
    Poll { ms: u64 },
    /// Answer. `unactionable`: the read path is no longer trusted.
    /// `drop_session`: the session is to be rebuilt.
    Finish { reply: Reply, ok: bool, unactionable: bool, drop_session: bool },
    /// The event does not fit; nothing changed.
    Ignored,
}

/// The content of a [`BatchEvent`].
pub enum EventView {
    Gate { drivable: bool, in_time: bool },
    Acted(Option<WdaControlOutcome>),
    Slept(bool),
    Tree { rows: Seq<ElementRow>, in_time: bool },
    ReadFailed { error: Seq<char>, in_time: bool },
    ReadTimedOut,
    Polled,
}

impl View for BatchEvent {
    type V = EventView;

    open spec fn view(&self) -> EventView {
        match *self {
            BatchEvent::Gate { drivable, in_time } => EventView::Gate { drivable, in_time },
            BatchEvent::Acted(outcome) => EventView::Acted(outcome),
            BatchEvent::Slept(done) => EventView::Slept(done),
            BatchEvent::Tree { rows, in_time } => EventView::Tree { rows: rows@, in_time },
            BatchEvent::ReadFailed { error, in_time } => EventView::ReadFailed {
                error: error@,
                in_time,
            },
            BatchEvent::ReadTimedOut => EventView::ReadTimedOut,
            BatchEvent::Polled => EventView::Polled,
        }
    }
}

/// The content of a [`BatchCommand`].
pub enum CommandView {
    CheckGate,
    Act { step: nat },
    Sleep { ms: u64 },
    StartWait { timeout_ms: u64 },
    Read,
    Poll { ms: u64 },
    Finish { reply: ReplyView, ok: bool, unactionable: bool, drop_session: bool },
    Ignored,
}

impl View for BatchCommand {
    type V = CommandView;

    open spec fn view(&self) -> CommandView {
        match *self {
            BatchCommand::CheckGate => CommandView::CheckGate,
            BatchCommand::Act { step } => CommandView::Act { step: step as nat },
            BatchCommand::Sleep { ms } => CommandView::Sleep { ms },
            BatchCommand::StartWait { timeout_ms } => CommandView::StartWait { timeout_ms },
            BatchCommand::Read => CommandView::Read,
            BatchCommand::Poll { ms } => CommandView::Poll { ms },
            BatchCommand::Finish { reply, ok, unactionable, drop_session } => CommandView::Finish {
                reply: reply@,
                ok,
                unactionable,
                drop_session,
            },
            BatchCommand::Ignored => CommandView::Ignored,
        }
    }
}

/// A failure: what went wrong, what is known of its effect, and what it shows.
pub struct FailureView {
    pub status: u16,
    pub error: Seq<char>,
    pub outcome: Seq<char>,
    pub retry_safe: bool,
    pub observation: Option<Seq<char>>,
}

pub open spec fn opt_field(name: Seq<char>, value: Option<Seq<char>>) -> Seq<
    (Seq<char>, Seq<char>),
> {
    match value {
        Some(value) => seq![(name, value)],
        None => Seq::empty(),
    }
}

/// The fields of a failed batch's answer.
pub open spec fn failure_fields(
    index: nat,
    applied: nat,
    results: Seq<Seq<char>>,
    f: FailureView,
) -> Seq<(Seq<char>, Seq<char>)> {
    seq![
        ("applied_actions"@, decimal(applied)),
        ("completed"@, decimal(index)),
        ("error"@, json_string_text(f.error)),
        ("failed_step"@, decimal(index)),
    ] + opt_field("observation"@, f.observation) + seq![
        ("ok"@, bool_text(false)),
        ("outcome"@, json_string_text(f.outcome)),
        ("retry_safe"@, bool_text(f.retry_safe)),
        ("steps"@, array_text(results)),
    ]
}

/// The answer of a failed batch. Every failure goes through here, so none of
/// them can leave out the fields that callers rely on.
pub open spec fn failure_reply(
    index: nat,
    applied: nat,
    results: Seq<Seq<char>>,
    f: FailureView,
) -> ReplyView {
    json_reply(f.status, object_text(failure_fields(index, applied, results, f)))
}

pub fn agent_actions_failure(
    status: u16,
    index: usize,
    applied: usize,
    error: &str,
    outcome: &str,
    retry_safe: bool,
    results: &Vec<String>,
    observation: Option<&str>,
) -> (reply: Reply)
    ensures
        reply@ == failure_reply(
            index as nat,
            applied as nat,
            texts(results@),
            (FailureView {
                status,
                error: error@,
                outcome: outcome@,
                retry_safe,
                observation: opt_str(observation),
            }),
        ),
{
    let steps = array_of(results);
    let body = ObjectText::new().count("applied_actions", applied as u64).count(
        "completed",
        index as u64,
    ).text("error", error).count("failed_step", index as u64);
    let body = match observation {
        Some(observation) => body.raw("observation", observation),
        None => body,
    };
    let body = body.flag("ok", false).text("outcome", outcome).flag("retry_safe", retry_safe).raw(
        "steps",
        steps.as_str(),
    );
    let ghost f = FailureView {
        status,
        error: error@,
        outcome: outcome@,
        retry_safe,
        observation: opt_str(observation),
    };
    assert(body.fields() =~= failure_fields(index as nat, applied as nat, texts(results@), f));
    Reply::json(status, body.finish())
}

/// The fields of a completed batch's answer.
pub open spec fn success_fields(completed: nat, applied: nat, results: Seq<Seq<char>>) -> Seq<
    (Seq<char>, Seq<char>),
> {
    seq![
        ("applied_actions"@, decimal(applied)),
        ("completed"@, decimal(completed)),
        ("ok"@, bool_text(true)),
        ("steps"@, array_text(results)),
    ]
}

/// The result of a completed action or pause.
pub open spec fn simple_result(index: nat, kind: Seq<char>) -> Seq<char> {
    object_text(
        seq![
            ("index"@, decimal(index)),
            ("kind"@, json_string_text(kind)),
            ("ok"@, bool_text(true)),
        ],
    )
}

/// The result of a wait that was met.
pub open spec fn wait_result(index: nat, attempts: u64, o: ObservationView) -> Seq<char> {
    object_text(
        seq![
            ("attempts"@, decimal(attempts as nat)),
            ("index"@, decimal(index)),
            ("kind"@, json_string_text("wait_for"@)),
            ("observation"@, object_text(observation_fields(o))),
            ("ok"@, bool_text(true)),
        ],
    )
}

fn simple_result_text(index: usize, kind: &str) -> (text: String)
    ensures
        text@ == simple_result(index as nat, kind@),
{
    let body = ObjectText::new().count("index", index as u64).text("kind", kind).flag("ok", true);
    assert(body.fields() =~= seq![
        ("index"@, decimal(index as nat)),
        ("kind"@, json_string_text(kind@)),
        ("ok"@, bool_text(true)),
    ]);
    body.finish()
}

fn wait_result_text(index: usize, attempts: u64, o: &Observation) -> (text: String)
    ensures
        text@ == wait_result(index as nat, attempts, o@),
{
    let seen = observation_text(o);
    let body = ObjectText::new().count("attempts", attempts).count("index", index as u64).text(
        "kind",
        "wait_for",
    ).raw("observation", seen.as_str()).flag("ok", true);
    assert(body.fields() =~= seq![
        ("attempts"@, decimal(attempts as nat)),
        ("index"@, decimal(index as nat)),
        ("kind"@, json_string_text("wait_for"@)),
        ("observation"@, object_text(observation_fields(o@))),
        ("ok"@, bool_text(true)),
    ]);
    body.finish()
}

/// The step is completed with this result: on to the next one, or to the answer.
pub open spec fn step_done(b: BatchView, applied: nat, result: Seq<char>) -> (
    BatchView,
    CommandView,
) {
    let results = b.results.push(result);
    let index = b.index + 1;
    if index == b.steps.len() {
        (
            BatchView { steps: b.steps, index, applied, results, phase: PhaseView::Over },
            CommandView::Finish {
                reply: json_reply(200, object_text(success_fields(index, applied, results))),
                ok: true,
                unactionable: false,
                drop_session: false,
            },
        )
    } else {
        (
            BatchView { steps: b.steps, index, applied, results, phase: PhaseView::Gate },
            CommandView::CheckGate,
        )
    }
}

/// The batch ends here with a failure.
pub open spec fn step_failed(
    b: BatchView,
    applied: nat,
    f: FailureView,
    unactionable: bool,
    drop_session: bool,
) -> (BatchView, CommandView) {
    (
        BatchView {
            steps: b.steps,
            index: b.index,
            applied,
            results: b.results,
            phase: PhaseView::Over,
        },
        CommandView::Finish {
            reply: failure_reply(b.index, applied, b.results, f),
            ok: false,
            unactionable,
            drop_session,
        },
    )
}

pub open spec fn in_phase(b: BatchView, phase: PhaseView) -> BatchView {
    BatchView { steps: b.steps, index: b.index, applied: b.applied, results: b.results, phase }
}

/// A failure without an observation; it may be retried where nothing at all was
/// applied.
pub open spec fn plain_failure(
    b: BatchView,
    status: u16,
    error: Seq<char>,
    outcome: Seq<char>,
    step_retry_safe: bool,
) -> FailureView {
    FailureView {
        status,
        error,
        outcome,
        retry_safe: step_retry_safe && b.applied == 0,
        observation: None,
    }
}

pub open spec fn wait_failure(
    b: BatchView,
    status: u16,
    error: Seq<char>,
    log: WaitView,
    last_read_failed: bool,
    read_error: Option<Seq<char>>,
) -> FailureView {
    FailureView {
        status,
        error,
        outcome: "not_sent"@,
        retry_safe: b.applied == 0,
        observation: Some(
            object_text(
                wait_fields(log.last, log.attempts, log.reads, last_read_failed, read_error),
            ),
        ),
    }
}

/// One more than a count that cannot grow beyond its type.
pub open spec fn one_more(n: u64) -> u64 {
    if n < u64::MAX {
        (n + 1) as u64
    } else {
        n
    }
}

/// What the timeout of a read is reported as.
pub open spec fn read_timeout_text(last_error: Option<Seq<char>>) -> Seq<char> {
    match last_error {
        Some(error) => "element read timed out inside the wait window; last read error: "@ + error,
        None => "element read timed out inside the wait window"@,
    }
}

pub open spec fn gate_next(b: BatchView, drivable: bool, in_time: bool) -> (BatchView, CommandView) {
    if !drivable {
        step_failed(
            b,
            b.applied,
            plain_failure(b, 503, "device_transition_in_progress"@, "not_sent"@, true),
            false,
            false,
        )
    } else if !in_time {
        step_failed(
            b,
            b.applied,
            plain_failure(b, 504, "batch_deadline"@, "not_sent"@, true),
            false,
            false,
        )
    } else {
        match b.steps[b.index as int] {
            StepView::Action { .. } => (
                in_phase(b, PhaseView::Acting),
                CommandView::Act { step: b.index },
            ),
            StepView::Pause { ms } => (
                in_phase(b, PhaseView::Pausing),
                CommandView::Sleep { ms },
            ),
            StepView::WaitFor { timeout_ms, .. } => (
                in_phase(
                    b,
                    PhaseView::Waiting(
                        WaitView { attempts: 0, reads: 0, last: None, last_error: None },
                    ),
                ),
                CommandView::StartWait { timeout_ms },
            ),
        }
    }
}

pub open spec fn acted_next(b: BatchView, outcome: Option<WdaControlOutcome>) -> (
    BatchView,
    CommandView,
) {
    match outcome {
        None => step_failed(
            b,
            b.applied,
            plain_failure(b, 504, "outcome_unknown"@, "unknown"@, false),
            true,
            false,
        ),
        Some(outcome) => match batch_report(outcome) {
            Some((status, error, name, retry_safe)) => step_failed(
                b,
                b.applied,
                plain_failure(b, status, error, name, retry_safe),
                outcome == WdaControlOutcome::Failed || outcome == WdaControlOutcome::NotSent,
                false,
            ),
            None => {
                let after_ms = b.steps[b.index as int]->after_ms;
                if after_ms > 0 {
                    (
                        BatchView {
                            steps: b.steps,
                            index: b.index,
                            applied: b.applied + 1,
                            results: b.results,
                            phase: PhaseView::AfterAction,
                        },
                        CommandView::Sleep { ms: after_ms },
                    )
                } else {
                    step_done(b, b.applied + 1, simple_result(b.index, "action"@))
                }
            },
        },
    }
}

pub open spec fn tree_next(b: BatchView, w: WaitView, rows: Seq<ElementRow>, in_time: bool) -> (
    BatchView,
    CommandView,
) {
    let step = b.steps[b.index as int];
    let seen = observe(rows, step->expect);
    let log = WaitView {
        attempts: one_more(w.attempts),
        reads: one_more(w.reads),
        last: Some(seen),
        last_error: w.last_error,
    };
    if observation_met(seen) {
        step_done(b, b.applied, wait_result(b.index, log.attempts, seen))
    } else if !in_time {
        step_failed(
            b,
            b.applied,
            wait_failure(b, 409, "expectation_timeout"@, log, false, log.last_error),
            false,
            false,
        )
    } else {
        (in_phase(b, PhaseView::Waiting(log)), CommandView::Poll { ms: step->poll_ms })
    }
}

pub open spec fn read_failed_next(
    b: BatchView,
    w: WaitView,
    error: Seq<char>,
    in_time: bool,
) -> (BatchView, CommandView) {
    let log = WaitView {
        attempts: one_more(w.attempts),
        reads: w.reads,
        last: w.last,
        last_error: Some(error),
    };
    if !in_time {
        step_failed(
            b,
            b.applied,
            wait_failure(b, 502, "wda_source_failed"@, log, true, Some(error)),
            true,
            false,
        )
    } else {
        (
            in_phase(b, PhaseView::Waiting(log)),
            CommandView::Poll { ms: b.steps[b.index as int]->poll_ms },
        )
    }
}

pub open spec fn read_timed_out_next(b: BatchView, w: WaitView) -> (BatchView, CommandView) {
    let log = WaitView {
        attempts: one_more(w.attempts),
        reads: w.reads,
        last: w.last,
        last_error: w.last_error,
    };
    step_failed(
        b,
        b.applied,
        wait_failure(
            b,
            409,
            "expectation_timeout"@,
            log,
            true,
            Some(read_timeout_text(w.last_error)),
        ),
        false,
        true,
    )
}

/// The batch after an event, and what to do next.
pub open spec fn batch_next(b: BatchView, e: EventView) -> (BatchView, CommandView) {
    match (b.phase, e) {
        (PhaseView::Gate, EventView::Gate { drivable, in_time }) => gate_next(
            b,
            drivable,
            in_time,
        ),
        (PhaseView::Acting, EventView::Acted(outcome)) => acted_next(b, outcome),
        (PhaseView::AfterAction, EventView::Slept(done)) => if done {
            step_done(b, b.applied, simple_result(b.index, "action"@))
        } else {
            step_failed(
                b,
                b.applied,
                plain_failure(b, 504, "batch_deadline_after_action"@, "applied"@, false),
                false,
                false,
            )
        },
        (PhaseView::Pausing, EventView::Slept(done)) => if done {
            step_done(b, b.applied, simple_result(b.index, "pause"@))
        } else {
            step_failed(
                b,
                b.applied,
                plain_failure(b, 504, "batch_deadline"@, "not_sent"@, true),
                false,
                false,
            )
        },
        (PhaseView::Waiting(w), EventView::Tree { rows, in_time }) => tree_next(
            b,
            w,
            rows,
            in_time,
        ),
        (PhaseView::Waiting(w), EventView::ReadFailed { error, in_time }) => read_failed_next(
            b,
            w,
            error,
            in_time,
        ),
        (PhaseView::Waiting(w), EventView::ReadTimedOut) => read_timed_out_next(b, w),
        (PhaseView::Waiting(_), EventView::Polled) => (b, CommandView::Read),
        _ => (b, CommandView::Ignored),
    }
}

fn success_reply(completed: usize, applied: usize, results: &Vec<String>) -> (reply: Reply)
    ensures
        reply@ == json_reply(
            200,
            object_text(success_fields(completed as nat, applied as nat, texts(results@))),
        ),
{
    let steps = array_of(results);
    let body = ObjectText::new().count("applied_actions", applied as u64).count(
        "completed",
        completed as u64,
    ).flag("ok", true).raw("steps", steps.as_str());
    assert(body.fields() =~= success_fields(completed as nat, applied as nat, texts(results@)));
    Reply::json(200, body.finish())
}

impl Batch {
    #[verifier::type_invariant]
    spec fn inv(&self) -> bool {
        batch_valid(self@)
    }

    /// A batch whose first step may start, where the steps are valid.
    pub fn new(steps: Vec<AgentActionStep>) -> (batch: Result<Batch, String>)
        ensures
            match batch {
                Ok(batch) => {
                    &&& batch_error(step_views(steps@)) is None
                    &&& batch@ == BatchView {
                        steps: step_views(steps@),
                        index: 0,
                        applied: 0,
                        results: Seq::empty(),
                        phase: PhaseView::Gate,
                    }
                    &&& batch_valid(batch@)
                },
                Err(error) => batch_error(step_views(steps@)) == Some(error@),
            },
    {
        match validate_agent_actions(&steps) {
            Err(error) => Err(error),
            Ok(()) => {
                let results: Vec<String> = Vec::new();
                assert(texts(results@) =~= Seq::empty());
                Ok(Batch { steps, index: 0, applied: 0, results, phase: Phase::Gate })
            },
        }
    }

    /// The action of a step.
    pub fn action(&self, step: usize) -> (action: Option<&crate::json::Json>)
        ensures
            match action {
                Some(action) => step < self@.steps.len() && self@.steps[step as int] is Action
                    && self@.steps[step as int]->action == action@,
                None => step < self@.steps.len() ==> !(self@.steps[step as int] is Action),
            },
    {
        if step < self.steps.len() {
            assert(self@.steps[step as int] == self.steps@[step as int]@);
            match &self.steps[step] {
                AgentActionStep::Action { action, .. } => Some(action),
                _ => None,
            }
        } else {
            None
        }
    }

    fn done(self, applied: usize, result: String) -> (next: (Batch, BatchCommand))
        requires
            self@.index < self@.steps.len(),
            applied == actions_before(self@.steps, self@.index + 1),
        ensures
            (next.0@, next.1@) == step_done(self@, applied as nat, result@),
    {
        proof {
            use_type_invariant(&self);
        }
        let ghost before = self@;
        let Batch { steps, index, results, .. } = self;
        let mut results = results;
        results.push(result);
        assert(texts(results@) =~= before.results.push(result@));
        let total: usize = steps.len();
        assert(before.steps.len() == total);
        let index: usize = index + 1;
        if index == total {
            let reply = success_reply(index, applied, &results);
            (
                Batch { steps, index, applied, results, phase: Phase::Over },
                BatchCommand::Finish { reply, ok: true, unactionable: false, drop_session: false },
            )
        } else {
            (
                Batch { steps, index, applied, results, phase: Phase::Gate },
                BatchCommand::CheckGate,
            )
        }
    }

    fn fail(
        self,
        status: u16,
        error: &str,
        outcome: &str,
        retry_safe: bool,
        observation: Option<&str>,
        unactionable: bool,
        drop_session: bool,
    ) -> (next: (Batch, BatchCommand))
        ensures
            (next.0@, next.1@) == step_failed(
                self@,
                self@.applied,
                (FailureView {
                    status,
                    error: error@,
                    outcome: outcome@,
                    retry_safe,
                    observation: opt_str(observation),
                }),
                unactionable,
                drop_session,
            ),
    {
        proof {
            use_type_invariant(&self);
        }
        let Batch { steps, index, applied, results, .. } = self;
        let reply = agent_actions_failure(
            status,
            index,
            applied,
            error,
            outcome,
            retry_safe,
            &results,
            observation,
        );
        (
            Batch { steps, index, applied, results, phase: Phase::Over },
            BatchCommand::Finish { reply, ok: false, unactionable, drop_session },
        )
    }

    fn gate(self, drivable: bool, in_time: bool) -> (next: (Batch, BatchCommand))
        requires
            self@.phase is Gate,
        ensures
            (next.0@, next.1@) == gate_next(self@, drivable, in_time),
    {
        proof {
            use_type_invariant(&self);
        }
        let untouched = self.applied == 0;
        if !drivable {
            return self.fail(
                503,
                "device_transition_in_progress",
                "not_sent",
                untouched,
                None,
                false,
                false,
            );
        }
        if !in_time {
            return self.fail(504, "batch_deadline", "not_sent", untouched, None, false, false);
        }
        let ghost before = self@;
        let Batch { steps, index, applied, results, .. } = self;
        assert(before.steps[index as int] == steps@[index as int]@);
        let (phase, command) = match &steps[index] {
            AgentActionStep::Action { .. } => (Phase::Acting, BatchCommand::Act { step: index }),
            AgentActionStep::Pause { ms } => (Phase::Pausing, BatchCommand::Sleep { ms: *ms }),
            AgentActionStep::WaitFor { timeout_ms, .. } => (
                Phase::Waiting(WaitLog { attempts: 0, reads: 0, last: None, last_error: None }),
                BatchCommand::StartWait { timeout_ms: *timeout_ms },
            ),
        };
        (Batch { steps, index, applied, results, phase }, command)
    }

    fn acted(self, outcome: Option<WdaControlOutcome>) -> (next: (Batch, BatchCommand))
        requires
            self@.phase is Acting,
        ensures
            (next.0@, next.1@) == acted_next(self@, outcome),
    {
        proof {
            use_type_invariant(&self);
        }
        let untouched = self.applied == 0;
        let outcome = match outcome {
            None => {
                return self.fail(504, "outcome_unknown", "unknown", false, None, true, false);
            },
            Some(outcome) => outcome,
        };
        if let Some(report) = outcome.batch_report() {
            return self.fail(
                report.status,
                report.error,
                report.outcome,
                report.retry_safe && untouched,
                None,
                outcome.breaks_read_path(),
                false,
            );
        }
        let total: usize = self.steps.len();
        assert(self@.steps.len() == total);
        proof {
            lemma_actions_before(self@.steps, self@.index);
        }
        let applied: usize = self.applied + 1;
        let index: usize = self.index;
        assert(self@.steps[index as int] == self.steps@[index as int]@);
        let after_ms: u64 = match &self.steps[index] {
            AgentActionStep::Action { after_ms, .. } => *after_ms,
            _ => 0,
        };
        if after_ms > 0 {
            let Batch { steps, index, results, .. } = self;
            (
                Batch { steps, index, applied, results, phase: Phase::AfterAction },
                BatchCommand::Sleep { ms: after_ms },
            )
        } else {
            let result = simple_result_text(index, "action");
            self.done(applied, result)
        }
    }

    fn tree(self, rows: Vec<ElementRow>, in_time: bool) -> (next: (Batch, BatchCommand))
        requires
            self@.phase is Waiting,
        ensures
            (next.0@, next.1@) == tree_next(self@, self@.phase->Waiting_0, rows@, in_time),
    {
        proof {
            use_type_invariant(&self);
        }
        let ghost before = self@;
        let Batch { steps, index, applied, results, phase } = self;
        assert(before.steps[index as int] == steps@[index as int]@);
        let log = match phase {
            Phase::Waiting(log) => log,
            _ => WaitLog { attempts: 0, reads: 0, last: None, last_error: None },
        };
        let ghost w = log@;
        let attempts: u64 = log.attempts.saturating_add(1);
        let reads: u64 = log.reads.saturating_add(1);
        let (met, seen, poll_ms) = match &steps[index] {
            AgentActionStep::WaitFor { expect, poll_ms, .. } => {
                let (met, seen) = agent_expectation_observation(&rows, expect);
                (met, seen, *poll_ms)
            },
            _ => {
                assert(false);
                return (
                    Batch { steps, index, applied, results, phase: Phase::Over },
                    BatchCommand::Ignored,
                );
            },
        };
        if met {
            let result = wait_result_text(index, attempts, &seen);
            proof {
                lemma_actions_before(before.steps, before.index);
            }
            let batch = Batch { steps, index, applied, results, phase: Phase::Gate };
            return batch.done(applied, result);
        }
        let untouched = applied == 0;
        let last_error = log.last_error;
        let last = Some(seen);
        if !in_time {
            let error = match &last_error {
                Some(e) => Some(e.as_str()),
                None => None,
            };
            let observation = agent_wait_observation(&last, attempts, reads, false, error);
            let batch = Batch { steps, index, applied, results, phase: Phase::Gate };
            return batch.fail(
                409,
                "expectation_timeout",
                "not_sent",
                untouched,
                Some(observation.as_str()),
                false,
                false,
            );
        }
        (
            Batch {
                steps,
                index,
                applied,
                results,
                phase: Phase::Waiting(WaitLog { attempts, reads, last, last_error }),
            },
            BatchCommand::Poll { ms: poll_ms },
        )
    }

    fn read_failed(self, error: String, in_time: bool) -> (next: (Batch, BatchCommand))
        requires
            self@.phase is Waiting,
        ensures
            (next.0@, next.1@) == read_failed_next(
                self@,
                self@.phase->Waiting_0,
                error@,
                in_time,
            ),
    {
        proof {
            use_type_invariant(&self);
        }
        let ghost before = self@;
        let Batch { steps, index, applied, results, phase } = self;
        assert(before.steps[index as int] == steps@[index as int]@);
        let log = match phase {
            Phase::Waiting(log) => log,
            _ => WaitLog { attempts: 0, reads: 0, last: None, last_error: None },
        };
        let attempts: u64 = log.attempts.saturating_add(1);
        let reads: u64 = log.reads;
        let last = log.last;
        let untouched = applied == 0;
        if !in_time {
            let observation = agent_wait_observation(
                &last,
                attempts,
                reads,
                true,
                Some(error.as_str()),
            );
            let batch = Batch { steps, index, applied, results, phase: Phase::Gate };
            return batch.fail(
                502,
                "wda_source_failed",
                "not_sent",
                untouched,
                Some(observation.as_str()),
                true,
                false,
            );
        }
        let poll_ms: u64 = match &steps[index] {
            AgentActionStep::WaitFor { poll_ms, .. } => *poll_ms,
            _ => 0,
        };
        (
            Batch {
                steps,
                index,
                applied,
                results,
                phase: Phase::Waiting(WaitLog { attempts, reads, last, last_error: Some(error) }),
            },
            BatchCommand::Poll { ms: poll_ms },
        )
    }

    fn read_timed_out(self) -> (next: (Batch, BatchCommand))
        requires
            self@.phase is Waiting,
        ensures
            (next.0@, next.1@) == read_timed_out_next(self@, self@.phase->Waiting_0),
    {
        proof {
            use_type_invariant(&self);
        }
        let Batch { steps, index, applied, results, phase } = self;
        let log = match phase {
            Phase::Waiting(log) => log,
            _ => WaitLog { attempts: 0, reads: 0, last: None, last_error: None },
        };
        let attempts: u64 = log.attempts.saturating_add(1);
        let error = match &log.last_error {
            Some(error) => join2(
                "element read timed out inside the wait window; last read error: ",
                error.as_str(),
            ),
            None => "element read timed out inside the wait window".to_owned(),
        };
        let observation = agent_wait_observation(
            &log.last,
            attempts,
            log.reads,
            true,
            Some(error.as_str()),
        );
        let untouched = applied == 0;
        let batch = Batch { steps, index, applied, results, phase: Phase::Gate };
        batch.fail(
            409,
            "expectation_timeout",
            "not_sent",
            untouched,
            Some(observation.as_str()),
            false,
            true,
        )
    }

    /// The batch after an event, and what to do next.
    pub fn advance(self, event: BatchEvent) -> (next: (Batch, BatchCommand))
        ensures
            (next.0@, next.1@) == batch_next(self@, event@),
            batch_valid(self@),
            batch_valid(next.0@),
    {
        proof {
            use_type_invariant(&self);
        }
        let next = match (&self.phase, event) {
            (Phase::Gate, BatchEvent::Gate { drivable, in_time }) => self.gate(drivable, in_time),
            (Phase::Acting, BatchEvent::Acted(outcome)) => self.acted(outcome),
            (Phase::AfterAction, BatchEvent::Slept(done)) => {
                if done {
                    let result = simple_result_text(self.index, "action");
                    let applied: usize = self.applied;
                    self.done(applied, result)
                } else {
                    self.fail(
                        504,
                        "batch_deadline_after_action",
                        "applied",
                        false,
                        None,
                        false,
                        false,
                    )
                }
            },
            (Phase::Pausing, BatchEvent::Slept(done)) => {
                let untouched = self.applied == 0;
                if done {
                    let result = simple_result_text(self.index, "pause");
                    proof {
                        lemma_actions_before(self@.steps, self@.index);
                    }
                    let applied: usize = self.applied;
                    self.done(applied, result)
                } else {
                    self.fail(504, "batch_deadline", "not_sent", untouched, None, false, false)
                }
            },
            (Phase::Waiting(_), BatchEvent::Tree { rows, in_time }) => self.tree(rows, in_time),
            (Phase::Waiting(_), BatchEvent::ReadFailed { error, in_time }) => self.read_failed(
                error,
                in_time,
            ),
            (Phase::Waiting(_), BatchEvent::ReadTimedOut) => self.read_timed_out(),
            (Phase::Waiting(_), BatchEvent::Polled) => (self, BatchCommand::Read),
            (_, _) => (self, BatchCommand::Ignored),
        };
        proof {
            use_type_invariant(&next.0);
        }
        next
    }
}

/// Looks whether the next step of a batch may start.
pub fn gate_event(state: &AppState, deadline: u64, now: u64) -> (event: BatchEvent)
    ensures
        event@ == (EventView::Gate {
            drivable: state@.lifecycle.phase == WdaLifecycleTransition::Active && !state@.released,
            in_time: now < deadline,
        }),
{
    BatchEvent::Gate {
        drivable: !state.lifecycle.is_transitioning() && !state.released,
        in_time: now < deadline,
    }
}

/// The end of a wait that starts now: its own time, and no later than the end of
/// the batch.
pub fn wait_until(timeout_ms: u64, deadline: u64, now: u64) -> (until: u64)
    ensures
        until == min_of(now + timeout_ms, deadline as int),
{
    if now < deadline && timeout_ms < deadline - now {
        now + timeout_ms
    } else {
        deadline
    }
}

/// What is known of the phone after a command of a batch: one that ran to its
/// end shows a runner that acts, and counts as activity; one whose read path
/// failed shows that none can act.
pub open spec fn batch_noted(state: AppView, command: CommandView, now: u64) -> AppView {
    match command {
        CommandView::Finish { ok, unactionable, .. } => AppView {
            last_activity: if ok {
                now
            } else {
                state.last_activity
            },
            health: WdaHealth {
                up: ok || state.health.up,
                actionable: (ok || state.health.actionable) && !unactionable,
                locked: state.health.locked,
            },
            actionable: state.actionable && !unactionable,
            ..state
        },
        _ => state,
    }
}

/// Keeps what a batch showed of the runner.
pub fn note_batch(state: &mut AppState, command: &BatchCommand, now: u64)
    ensures
        final(state)@ == batch_noted(old(state)@, command@, now),
{
    if let BatchCommand::Finish { ok, unactionable, .. } = command {
        if *ok {
            state.touch_activity(now);
            note_control_outcome(&mut state.health, WdaControlOutcome::Applied);
        }
        if *unactionable {
            mark_wda_read_path_unactionable(&mut state.health, &mut state.actionable);
        }
    }
}

/// Once any action of a batch is applied, no failure of it is called safe to
/// retry; and every failure is answered with the full evidence.
pub proof fn law_no_replay_once_an_action_applied(b: BatchView, e: EventView)
    requires
        batch_valid(b),
    ensures
        batch_next(b, e).1 matches CommandView::Finish { reply, ok: false, .. } ==> exists|
            f: FailureView,
        |
            reply == #[trigger] failure_reply(
                batch_next(b, e).0.index,
                batch_next(b, e).0.applied,
                batch_next(b, e).0.results,
                f,
            ) && (f.retry_safe ==> batch_next(b, e).0.applied == 0),
{
    let (n, c) = batch_next(b, e);
    if let CommandView::Finish { reply, ok: false, .. } = c {
        let f = match (b.phase, e) {
            (PhaseView::Gate, EventView::Gate { drivable, in_time }) => if !drivable {
                plain_failure(b, 503, "device_transition_in_progress"@, "not_sent"@, true)
            } else {
                plain_failure(b, 504, "batch_deadline"@, "not_sent"@, true)
            },
            (PhaseView::Acting, EventView::Acted(None)) => plain_failure(
                b,
                504,
                "outcome_unknown"@,
                "unknown"@,
                false,
            ),
            (PhaseView::Acting, EventView::Acted(Some(outcome))) => {
                let r = batch_report(outcome)->0;
                plain_failure(b, r.0, r.1, r.2, r.3)
            },
            (PhaseView::AfterAction, _) => plain_failure(
                b,
                504,
                "batch_deadline_after_action"@,
                "applied"@,
                false,
            ),
            (PhaseView::Pausing, _) => plain_failure(
                b,
                504,
                "batch_deadline"@,
                "not_sent"@,
                true,
            ),
            (PhaseView::Waiting(w), EventView::Tree { rows, .. }) => wait_failure(
                b,
                409,
                "expectation_timeout"@,
                WaitView {
                    attempts: one_more(w.attempts),
                    reads: one_more(w.reads),
                    last: Some(observe(rows, b.steps[b.index as int]->expect)),
                    last_error: w.last_error,
                },
                false,
                w.last_error,
            ),
            (PhaseView::Waiting(w), EventView::ReadFailed { error, .. }) => wait_failure(
                b,
                502,
                "wda_source_failed"@,
                WaitView {
                    attempts: one_more(w.attempts),
                    reads: w.reads,
                    last: w.last,
                    last_error: Some(error),
                },
                true,
                Some(error),
            ),
            (PhaseView::Waiting(w), _) => wait_failure(
                b,
                409,
                "expectation_timeout"@,
                WaitView {
                    attempts: one_more(w.attempts),
                    reads: w.reads,
                    last: w.last,
                    last_error: w.last_error,
                },
                true,
                Some(read_timeout_text(w.last_error)),
            ),
            _ => plain_failure(b, 0, Seq::empty(), Seq::empty(), false),
        };
        assert(reply == failure_reply(n.index, n.applied, n.results, f));
    }
}

/// The first step whose action could still be sent.
pub open spec fn unsent(b: BatchView) -> nat {
    if b.phase is Gate {
        b.index
    } else {
        b.index + 1
    }
}

/// The commands that a run of events leads to.
pub open spec fn commands(b: BatchView, events: Seq<EventView>) -> Seq<CommandView>
    decreases events.len(),
{
    if events.len() == 0 {
        Seq::empty()
    } else {
        let (n, c) = batch_next(b, events[0]);
        seq![c] + commands(n, events.skip(1))
    }
}

proof fn lemma_one_step_sends_only_the_next(b: BatchView, e: EventView)
    requires
        batch_valid(b),
    ensures
        batch_valid(batch_next(b, e).0),
        batch_next(b, e).0.steps == b.steps,
        unsent(batch_next(b, e).0) >= unsent(b),
        batch_next(b, e).1 matches CommandView::Act { step } ==> step == unsent(b) && unsent(
            batch_next(b, e).0,
        ) == step + 1,
{
    lemma_actions_before(b.steps, b.index);
}

proof fn lemma_commands_from(b: BatchView, events: Seq<EventView>)
    requires
        batch_valid(b),
    ensures
        forall|i: int|
            0 <= i < commands(b, events).len() ==> (
            #[trigger] commands(b, events)[i] matches CommandView::Act { step } ==> step >= unsent(
                b,
            )),
    decreases events.len(),
{
    if events.len() > 0 {
        let (n, c) = batch_next(b, events[0]);
        lemma_one_step_sends_only_the_next(b, events[0]);
        lemma_commands_from(n, events.skip(1));
        let all = commands(b, events);
        let rest = commands(n, events.skip(1));
        assert forall|i: int| 0 <= i < all.len() implies (
        #[trigger] all[i] matches CommandView::Act { step } ==> step >= unsent(b)) by {
            if i > 0 {
                assert(all[i] == rest[i - 1]);
            }
        }
    }
}

/// Whatever happens, the actions of a batch are sent in order and each of them
/// at most once.
pub proof fn law_each_action_is_sent_at_most_once(b: BatchView, events: Seq<EventView>)
    requires
        batch_valid(b),
    ensures
        forall|i: int, j: int|
            0 <= i < j < commands(b, events).len() && #[trigger] commands(b, events)[i] is Act
                && #[trigger] commands(b, events)[j] is Act ==> commands(b, events)[i]->step
                < commands(b, events)[j]->step,
    decreases events.len(),
{
    if events.len() > 0 {
        let (n, c) = batch_next(b, events[0]);
        lemma_one_step_sends_only_the_next(b, events[0]);
        lemma_commands_from(n, events.skip(1));
        law_each_action_is_sent_at_most_once(n, events.skip(1));
        let all = commands(b, events);
        let rest = commands(n, events.skip(1));
        assert forall|i: int, j: int|
            0 <= i < j < all.len() && #[trigger] all[i] is Act
                && #[trigger] all[j] is Act implies all[i]->step < all[j]->step by {
            assert(all[j] == rest[j - 1]);
            if i > 0 {
                assert(all[i] == rest[i - 1]);
            }
        }
    }
}

/// The count of applied actions that an answer tells is the number of actions
/// that were run: all those among the completed steps, and that of the failed
/// step where it was applied before the failure. A batch that ran to its end
/// applied every action that it was given.
pub proof fn law_every_action_run_is_counted(b: BatchView, e: EventView)
    requires
        batch_valid(b),
    ensures
        ({
            let (n, c) = batch_next(b, e);
            let behind = actions_before(b.steps, n.index);
            let here = n.index < b.steps.len() && b.steps[n.index as int] is Action;
            &&& n.steps == b.steps
            &&& n.applied == behind || (here && n.applied == behind + 1)
            &&& c matches CommandView::Finish { reply, ok: true, .. } ==> n.index == b.steps.len()
                && n.applied == behind && reply == json_reply(
                200,
                object_text(success_fields(b.steps.len(), behind, n.results)),
            )
        }),
{
    lemma_actions_before(b.steps, b.index);
    let n = batch_next(b, e).0;
    lemma_one_step_sends_only_the_next(b, e);
    lemma_actions_before(b.steps, n.index);
}

/// A batch that has answered does nothing more, whatever is reported to it.
pub proof fn law_a_finished_batch_stays_finished(b: BatchView, e: EventView)
    ensures
        batch_next(b, e).1 is Finish ==> batch_next(b, e).0.phase is Over,
        b.phase is Over ==> batch_next(b, e) == (b, CommandView::Ignored),
{
}

/// The step that is under way is completed: its result is put down after those
/// before it, and the batch goes on to the next step, or is answered as a whole
/// where that was the last.
pub open spec fn goes_on(b: BatchView, applied: nat, next: (BatchView, CommandView)) -> bool {
    &&& next.0.index == b.index + 1
    &&& next.0.applied == applied
    &&& next.0.steps == b.steps
    &&& next.0.results.len() == b.results.len() + 1
    &&& next.0.results.drop_last() == b.results
    &&& b.index + 1 < b.steps.len() ==> next.0.phase is Gate && next.1 is CheckGate
    &&& b.index + 1 == b.steps.len() ==> next.0.phase is Over && (next.1 matches
        CommandView::Finish { reply, ok: true, unactionable: false, drop_session: false }
        && reply.status == 200)
}

/// The batch ends here: answered with this status and these words, with all that
/// was completed and applied so far, and nothing more is done.
pub open spec fn ends_with(
    b: BatchView,
    next: (BatchView, CommandView),
    status: u16,
    error: Seq<char>,
    outcome: Seq<char>,
) -> bool {
    &&& next.0.phase is Over
    &&& next.0.index == b.index
    &&& next.0.results == b.results
    &&& next.0.applied == b.applied
    &&& next.1 matches CommandView::Finish { reply, ok: false, .. } && reply.status == status
        && exists|f: FailureView|
        reply == #[trigger] failure_reply(b.index, b.applied, b.results, f) && f.error == error
            && f.outcome == outcome && f.status == status
}

/// A step starts only on a phone that may be driven and in time, and what is done
/// is what the step says: its action is sent, its pause is slept, its wait is
/// begun. Else the batch ends as not sent.
pub proof fn law_a_step_does_what_it_says(b: BatchView, drivable: bool, in_time: bool)
    requires
        batch_valid(b),
        b.phase is Gate,
    ensures
        ({
            let next = batch_next(b, EventView::Gate { drivable, in_time });
            let step = b.steps[b.index as int];
            &&& !drivable ==> ends_with(
                b,
                next,
                503,
                "device_transition_in_progress"@,
                "not_sent"@,
            )
            &&& drivable && !in_time ==> ends_with(b, next, 504, "batch_deadline"@, "not_sent"@)
            &&& drivable && in_time ==> {
                &&& step is Action ==> next.1 == (CommandView::Act { step: b.index })
                &&& step matches StepView::Pause { ms } ==> next.1 == (CommandView::Sleep { ms })
                &&& step matches StepView::WaitFor { timeout_ms, .. } ==> next.1
                    == (CommandView::StartWait { timeout_ms })
                &&& next.0.index == b.index && next.0.applied == b.applied && next.0.results
                    == b.results
            }
        }),
{
    let next = batch_next(b, EventView::Gate { drivable, in_time });
    if !drivable {
        let f = plain_failure(b, 503, "device_transition_in_progress"@, "not_sent"@, true);
        assert(next.1->reply == failure_reply(b.index, b.applied, b.results, f));
    } else if !in_time {
        let f = plain_failure(b, 504, "batch_deadline"@, "not_sent"@, true);
        assert(next.1->reply == failure_reply(b.index, b.applied, b.results, f));
    }
}

/// An action that was applied is counted, given the time for its animation where
/// it asks for some, and then completes its step. One that was not ends the
/// batch with what became of it, and one that the deadline cut off ends it with
/// an unknown result.
pub proof fn law_an_action_goes_on_only_where_it_was_applied(
    b: BatchView,
    outcome: WdaControlOutcome,
    done: bool,
)
    requires
        batch_valid(b),
    ensures
        b.phase is Acting ==> {
            let next = batch_next(b, EventView::Acted(Some(outcome)));
            let late = batch_next(b, EventView::Acted(None));
            let after = b.steps[b.index as int]->after_ms;
            &&& ends_with(b, late, 504, "outcome_unknown"@, "unknown"@)
            &&& late.1->unactionable
            &&& outcome is Applied && after == 0 ==> goes_on(b, b.applied + 1, next)
            &&& outcome is Applied && after > 0 ==> next.1 == (CommandView::Sleep { ms: after })
                && next.0.applied == b.applied + 1 && next.0.index == b.index && next.0.results
                == b.results && next.0.phase is AfterAction
            &&& outcome !is Applied ==> {
                let r = batch_report(outcome)->0;
                &&& ends_with(b, next, r.0, r.1, r.2)
                &&& next.1->unactionable <==> outcome is Failed || outcome is NotSent
            }
        },
        b.phase is AfterAction && done ==> goes_on(
            b,
            b.applied,
            batch_next(b, EventView::Slept(done)),
        ),
        b.phase is AfterAction && !done ==> ends_with(
            b,
            batch_next(b, EventView::Slept(done)),
            504,
            "batch_deadline_after_action"@,
            "applied"@,
        ),
        b.phase is Pausing && done ==> goes_on(
            b,
            b.applied,
            batch_next(b, EventView::Slept(done)),
        ),
        b.phase is Pausing && !done ==> ends_with(
            b,
            batch_next(b, EventView::Slept(done)),
            504,
            "batch_deadline"@,
            "not_sent"@,
        ),
{
    assert forall|x: Seq<char>| #[trigger] b.results.push(x).drop_last() == b.results by {
        assert(b.results.push(x).drop_last() =~= b.results);
    }
    if b.phase is Acting {
        let late = batch_next(b, EventView::Acted(None));
        let f = plain_failure(b, 504, "outcome_unknown"@, "unknown"@, false);
        assert(late.1->reply == failure_reply(b.index, b.applied, b.results, f));
        if outcome !is Applied {
            let r = batch_report(outcome)->0;
            let next = batch_next(b, EventView::Acted(Some(outcome)));
            let f = plain_failure(b, r.0, r.1, r.2, r.3);
            assert(next.1->reply == failure_reply(b.index, b.applied, b.results, f));
        }
    }
    if b.phase is AfterAction && !done {
        let f = plain_failure(b, 504, "batch_deadline_after_action"@, "applied"@, false);
        assert(batch_next(b, EventView::Slept(done)).1->reply == failure_reply(
            b.index,
            b.applied,
            b.results,
            f,
        ));
    }
    if b.phase is Pausing && !done {
        let f = plain_failure(b, 504, "batch_deadline"@, "not_sent"@, true);
        assert(batch_next(b, EventView::Slept(done)).1->reply == failure_reply(
            b.index,
            b.applied,
            b.results,
            f,
        ));
    }
}

/// A wait goes on to the next step exactly where the tree that was read meets
/// what is expected; else it looks again while there is time, and ends the batch
/// when there is none: as not met after a read, as unreadable after a read that
/// failed.
pub proof fn law_a_wait_goes_on_only_where_it_is_met(
    b: BatchView,
    rows: Seq<ElementRow>,
    error: Seq<char>,
    in_time: bool,
)
    requires
        batch_valid(b),
        b.phase is Waiting,
    ensures
        ({
            let expect = b.steps[b.index as int]->expect;
            let poll = b.steps[b.index as int]->poll_ms;
            let read = batch_next(b, EventView::Tree { rows, in_time });
            let failed = batch_next(b, EventView::ReadFailed { error, in_time });
            let timed_out = batch_next(b, EventView::ReadTimedOut);
            &&& observation_met(observe(rows, expect)) ==> goes_on(b, b.applied, read)
            &&& !observation_met(observe(rows, expect)) && in_time ==> read.1
                == (CommandView::Poll { ms: poll }) && read.0.phase is Waiting && read.0.index
                == b.index && read.0.applied == b.applied
            &&& !observation_met(observe(rows, expect)) && !in_time ==> ends_with(
                b,
                read,
                409,
                "expectation_timeout"@,
                "not_sent"@,
            ) && !read.1->unactionable
            &&& in_time ==> failed.1 == (CommandView::Poll { ms: poll }) && failed.0.phase
                is Waiting && failed.0.index == b.index
            &&& !in_time ==> ends_with(b, failed, 502, "wda_source_failed"@, "not_sent"@)
                && failed.1->unactionable
            &&& ends_with(b, timed_out, 409, "expectation_timeout"@, "not_sent"@)
            &&& timed_out.1->drop_session
            &&& batch_next(b, EventView::Polled) == (b, CommandView::Read)
        }),
{
    assert forall|x: Seq<char>| #[trigger] b.results.push(x).drop_last() == b.results by {
        assert(b.results.push(x).drop_last() =~= b.results);
    }
    let w = b.phase->Waiting_0;
    let expect = b.steps[b.index as int]->expect;
    let seen = observe(rows, expect);
    if !observation_met(seen) && !in_time {
        let log = WaitView {
            attempts: one_more(w.attempts),
            reads: one_more(w.reads),
            last: Some(seen),
            last_error: w.last_error,
        };
        let f = wait_failure(b, 409, "expectation_timeout"@, log, false, log.last_error);
        assert(batch_next(b, EventView::Tree { rows, in_time }).1->reply == failure_reply(
            b.index,
            b.applied,
            b.results,
            f,
        ));
    }
    if !in_time {
        let log = WaitView {
            attempts: one_more(w.attempts),
            reads: w.reads,
            last: w.last,
            last_error: Some(error),
        };
        let f = wait_failure(b, 502, "wda_source_failed"@, log, true, Some(error));
        assert(batch_next(b, EventView::ReadFailed { error, in_time }).1->reply == failure_reply(
            b.index,
            b.applied,
            b.results,
            f,
        ));
    }
    let log = WaitView {
        attempts: one_more(w.attempts),
        reads: w.reads,
        last: w.last,
        last_error: w.last_error,
    };
    let f = wait_failure(
        b,
        409,
        "expectation_timeout"@,
        log,
        true,
        Some(read_timeout_text(w.last_error)),
    );
    assert(batch_next(b, EventView::ReadTimedOut).1->reply == failure_reply(
        b.index,
        b.applied,
        b.results,
        f,
    ));
}

/// The answer to a failed batch says how many steps were completed, which one
/// failed, how many actions were applied, what is known of the failed one, and
/// whether the batch may be sent again; and it has the results so far.
pub proof fn law_a_failed_batch_says_how_far_it_came(
    index: nat,
    applied: nat,
    results: Seq<Seq<char>>,
    f: FailureView,
)
    ensures
        failure_reply(index, applied, results, f).status == f.status,
        failure_reply(index, applied, results, f).body == object_text(
            failure_fields(index, applied, results, f),
        ),
        ({
            let all = failure_fields(index, applied, results, f);
            &&& all.contains(("applied_actions"@, decimal(applied)))
            &&& all.contains(("completed"@, decimal(index)))
            &&& all.contains(("failed_step"@, decimal(index)))
            &&& all.contains(("error"@, json_string_text(f.error)))
            &&& all.contains(("outcome"@, json_string_text(f.outcome)))
            &&& all.contains(("ok"@, "false"@))
            &&& f.retry_safe ==> all.contains(("retry_safe"@, "true"@))
            &&& !f.retry_safe ==> all.contains(("retry_safe"@, "false"@))
            &&& all.contains(("steps"@, array_text(results)))
            &&& f.observation matches Some(o) ==> all.contains(("observation"@, o))
            &&& all.len() == 8 + (if f.observation is Some {
                1int
            } else {
                0
            })
        }),
        ({
            let all = success_fields(index, applied, results);
            &&& all.contains(("applied_actions"@, decimal(applied)))
            &&& all.contains(("completed"@, decimal(index)))
            &&& all.contains(("ok"@, "true"@))
            &&& all.contains(("steps"@, array_text(results)))
        }),
{
    let all = failure_fields(index, applied, results, f);
    let o: int = if f.observation is Some {
        1
    } else {
        0
    };
    assert(all[0] == ("applied_actions"@, decimal(applied)));
    assert(all[1] == ("completed"@, decimal(index)));
    assert(all[2] == ("error"@, json_string_text(f.error)));
    assert(all[3] == ("failed_step"@, decimal(index)));
    if let Some(text) = f.observation {
        assert(all[4] == ("observation"@, text));
    }
    assert(all[4 + o] == ("ok"@, bool_text(false)));
    assert(all[5 + o] == ("outcome"@, json_string_text(f.outcome)));
    assert(all[6 + o] == ("retry_safe"@, bool_text(f.retry_safe)));
    assert(all[7 + o] == ("steps"@, array_text(results)));
    let done = success_fields(index, applied, results);
    assert(done[0] == ("applied_actions"@, decimal(applied)));
    assert(done[1] == ("completed"@, decimal(index)));
    assert(done[2] == ("ok"@, bool_text(true)));
    assert(done[3] == ("steps"@, array_text(results)));
}

/// What a failed wait shows is the last tree that it could read: which controls
/// were missing and which were there that should be gone, whether the tree was
/// too bare to tell, and that it is out of date where the latest read failed.
/// Where nothing was read, it says so and shows nothing.
pub proof fn law_a_failed_wait_shows_its_last_tree(
    last: Option<ObservationView>,
    attempts: u64,
    reads: u64,
    last_read_failed: bool,
    error: Option<Seq<char>>,
)
    ensures
        ({
            let all = wait_fields(last, attempts, reads, last_read_failed, error);
            &&& all.contains(("attempts"@, decimal(attempts as nat)))
            &&& all.contains(("reads"@, decimal(reads as nat)))
            &&& error matches Some(e) ==> all.contains(("read_error"@, json_string_text(e)))
            &&& last is None ==> all.contains(("read"@, "false"@))
            &&& last matches Some(o) ==> {
                &&& all.contains(("read"@, "true"@))
                &&& all.contains(
                    ("missing_present"@, array_text(index_items(o.missing_present))),
                )
                &&& all.contains(
                    ("violated_absent"@, array_text(index_items(o.violated_absent))),
                )
                &&& all.contains(
                    ("absent_unproven"@, array_text(index_items(o.absent_unproven))),
                )
                &&& all.contains(("application"@, opt_string_text(o.application)))
                &&& o.application_matches ==> all.contains(("application_matches"@, "true"@))
                &&& !o.application_matches ==> all.contains(("application_matches"@, "false"@))
                &&& o.sparse ==> all.contains(("sparse"@, "true"@))
                &&& !o.sparse ==> all.contains(("sparse"@, "false"@))
                &&& all.contains(("rows"@, decimal(o.rows)))
                &&& last_read_failed ==> all.contains(("stale"@, "true"@))
                &&& all.len() == 10 + (if error is Some {
                    1int
                } else {
                    0
                }) + (if last_read_failed {
                    1int
                } else {
                    0
                })
            }
        }),
{
    let all = wait_fields(last, attempts, reads, last_read_failed, error);
    let e: int = if error is Some {
        1
    } else {
        0
    };
    let t: int = if last_read_failed {
        1
    } else {
        0
    };
    match last {
        None => {
            assert(all[0] == ("attempts"@, decimal(attempts as nat)));
            assert(all[2] == ("read"@, bool_text(false)));
            if let Some(text) = error {
                assert(all[3] == ("read_error"@, json_string_text(text)));
            }
            assert(all[3 + e] == ("reads"@, decimal(reads as nat)));
        },
        Some(o) => {
            assert(all[0] == ("absent_unproven"@, array_text(index_items(o.absent_unproven))));
            assert(all[1] == ("application"@, opt_string_text(o.application)));
            assert(all[2] == ("application_matches"@, bool_text(o.application_matches)));
            assert(all[3] == ("attempts"@, decimal(attempts as nat)));
            assert(all[4] == ("missing_present"@, array_text(index_items(o.missing_present))));
            assert(all[5] == ("read"@, bool_text(true)));
            if let Some(text) = error {
                assert(all[6] == ("read_error"@, json_string_text(text)));
            }
            assert(all[6 + e] == ("reads"@, decimal(reads as nat)));
            assert(all[7 + e] == ("rows"@, decimal(o.rows)));
            assert(all[8 + e] == ("sparse"@, bool_text(o.sparse)));
            if last_read_failed {
                assert(all[9 + e] == ("stale"@, bool_text(true)));
            }
            assert(all[9 + e + t] == (
                "violated_absent"@,
                array_text(index_items(o.violated_absent)),
            ));
        },
    }
}

/// The result of a completed step names the step and what it was.
pub proof fn law_a_result_names_its_step(index: nat, kind: Seq<char>, o: ObservationView, n: u64)
    ensures
        simple_result(index, kind) == object_text(
            seq![
                ("index"@, decimal(index)),
                ("kind"@, json_string_text(kind)),
                ("ok"@, "true"@),
            ],
        ),
        wait_result(index, n, o) == object_text(
            seq![
                ("attempts"@, decimal(n as nat)),
                ("index"@, decimal(index)),
                ("kind"@, json_string_text("wait_for"@)),
                ("observation"@, object_text(observation_fields(o))),
                ("ok"@, "true"@),
            ],
        ),
        observation_fields(o).contains(
            ("missing_present"@, array_text(index_items(o.missing_present))),
        ),
        observation_fields(o).contains(
            ("violated_absent"@, array_text(index_items(o.violated_absent))),
        ),
        observation_fields(o).contains(("application"@, opt_string_text(o.application))),
        observation_fields(o).contains(("rows"@, decimal(o.rows))),
{
    let f = observation_fields(o);
    assert(f[1] == ("application"@, opt_string_text(o.application)));
    assert(f[3] == ("missing_present"@, array_text(index_items(o.missing_present))));
    assert(f[5] == ("rows"@, decimal(o.rows)));
    assert(f[7] == ("violated_absent"@, array_text(index_items(o.violated_absent))));
}

} // verus!
