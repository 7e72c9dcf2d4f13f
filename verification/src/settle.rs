//! Watching the screen come to rest after an action. What is seen here is
//! reported beside the action's result and never changes it.

use vstd::prelude::*;

use crate::element::ElementRow;
use crate::health::min_of;
use crate::locator::{settle_tree_is_sparse, sparse};
use crate::reply::{bool_text, json_string_text, object_text, opt_text, ObjectText};
use crate::run::opt_field;
use crate::text::{decimal, same_text};

verus! {

/// Why the watching ended.
#[derive(Clone, Copy, Debug, PartialEq, Eq, Structural)]
pub enum SettleReason {
    /// Two reads in a row gave the same tree, with something in it.
    Stable,
    /// The screen was still moving, or no time was allowed.
    BudgetExhausted,
    /// A read failed.
    ObservationFailed,
}

pub open spec fn reason_text(reason: SettleReason) -> Seq<char> {
    match reason {
        SettleReason::Stable => "stable"@,
        SettleReason::BudgetExhausted => "budget_exhausted"@,
        SettleReason::ObservationFailed => "observation_failed"@,
    }
}

impl SettleReason {
    pub fn as_str(self) -> (name: &'static str)
        ensures
            name@ == reason_text(self),
    {
        match self {
            SettleReason::Stable => "stable",
            SettleReason::BudgetExhausted => "budget_exhausted",
            SettleReason::ObservationFailed => "observation_failed",
        }
    }
}

/// What the watching saw.
#[derive(Debug)]
pub struct SettleReport {
    pub settled: bool,
    pub reason: SettleReason,
    pub waited_ms: u64,
    /// How many reads succeeded.
    pub captures: u32,
    pub budget_ms: u64,
    /// The tree had nothing to act on.
    pub sparse: bool,
    /// The tree is the last one that was read, but not a fresh one.
    pub stale: bool,
    pub error: Option<String>,
}

/// The content of a [`SettleReport`].
pub struct ReportView {
    pub settled: bool,
    pub reason: SettleReason,
    pub waited_ms: u64,
    pub captures: u32,
    pub budget_ms: u64,
    pub sparse: bool,
    pub stale: bool,
    pub error: Option<Seq<char>>,
}

impl View for SettleReport {
    type V = ReportView;

    open spec fn view(&self) -> ReportView {
        ReportView {
            settled: self.settled,
            reason: self.reason,
            waited_ms: self.waited_ms,
            captures: self.captures,
            budget_ms: self.budget_ms,
            sparse: self.sparse,
            stale: self.stale,
            error: opt_text(self.error),
        }
    }
}

pub open spec fn fresh_report(budget_ms: u64) -> ReportView {
    ReportView {
        settled: false,
        reason: SettleReason::BudgetExhausted,
        waited_ms: 0,
        captures: 0,
        budget_ms,
        sparse: false,
        stale: false,
        error: None,
    }
}

pub open spec fn opt_true(name: Seq<char>, set: bool) -> Seq<(Seq<char>, Seq<char>)> {
    if set {
        seq![(name, bool_text(true))]
    } else {
        Seq::empty()
    }
}

pub open spec fn report_fields(r: ReportView) -> Seq<(Seq<char>, Seq<char>)> {
    seq![
        ("budget_ms"@, decimal(r.budget_ms as nat)),
        ("captures"@, decimal(r.captures as nat)),
    ] + opt_field(
        "error"@,
        match r.error {
            Some(error) => Some(json_string_text(error)),
            None => None,
        },
    ) + seq![
        ("reason"@, json_string_text(reason_text(r.reason))),
        ("settled"@, bool_text(r.settled)),
    ] + opt_true("sparse"@, r.sparse) + opt_true("stale"@, r.stale) + seq![
        ("waited_ms"@, decimal(r.waited_ms as nat)),
    ]
}

impl SettleReport {
    pub fn new(budget_ms: u64) -> (report: SettleReport)
        ensures
            report@ == fresh_report(budget_ms),
    {
        SettleReport {
            settled: false,
            reason: SettleReason::BudgetExhausted,
            waited_ms: 0,
            captures: 0,
            budget_ms,
            sparse: false,
            stale: false,
            error: None,
        }
    }

    pub fn to_json(&self) -> (text: String)
        ensures
            text@ == object_text(report_fields(self@)),
    {
        let body = ObjectText::new().count("budget_ms", self.budget_ms).count(
            "captures",
            self.captures as u64,
        );
        let body = match &self.error {
            Some(error) => body.text("error", error.as_str()),
            None => body,
        };
        let body = body.text("reason", self.reason.as_str()).flag("settled", self.settled);
        let body = if self.sparse {
            body.flag("sparse", true)
        } else {
            body
        };
        let body = if self.stale {
            body.flag("stale", true)
        } else {
            body
        };
        let body = body.count("waited_ms", self.waited_ms);
        assert(body.fields() =~= report_fields(self@));
        body.finish()
    }
}

/// Where the watching stands.
#[derive(Clone, Copy, Debug, PartialEq, Eq, Structural)]
pub enum SettleStage {
    /// The first pause, before anything is read.
    Warming,
    FirstRead,
    /// Before the next pause.
    Deciding,
    Resting,
    Sampling,
    Over,
}

/// The watching of one screen.
#[derive(Debug)]
pub struct Settle {
    started: u64,
    deadline: u64,
    stage: SettleStage,
    report: SettleReport,
    held: Option<(String, Vec<ElementRow>)>,
}

/// The content of a [`Settle`].
pub struct SettleView {
    pub started: u64,
    pub deadline: u64,
    pub stage: SettleStage,
    pub report: ReportView,
    /// The last tree that was read: its token and its rows.
    pub held: Option<(Seq<char>, Seq<ElementRow>)>,
}

pub open spec fn held_view(held: Option<(String, Vec<ElementRow>)>) -> Option<
    (Seq<char>, Seq<ElementRow>),
> {
    match held {
        Some((token, rows)) => Some((token@, rows@)),
        None => None,
    }
}

impl View for Settle {
    type V = SettleView;

    closed spec fn view(&self) -> SettleView {
        SettleView {
            started: self.started,
            deadline: self.deadline,
            stage: self.stage,
            report: self.report@,
            held: held_view(self.held),
        }
    }
}

/// One read of the tree.
#[derive(Debug)]
pub enum SettleRead {
    Read { token: String, rows: Vec<ElementRow> },
    /// The time ran out during the read, which is no failure of the read.
    Deadline,
    Failed { error: String },
}

/// The content of a [`SettleRead`].
pub enum ReadView {
    Read { token: Seq<char>, rows: Seq<ElementRow> },
    Deadline,
    Failed { error: Seq<char> },
}

impl View for SettleRead {
    type V = ReadView;

    open spec fn view(&self) -> ReadView {
        match *self {
            SettleRead::Read { token, rows } => ReadView::Read { token: token@, rows: rows@ },
            SettleRead::Deadline => ReadView::Deadline,
            SettleRead::Failed { error } => ReadView::Failed { error: error@ },
        }
    }
}

/// What happened since the last step; `now` is milliseconds on one monotonic
/// clock.
#[derive(Debug)]
pub enum SettleEvent {
    Slept { now: u64 },
    Time { now: u64 },
    Tree { read: SettleRead, now: u64 },
}

/// The content of a [`SettleEvent`].
pub enum SettleEventView {
    Slept { now: u64 },
    Time { now: u64 },
    Tree { read: ReadView, now: u64 },
}

impl View for SettleEvent {
    type V = SettleEventView;

    open spec fn view(&self) -> SettleEventView {
        match *self {
            SettleEvent::Slept { now } => SettleEventView::Slept { now },
            SettleEvent::Time { now } => SettleEventView::Time { now },
            SettleEvent::Tree { read, now } => SettleEventView::Tree { read: read@, now },
        }
    }
}

/// What to do next.
#[derive(Clone, Copy, Debug, PartialEq, Eq, Structural)]
pub enum SettleStep {
    Sleep { ms: u64 },
    TakeTime,
    /// Read the tree, giving up at the deadline.
    Read,
    Finish,
    /// The event does not fit; nothing changed.
    Ignored,
}

/// The watching at its start, and the first thing to do. A budget of nothing
/// asks for no watching, which is no failure.
pub open spec fn settle_start(now: u64, budget_ms: u64) -> (SettleView, SettleStep) {
    (
        SettleView {
            started: now,
            deadline: (now + budget_ms) as u64,
            stage: if budget_ms == 0 {
                SettleStage::Over
            } else {
                SettleStage::Warming
            },
            report: fresh_report(budget_ms),
            held: None,
        },
        if budget_ms == 0 {
            SettleStep::Finish
        } else {
            SettleStep::Sleep { ms: min_of(150, budget_ms as int) as u64 }
        },
    )
}

pub open spec fn waited(s: SettleView, now: u64) -> u64 {
    if now >= s.started {
        (now - s.started) as u64
    } else {
        0
    }
}

pub open spec fn settle_at(s: SettleView, stage: SettleStage) -> SettleView {
    SettleView { stage, ..s }
}

/// The watching ends with this report.
pub open spec fn settle_over(s: SettleView, report: ReportView, now: u64) -> (
    SettleView,
    SettleStep,
) {
    (
        SettleView {
            stage: SettleStage::Over,
            report: ReportView { waited_ms: waited(s, now), ..report },
            ..s
        },
        SettleStep::Finish,
    )
}

pub open spec fn more_captures(n: u32) -> u32 {
    if n < u32::MAX {
        (n + 1) as u32
    } else {
        n
    }
}

pub open spec fn first_read_next(s: SettleView, read: ReadView, now: u64) -> (
    SettleView,
    SettleStep,
) {
    match read {
        ReadView::Read { token, rows } => (
            SettleView {
                stage: SettleStage::Deciding,
                report: ReportView { captures: 1, sparse: sparse(rows), ..s.report },
                held: Some((token, rows)),
                ..s
            },
            SettleStep::TakeTime,
        ),
        ReadView::Deadline => settle_over(s, s.report, now),
        ReadView::Failed { error } => settle_over(
            s,
            ReportView {
                reason: SettleReason::ObservationFailed,
                error: Some(error),
                ..s.report
            },
            now,
        ),
    }
}

/// Another read. Two equal trees with nothing in them mean that the screen
/// cannot be read, not that it has settled.
pub open spec fn sample_next(s: SettleView, read: ReadView, now: u64) -> (SettleView, SettleStep) {
    match read {
        ReadView::Read { token, rows } => {
            let stable = s.held matches Some((last, _)) && last == token;
            let report = ReportView {
                captures: more_captures(s.report.captures),
                sparse: sparse(rows),
                ..s.report
            };
            let next = SettleView { report, held: Some((token, rows)), ..s };
            if stable && !sparse(rows) {
                settle_over(
                    next,
                    ReportView { settled: true, reason: SettleReason::Stable, ..report },
                    now,
                )
            } else {
                (settle_at(next, SettleStage::Deciding), SettleStep::TakeTime)
            }
        },
        ReadView::Deadline => settle_over(s, ReportView { stale: true, ..s.report }, now),
        ReadView::Failed { error } => settle_over(
            s,
            ReportView {
                reason: SettleReason::ObservationFailed,
                error: Some(error),
                stale: true,
                ..s.report
            },
            now,
        ),
    }
}

/// The watching after an event, and what to do next.
pub open spec fn settle_next(s: SettleView, e: SettleEventView) -> (SettleView, SettleStep) {
    match (s.stage, e) {
        (SettleStage::Warming, SettleEventView::Slept { now }) => if now >= s.deadline {
            settle_over(s, s.report, now)
        } else {
            (settle_at(s, SettleStage::FirstRead), SettleStep::Read)
        },
        (SettleStage::FirstRead, SettleEventView::Tree { read, now }) => first_read_next(
            s,
            read,
            now,
        ),
        (SettleStage::Deciding, SettleEventView::Time { now }) => if now >= s.deadline {
            settle_over(s, s.report, now)
        } else {
            (
                settle_at(s, SettleStage::Resting),
                SettleStep::Sleep { ms: min_of(250, s.deadline - now) as u64 },
            )
        },
        (SettleStage::Resting, SettleEventView::Slept { now }) => if now >= s.deadline {
            settle_over(s, s.report, now)
        } else {
            (settle_at(s, SettleStage::Sampling), SettleStep::Read)
        },
        (SettleStage::Sampling, SettleEventView::Tree { read, now }) => sample_next(s, read, now),
        _ => (s, SettleStep::Ignored),
    }
}

impl Settle {
    /// Starts watching.
    pub fn start(now: u64, budget_ms: u64) -> (first: (Settle, SettleStep))
        requires
            now + budget_ms <= u64::MAX,
        ensures
            (first.0@, first.1) == settle_start(now, budget_ms),
    {
        let report = SettleReport::new(budget_ms);
        let deadline: u64 = now + budget_ms;
        if budget_ms == 0 {
            return (
                Settle { started: now, deadline, stage: SettleStage::Over, report, held: None },
                SettleStep::Finish,
            );
        }
        let ms: u64 = if budget_ms > 150 {
            150
        } else {
            budget_ms
        };
        (
            Settle { started: now, deadline, stage: SettleStage::Warming, report, held: None },
            SettleStep::Sleep { ms },
        )
    }

    fn at(self, stage: SettleStage) -> (settle: Settle)
        ensures
            settle@ == settle_at(self@, stage),
    {
        Settle {
            started: self.started,
            deadline: self.deadline,
            stage,
            report: self.report,
            held: self.held,
        }
    }

    fn over(self, now: u64) -> (end: (Settle, SettleStep))
        ensures
            (end.0@, end.1) == settle_over(self@, self@.report, now),
    {
        let started: u64 = self.started;
        let waited_ms: u64 = if now >= started {
            now - started
        } else {
            0
        };
        let mut report = self.report;
        report.waited_ms = waited_ms;
        (
            Settle {
                started,
                deadline: self.deadline,
                stage: SettleStage::Over,
                report,
                held: self.held,
            },
            SettleStep::Finish,
        )
    }

    fn first_read(self, read: SettleRead, now: u64) -> (next: (Settle, SettleStep))
        ensures
            (next.0@, next.1) == first_read_next(self@, read@, now),
    {
        match read {
            SettleRead::Read { token, rows } => {
                let mut report = self.report;
                report.captures = 1;
                report.sparse = settle_tree_is_sparse(&rows);
                (
                    Settle {
                        started: self.started,
                        deadline: self.deadline,
                        stage: SettleStage::Deciding,
                        report,
                        held: Some((token, rows)),
                    },
                    SettleStep::TakeTime,
                )
            },
            SettleRead::Deadline => self.over(now),
            SettleRead::Failed { error } => {
                let mut report = self.report;
                report.reason = SettleReason::ObservationFailed;
                report.error = Some(error);
                let next = Settle {
                    started: self.started,
                    deadline: self.deadline,
                    stage: self.stage,
                    report,
                    held: self.held,
                };
                next.over(now)
            },
        }
    }

    fn sample(self, read: SettleRead, now: u64) -> (next: (Settle, SettleStep))
        ensures
            (next.0@, next.1) == sample_next(self@, read@, now),
    {
        match read {
            SettleRead::Read { token, rows } => {
                let stable = match &self.held {
                    Some((last, _)) => same_text(last.as_str(), token.as_str()),
                    None => false,
                };
                let bare = settle_tree_is_sparse(&rows);
                let mut report = self.report;
                report.captures = report.captures.saturating_add(1);
                report.sparse = bare;
                if stable && !bare {
                    report.settled = true;
                    report.reason = SettleReason::Stable;
                    let next = Settle {
                        started: self.started,
                        deadline: self.deadline,
                        stage: self.stage,
                        report,
                        held: Some((token, rows)),
                    };
                    return next.over(now);
                }
                (
                    Settle {
                        started: self.started,
                        deadline: self.deadline,
                        stage: SettleStage::Deciding,
                        report,
                        held: Some((token, rows)),
                    },
                    SettleStep::TakeTime,
                )
            },
            SettleRead::Deadline => {
                let mut report = self.report;
                report.stale = true;
                let next = Settle {
                    started: self.started,
                    deadline: self.deadline,
                    stage: self.stage,
                    report,
                    held: self.held,
                };
                next.over(now)
            },
            SettleRead::Failed { error } => {
                let mut report = self.report;
                report.reason = SettleReason::ObservationFailed;
                report.error = Some(error);
                report.stale = true;
                let next = Settle {
                    started: self.started,
                    deadline: self.deadline,
                    stage: self.stage,
                    report,
                    held: self.held,
                };
                next.over(now)
            },
        }
    }

    /// The watching after an event, and what to do next.
    pub fn settle_and_read_elements(self, event: SettleEvent) -> (next: (Settle, SettleStep))
        ensures
            (next.0@, next.1) == settle_next(self@, event@),
    {
        match (self.stage, event) {
            (SettleStage::Warming, SettleEvent::Slept { now }) => {
                if now >= self.deadline {
                    self.over(now)
                } else {
                    (self.at(SettleStage::FirstRead), SettleStep::Read)
                }
            },
            (SettleStage::FirstRead, SettleEvent::Tree { read, now }) => self.first_read(read, now),
            (SettleStage::Deciding, SettleEvent::Time { now }) => {
                if now >= self.deadline {
                    self.over(now)
                } else {
                    let remaining: u64 = self.deadline - now;
                    let ms: u64 = if remaining > 250 {
                        250
                    } else {
                        remaining
                    };
                    (self.at(SettleStage::Resting), SettleStep::Sleep { ms })
                }
            },
            (SettleStage::Resting, SettleEvent::Slept { now }) => {
                if now >= self.deadline {
                    self.over(now)
                } else {
                    (self.at(SettleStage::Sampling), SettleStep::Read)
                }
            },
            (SettleStage::Sampling, SettleEvent::Tree { read, now }) => self.sample(read, now),
            (_, _) => (self, SettleStep::Ignored),
        }
    }

    /// The last tree that was read, and the report.
    pub fn into_parts(self) -> (parts: (Option<(String, Vec<ElementRow>)>, SettleReport))
        ensures
            held_view(parts.0) == self@.held,
            parts.1@ == self@.report,
    {
        (self.held, self.report)
    }
}

/// What every report of a watching satisfies: settled means stable, fresh, and
/// with something to act on; a failure has its error; and a tree that was held
/// back is only there where one was read.
pub open spec fn settle_sound(s: SettleView) -> bool {
    let r = s.report;
    &&& r.settled == (r.reason == SettleReason::Stable)
    &&& r.settled ==> !r.sparse && !r.stale && r.error is None && s.stage == SettleStage::Over
    &&& r.error is Some == (r.reason == SettleReason::ObservationFailed)
    &&& s.stage != SettleStage::Over ==> !r.stale && r.error is None
    &&& s.held is Some == (r.captures > 0)
    &&& s.held matches Some((_, rows)) ==> r.sparse == sparse(rows)
    &&& s.stage == SettleStage::Warming || s.stage == SettleStage::FirstRead ==> r.captures == 0
}

/// A settled report is never sparse, stale or failed, at the start and after
/// everything that happens.
pub proof fn law_settled_is_never_sparse_or_stale(
    s: SettleView,
    e: SettleEventView,
    now: u64,
    budget_ms: u64,
)
    ensures
        settle_sound(settle_start(now, budget_ms).0),
        settle_sound(s) ==> settle_sound(settle_next(s, e).0),
        settle_sound(s) && s.report.settled ==> !s.report.sparse && !s.report.stale
            && s.report.error is None,
{
}

/// A watching reports a settled screen only on a read whose token is that of the
/// tree read just before, and only where that tree holds something besides
/// windows and pictures. A read with another token goes on, with the new tree in
/// hand.
pub proof fn law_settled_means_two_equal_reads(s: SettleView, e: SettleEventView)
    ensures
        !s.report.settled && settle_next(s, e).0.report.settled ==> {
            &&& e matches SettleEventView::Tree { read: ReadView::Read { token, rows }, .. }
            &&& s.held matches Some((last, _)) && last == token
            &&& settle_next(s, e).0.held == Some((token, rows))
            &&& exists|i: int|
                0 <= i < rows.len() && {
                    let kind = (#[trigger] rows[i]).kind@;
                    &&& kind != "Application"@
                    &&& kind != "Window"@
                    &&& kind != "Other"@
                    &&& kind != "Image"@
                }
            &&& settle_next(s, e).1 == SettleStep::Finish
        },
        e matches SettleEventView::Tree { read: ReadView::Read { token, rows }, .. } && s.held
            matches Some((last, _)) && last != token ==> {
            &&& settle_next(s, e).1 != SettleStep::Finish
            &&& settle_next(s, e).0.report.settled == s.report.settled
        },
{
    let kinds = crate::locator::container_kinds();
    assert(kinds[0] == "Application"@ && kinds[1] == "Window"@ && kinds[2] == "Other"@ && kinds[3]
        == "Image"@);
    if let SettleEventView::Tree { read: ReadView::Read { token, rows }, .. } = e {
        if !sparse(rows) {
            let i = choose|i: int|
                0 <= i < rows.len() && !kinds.contains((#[trigger] rows[i]).kind@);
            assert(rows[i].kind@ != "Application"@ && rows[i].kind@ != "Window"@ && rows[i].kind@
                != "Other"@ && rows[i].kind@ != "Image"@);
        }
    }
}

/// Two reads in a row that give the same tree, with something in it to act on,
/// end the watching as stable at once.
pub proof fn law_two_equal_reads_settle(
    s: SettleView,
    token: Seq<char>,
    rows: Seq<ElementRow>,
    i: int,
    now: u64,
)
    requires
        s.stage == SettleStage::Sampling,
        s.held matches Some((last, _)) && last == token,
        0 <= i < rows.len(),
        rows[i].kind@ != "Application"@,
        rows[i].kind@ != "Window"@,
        rows[i].kind@ != "Other"@,
        rows[i].kind@ != "Image"@,
        s.started <= now,
    ensures
        ({
            let (n, step) = settle_next(
                s,
                SettleEventView::Tree { read: ReadView::Read { token, rows }, now },
            );
            &&& step == SettleStep::Finish
            &&& n.report.settled
            &&& reason_text(n.report.reason) == "stable"@
            &&& n.report.waited_ms == now - s.started
            &&& !n.report.sparse
            &&& n.held == Some((token, rows))
        }),
{
    assert(!crate::locator::container_kinds().contains(rows[i].kind@));
}

/// Every read that succeeds is counted and kept in place of the one before.
pub proof fn law_every_read_is_kept_and_counted(
    s: SettleView,
    token: Seq<char>,
    rows: Seq<ElementRow>,
    now: u64,
)
    requires
        settle_sound(s),
        s.stage == SettleStage::FirstRead || s.stage == SettleStage::Sampling,
        s.report.captures < u32::MAX,
    ensures
        ({
            let n = settle_next(
                s,
                SettleEventView::Tree { read: ReadView::Read { token, rows }, now },
            ).0;
            &&& n.held == Some((token, rows))
            &&& n.report.captures == s.report.captures + 1
            &&& n.report.error is None
            &&& !n.report.stale
            &&& n.report.budget_ms == s.report.budget_ms
            &&& n.started == s.started && n.deadline == s.deadline
        }),
        s.stage == SettleStage::FirstRead ==> settle_next(
            s,
            SettleEventView::Tree { read: ReadView::Read { token, rows }, now },
        ).1 != SettleStep::Finish,
{
}

/// A read that fails ends the watching as a failed observation, with the error;
/// one that the time ran out on ends it as out of budget, which is no failure.
/// Either way the tree read before, if any, is handed on as no longer fresh.
pub proof fn law_an_unfinished_read_ends_the_watching(
    s: SettleView,
    error: Seq<char>,
    now: u64,
)
    requires
        settle_sound(s),
        s.stage == SettleStage::FirstRead || (s.stage == SettleStage::Sampling && s.held is Some),
    ensures
        ({
            let (n, step) = settle_next(
                s,
                SettleEventView::Tree { read: ReadView::Failed { error }, now },
            );
            &&& step == SettleStep::Finish
            &&& !n.report.settled
            &&& reason_text(n.report.reason) == "observation_failed"@
            &&& n.report.error == Some(error)
            &&& n.report.stale == (s.held is Some)
            &&& n.held == s.held
            &&& n.report.captures == s.report.captures
        }),
        ({
            let (n, step) = settle_next(s, SettleEventView::Tree { read: ReadView::Deadline, now });
            &&& step == SettleStep::Finish
            &&& !n.report.settled
            &&& reason_text(n.report.reason) == "budget_exhausted"@
            &&& n.report.error is None
            &&& n.report.stale == (s.held is Some)
            &&& n.held == s.held
        }),
{
}

/// The watching keeps to its budget: it ends as out of budget once that is used
/// up, goes on as long as it is not, and no pause of it reaches past the end. The
/// first pause is a tenth and a half of a second and the later ones a quarter,
/// where there is time for that.
pub proof fn law_the_watching_keeps_to_its_budget(
    s: SettleView,
    now: u64,
    start: u64,
    budget_ms: u64,
)
    requires
        settle_sound(s),
        start + budget_ms <= u64::MAX,
    ensures
        s.stage == SettleStage::Warming || s.stage == SettleStage::Resting ==> {
            let (n, step) = settle_next(s, SettleEventView::Slept { now });
            if now >= s.deadline {
                &&& step == SettleStep::Finish
                &&& !n.report.settled
                &&& reason_text(n.report.reason) == "budget_exhausted"@
                &&& n.held == s.held
            } else {
                step == SettleStep::Read
            }
        },
        s.stage == SettleStage::Deciding ==> {
            let (n, step) = settle_next(s, SettleEventView::Time { now });
            if now >= s.deadline {
                &&& step == SettleStep::Finish
                &&& !n.report.settled
                &&& reason_text(n.report.reason) == "budget_exhausted"@
                &&& n.held == s.held
            } else {
                &&& step matches SettleStep::Sleep { ms }
                &&& 0 < ms <= 250
                &&& now + ms <= s.deadline
                &&& ms == 250 || now + ms == s.deadline
            }
        },
        settle_start(start, budget_ms).0.deadline == start + budget_ms,
        settle_start(start, budget_ms).0.held is None,
        settle_start(start, budget_ms).0.report.budget_ms == budget_ms,
        budget_ms == 0 ==> settle_start(start, budget_ms).1 == SettleStep::Finish,
        budget_ms > 0 ==> {
            &&& settle_start(start, budget_ms).1 matches SettleStep::Sleep { ms }
            &&& 0 < ms <= budget_ms
            &&& ms == 150 || ms == budget_ms && ms < 150
        },
{
}

/// A report says what was seen: whether the screen settled and why the watching
/// ended, how long it took and how often it read, and that a tree is sparse or
/// stale exactly where it is.
pub proof fn law_a_report_says_what_was_seen(r: ReportView)
    ensures
        report_fields(r).contains(
            (
                "settled"@,
                if r.settled {
                    "true"@
                } else {
                    "false"@
                },
            ),
        ),
        r.reason == SettleReason::Stable ==> report_fields(r).contains(
            ("reason"@, json_string_text("stable"@)),
        ),
        r.reason == SettleReason::BudgetExhausted ==> report_fields(r).contains(
            ("reason"@, json_string_text("budget_exhausted"@)),
        ),
        r.reason == SettleReason::ObservationFailed ==> report_fields(r).contains(
            ("reason"@, json_string_text("observation_failed"@)),
        ),
        report_fields(r).contains(("waited_ms"@, decimal(r.waited_ms as nat))),
        report_fields(r).contains(("captures"@, decimal(r.captures as nat))),
        report_fields(r).contains(("budget_ms"@, decimal(r.budget_ms as nat))),
        r.error matches Some(error) ==> report_fields(r).contains(
            ("error"@, json_string_text(error)),
        ),
        r.sparse ==> report_fields(r).contains(("sparse"@, "true"@)),
        r.stale ==> report_fields(r).contains(("stale"@, "true"@)),
        report_fields(r).len() == 5 + (if r.error is Some {
            1int
        } else {
            0
        }) + (if r.sparse {
            1int
        } else {
            0
        }) + (if r.stale {
            1int
        } else {
            0
        }),
{
    let f = report_fields(r);
    let e: int = if r.error is Some {
        1
    } else {
        0
    };
    let p: int = if r.sparse {
        1
    } else {
        0
    };
    let t: int = if r.stale {
        1
    } else {
        0
    };
    assert(f[0] == ("budget_ms"@, decimal(r.budget_ms as nat)));
    assert(f[1] == ("captures"@, decimal(r.captures as nat)));
    if let Some(error) = r.error {
        assert(f[2] == ("error"@, json_string_text(error)));
    }
    assert(f[2 + e] == ("reason"@, json_string_text(reason_text(r.reason))));
    assert(f[3 + e] == ("settled"@, bool_text(r.settled)));
    if r.sparse {
        assert(f[4 + e] == ("sparse"@, bool_text(true)));
    }
    if r.stale {
        assert(f[4 + e + p] == ("stale"@, bool_text(true)));
    }
    assert(f[4 + e + p + t] == ("waited_ms"@, decimal(r.waited_ms as nat)));
}

} // verus!
