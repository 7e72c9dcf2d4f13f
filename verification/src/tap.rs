//! A tap on the one row that a label or a locator stands for.

use vstd::prelude::*;

use crate::control::{
    ambiguity_candidates, candidate_texts, target_of, unique_label, unique_locator, CallEnd,
    TargetView, UniqueTarget,
};
use crate::element::{
    indexes, law_a_list_of_indexes_holds_what_it_is_made_for, law_indexes_are_in_order,
    ElementRow,
};
use crate::errand::Sent;
use crate::locator::{
    locator_matches, locator_wda_query, wda_query, AgentElementLocator, LocatorView,
};
use crate::outcome::{candidates_view, Candidates, WdaControlOutcome};
use crate::reply::{array_text, opt_text, texts};

verus! {

/// What a tap is aimed at.
#[derive(Debug)]
pub enum TapTarget {
    Label(String),
    Locator(AgentElementLocator),
}

/// The content of a [`TapTarget`].
pub enum TapTargetView {
    Label(Seq<char>),
    Locator(LocatorView),
}

impl View for TapTarget {
    type V = TapTargetView;

    open spec fn view(&self) -> TapTargetView {
        match *self {
            TapTarget::Label(label) => TapTargetView::Label(label@),
            TapTarget::Locator(locator) => TapTargetView::Locator(locator@),
        }
    }
}

/// Where a tap stands.
#[derive(Clone, Copy, Debug, PartialEq, Eq, Structural)]
pub enum TapStage {
    Reading,
    /// The row is known; its live element is looked up.
    Finding,
    Sending,
    Over,
}

/// A tap on its way.
#[derive(Debug)]
pub struct UniqueTap {
    target: TapTarget,
    stage: TapStage,
}

/// The content of a [`UniqueTap`].
pub struct TapView {
    pub target: TapTargetView,
    pub stage: TapStage,
}

impl View for UniqueTap {
    type V = TapView;

    closed spec fn view(&self) -> TapView {
        TapView { target: self.target@, stage: self.stage }
    }
}

/// What happened to a tap.
#[derive(Debug)]
pub enum TapEvent {
    /// The tree was read. `rects` holds the JSON text of each row's frame, and
    /// `snapshot` the token of the tree where it has one.
    Rows { rows: Vec<ElementRow>, rects: Vec<String>, snapshot: Option<String> },
    Ids(Vec<String>),
    /// A read before the tap failed.
    ReadFailed,
    /// The row's frame has no middle.
    NoCenter,
    Sent(Sent),
}

/// What to do next for a tap.
#[derive(Debug)]
pub enum TapCommand {
    ReadTree,
    /// Tap the middle of this frame.
    TapRect { rect: [u64; 4] },
    Find { using: &'static str, value: String },
    Click { id: String },
    /// The outcome is final; `drop_session` where the session is to be rebuilt.
    Finish { outcome: WdaControlOutcome, candidates: Option<Candidates>, drop_session: bool },
    /// The tap was sent, and this is how the call went.
    Call(CallEnd),
    /// The event does not fit; nothing changed.
    Ignored,
}

/// The content of a [`TapCommand`].
pub enum TapCommandView {
    ReadTree,
    TapRect { rect: Seq<u64> },
    Find { using: Seq<char>, value: Seq<char> },
    Click { id: Seq<char> },
    Finish {
        outcome: WdaControlOutcome,
        candidates: Option<(Seq<char>, Seq<char>)>,
        drop_session: bool,
    },
    Call(CallEnd),
    Ignored,
}

impl View for TapCommand {
    type V = TapCommandView;

    open spec fn view(&self) -> TapCommandView {
        match *self {
            TapCommand::ReadTree => TapCommandView::ReadTree,
            TapCommand::TapRect { rect } => TapCommandView::TapRect { rect: rect@ },
            TapCommand::Find { using, value } => TapCommandView::Find {
                using: using@,
                value: value@,
            },
            TapCommand::Click { id } => TapCommandView::Click { id: id@ },
            TapCommand::Finish { outcome, candidates, drop_session } => TapCommandView::Finish {
                outcome,
                candidates: candidates_view(candidates),
                drop_session,
            },
            TapCommand::Call(end) => TapCommandView::Call(end),
            TapCommand::Ignored => TapCommandView::Ignored,
        }
    }
}

pub open spec fn tap_at(tap: TapView, stage: TapStage) -> TapView {
    TapView { stage, ..tap }
}

/// A tap that ends without being sent.
pub open spec fn tap_over(
    tap: TapView,
    outcome: WdaControlOutcome,
    candidates: Option<(Seq<char>, Seq<char>)>,
    drop_session: bool,
) -> (TapView, TapCommandView) {
    (
        tap_at(tap, TapStage::Over),
        TapCommandView::Finish { outcome, candidates, drop_session },
    )
}

/// The rows with exactly this label, by their places.
pub open spec fn labelled(rows: Seq<ElementRow>, label: Seq<char>) -> Seq<usize> {
    indexes(rows.len(), with_label(rows, label))
}

/// Whether the row with a given number has the label.
pub open spec fn with_label(rows: Seq<ElementRow>, label: Seq<char>) -> spec_fn(int) -> bool {
    |i: int| rows[i].label@ == label
}

/// A label's row is tapped in its middle. Several rows with the label are told
/// one by one, so that the next tap can name one of them.
pub open spec fn label_next(
    tap: TapView,
    label: Seq<char>,
    rows: Seq<ElementRow>,
    rects: Seq<Seq<char>>,
    snapshot: Option<Seq<char>>,
) -> (TapView, TapCommandView) {
    match target_of(labelled(rows, label)) {
        TargetView::NotFound => tap_over(tap, WdaControlOutcome::ElementNotFound, None, false),
        TargetView::Row(index) => (
            tap_at(tap, TapStage::Sending),
            TapCommandView::TapRect { rect: rows[index as int].rect@ },
        ),
        TargetView::Ambiguous(matches) => tap_over(
            tap,
            WdaControlOutcome::AmbiguousElement,
            match snapshot {
                Some(snapshot) => Some(
                    (snapshot, array_text(candidate_texts(rows, matches, rects))),
                ),
                None => None,
            },
            false,
        ),
    }
}

/// A locator's row is looked up once more on the phone, whose own frames of it
/// can be trusted where those of the tree cannot.
pub open spec fn locator_next(tap: TapView, locator: LocatorView, rows: Seq<ElementRow>) -> (
    TapView,
    TapCommandView,
) {
    match target_of(indexes(rows.len(), |i: int| locator_matches(rows[i], locator))) {
        TargetView::NotFound => tap_over(tap, WdaControlOutcome::ElementNotFound, None, false),
        TargetView::Ambiguous(_) => tap_over(
            tap,
            WdaControlOutcome::AmbiguousElement,
            None,
            false,
        ),
        TargetView::Row(_) => match wda_query(locator) {
            Some((using, value)) => (
                tap_at(tap, TapStage::Finding),
                TapCommandView::Find { using, value },
            ),
            None => tap_over(tap, WdaControlOutcome::InvalidElementTarget, None, false),
        },
    }
}

/// Only a single element is clicked.
pub open spec fn tap_ids_next(tap: TapView, ids: Seq<Seq<char>>) -> (TapView, TapCommandView) {
    if ids.len() == 0 {
        tap_over(tap, WdaControlOutcome::ElementNotFound, None, false)
    } else if ids.len() == 1 {
        (tap_at(tap, TapStage::Sending), TapCommandView::Click { id: ids[0] })
    } else {
        tap_over(tap, WdaControlOutcome::AmbiguousElement, None, false)
    }
}

/// How a call that was made went.
pub open spec fn call_end(sent: Sent) -> CallEnd {
    match sent {
        Sent::Done => CallEnd::Done,
        Sent::Missing => CallEnd::Failed,
        Sent::Failed { never_reached } => if never_reached {
            CallEnd::NeverReached
        } else {
            CallEnd::Failed
        },
    }
}

/// A clicked element that was no longer there was not clicked.
pub open spec fn tap_sent_next(tap: TapView, sent: Sent) -> (TapView, TapCommandView) {
    if tap.target is Locator && sent == Sent::Missing {
        tap_over(tap, WdaControlOutcome::ElementNotFound, None, false)
    } else {
        (tap_at(tap, TapStage::Over), TapCommandView::Call(call_end(sent)))
    }
}

/// A tap after an event, and what to do next.
pub open spec fn tap_next(tap: TapView, event: TapEvent) -> (TapView, TapCommandView) {
    match (tap.stage, event) {
        (TapStage::Reading, TapEvent::Rows { rows, rects, snapshot }) => match tap.target {
            TapTargetView::Label(label) => label_next(
                tap,
                label,
                rows@,
                texts(rects@),
                opt_text(snapshot),
            ),
            TapTargetView::Locator(locator) => locator_next(tap, locator, rows@),
        },
        (TapStage::Reading, TapEvent::ReadFailed) => tap_over(
            tap,
            WdaControlOutcome::NotSent,
            None,
            true,
        ),
        (TapStage::Finding, TapEvent::ReadFailed) => tap_over(
            tap,
            WdaControlOutcome::NotSent,
            None,
            true,
        ),
        (TapStage::Finding, TapEvent::Ids(ids)) => tap_ids_next(tap, texts(ids@)),
        (TapStage::Sending, TapEvent::NoCenter) => tap_over(
            tap,
            WdaControlOutcome::InvalidElementTarget,
            None,
            false,
        ),
        (TapStage::Sending, TapEvent::Sent(sent)) => tap_sent_next(tap, sent),
        _ => (tap, TapCommandView::Ignored),
    }
}

/// Every number that was kept is below the bound.
proof fn lemma_indexes_below(n: nat, pred: spec_fn(int) -> bool)
    requires
        n <= usize::MAX,
    ensures
        forall|k: int| 0 <= k < indexes(n, pred).len() ==> #[trigger] indexes(n, pred)[k] < n,
    decreases n,
{
    if n > 0 {
        lemma_indexes_below((n - 1) as nat, pred);
        let before = indexes((n - 1) as nat, pred);
        assert forall|k: int| 0 <= k < indexes(n, pred).len() implies #[trigger] indexes(
            n,
            pred,
        )[k] < n by {
            if k < before.len() {
                assert(indexes(n, pred)[k] == before[k]);
            }
        }
    }
}

impl UniqueTap {
    /// Starts a tap.
    pub fn start(target: TapTarget) -> (first: (UniqueTap, TapCommand))
        ensures
            first.0@ == (TapView { target: target@, stage: TapStage::Reading }),
            first.1@ == TapCommandView::ReadTree,
    {
        (UniqueTap { target, stage: TapStage::Reading }, TapCommand::ReadTree)
    }

    fn at(self, stage: TapStage) -> (tap: UniqueTap)
        ensures
            tap@ == tap_at(self@, stage),
    {
        UniqueTap { target: self.target, stage }
    }

    fn end(
        self,
        outcome: WdaControlOutcome,
        candidates: Option<Candidates>,
        drop_session: bool,
    ) -> (next: (UniqueTap, TapCommand))
        ensures
            (next.0@, next.1@) == tap_over(
                self@,
                outcome,
                candidates_view(candidates),
                drop_session,
            ),
    {
        (self.at(TapStage::Over), TapCommand::Finish { outcome, candidates, drop_session })
    }

    fn read(self, rows: Vec<ElementRow>, rects: Vec<String>, snapshot: Option<String>) -> (next: (
        UniqueTap,
        TapCommand,
    ))
        requires
            rects@.len() == rows@.len(),
        ensures
            (next.0@, next.1@) == (match self@.target {
                TapTargetView::Label(label) => label_next(
                    self@,
                    label,
                    rows@,
                    texts(rects@),
                    opt_text(snapshot),
                ),
                TapTargetView::Locator(locator) => locator_next(self@, locator, rows@),
            }),
    {
        let found = match &self.target {
            TapTarget::Label(label) => {
                let found = unique_label(&rows, label.as_str());
                proof {
                    lemma_indexes_below(
                        rows@.len(),
                        |i: int| rows@[i].label@ == label@,
                    );
                }
                found
            },
            TapTarget::Locator(locator) => {
                let found = unique_locator(&rows, locator);
                proof {
                    lemma_indexes_below(
                        rows@.len(),
                        |i: int| locator_matches(rows@[i], locator@),
                    );
                }
                found
            },
        };
        match found {
            UniqueTarget::NotFound => self.end(WdaControlOutcome::ElementNotFound, None, false),
            UniqueTarget::Row(index) => match &self.target {
                TapTarget::Label(_) => {
                    let rect = rows[index].rect;
                    (self.at(TapStage::Sending), TapCommand::TapRect { rect })
                },
                TapTarget::Locator(locator) => match locator_wda_query(locator) {
                    Some((using, value)) => {
                        (self.at(TapStage::Finding), TapCommand::Find { using, value })
                    },
                    None => self.end(WdaControlOutcome::InvalidElementTarget, None, false),
                },
            },
            UniqueTarget::Ambiguous(matches) => {
                let candidates = match (&self.target, snapshot) {
                    (TapTarget::Label(_), Some(snapshot)) => Some(
                        ambiguity_candidates(&rows, &matches, &rects, snapshot),
                    ),
                    (_, _) => None,
                };
                self.end(WdaControlOutcome::AmbiguousElement, candidates, false)
            },
        }
    }

    fn found(self, ids: Vec<String>) -> (next: (UniqueTap, TapCommand))
        ensures
            (next.0@, next.1@) == tap_ids_next(self@, texts(ids@)),
    {
        if ids.len() == 0 {
            self.end(WdaControlOutcome::ElementNotFound, None, false)
        } else if ids.len() == 1 {
            assert(texts(ids@)[0] == ids@[0]@);
            let id = ids[0].clone();
            (self.at(TapStage::Sending), TapCommand::Click { id })
        } else {
            self.end(WdaControlOutcome::AmbiguousElement, None, false)
        }
    }

    fn sent(self, sent: Sent) -> (next: (UniqueTap, TapCommand))
        ensures
            (next.0@, next.1@) == tap_sent_next(self@, sent),
    {
        let by_locator = match &self.target {
            TapTarget::Label(_) => false,
            TapTarget::Locator(_) => true,
        };
        if by_locator && sent == Sent::Missing {
            return self.end(WdaControlOutcome::ElementNotFound, None, false);
        }
        let end = match sent {
            Sent::Done => CallEnd::Done,
            Sent::Missing => CallEnd::Failed,
            Sent::Failed { never_reached } => if never_reached {
                CallEnd::NeverReached
            } else {
                CallEnd::Failed
            },
        };
        (self.at(TapStage::Over), TapCommand::Call(end))
    }

    /// A tap after an event, and what to do next.
    pub fn advance(self, event: TapEvent) -> (next: (UniqueTap, TapCommand))
        requires
            event matches TapEvent::Rows { rows, rects, .. } ==> rects@.len() == rows@.len(),
        ensures
            (next.0@, next.1@) == tap_next(self@, event),
    {
        match (self.stage, event) {
            (TapStage::Reading, TapEvent::Rows { rows, rects, snapshot }) => self.read(
                rows,
                rects,
                snapshot,
            ),
            (TapStage::Reading, TapEvent::ReadFailed) => self.end(
                WdaControlOutcome::NotSent,
                None,
                true,
            ),
            (TapStage::Finding, TapEvent::ReadFailed) => self.end(
                WdaControlOutcome::NotSent,
                None,
                true,
            ),
            (TapStage::Finding, TapEvent::Ids(ids)) => self.found(ids),
            (TapStage::Sending, TapEvent::NoCenter) => self.end(
                WdaControlOutcome::InvalidElementTarget,
                None,
                false,
            ),
            (TapStage::Sending, TapEvent::Sent(sent)) => self.sent(sent),
            (_, _) => (self, TapCommand::Ignored),
        }
    }
}

/// A tap is sent at most once: what sends it leaves every stage that could.
pub proof fn law_a_tap_is_sent_once(tap: TapView, event: TapEvent)
    ensures
        ({
            let (after, command) = tap_next(tap, event);
            &&& (command is TapRect || command is Click) ==> after.stage == TapStage::Sending
                && tap.stage != TapStage::Sending && tap.stage != TapStage::Over
            &&& after.stage == TapStage::Reading ==> tap.stage == TapStage::Reading
            &&& after.stage == TapStage::Finding ==> tap.stage == TapStage::Finding || tap.stage
                == TapStage::Reading
            &&& tap.stage == TapStage::Over ==> after == tap && command is Ignored
        }),
{
}

/// Only where exactly one row is meant does a tap go on: with none or several it
/// ends, and nothing is sent.
pub proof fn law_a_doubtful_target_is_not_tapped(
    tap: TapView,
    label: Seq<char>,
    locator: LocatorView,
    rows: Seq<ElementRow>,
    rects: Seq<Seq<char>>,
    snapshot: Option<Seq<char>>,
)
    ensures
        label_next(tap, label, rows, rects, snapshot).1 is Finish <==> labelled(
            rows,
            label,
        ).len() != 1,
        indexes(rows.len(), |i: int| locator_matches(rows[i], locator)).len() != 1
            ==> locator_next(tap, locator, rows).1 is Finish,
{
}

/// What is tapped is where the one row with that very label stands; with none
/// there is nothing to tap.
pub proof fn law_a_label_is_tapped_where_it_stands(
    tap: TapView,
    rows: Seq<ElementRow>,
    rects: Seq<Seq<char>>,
    snapshot: Option<Seq<char>>,
    label: Seq<char>,
    i: int,
)
    requires
        rows.len() <= usize::MAX,
    ensures
        ({
            let next = label_next(tap, label, rows, rects, snapshot);
            &&& 0 <= i < rows.len() && rows[i].label@ == label && (forall|j: int|
                0 <= j < rows.len() && j != i ==> (#[trigger] rows[j]).label@ != label) ==> next.1
                == (TapCommandView::TapRect { rect: rows[i].rect@ }) && next.0.stage
                == TapStage::Sending
            &&& (forall|j: int| 0 <= j < rows.len() ==> (#[trigger] rows[j]).label@ != label)
                ==> (next.1 matches TapCommandView::Finish { outcome, .. } && outcome
                is ElementNotFound)
            &&& next.1 matches TapCommandView::TapRect { rect } ==> exists|j: int|
                0 <= j < rows.len() && (#[trigger] rows[j]).label@ == label && rect == rows[j].rect@
        }),
{
    let wanted = with_label(rows, label);
    let found = labelled(rows, label);
    assert(found == indexes(rows.len(), wanted));
    law_indexes_are_in_order(rows.len(), wanted);
    if found.len() > 0 {
        assert(wanted(found[0] as int));
    }
    if found.len() > 1 {
        assert(wanted(found[1] as int));
    }
    if 0 <= i < rows.len() && rows[i].label@ == label {
        assert(wanted(i));
        law_a_list_of_indexes_holds_what_it_is_made_for(rows.len(), wanted, i);
        assert(found.contains(i as usize));
    }
}

/// A locator is looked up on the phone only where exactly one row of the tree
/// meets it, by the query that stands for it.
pub proof fn law_a_locator_is_looked_up_where_it_is_sole(
    tap: TapView,
    rows: Seq<ElementRow>,
    locator: LocatorView,
    i: int,
)
    requires
        rows.len() <= usize::MAX,
    ensures
        ({
            let next = locator_next(tap, locator, rows);
            &&& 0 <= i < rows.len() && locator_matches(rows[i], locator) && (forall|j: int|
                0 <= j < rows.len() && j != i ==> !locator_matches(#[trigger] rows[j], locator))
                ==> (match wda_query(locator) {
                Some((using, value)) => next.1 == (TapCommandView::Find { using, value })
                    && next.0.stage == TapStage::Finding,
                None => next.1 matches TapCommandView::Finish { outcome, .. } && outcome
                    is InvalidElementTarget,
            })
            &&& (forall|j: int|
                0 <= j < rows.len() ==> !locator_matches(#[trigger] rows[j], locator)) ==> (next.1
                matches TapCommandView::Finish { outcome, .. } && outcome is ElementNotFound)
            &&& next.1 is Find ==> exists|j: int|
                0 <= j < rows.len() && locator_matches(#[trigger] rows[j], locator)
        }),
{
    let wanted = |i: int| locator_matches(rows[i], locator);
    let found = indexes(rows.len(), wanted);
    law_indexes_are_in_order(rows.len(), wanted);
    if found.len() > 0 {
        assert(wanted(found[0] as int));
    }
    if found.len() > 1 {
        assert(wanted(found[1] as int));
    }
    if 0 <= i < rows.len() && locator_matches(rows[i], locator) {
        assert(wanted(i));
        law_a_list_of_indexes_holds_what_it_is_made_for(rows.len(), wanted, i);
        assert(found.contains(i as usize));
    }
}

/// A tap by lookup presses the one control that was found, and none where there
/// are none or several; it ends as the press did.
pub proof fn law_a_lookup_presses_its_only_find(tap: TapView, ids: Vec<String>, sent: Sent)
    ensures
        tap.stage == TapStage::Finding ==> {
            let next = tap_next(tap, TapEvent::Ids(ids));
            &&& ids@.len() == 1 ==> next.1 == (TapCommandView::Click { id: ids@[0]@ })
                && next.0.stage == TapStage::Sending
            &&& ids@.len() == 0 ==> (next.1 matches TapCommandView::Finish { outcome, .. } && outcome
                is ElementNotFound)
            &&& ids@.len() > 1 ==> (next.1 matches TapCommandView::Finish { outcome, .. } && outcome
                is AmbiguousElement)
            &&& tap_next(tap, TapEvent::ReadFailed).1 matches TapCommandView::Finish {
                outcome,
                drop_session: true,
                ..
            } && outcome is NotSent
        },
        tap.stage == TapStage::Reading ==> (tap_next(tap, TapEvent::ReadFailed).1 matches
            TapCommandView::Finish { outcome, drop_session: true, .. } && outcome is NotSent),
        tap.stage == TapStage::Sending ==> {
            let next = tap_next(tap, TapEvent::Sent(sent));
            &&& next.0.stage == TapStage::Over
            &&& sent is Done ==> next.1 == TapCommandView::Call(CallEnd::Done)
            &&& sent matches Sent::Failed { never_reached } ==> next.1 == TapCommandView::Call(
                if never_reached {
                    CallEnd::NeverReached
                } else {
                    CallEnd::Failed
                },
            )
            &&& sent is Missing && tap.target is Locator ==> (next.1 matches TapCommandView::Finish {
                outcome,
                ..
            } && outcome is ElementNotFound)
            &&& sent is Missing && tap.target is Label ==> next.1 == TapCommandView::Call(
                CallEnd::Failed,
            )
            &&& tap_next(tap, TapEvent::NoCenter).1 matches TapCommandView::Finish { outcome, .. }
                && outcome is InvalidElementTarget
        },
{
}

} // verus!
