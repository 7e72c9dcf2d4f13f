//! One action on a row of a snapshot: from the re-read of the tree to the one
//! request that changes the phone.

use vstd::prelude::*;

use crate::action::{
    limit_five, limit_ten, limit_turn, nonzero_within, positive_within,
};
use crate::element::ElementRow;
use crate::json::{
    field_of, number_at_least_one, number_of, number_positive, text_of, unsigned_of, Json, JsonView,
    Limit, NumberView, number_zero,
};
use crate::locator::{
    frame_fallback_verbs, listed, locator_wda_query, perform_action_kind_permitted,
    perform_verbs_with_frame_fallback, row_locator, snapshot_row_locator, strs, verb_permitted,
    wda_query,
};
use crate::outcome::WdaControlOutcome;
use crate::reply::{opt_text, texts};
use crate::search::{contains, occurs};
use crate::text::{join2, same_text, trim, trimmed};

verus! {

/// Whether an error text shows that the element was no longer there.
///
/// The runner answers a request for an element that went stale with this status,
/// which proves that nothing was done to the phone.
pub fn wda_error_is_missing_element(error: &str) -> (missing: bool)
    ensures
        missing == occurs(error@, "404 Not Found"@),
{
    contains(error, "404 Not Found")
}

/// Why an action on a row did not succeed.
#[derive(Clone, Copy, Debug, PartialEq, Eq)]
pub enum SnapshotElementTapError {
    Invalid,
    Stale,
    NotFound,
    Ambiguous,
    /// The row cannot carry the action.
    InvalidTarget,
    /// A value of the wrong shape for the action.
    InvalidValue(&'static str),
    /// Acknowledged, but the element did not change.
    NoEffect(&'static str),
    /// A read before the action failed.
    BeforeDispatch,
    /// The action's request failed; `never_reached` where the connection was
    /// refused, so that nothing was delivered.
    AfterDispatch { never_reached: bool },
}

/// How a finished element action goes on.
#[derive(Clone, Copy, Debug, PartialEq, Eq)]
pub enum ElementEnd {
    /// The outcome is final; `drop_session` where the session is to be rebuilt.
    Final { outcome: WdaControlOutcome, drop_session: bool },
    /// The request was made: applied, or failed with an unknown result.
    Dispatched { applied: bool },
}

/// Where a finished element action leads.
pub open spec fn element_end(result: Result<(), SnapshotElementTapError>) -> ElementEnd {
    match result {
        Ok(()) => ElementEnd::Dispatched { applied: true },
        Err(SnapshotElementTapError::Invalid) => ElementEnd::Final {
            outcome: WdaControlOutcome::InvalidElementSnapshot,
            drop_session: false,
        },
        Err(SnapshotElementTapError::Stale) => ElementEnd::Final {
            outcome: WdaControlOutcome::StaleElementSnapshot,
            drop_session: false,
        },
        Err(SnapshotElementTapError::NotFound) => ElementEnd::Final {
            outcome: WdaControlOutcome::ElementNotFound,
            drop_session: false,
        },
        Err(SnapshotElementTapError::Ambiguous) => ElementEnd::Final {
            outcome: WdaControlOutcome::AmbiguousElement,
            drop_session: false,
        },
        Err(SnapshotElementTapError::InvalidTarget) => ElementEnd::Final {
            outcome: WdaControlOutcome::InvalidElementTarget,
            drop_session: false,
        },
        Err(SnapshotElementTapError::InvalidValue(hint)) => ElementEnd::Final {
            outcome: WdaControlOutcome::InvalidValue(hint),
            drop_session: false,
        },
        Err(SnapshotElementTapError::NoEffect(hint)) => ElementEnd::Final {
            outcome: WdaControlOutcome::NoEffect(hint),
            drop_session: false,
        },
        Err(SnapshotElementTapError::BeforeDispatch) => ElementEnd::Final {
            outcome: WdaControlOutcome::NotSent,
            drop_session: true,
        },
        Err(SnapshotElementTapError::AfterDispatch { never_reached }) => if never_reached {
            ElementEnd::Final { outcome: WdaControlOutcome::NotSent, drop_session: false }
        } else {
            ElementEnd::Dispatched { applied: false }
        },
    }
}

/// Maps a finished element action onto the outcomes that all requests share.
pub fn snapshot_element_outcome(result: Result<(), SnapshotElementTapError>) -> (end: ElementEnd)
    ensures
        end == element_end(result),
{
    let outcome = match result {
        Ok(()) => {
            return ElementEnd::Dispatched { applied: true };
        },
        Err(SnapshotElementTapError::Invalid) => WdaControlOutcome::InvalidElementSnapshot,
        Err(SnapshotElementTapError::Stale) => WdaControlOutcome::StaleElementSnapshot,
        Err(SnapshotElementTapError::NotFound) => WdaControlOutcome::ElementNotFound,
        Err(SnapshotElementTapError::Ambiguous) => WdaControlOutcome::AmbiguousElement,
        Err(SnapshotElementTapError::InvalidTarget) => WdaControlOutcome::InvalidElementTarget,
        Err(SnapshotElementTapError::InvalidValue(hint)) => WdaControlOutcome::InvalidValue(hint),
        Err(SnapshotElementTapError::NoEffect(hint)) => WdaControlOutcome::NoEffect(hint),
        Err(SnapshotElementTapError::BeforeDispatch) => {
            return ElementEnd::Final { outcome: WdaControlOutcome::NotSent, drop_session: true };
        },
        Err(SnapshotElementTapError::AfterDispatch { never_reached: true }) => {
            WdaControlOutcome::NotSent
        },
        Err(SnapshotElementTapError::AfterDispatch { never_reached: false }) => {
            return ElementEnd::Dispatched { applied: false };
        },
    };
    ElementEnd::Final { outcome, drop_session: false }
}

/// What is to be done to the row.
#[derive(Clone, Copy, Debug, PartialEq, Eq, Structural)]
pub enum Job {
    Tap,
    SetValue,
    Perform,
    Scroll,
}

/// How fast a pinch or a rotation goes: as requested, or one unit forwards or
/// backwards.
#[derive(Clone, Copy, Debug, PartialEq, Eq, Structural)]
pub enum Velocity {
    Given(NumberView),
    Forward,
    Backward,
}

/// Where an errand stands.
#[derive(Debug)]
pub enum Stage {
    /// The tree is being read again.
    Reading,
    /// The row's live element is being looked up by what it says.
    Finding { kind: String, value: Option<String> },
    /// The row's live element is being looked up by its frame.
    Framing { kind: String, value: Option<String> },
    /// The switch inside a row is being looked up.
    Switches { id: String },
    /// A stepper's button is being looked up by its label.
    NamedButtons { id: String, up: bool },
    /// Both buttons of a stepper are being looked up.
    Buttons { up: bool },
    /// The frames of both buttons are being measured.
    Sides { first: String, second: String, up: bool },
    /// A slider position is being checked.
    Position { id: String, target: String },
    /// The field is cleared before it is typed into.
    Clearing { id: String },
    /// The adjustment was requested.
    Adjusting { id: String, target: String, picker: bool },
    /// The wheel is read back after an adjustment.
    ReadingBack { target: String },
    /// The scroll into view was requested.
    ScrollingTo { id: String },
    /// The scroll reported a failure; the screen is looked at.
    Looking { never_reached: bool },
    /// The request was made; `element` where it names a live element.
    Sending { element: bool },
    Over,
}

/// The content of a [`Stage`].
pub enum StageView {
    Reading,
    Finding { kind: Seq<char>, value: Option<Seq<char>> },
    Framing { kind: Seq<char>, value: Option<Seq<char>> },
    Switches { id: Seq<char> },
    NamedButtons { id: Seq<char>, up: bool },
    Buttons { up: bool },
    Sides { first: Seq<char>, second: Seq<char>, up: bool },
    Position { id: Seq<char>, target: Seq<char> },
    Clearing { id: Seq<char> },
    Adjusting { id: Seq<char>, target: Seq<char>, picker: bool },
    ReadingBack { target: Seq<char> },
    ScrollingTo { id: Seq<char> },
    Looking { never_reached: bool },
    Sending { element: bool },
    Over,
}

impl View for Stage {
    type V = StageView;

    open spec fn view(&self) -> StageView {
        match *self {
            Stage::Reading => StageView::Reading,
            Stage::Finding { kind, value } => StageView::Finding {
                kind: kind@,
                value: opt_text(value),
            },
            Stage::Framing { kind, value } => StageView::Framing {
                kind: kind@,
                value: opt_text(value),
            },
            Stage::Switches { id } => StageView::Switches { id: id@ },
            Stage::NamedButtons { id, up } => StageView::NamedButtons { id: id@, up },
            Stage::Buttons { up } => StageView::Buttons { up },
            Stage::Sides { first, second, up } => StageView::Sides {
                first: first@,
                second: second@,
                up,
            },
            Stage::Position { id, target } => StageView::Position { id: id@, target: target@ },
            Stage::Clearing { id } => StageView::Clearing { id: id@ },
            Stage::Adjusting { id, target, picker } => StageView::Adjusting {
                id: id@,
                target: target@,
                picker,
            },
            Stage::ReadingBack { target } => StageView::ReadingBack { target: target@ },
            Stage::ScrollingTo { id } => StageView::ScrollingTo { id: id@ },
            Stage::Looking { never_reached } => StageView::Looking { never_reached },
            Stage::Sending { element } => StageView::Sending { element },
            Stage::Over => StageView::Over,
        }
    }
}

/// How a request that changes the phone went.
#[derive(Clone, Copy, Debug, PartialEq, Eq, Structural)]
pub enum Sent {
    Done,
    /// The element was gone before the request, which therefore did nothing.
    Missing,
    Failed { never_reached: bool },
}

/// What happened since the last step of an errand.
#[derive(Debug)]
pub enum ErrandEvent {
    /// The tree, and its snapshot token.
    Rows { rows: Vec<ElementRow>, snapshot: String },
    /// Elements that a lookup found.
    Ids(Vec<String>),
    /// A read failed.
    ReadFailed,
    /// Whether the second of two buttons is the one that increments; `None`
    /// where their frames do not tell.
    Side(Option<bool>),
    /// Whether a text is a slider position from 0 to 1.
    Position(bool),
    /// What an element shows now, where that could be read.
    Value(Option<String>),
    /// Whether the element is mostly on screen.
    Visible(bool),
    /// The row's numbers give nothing to aim at.
    NoTarget,
    Sent(Sent),
}

/// The content of an [`ErrandEvent`].
pub enum ErrandEventView {
    Rows { rows: Seq<ElementRow>, snapshot: Seq<char> },
    Ids(Seq<Seq<char>>),
    ReadFailed,
    Side(Option<bool>),
    Position(bool),
    Value(Option<Seq<char>>),
    Visible(bool),
    NoTarget,
    Sent(Sent),
}

impl View for ErrandEvent {
    type V = ErrandEventView;

    open spec fn view(&self) -> ErrandEventView {
        match *self {
            ErrandEvent::Rows { rows, snapshot } => ErrandEventView::Rows {
                rows: rows@,
                snapshot: snapshot@,
            },
            ErrandEvent::Ids(ids) => ErrandEventView::Ids(texts(ids@)),
            ErrandEvent::ReadFailed => ErrandEventView::ReadFailed,
            ErrandEvent::Side(side) => ErrandEventView::Side(side),
            ErrandEvent::Position(valid) => ErrandEventView::Position(valid),
            ErrandEvent::Value(value) => ErrandEventView::Value(opt_text(value)),
            ErrandEvent::Visible(visible) => ErrandEventView::Visible(visible),
            ErrandEvent::NoTarget => ErrandEventView::NoTarget,
            ErrandEvent::Sent(sent) => ErrandEventView::Sent(sent),
        }
    }
}

/// What to do next.
#[derive(Debug)]
pub enum ErrandCommand {
    ReadTree,
    Find { using: &'static str, value: String },
    /// Find the elements of a class whose frame is this one.
    Frame { chain: String, rect: [u64; 4] },
    FindFrom { id: String, chain: String },
    MeasurePair { first: String, second: String },
    CheckPosition { text: String },
    ReadValue { id: String },
    Look { id: String },
    Click { id: String },
    /// Tap the middle of this frame.
    TapRect { rect: [u64; 4] },
    Clear { id: String },
    Type { id: String, text: String },
    SpinPicker { id: String, forward: bool },
    /// Move a slider by a tenth from where it shows it is.
    StepSlider { id: String, value: Option<String>, up: bool },
    Adjust { id: String, target: String },
    Hold { id: String, ms: u64 },
    DoubleTap { id: String },
    TwoFingerTap { id: String },
    ScrollTo { id: String },
    Pinch { id: String, scale: NumberView, velocity: Velocity },
    Rotate { id: String, rotation: NumberView, velocity: Velocity },
    ForcePress { id: String, pressure: Option<NumberView>, ms: Option<u64> },
    /// Swipe inside this row, or inside the smallest frame around it.
    ScrollRow { rect: [u64; 4], is_container: bool, others: Vec<[u64; 4]> },
    Finish(Result<(), SnapshotElementTapError>),
    /// The event does not fit; nothing changed.
    Ignored,
}

/// The content of an [`ErrandCommand`].
pub enum ErrandCommandView {
    ReadTree,
    Find { using: Seq<char>, value: Seq<char> },
    Frame { chain: Seq<char>, rect: Seq<u64> },
    FindFrom { id: Seq<char>, chain: Seq<char> },
    MeasurePair { first: Seq<char>, second: Seq<char> },
    CheckPosition { text: Seq<char> },
    ReadValue { id: Seq<char> },
    Look { id: Seq<char> },
    Click { id: Seq<char> },
    TapRect { rect: Seq<u64> },
    Clear { id: Seq<char> },
    Type { id: Seq<char>, text: Seq<char> },
    SpinPicker { id: Seq<char>, forward: bool },
    StepSlider { id: Seq<char>, value: Option<Seq<char>>, up: bool },
    Adjust { id: Seq<char>, target: Seq<char> },
    Hold { id: Seq<char>, ms: u64 },
    DoubleTap { id: Seq<char> },
    TwoFingerTap { id: Seq<char> },
    ScrollTo { id: Seq<char> },
    Pinch { id: Seq<char>, scale: NumberView, velocity: Velocity },
    Rotate { id: Seq<char>, rotation: NumberView, velocity: Velocity },
    ForcePress { id: Seq<char>, pressure: Option<NumberView>, ms: Option<u64> },
    ScrollRow { rect: Seq<u64>, is_container: bool, others: Seq<Seq<u64>> },
    Finish(FinishView),
    Ignored,
}

/// The content of an errand's result: hints by their characters.
pub enum FinishView {
    Success,
    Invalid,
    Stale,
    NotFound,
    Ambiguous,
    InvalidTarget,
    InvalidValue(Seq<char>),
    NoEffect(Seq<char>),
    BeforeDispatch,
    AfterDispatch { never_reached: bool },
}

pub open spec fn finish_view(result: Result<(), SnapshotElementTapError>) -> FinishView {
    match result {
        Ok(()) => FinishView::Success,
        Err(SnapshotElementTapError::Invalid) => FinishView::Invalid,
        Err(SnapshotElementTapError::Stale) => FinishView::Stale,
        Err(SnapshotElementTapError::NotFound) => FinishView::NotFound,
        Err(SnapshotElementTapError::Ambiguous) => FinishView::Ambiguous,
        Err(SnapshotElementTapError::InvalidTarget) => FinishView::InvalidTarget,
        Err(SnapshotElementTapError::InvalidValue(hint)) => FinishView::InvalidValue(hint@),
        Err(SnapshotElementTapError::NoEffect(hint)) => FinishView::NoEffect(hint@),
        Err(SnapshotElementTapError::BeforeDispatch) => FinishView::BeforeDispatch,
        Err(SnapshotElementTapError::AfterDispatch { never_reached }) => FinishView::AfterDispatch {
            never_reached,
        },
    }
}

pub open spec fn rects(list: Seq<[u64; 4]>) -> Seq<Seq<u64>> {
    list.map_values(|r: [u64; 4]| r@)
}

impl View for ErrandCommand {
    type V = ErrandCommandView;

    open spec fn view(&self) -> ErrandCommandView {
        match *self {
            ErrandCommand::ReadTree => ErrandCommandView::ReadTree,
            ErrandCommand::Find { using, value } => ErrandCommandView::Find {
                using: using@,
                value: value@,
            },
            ErrandCommand::Frame { chain, rect } => ErrandCommandView::Frame {
                chain: chain@,
                rect: rect@,
            },
            ErrandCommand::FindFrom { id, chain } => ErrandCommandView::FindFrom {
                id: id@,
                chain: chain@,
            },
            ErrandCommand::MeasurePair { first, second } => ErrandCommandView::MeasurePair {
                first: first@,
                second: second@,
            },
            ErrandCommand::CheckPosition { text } => ErrandCommandView::CheckPosition {
                text: text@,
            },
            ErrandCommand::ReadValue { id } => ErrandCommandView::ReadValue { id: id@ },
            ErrandCommand::Look { id } => ErrandCommandView::Look { id: id@ },
            ErrandCommand::Click { id } => ErrandCommandView::Click { id: id@ },
            ErrandCommand::TapRect { rect } => ErrandCommandView::TapRect { rect: rect@ },
            ErrandCommand::Clear { id } => ErrandCommandView::Clear { id: id@ },
            ErrandCommand::Type { id, text } => ErrandCommandView::Type { id: id@, text: text@ },
            ErrandCommand::SpinPicker { id, forward } => ErrandCommandView::SpinPicker {
                id: id@,
                forward,
            },
            ErrandCommand::StepSlider { id, value, up } => ErrandCommandView::StepSlider {
                id: id@,
                value: opt_text(value),
                up,
            },
            ErrandCommand::Adjust { id, target } => ErrandCommandView::Adjust {
                id: id@,
                target: target@,
            },
            ErrandCommand::Hold { id, ms } => ErrandCommandView::Hold { id: id@, ms },
            ErrandCommand::DoubleTap { id } => ErrandCommandView::DoubleTap { id: id@ },
            ErrandCommand::TwoFingerTap { id } => ErrandCommandView::TwoFingerTap { id: id@ },
            ErrandCommand::ScrollTo { id } => ErrandCommandView::ScrollTo { id: id@ },
            ErrandCommand::Pinch { id, scale, velocity } => ErrandCommandView::Pinch {
                id: id@,
                scale,
                velocity,
            },
            ErrandCommand::Rotate { id, rotation, velocity } => ErrandCommandView::Rotate {
                id: id@,
                rotation,
                velocity,
            },
            ErrandCommand::ForcePress { id, pressure, ms } => ErrandCommandView::ForcePress {
                id: id@,
                pressure,
                ms,
            },
            ErrandCommand::ScrollRow { rect, is_container, others } => {
                ErrandCommandView::ScrollRow { rect: rect@, is_container, others: rects(others@) }
            },
            ErrandCommand::Finish(result) => ErrandCommandView::Finish(finish_view(result)),
            ErrandCommand::Ignored => ErrandCommandView::Ignored,
        }
    }
}

/// An errand under way.
#[derive(Debug)]
pub struct Errand {
    action: Json,
    index: usize,
    snapshot: String,
    job: Job,
    stage: Stage,
}

/// The content of an [`Errand`].
pub struct ErrandView {
    pub action: JsonView,
    pub index: nat,
    pub snapshot: Seq<char>,
    pub job: Job,
    pub stage: StageView,
}

impl View for Errand {
    type V = ErrandView;

    closed spec fn view(&self) -> ErrandView {
        ErrandView {
            action: self.action@,
            index: self.index as nat,
            snapshot: self.snapshot@,
            job: self.job,
            stage: self.stage@,
        }
    }
}

/// The parts of the action that the job cannot do without are there.
pub open spec fn job_stated(action: JsonView, job: Job) -> bool {
    match job {
        Job::Tap => true,
        Job::SetValue => text_of(field_of(action, "value"@)) is Some,
        Job::Perform => text_of(field_of(action, "action"@)) is Some,
        Job::Scroll => !(distance_zero(action, "dx"@) && distance_zero(action, "dy"@)),
    }
}

/// A scroll distance that is missing, or no number, or zero.
pub open spec fn distance_zero(action: JsonView, key: Seq<char>) -> bool {
    match number_of(field_of(action, key)) {
        Some(n) => number_zero(n),
        None => true,
    }
}

/// The action names a row: an index that can be one, and a non-empty token.
pub open spec fn target_stated(action: JsonView) -> bool {
    &&& unsigned_of(field_of(action, "element"@)) matches Some(index) && index <= usize::MAX
    &&& text_of(field_of(action, "snapshot"@)) matches Some(snapshot) && snapshot.len() > 0
}

/// The start of an errand; `None` where the action does not say enough.
pub open spec fn errand_start(action: JsonView, job: Job) -> Option<ErrandView> {
    if job_stated(action, job) && target_stated(action) {
        Some(
            ErrandView {
                action,
                index: unsigned_of(field_of(action, "element"@))->0 as nat,
                snapshot: text_of(field_of(action, "snapshot"@))->0,
                job,
                stage: StageView::Reading,
            },
        )
    } else {
        None
    }
}

pub open spec fn at(e: ErrandView, stage: StageView) -> ErrandView {
    ErrandView { action: e.action, index: e.index, snapshot: e.snapshot, job: e.job, stage }
}

/// The errand ends.
pub open spec fn finished(e: ErrandView, result: FinishView) -> (ErrandView, ErrandCommandView) {
    (at(e, StageView::Over), ErrandCommandView::Finish(result))
}

/// The request is made.
pub open spec fn sending(e: ErrandView, command: ErrandCommandView) -> (
    ErrandView,
    ErrandCommandView,
) {
    (at(e, StageView::Sending { element: true }), command)
}

pub open spec fn text_input_kinds() -> Seq<Seq<char>> {
    seq!["TextField"@, "SecureTextField"@, "SearchField"@, "TextView"@]
}

/// How long a press that asks for a menu lasts: as long as it says, but neither
/// so short that it is a tap nor longer than it takes.
pub open spec fn hold_ms(asked: Option<u64>) -> u64 {
    match asked {
        None => 600,
        Some(ms) => if ms < 300 {
            300
        } else if ms > 2000 {
            2000
        } else {
            ms
        },
    }
}

/// Kinds whose frame is a viewport: a swipe inside moves their content.
pub open spec fn scrollable_kinds() -> Seq<Seq<char>> {
    seq![
        "Table"@,
        "CollectionView"@,
        "ScrollView"@,
        "Picker"@,
        "PickerWheel"@,
        "WebView"@,
    ]
}

/// The lookup of all elements of a kind.
pub open spec fn class_chain(kind: Seq<char>) -> Seq<char> {
    "**/XCUIElementType"@ + kind
}

pub open spec fn verb_of(action: JsonView) -> Seq<char> {
    match text_of(field_of(action, "action"@)) {
        Some(verb) => verb,
        None => ""@,
    }
}

/// Rows other than the target in which a swipe might land.
pub open spec fn swipe_region(rows: Seq<ElementRow>, target: int, i: int) -> bool {
    i != target && (rows[i].kind@ == "Other"@ || scrollable_kinds().contains(rows[i].kind@))
}

/// The frames of the first `n` rows in which a swipe might land.
pub open spec fn region_rects(rows: Seq<ElementRow>, target: int, n: nat) -> Seq<Seq<u64>>
    decreases n,
{
    if n == 0 {
        Seq::empty()
    } else if swipe_region(rows, target, n - 1) {
        region_rects(rows, target, (n - 1) as nat).push(rows[n - 1].rect@)
    } else {
        region_rects(rows, target, (n - 1) as nat)
    }
}

/// The live element of the row is looked up: by what it says where it says
/// enough, else by its frame where the job allows that.
pub open spec fn lookup_row(e: ErrandView, row: ElementRow, frame_chain: Option<Seq<char>>) -> (
    ErrandView,
    ErrandCommandView,
) {
    match row_locator(row) {
        Some(locator) => match wda_query(locator) {
            Some((using, value)) => (
                at(e, StageView::Finding { kind: row.kind@, value: opt_text(row.value) }),
                ErrandCommandView::Find { using, value },
            ),
            None => finished(e, FinishView::Invalid),
        },
        None => match frame_chain {
            Some(chain) => (
                at(e, StageView::Framing { kind: row.kind@, value: opt_text(row.value) }),
                ErrandCommandView::Frame { chain, rect: row.rect@ },
            ),
            None => finished(e, FinishView::InvalidTarget),
        },
    }
}

/// How a `perform` may find a row that says too little.
pub open spec fn perform_frame(verb: Seq<char>, kind: Seq<char>) -> Option<Seq<char>> {
    if !frame_fallback_verbs().contains(verb) {
        None
    } else if verb == "toggle"@ {
        Some(class_chain("Switch"@))
    } else {
        Some(class_chain(kind))
    }
}

/// The tree was read again and the snapshot still holds.
pub open spec fn row_next(e: ErrandView, rows: Seq<ElementRow>) -> (ErrandView, ErrandCommandView) {
    let row = rows[e.index as int];
    match e.job {
        Job::Tap => if row_locator(row) is None {
            (
                at(e, StageView::Sending { element: false }),
                ErrandCommandView::TapRect { rect: row.rect@ },
            )
        } else {
            lookup_row(e, row, None)
        },
        Job::SetValue => lookup_row(
            e,
            row,
            if text_input_kinds().contains(row.kind@) {
                Some(class_chain(row.kind@))
            } else {
                None
            },
        ),
        Job::Perform => if !verb_permitted(verb_of(e.action), row) {
            finished(e, FinishView::InvalidTarget)
        } else {
            lookup_row(e, row, perform_frame(verb_of(e.action), row.kind@))
        },
        Job::Scroll => (
            at(e, StageView::Sending { element: false }),
            ErrandCommandView::ScrollRow {
                rect: row.rect@,
                is_container: scrollable_kinds().contains(row.kind@),
                others: region_rects(rows, e.index as int, rows.len()),
            },
        ),
    }
}

/// The tree was read again. Nothing is done to a tree that is not the one the
/// caller saw.
pub open spec fn rows_next(e: ErrandView, rows: Seq<ElementRow>, snapshot: Seq<char>) -> (
    ErrandView,
    ErrandCommandView,
) {
    if snapshot != e.snapshot {
        finished(e, FinishView::Stale)
    } else if e.index >= rows.len() {
        finished(e, FinishView::Invalid)
    } else {
        row_next(e, rows)
    }
}

pub open spec fn adjust_hint() -> Seq<char> {
    "adjust needs \"value\" as a JSON string: a picker option's text, or a slider position such as \"0.5\""@
}

pub open spec fn slider_hint() -> Seq<char> {
    "a Slider adjust value is a normalized position from \"0\" to \"1\""@
}

pub open spec fn no_effect_hint() -> Seq<char> {
    "WDA acknowledged the value but the picker did not move; the value must match one of the wheel's options exactly (read the row's value and try the option text as shown)"@
}

pub open spec fn adjusting(e: ErrandView, id: Seq<char>, target: Seq<char>, picker: bool) -> (
    ErrandView,
    ErrandCommandView,
) {
    (
        at(e, StageView::Adjusting { id, target, picker }),
        ErrandCommandView::Adjust { id, target },
    )
}

pub open spec fn velocity_of(action: JsonView, forward: bool) -> Velocity {
    if nonzero_within(action, "velocity"@, limit_ten()) {
        Velocity::Given(number_of(field_of(action, "velocity"@))->0)
    } else if forward {
        Velocity::Forward
    } else {
        Velocity::Backward
    }
}

pub open spec fn increment_next(
    e: ErrandView,
    id: Seq<char>,
    kind: Seq<char>,
    value: Option<Seq<char>>,
    up: bool,
) -> (ErrandView, ErrandCommandView) {
    if kind == "PickerWheel"@ {
        sending(e, ErrandCommandView::SpinPicker { id, forward: up })
    } else if kind == "Stepper"@ {
        (
            at(e, StageView::NamedButtons { id, up }),
            ErrandCommandView::FindFrom {
                id,
                chain: if up {
                    "**/XCUIElementTypeButton[`label == \"Increment\"`]"@
                } else {
                    "**/XCUIElementTypeButton[`label == \"Decrement\"`]"@
                },
            },
        )
    } else if kind == "Slider"@ {
        sending(e, ErrandCommandView::StepSlider { id, value, up })
    } else {
        finished(e, FinishView::InvalidTarget)
    }
}

pub open spec fn force_press_next(e: ErrandView, id: Seq<char>) -> (
    ErrandView,
    ErrandCommandView,
) {
    let pressure = field_of(e.action, "pressure"@);
    let duration = field_of(e.action, "duration_ms"@);
    let ms = unsigned_of(duration);
    if pressure is Some && !positive_within(e.action, "pressure"@, limit_five()) {
        finished(e, FinishView::Invalid)
    } else if duration is Some && !(ms matches Some(ms) && 0 < ms <= 10_000) {
        finished(e, FinishView::Invalid)
    } else {
        sending(
            e,
            ErrandCommandView::ForcePress { id, pressure: number_of(pressure), ms },
        )
    }
}

/// The live element of a `perform` was found.
pub open spec fn perform_next(
    e: ErrandView,
    id: Seq<char>,
    kind: Seq<char>,
    value: Option<Seq<char>>,
    semantic: bool,
) -> (ErrandView, ErrandCommandView) {
    let verb = verb_of(e.action);
    if verb == "toggle"@ {
        if semantic {
            (
                at(e, StageView::Switches { id }),
                ErrandCommandView::FindFrom { id, chain: class_chain("Switch"@) },
            )
        } else {
            sending(e, ErrandCommandView::Click { id })
        }
    } else if verb == "increment"@ || verb == "decrement"@ {
        increment_next(e, id, kind, value, verb == "increment"@)
    } else if verb == "adjust"@ {
        match text_of(field_of(e.action, "value"@)) {
            None => finished(e, FinishView::InvalidValue(adjust_hint())),
            Some(target) => if kind == "Slider"@ {
                (
                    at(e, StageView::Position { id, target }),
                    ErrandCommandView::CheckPosition { text: target },
                )
            } else {
                adjusting(e, id, target, kind == "PickerWheel"@)
            },
        }
    } else if verb == "menu"@ {
        sending(
            e,
            ErrandCommandView::Hold {
                id,
                ms: hold_ms(unsigned_of(field_of(e.action, "duration_ms"@))),
            },
        )
    } else if verb == "double_tap"@ {
        sending(e, ErrandCommandView::DoubleTap { id })
    } else if verb == "two_finger_tap"@ {
        sending(e, ErrandCommandView::TwoFingerTap { id })
    } else if verb == "scroll_to_visible"@ {
        (at(e, StageView::ScrollingTo { id }), ErrandCommandView::ScrollTo { id })
    } else if verb == "pinch"@ {
        if positive_within(e.action, "scale"@, limit_ten()) {
            let scale = number_of(field_of(e.action, "scale"@))->0;
            sending(
                e,
                ErrandCommandView::Pinch {
                    id,
                    scale,
                    velocity: velocity_of(e.action, number_at_least_one(scale)),
                },
            )
        } else {
            finished(e, FinishView::Invalid)
        }
    } else if verb == "rotate"@ {
        if nonzero_within(e.action, "rotation"@, limit_turn()) {
            let rotation = number_of(field_of(e.action, "rotation"@))->0;
            sending(
                e,
                ErrandCommandView::Rotate {
                    id,
                    rotation,
                    velocity: velocity_of(e.action, number_positive(rotation)),
                },
            )
        } else {
            finished(e, FinishView::Invalid)
        }
    } else if verb == "force_press"@ {
        force_press_next(e, id)
    } else {
        finished(e, FinishView::Invalid)
    }
}

/// The live element of the row was found.
pub open spec fn found_next(
    e: ErrandView,
    id: Seq<char>,
    kind: Seq<char>,
    value: Option<Seq<char>>,
    semantic: bool,
) -> (ErrandView, ErrandCommandView) {
    match e.job {
        Job::Tap => sending(e, ErrandCommandView::Click { id }),
        Job::SetValue => match text_of(field_of(e.action, "value"@)) {
            Some(text) if text.len() > 0 => (
                at(e, StageView::Clearing { id }),
                ErrandCommandView::Clear { id },
            ),
            _ => sending(e, ErrandCommandView::Clear { id }),
        },
        Job::Perform => perform_next(e, id, kind, value, semantic),
        Job::Scroll => finished(e, FinishView::Invalid),
    }
}

/// Exactly one element is demanded.
pub open spec fn sole_next(
    e: ErrandView,
    ids: Seq<Seq<char>>,
    kind: Seq<char>,
    value: Option<Seq<char>>,
    semantic: bool,
) -> (ErrandView, ErrandCommandView) {
    if ids.len() == 0 {
        finished(e, FinishView::NotFound)
    } else if ids.len() == 1 {
        found_next(e, ids[0], kind, value, semantic)
    } else {
        finished(e, FinishView::Ambiguous)
    }
}

/// The request of an element action came back.
pub open spec fn sent_result(sent: Sent, element: bool) -> FinishView {
    match sent {
        Sent::Done => FinishView::Success,
        Sent::Missing => if element {
            FinishView::NotFound
        } else {
            FinishView::AfterDispatch { never_reached: false }
        },
        Sent::Failed { never_reached } => FinishView::AfterDispatch { never_reached },
    }
}

/// The errand after an event, and what to do next.
pub open spec fn errand_next(e: ErrandView, event: ErrandEventView) -> (
    ErrandView,
    ErrandCommandView,
) {
    match (e.stage, event) {
        (StageView::Reading, ErrandEventView::Rows { rows, snapshot }) => rows_next(
            e,
            rows,
            snapshot,
        ),
        (StageView::Reading, ErrandEventView::ReadFailed) => finished(
            e,
            FinishView::BeforeDispatch,
        ),
        (StageView::Finding { kind, value }, ErrandEventView::Ids(ids)) => sole_next(
            e,
            ids,
            kind,
            value,
            true,
        ),
        (StageView::Finding { .. }, ErrandEventView::ReadFailed) => finished(
            e,
            FinishView::BeforeDispatch,
        ),
        (StageView::Framing { kind, value }, ErrandEventView::Ids(ids)) => sole_next(
            e,
            ids,
            kind,
            value,
            false,
        ),
        (StageView::Framing { .. }, ErrandEventView::ReadFailed) => finished(
            e,
            FinishView::BeforeDispatch,
        ),
        (StageView::Switches { id }, ErrandEventView::Ids(ids)) => sending(
            e,
            ErrandCommandView::Click {
                id: if ids.len() == 1 {
                    ids[0]
                } else {
                    id
                },
            },
        ),
        (StageView::Switches { id }, ErrandEventView::ReadFailed) => sending(
            e,
            ErrandCommandView::Click { id },
        ),
        (StageView::NamedButtons { id, up }, ErrandEventView::Ids(ids)) => if ids.len() == 1 {
            sending(e, ErrandCommandView::Click { id: ids[0] })
        } else if ids.len() == 0 {
            (
                at(e, StageView::Buttons { up }),
                ErrandCommandView::FindFrom { id, chain: class_chain("Button"@) },
            )
        } else {
            finished(e, FinishView::Ambiguous)
        },
        (StageView::NamedButtons { .. }, ErrandEventView::ReadFailed) => finished(
            e,
            FinishView::BeforeDispatch,
        ),
        (StageView::Buttons { up }, ErrandEventView::Ids(ids)) => if ids.len() == 2 {
            (
                at(e, StageView::Sides { first: ids[0], second: ids[1], up }),
                ErrandCommandView::MeasurePair { first: ids[0], second: ids[1] },
            )
        } else if ids.len() < 2 {
            finished(e, FinishView::NotFound)
        } else {
            finished(e, FinishView::Ambiguous)
        },
        (StageView::Buttons { .. }, ErrandEventView::ReadFailed) => finished(
            e,
            FinishView::BeforeDispatch,
        ),
        (StageView::Sides { first, second, up }, ErrandEventView::Side(side)) => match side {
            Some(second_increments) => sending(
                e,
                ErrandCommandView::Click {
                    id: if second_increments == up {
                        second
                    } else {
                        first
                    },
                },
            ),
            None => finished(e, FinishView::InvalidTarget),
        },
        (StageView::Sides { .. }, ErrandEventView::ReadFailed) => finished(
            e,
            FinishView::BeforeDispatch,
        ),
        (StageView::Position { id, target }, ErrandEventView::Position(valid)) => if valid {
            adjusting(e, id, target, false)
        } else {
            finished(e, FinishView::InvalidValue(slider_hint()))
        },
        (StageView::Clearing { id }, ErrandEventView::Sent(_)) => sending(
            e,
            ErrandCommandView::Type {
                id,
                text: match text_of(field_of(e.action, "value"@)) {
                    Some(text) => text,
                    None => ""@,
                },
            },
        ),
        (StageView::Adjusting { id, target, picker }, ErrandEventView::Sent(sent)) => if picker
            && sent == Sent::Done {
            (
                at(e, StageView::ReadingBack { target }),
                ErrandCommandView::ReadValue { id },
            )
        } else {
            finished(e, sent_result(sent, true))
        },
        (StageView::ReadingBack { target }, ErrandEventView::Value(value)) => match value {
            Some(now) if trimmed(now) != trimmed(target) => finished(
                e,
                FinishView::NoEffect(no_effect_hint()),
            ),
            _ => finished(e, FinishView::Success),
        },
        (StageView::ScrollingTo { id }, ErrandEventView::Sent(sent)) => match sent {
            Sent::Failed { never_reached } => (
                at(e, StageView::Looking { never_reached }),
                ErrandCommandView::Look { id },
            ),
            other => finished(e, sent_result(other, true)),
        },
        (StageView::Looking { never_reached }, ErrandEventView::Visible(visible)) => if visible {
            finished(e, FinishView::Success)
        } else {
            finished(e, FinishView::AfterDispatch { never_reached })
        },
        (StageView::Sending { element }, ErrandEventView::Sent(sent)) => finished(
            e,
            sent_result(sent, element),
        ),
        (StageView::Sending { .. }, ErrandEventView::NoTarget) => finished(
            e,
            if e.job == Job::Tap {
                FinishView::Invalid
            } else {
                FinishView::InvalidTarget
            },
        ),
        _ => (e, ErrandCommandView::Ignored),
    }
}

fn class_chain_text(kind: &str) -> (chain: String)
    ensures
        chain@ == class_chain(kind@),
{
    join2("**/XCUIElementType", kind)
}

fn scrollable() -> (kinds: Vec<&'static str>)
    ensures
        strs(kinds@) == scrollable_kinds(),
{
    let kinds: Vec<&'static str> = vec![
        "Table",
        "CollectionView",
        "ScrollView",
        "Picker",
        "PickerWheel",
        "WebView",
    ];
    assert(strs(kinds@) =~= scrollable_kinds());
    kinds
}

fn is_scrollable(kind: &str) -> (scrollable: bool)
    ensures
        scrollable == scrollable_kinds().contains(kind@),
{
    listed(&scrollable(), kind)
}

/// The lookups of everything that scrolls. A tree leaves out what has no label,
/// and so most of it.
pub fn scroll_container_candidates() -> (chains: Vec<String>)
    ensures
        texts(chains@) == scrollable_kinds().map_values(|kind: Seq<char>| class_chain(kind)),
{
    let kinds = scrollable();
    let mut chains: Vec<String> = Vec::new();
    let mut i: usize = 0;
    while i < kinds.len()
        invariant
            i <= kinds@.len(),
            strs(kinds@) == scrollable_kinds(),
            chains@.len() == i,
            forall|k: int|
                0 <= k < i ==> (#[trigger] chains@[k])@ == class_chain(scrollable_kinds()[k]),
        decreases kinds@.len() - i,
    {
        assert(strs(kinds@)[i as int] == kinds@[i as int]@);
        chains.push(class_chain_text(kinds[i]));
        i += 1;
    }
    assert(texts(chains@) =~= scrollable_kinds().map_values(
        |kind: Seq<char>| class_chain(kind),
    ));
    chains
}

fn is_text_input(kind: &str) -> (input: bool)
    ensures
        input == text_input_kinds().contains(kind@),
{
    let kinds: Vec<&'static str> = vec!["TextField", "SecureTextField", "SearchField", "TextView"];
    assert(strs(kinds@) =~= text_input_kinds());
    listed(&kinds, kind)
}

fn has_frame_fallback(verb: &str) -> (fallback: bool)
    ensures
        fallback == frame_fallback_verbs().contains(verb@),
{
    let verbs = perform_verbs_with_frame_fallback();
    listed(&verbs, verb)
}

/// The frames of the rows other than the target in which a swipe might land.
fn swipe_regions(rows: &Vec<ElementRow>, target: usize) -> (found: Vec<[u64; 4]>)
    ensures
        rects(found@) == region_rects(rows@, target as int, rows@.len()),
{
    let mut found: Vec<[u64; 4]> = Vec::new();
    let mut i: usize = 0;
    assert(rects(found@) =~= Seq::empty());
    while i < rows.len()
        invariant
            i <= rows@.len(),
            rects(found@) == region_rects(rows@, target as int, i as nat),
        decreases rows@.len() - i,
    {
        let ghost before = found@;
        if i != target && (same_text(rows[i].kind.as_str(), "Other") || is_scrollable(
            rows[i].kind.as_str(),
        )) {
            found.push(rows[i].rect);
            assert(rects(found@) =~= rects(before).push(rows@[i as int].rect@));
        }
        i += 1;
    }
    found
}

fn copy_text(s: &Option<String>) -> (copy: Option<String>)
    ensures
        opt_text(copy) == opt_text(*s),
{
    match s {
        Some(s) => Some(s.clone()),
        None => None,
    }
}

fn distance_is_zero(action: &Json, key: &str) -> (zero: bool)
    ensures
        zero == distance_zero(action@, key@),
{
    match action.number_field(key) {
        Some(n) => n.is_zero(),
        None => true,
    }
}

fn velocity(action: &Json, forward: bool) -> (velocity: Velocity)
    ensures
        velocity == velocity_of(action@, forward),
{
    match action.number_field("velocity") {
        Some(n) if !n.is_zero() && n.within(Limit { whole: 10, bits: 0x4024_0000_0000_0000 }) => {
            Velocity::Given(n.value())
        },
        _ => {
            if forward {
                Velocity::Forward
            } else {
                Velocity::Backward
            }
        },
    }
}

impl Errand {
    /// Starts an errand where the action says enough for it.
    pub fn start(action: Json, job: Job) -> (errand: Result<Errand, SnapshotElementTapError>)
        ensures
            match errand {
                Ok(errand) => errand_start(action@, job) == Some(errand@),
                Err(error) => errand_start(action@, job) is None && error
                    == SnapshotElementTapError::Invalid,
            },
    {
        let stated = match job {
            Job::Tap => true,
            Job::SetValue => action.text_field("value").is_some(),
            Job::Perform => action.text_field("action").is_some(),
            Job::Scroll => !(distance_is_zero(&action, "dx") && distance_is_zero(&action, "dy")),
        };
        if !stated {
            return Err(SnapshotElementTapError::Invalid);
        }
        let index: usize = match action.unsigned_field("element") {
            Some(index) if index <= usize::MAX as u64 => index as usize,
            _ => {
                return Err(SnapshotElementTapError::Invalid);
            },
        };
        let snapshot = match action.text_field("snapshot") {
            Some(snapshot) if !snapshot.is_empty() => snapshot.to_owned(),
            _ => {
                return Err(SnapshotElementTapError::Invalid);
            },
        };
        Ok(Errand { action, index, snapshot, job, stage: Stage::Reading })
    }

    fn at(self, stage: Stage) -> (errand: Errand)
        ensures
            errand@ == at(self@, stage@),
    {
        Errand {
            action: self.action,
            index: self.index,
            snapshot: self.snapshot,
            job: self.job,
            stage,
        }
    }

    fn finish(self, result: Result<(), SnapshotElementTapError>) -> (next: (Errand, ErrandCommand))
        ensures
            (next.0@, next.1@) == finished(self@, finish_view(result)),
    {
        (self.at(Stage::Over), ErrandCommand::Finish(result))
    }

    fn refuse(self, error: SnapshotElementTapError) -> (next: (Errand, ErrandCommand))
        ensures
            (next.0@, next.1@) == finished(self@, finish_view(Err(error))),
    {
        self.finish(Err(error))
    }

    fn send(self, command: ErrandCommand) -> (next: (Errand, ErrandCommand))
        ensures
            (next.0@, next.1@) == sending(self@, command@),
    {
        (self.at(Stage::Sending { element: true }), command)
    }

    fn look_up(self, row: &ElementRow, frame_chain: Option<String>) -> (next: (
        Errand,
        ErrandCommand,
    ))
        ensures
            (next.0@, next.1@) == lookup_row(self@, *row, opt_text(frame_chain)),
    {
        match snapshot_row_locator(row) {
            Some(locator) => match locator_wda_query(&locator) {
                Some((using, value)) => (
                    self.at(
                        Stage::Finding { kind: row.kind.clone(), value: copy_text(&row.value) },
                    ),
                    ErrandCommand::Find { using, value },
                ),
                None => self.refuse(SnapshotElementTapError::Invalid),
            },
            None => match frame_chain {
                Some(chain) => (
                    self.at(
                        Stage::Framing { kind: row.kind.clone(), value: copy_text(&row.value) },
                    ),
                    ErrandCommand::Frame { chain, rect: row.rect },
                ),
                None => self.refuse(SnapshotElementTapError::InvalidTarget),
            },
        }
    }

    fn rows(self, rows: Vec<ElementRow>, snapshot: String) -> (next: (Errand, ErrandCommand))
        ensures
            (next.0@, next.1@) == rows_next(self@, rows@, snapshot@),
    {
        if !same_text(snapshot.as_str(), self.snapshot.as_str()) {
            return self.refuse(SnapshotElementTapError::Stale);
        }
        if self.index >= rows.len() {
            return self.refuse(SnapshotElementTapError::Invalid);
        }
        let index: usize = self.index;
        let row = &rows[index];
        match self.job {
            Job::Tap => {
                if snapshot_row_locator(row).is_none() {
                    (
                        self.at(Stage::Sending { element: false }),
                        ErrandCommand::TapRect { rect: row.rect },
                    )
                } else {
                    self.look_up(row, None)
                }
            },
            Job::SetValue => {
                let chain = if is_text_input(row.kind.as_str()) {
                    Some(class_chain_text(row.kind.as_str()))
                } else {
                    None
                };
                self.look_up(row, chain)
            },
            Job::Perform => {
                let verb = match self.action.text_field("action") {
                    Some(verb) => verb,
                    None => "",
                };
                if !perform_action_kind_permitted(verb, row) {
                    return self.refuse(SnapshotElementTapError::InvalidTarget);
                }
                let chain = if !has_frame_fallback(verb) {
                    None
                } else if same_text(verb, "toggle") {
                    Some(class_chain_text("Switch"))
                } else {
                    Some(class_chain_text(row.kind.as_str()))
                };
                self.look_up(row, chain)
            },
            Job::Scroll => {
                let others = swipe_regions(&rows, index);
                let is_container = is_scrollable(row.kind.as_str());
                (
                    self.at(Stage::Sending { element: false }),
                    ErrandCommand::ScrollRow { rect: row.rect, is_container, others },
                )
            },
        }
    }

    fn increment(self, id: String, kind: &str, value: Option<String>, up: bool) -> (next: (
        Errand,
        ErrandCommand,
    ))
        ensures
            (next.0@, next.1@) == increment_next(self@, id@, kind@, opt_text(value), up),
    {
        if same_text(kind, "PickerWheel") {
            self.send(ErrandCommand::SpinPicker { id, forward: up })
        } else if same_text(kind, "Stepper") {
            let chain = if up {
                "**/XCUIElementTypeButton[`label == \"Increment\"`]".to_owned()
            } else {
                "**/XCUIElementTypeButton[`label == \"Decrement\"`]".to_owned()
            };
            let parent = id.clone();
            (self.at(Stage::NamedButtons { id, up }), ErrandCommand::FindFrom { id: parent, chain })
        } else if same_text(kind, "Slider") {
            self.send(ErrandCommand::StepSlider { id, value, up })
        } else {
            self.refuse(SnapshotElementTapError::InvalidTarget)
        }
    }

    fn adjust(self, id: String, target: String, picker: bool) -> (next: (Errand, ErrandCommand))
        ensures
            (next.0@, next.1@) == adjusting(self@, id@, target@, picker),
    {
        let command = ErrandCommand::Adjust { id: id.clone(), target: target.clone() };
        (self.at(Stage::Adjusting { id, target, picker }), command)
    }

    fn force_press(self, id: String) -> (next: (Errand, ErrandCommand))
        ensures
            (next.0@, next.1@) == force_press_next(self@, id@),
    {
        let given = self.action.has("pressure");
        let pressure = match self.action.number_field("pressure") {
            Some(n) => {
                if !(n.is_positive() && n.within(
                    Limit { whole: 5, bits: 0x4014_0000_0000_0000 },
                )) {
                    return self.refuse(SnapshotElementTapError::Invalid);
                }
                Some(n.value())
            },
            None => {
                if given {
                    return self.refuse(SnapshotElementTapError::Invalid);
                }
                None
            },
        };
        let ms: Option<u64> = self.action.unsigned_field("duration_ms");
        if self.action.has("duration_ms") {
            match ms {
                Some(ms) if 0 < ms && ms <= 10_000 => {},
                _ => {
                    return self.refuse(SnapshotElementTapError::Invalid);
                },
            }
        }
        self.send(ErrandCommand::ForcePress { id, pressure, ms })
    }

    fn perform(self, id: String, kind: &str, value: Option<String>, semantic: bool) -> (next: (
        Errand,
        ErrandCommand,
    ))
        ensures
            (next.0@, next.1@) == perform_next(self@, id@, kind@, opt_text(value), semantic),
    {
        let verb = match self.action.text_field("action") {
            Some(verb) => verb,
            None => "",
        };
        if same_text(verb, "toggle") {
            if semantic {
                let chain = class_chain_text("Switch");
                let parent = id.clone();
                return (
                    self.at(Stage::Switches { id }),
                    ErrandCommand::FindFrom { id: parent, chain },
                );
            }
            return self.send(ErrandCommand::Click { id });
        }
        if same_text(verb, "increment") || same_text(verb, "decrement") {
            let up = same_text(verb, "increment");
            return self.increment(id, kind, value, up);
        }
        if same_text(verb, "adjust") {
            let target = match self.action.text_field("value") {
                Some(target) => target.to_owned(),
                None => {
                    return self.refuse(
                        SnapshotElementTapError::InvalidValue(
                            "adjust needs \"value\" as a JSON string: a picker option's text, or a slider position such as \"0.5\"",
                        ),
                    );
                },
            };
            if same_text(kind, "Slider") {
                let text = target.clone();
                return (
                    self.at(Stage::Position { id, target }),
                    ErrandCommand::CheckPosition { text },
                );
            }
            let picker = same_text(kind, "PickerWheel");
            return self.adjust(id, target, picker);
        }
        if same_text(verb, "menu") {
            let ms: u64 = match self.action.unsigned_field("duration_ms") {
                Some(ms) => if ms < 300 {
                    300
                } else if ms > 2000 {
                    2000
                } else {
                    ms
                },
                None => 600,
            };
            return self.send(ErrandCommand::Hold { id, ms });
        }
        if same_text(verb, "double_tap") {
            return self.send(ErrandCommand::DoubleTap { id });
        }
        if same_text(verb, "two_finger_tap") {
            return self.send(ErrandCommand::TwoFingerTap { id });
        }
        if same_text(verb, "scroll_to_visible") {
            let target = id.clone();
            return (self.at(Stage::ScrollingTo { id }), ErrandCommand::ScrollTo { id: target });
        }
        if same_text(verb, "pinch") {
            let (scale, forward) = match self.action.number_field("scale") {
                Some(n) if n.is_positive() && n.within(
                    Limit { whole: 10, bits: 0x4024_0000_0000_0000 },
                ) => (n.value(), n.is_at_least_one()),
                _ => {
                    return self.refuse(SnapshotElementTapError::Invalid);
                },
            };
            let velocity = velocity(&self.action, forward);
            return self.send(ErrandCommand::Pinch { id, scale, velocity });
        }
        if same_text(verb, "rotate") {
            let (rotation, forward) = match self.action.number_field("rotation") {
                Some(n) if !n.is_zero() && n.within(
                    Limit { whole: 6, bits: 0x4019_21FB_5444_2D18 },
                ) => (n.value(), n.is_positive()),
                _ => {
                    return self.refuse(SnapshotElementTapError::Invalid);
                },
            };
            let velocity = velocity(&self.action, forward);
            return self.send(ErrandCommand::Rotate { id, rotation, velocity });
        }
        if same_text(verb, "force_press") {
            return self.force_press(id);
        }
        self.refuse(SnapshotElementTapError::Invalid)
    }

    fn found(self, id: String, kind: &str, value: Option<String>, semantic: bool) -> (next: (
        Errand,
        ErrandCommand,
    ))
        ensures
            (next.0@, next.1@) == found_next(self@, id@, kind@, opt_text(value), semantic),
    {
        match self.job {
            Job::Tap => self.send(ErrandCommand::Click { id }),
            Job::SetValue => {
                let clear_only = match self.action.text_field("value") {
                    Some(text) => text.is_empty(),
                    None => true,
                };
                if clear_only {
                    self.send(ErrandCommand::Clear { id })
                } else {
                    let target = id.clone();
                    (self.at(Stage::Clearing { id }), ErrandCommand::Clear { id: target })
                }
            },
            Job::Perform => self.perform(id, kind, value, semantic),
            Job::Scroll => self.refuse(SnapshotElementTapError::Invalid),
        }
    }

    fn sole(self, ids: Vec<String>, kind: &str, value: Option<String>, semantic: bool) -> (next: (
        Errand,
        ErrandCommand,
    ))
        ensures
            (next.0@, next.1@) == sole_next(
                self@,
                texts(ids@),
                kind@,
                opt_text(value),
                semantic,
            ),
    {
        if ids.len() == 0 {
            self.refuse(SnapshotElementTapError::NotFound)
        } else if ids.len() == 1 {
            let id = ids[0].clone();
            self.found(id, kind, value, semantic)
        } else {
            self.refuse(SnapshotElementTapError::Ambiguous)
        }
    }

    fn sent(self, sent: Sent, element: bool) -> (next: (Errand, ErrandCommand))
        ensures
            (next.0@, next.1@) == finished(self@, sent_result(sent, element)),
    {
        match sent {
            Sent::Done => self.finish(Ok(())),
            Sent::Missing => {
                if element {
                    self.refuse(SnapshotElementTapError::NotFound)
                } else {
                    self.refuse(SnapshotElementTapError::AfterDispatch { never_reached: false })
                }
            },
            Sent::Failed { never_reached } => self.refuse(
                SnapshotElementTapError::AfterDispatch { never_reached },
            ),
        }
    }

    /// Takes the stage out of an errand.
    fn split(self) -> (parts: (Errand, Stage))
        ensures
            parts.0@ == at(self@, StageView::Over),
            parts.1@ == self@.stage,
    {
        (
            Errand {
                action: self.action,
                index: self.index,
                snapshot: self.snapshot,
                job: self.job,
                stage: Stage::Over,
            },
            self.stage,
        )
    }

    /// The errand after an event, and what to do next.
    #[verifier::rlimit(60)]
    pub fn advance(self, event: ErrandEvent) -> (next: (Errand, ErrandCommand))
        ensures
            (next.0@, next.1@) == errand_next(self@, event@),
    {
        let (errand, stage) = self.split();
        match (stage, event) {
            (Stage::Reading, ErrandEvent::Rows { rows, snapshot }) => errand.rows(rows, snapshot),
            (Stage::Reading, ErrandEvent::ReadFailed) => errand.refuse(
                SnapshotElementTapError::BeforeDispatch,
            ),
            (Stage::Finding { kind, value }, ErrandEvent::Ids(ids)) => errand.sole(
                ids,
                kind.as_str(),
                value,
                true,
            ),
            (Stage::Finding { .. }, ErrandEvent::ReadFailed) => errand.refuse(
                SnapshotElementTapError::BeforeDispatch,
            ),
            (Stage::Framing { kind, value }, ErrandEvent::Ids(ids)) => errand.sole(
                ids,
                kind.as_str(),
                value,
                false,
            ),
            (Stage::Framing { .. }, ErrandEvent::ReadFailed) => errand.refuse(
                SnapshotElementTapError::BeforeDispatch,
            ),
            (Stage::Switches { id }, ErrandEvent::Ids(ids)) => {
                let id = if ids.len() == 1 {
                    ids[0].clone()
                } else {
                    id
                };
                errand.send(ErrandCommand::Click { id })
            },
            (Stage::Switches { id }, ErrandEvent::ReadFailed) => errand.send(
                ErrandCommand::Click { id },
            ),
            (Stage::NamedButtons { id, up }, ErrandEvent::Ids(ids)) => {
                if ids.len() == 1 {
                    let id = ids[0].clone();
                    errand.send(ErrandCommand::Click { id })
                } else if ids.len() == 0 {
                    let chain = class_chain_text("Button");
                    (errand.at(Stage::Buttons { up }), ErrandCommand::FindFrom { id, chain })
                } else {
                    errand.refuse(SnapshotElementTapError::Ambiguous)
                }
            },
            (Stage::NamedButtons { .. }, ErrandEvent::ReadFailed) => errand.refuse(
                SnapshotElementTapError::BeforeDispatch,
            ),
            (Stage::Buttons { up }, ErrandEvent::Ids(ids)) => {
                if ids.len() == 2 {
                    let first = ids[0].clone();
                    let second = ids[1].clone();
                    let command = ErrandCommand::MeasurePair {
                        first: first.clone(),
                        second: second.clone(),
                    };
                    (errand.at(Stage::Sides { first, second, up }), command)
                } else if ids.len() < 2 {
                    errand.refuse(SnapshotElementTapError::NotFound)
                } else {
                    errand.refuse(SnapshotElementTapError::Ambiguous)
                }
            },
            (Stage::Buttons { .. }, ErrandEvent::ReadFailed) => errand.refuse(
                SnapshotElementTapError::BeforeDispatch,
            ),
            (Stage::Sides { first, second, up }, ErrandEvent::Side(side)) => match side {
                Some(second_increments) => {
                    let id = if second_increments == up {
                        second
                    } else {
                        first
                    };
                    errand.send(ErrandCommand::Click { id })
                },
                None => errand.refuse(SnapshotElementTapError::InvalidTarget),
            },
            (Stage::Sides { .. }, ErrandEvent::ReadFailed) => errand.refuse(
                SnapshotElementTapError::BeforeDispatch,
            ),
            (Stage::Position { id, target }, ErrandEvent::Position(valid)) => {
                if valid {
                    errand.adjust(id, target, false)
                } else {
                    errand.refuse(
                        SnapshotElementTapError::InvalidValue(
                            "a Slider adjust value is a normalized position from \"0\" to \"1\"",
                        ),
                    )
                }
            },
            (Stage::Clearing { id }, ErrandEvent::Sent(_)) => {
                let text = match errand.action.text_field("value") {
                    Some(text) => text.to_owned(),
                    None => "".to_owned(),
                };
                errand.send(ErrandCommand::Type { id, text })
            },
            (Stage::Adjusting { id, target, picker }, ErrandEvent::Sent(sent)) => {
                if picker && sent == Sent::Done {
                    (errand.at(Stage::ReadingBack { target }), ErrandCommand::ReadValue { id })
                } else {
                    errand.sent(sent, true)
                }
            },
            (Stage::ReadingBack { target }, ErrandEvent::Value(value)) => match value {
                Some(now) if !same_text(trim(now.as_str()), trim(target.as_str())) => {
                    errand.refuse(
                        SnapshotElementTapError::NoEffect(
                            "WDA acknowledged the value but the picker did not move; the value must match one of the wheel's options exactly (read the row's value and try the option text as shown)",
                        ),
                    )
                },
                _ => errand.finish(Ok(())),
            },
            (Stage::ScrollingTo { id }, ErrandEvent::Sent(sent)) => match sent {
                Sent::Failed { never_reached } => (
                    errand.at(Stage::Looking { never_reached }),
                    ErrandCommand::Look { id },
                ),
                other => errand.sent(other, true),
            },
            (Stage::Looking { never_reached }, ErrandEvent::Visible(visible)) => {
                if visible {
                    errand.finish(Ok(()))
                } else {
                    errand.refuse(SnapshotElementTapError::AfterDispatch { never_reached })
                }
            },
            (Stage::Sending { element }, ErrandEvent::Sent(sent)) => errand.sent(sent, element),
            (Stage::Sending { .. }, ErrandEvent::NoTarget) => {
                if errand.job == Job::Tap {
                    errand.refuse(SnapshotElementTapError::Invalid)
                } else {
                    errand.refuse(SnapshotElementTapError::InvalidTarget)
                }
            },
            (stage, _) => (errand.at(stage), ErrandCommand::Ignored),
        }
    }
}

/// Commands that change the phone.
pub open spec fn mutates(command: ErrandCommandView) -> bool {
    match command {
        ErrandCommandView::ReadTree => false,
        ErrandCommandView::Find { .. } => false,
        ErrandCommandView::Frame { .. } => false,
        ErrandCommandView::FindFrom { .. } => false,
        ErrandCommandView::MeasurePair { .. } => false,
        ErrandCommandView::CheckPosition { .. } => false,
        ErrandCommandView::ReadValue { .. } => false,
        ErrandCommandView::Look { .. } => false,
        ErrandCommandView::Finish(_) => false,
        ErrandCommandView::Ignored => false,
        _ => true,
    }
}

/// The request of the errand has been made.
pub open spec fn dispatched(stage: StageView) -> bool {
    match stage {
        StageView::Adjusting { .. } => true,
        StageView::ReadingBack { .. } => true,
        StageView::ScrollingTo { .. } => true,
        StageView::Looking { .. } => true,
        StageView::Sending { .. } => true,
        StageView::Over => true,
        _ => false,
    }
}

/// Once the request of an errand has been made, nothing that happens makes it
/// change the phone again; and no request is made without that being noted. The
/// one change before the request is the clearing of a field that is then typed
/// into.
pub proof fn law_an_errand_changes_the_phone_once(e: ErrandView, event: ErrandEventView)
    ensures
        dispatched(e.stage) ==> !mutates(errand_next(e, event).1) && dispatched(
            errand_next(e, event).0.stage,
        ),
        mutates(errand_next(e, event).1) ==> dispatched(errand_next(e, event).0.stage)
            || errand_next(e, event).0.stage is Clearing,
        errand_next(e, event).0.stage is Clearing && errand_next(e, event).1 !is Ignored
            ==> errand_next(e, event).1 is Clear && e.stage !is Clearing,
{
    let n = errand_next(e, event);
    match (e.stage, event) {
        (StageView::Finding { kind, value }, ErrandEventView::Ids(ids)) => {
            if ids.len() == 1 {
                assert(n == found_next(e, ids[0], kind, value, true));
            }
        },
        (StageView::Framing { kind, value }, ErrandEventView::Ids(ids)) => {
            if ids.len() == 1 {
                assert(n == found_next(e, ids[0], kind, value, false));
            }
        },
        _ => {},
    }
}

/// A tree that is not the one the caller saw is never acted on.
pub proof fn law_a_stale_snapshot_changes_nothing(
    e: ErrandView,
    rows: Seq<ElementRow>,
    snapshot: Seq<char>,
)
    requires
        e.stage is Reading,
        snapshot != e.snapshot,
    ensures
        errand_next(e, ErrandEventView::Rows { rows, snapshot }) == finished(
            e,
            FinishView::Stale,
        ),
{
}

/// A lookup that finds no element, or more than one, ends the errand without a
/// change to the phone.
pub proof fn law_only_a_unique_match_is_acted_on(e: ErrandView, ids: Seq<Seq<char>>)
    requires
        e.stage is Finding || e.stage is Framing,
        ids.len() != 1,
    ensures
        errand_next(e, ErrandEventView::Ids(ids)) == finished(
            e,
            if ids.len() == 0 {
                FinishView::NotFound
            } else {
                FinishView::Ambiguous
            },
        ),
{
}

/// The lengths and some letters of words, which tell them apart.
proof fn lemma_verb_words()
    ensures
        "menu"@.len() == 4,
        "pinch"@.len() == 5,
        "adjust"@.len() == 6,
        "adjust"@[3] == 'u',
        "toggle"@.len() == 6,
        "toggle"@[3] == 'g',
        "rotate"@.len() == 6,
        "rotate"@[3] == 'a',
        "Slider"@.len() == 6,
        "Slider"@[3] == 'd',
        "Switch"@.len() == 6,
        "Switch"@[3] == 't',
        "Stepper"@.len() == 7,
        "increment"@.len() == 9,
        "increment"@[0] == 'i',
        "decrement"@.len() == 9,
        "decrement"@[0] == 'd',
        "double_tap"@.len() == 10,
        "force_press"@.len() == 11,
        "force_press"@[0] == 'f',
        "PickerWheel"@.len() == 11,
        "PickerWheel"@[0] == 'P',
        "two_finger_tap"@.len() == 14,
        "scroll_to_visible"@.len() == 17,
{
    reveal_strlit("menu");
    reveal_strlit("pinch");
    reveal_strlit("adjust");
    reveal_strlit("toggle");
    reveal_strlit("rotate");
    reveal_strlit("Slider");
    reveal_strlit("Switch");
    reveal_strlit("Stepper");
    reveal_strlit("increment");
    reveal_strlit("decrement");
    reveal_strlit("double_tap");
    reveal_strlit("force_press");
    reveal_strlit("PickerWheel");
    reveal_strlit("two_finger_tap");
    reveal_strlit("scroll_to_visible");
}

/// Incrementing moves a wheel to its next option, a slider up, and presses the
/// button of a stepper that is labelled Increment; decrementing does the
/// opposite of each. Nothing else takes part.
pub proof fn law_increment_goes_up_and_decrement_down(
    e: ErrandView,
    id: Seq<char>,
    kind: Seq<char>,
    value: Option<Seq<char>>,
)
    requires
        e.job == Job::Perform,
        e.stage == (StageView::Finding { kind, value }) || e.stage == (StageView::Framing {
            kind,
            value,
        }),
    ensures
        ({
            let next = errand_next(e, ErrandEventView::Ids(seq![id])).1;
            &&& text_of(field_of(e.action, "action"@)) == Some("increment"@) ==> {
                &&& kind == "PickerWheel"@ ==> next == (ErrandCommandView::SpinPicker {
                    id,
                    forward: true,
                })
                &&& kind == "Slider"@ ==> next == (ErrandCommandView::StepSlider {
                    id,
                    value,
                    up: true,
                })
                &&& kind == "Stepper"@ ==> next == (ErrandCommandView::FindFrom {
                    id,
                    chain: "**/XCUIElementTypeButton[`label == \"Increment\"`]"@,
                })
                &&& kind != "PickerWheel"@ && kind != "Slider"@ && kind != "Stepper"@ ==> next
                    == ErrandCommandView::Finish(FinishView::InvalidTarget)
            }
            &&& text_of(field_of(e.action, "action"@)) == Some("decrement"@) ==> {
                &&& kind == "PickerWheel"@ ==> next == (ErrandCommandView::SpinPicker {
                    id,
                    forward: false,
                })
                &&& kind == "Slider"@ ==> next == (ErrandCommandView::StepSlider {
                    id,
                    value,
                    up: false,
                })
                &&& kind == "Stepper"@ ==> next == (ErrandCommandView::FindFrom {
                    id,
                    chain: "**/XCUIElementTypeButton[`label == \"Decrement\"`]"@,
                })
                &&& kind != "PickerWheel"@ && kind != "Slider"@ && kind != "Stepper"@ ==> next
                    == ErrandCommandView::Finish(FinishView::InvalidTarget)
            }
        }),
{
    lemma_verb_words();
}

/// A stepper's labelled button is pressed where there is exactly one; where
/// there is none, the two buttons are told apart by their sides, and of them the
/// one is pressed that goes the way that was asked for.
pub proof fn law_a_stepper_goes_the_way_it_is_told(
    e: ErrandView,
    id: Seq<char>,
    kind: Seq<char>,
    value: Option<Seq<char>>,
    button: Seq<char>,
    other: Seq<char>,
    second_increments: bool,
)
    requires
        e.job == Job::Perform,
        e.stage == (StageView::Finding { kind, value }),
        kind == "Stepper"@,
        text_of(field_of(e.action, "action"@)) == Some("increment"@) || text_of(
            field_of(e.action, "action"@),
        ) == Some("decrement"@),
    ensures
        ({
            let up = text_of(field_of(e.action, "action"@)) == Some("increment"@);
            let named = errand_next(e, ErrandEventView::Ids(seq![id])).0;
            let both = errand_next(named, ErrandEventView::Ids(Seq::empty()));
            let sides = errand_next(both.0, ErrandEventView::Ids(seq![button, other]));
            let pressed = errand_next(sides.0, ErrandEventView::Side(Some(second_increments))).1;
            &&& errand_next(named, ErrandEventView::Ids(seq![button])).1
                == (ErrandCommandView::Click { id: button })
            &&& errand_next(named, ErrandEventView::Ids(seq![button, other])).1
                == ErrandCommandView::Finish(FinishView::Ambiguous)
            &&& both.1 == (ErrandCommandView::FindFrom { id, chain: "**/XCUIElementTypeButton"@ })
            &&& sides.1 == (ErrandCommandView::MeasurePair { first: button, second: other })
            &&& up && second_increments ==> pressed == (ErrandCommandView::Click { id: other })
            &&& up && !second_increments ==> pressed == (ErrandCommandView::Click { id: button })
            &&& !up && second_increments ==> pressed == (ErrandCommandView::Click { id: button })
            &&& !up && !second_increments ==> pressed == (ErrandCommandView::Click { id: other })
            &&& errand_next(sides.0, ErrandEventView::Side(None)).1 == ErrandCommandView::Finish(
                FinishView::InvalidTarget,
            )
        }),
{
    lemma_verb_words();
    reveal_strlit("**/XCUIElementType");
    reveal_strlit("Button");
    reveal_strlit("**/XCUIElementTypeButton");
    assert(class_chain("Button"@) =~= "**/XCUIElementTypeButton"@);
}

/// The verbs without a direction lead to the gesture that they name, on the
/// element that was found and with what the action says.
pub proof fn law_a_verb_leads_to_its_gesture(
    e: ErrandView,
    id: Seq<char>,
    kind: Seq<char>,
    value: Option<Seq<char>>,
)
    requires
        e.job == Job::Perform,
        e.stage == (StageView::Finding { kind, value }) || e.stage == (StageView::Framing {
            kind,
            value,
        }),
    ensures
        ({
            let verb = text_of(field_of(e.action, "action"@));
            let next = errand_next(e, ErrandEventView::Ids(seq![id])).1;
            let target = text_of(field_of(e.action, "value"@));
            let asked = unsigned_of(field_of(e.action, "duration_ms"@));
            &&& verb == Some("toggle"@) && e.stage is Framing ==> next
                == (ErrandCommandView::Click { id })
            &&& verb == Some("toggle"@) && e.stage is Finding ==> next
                == (ErrandCommandView::FindFrom { id, chain: "**/XCUIElementTypeSwitch"@ })
            &&& verb == Some("adjust"@) && kind == "Slider"@ ==> (target matches Some(target)
                ==> next == (ErrandCommandView::CheckPosition { text: target }))
            &&& verb == Some("adjust"@) && kind != "Slider"@ ==> (target matches Some(target)
                ==> next == (ErrandCommandView::Adjust { id, target }))
            &&& verb == Some("adjust"@) && target is None ==> (next matches
                ErrandCommandView::Finish(FinishView::InvalidValue(_)))
            &&& verb == Some("menu"@) && asked is None ==> next == (ErrandCommandView::Hold {
                id,
                ms: 600,
            })
            &&& verb == Some("menu"@) ==> (asked matches Some(asked) ==> {
                &&& next matches ErrandCommandView::Hold { id: held, ms }
                &&& held == id
                &&& 300 <= ms <= 2000
                &&& 300 <= asked <= 2000 ==> ms == asked
                &&& asked < 300 ==> ms == 300
                &&& asked > 2000 ==> ms == 2000
            })
            &&& verb == Some("double_tap"@) ==> next == (ErrandCommandView::DoubleTap { id })
            &&& verb == Some("two_finger_tap"@) ==> next == (ErrandCommandView::TwoFingerTap {
                id,
            })
            &&& verb == Some("scroll_to_visible"@) ==> next == (ErrandCommandView::ScrollTo { id })
            &&& verb == Some("force_press"@) && field_of(e.action, "pressure"@) is None && field_of(
                e.action,
                "duration_ms"@,
            ) is None ==> next == (ErrandCommandView::ForcePress { id, pressure: None, ms: None })
        }),
{
    lemma_verb_words();
    reveal_strlit("**/XCUIElementType");
    reveal_strlit("**/XCUIElementTypeSwitch");
    reveal_strlit("Switch");
    assert(class_chain("Switch"@) =~= "**/XCUIElementTypeSwitch"@);
}

/// A pinch, a rotation and a hard press are sent with the numbers that the action
/// gives, and not sent where those are out of bounds. Without a speed they go one
/// unit, outwards for a pinch that enlarges and the way a rotation turns.
pub proof fn law_a_gesture_has_the_numbers_of_its_action(
    e: ErrandView,
    id: Seq<char>,
    kind: Seq<char>,
    value: Option<Seq<char>>,
)
    requires
        e.job == Job::Perform,
        e.stage == (StageView::Finding { kind, value }) || e.stage == (StageView::Framing {
            kind,
            value,
        }),
    ensures
        ({
            let verb = text_of(field_of(e.action, "action"@));
            let next = errand_next(e, ErrandEventView::Ids(seq![id])).1;
            let scale = number_of(field_of(e.action, "scale"@));
            let rotation = number_of(field_of(e.action, "rotation"@));
            let velocity = number_of(field_of(e.action, "velocity"@));
            let pressure = number_of(field_of(e.action, "pressure"@));
            &&& verb == Some("pinch"@) ==> (next matches ErrandCommandView::Pinch {
                id: at,
                scale: by,
                velocity: speed,
            } ==> at == id && Some(by) == scale && number_positive(by) && (speed matches
                Velocity::Given(v) ==> Some(v) == velocity) && (speed == Velocity::Forward
                ==> number_at_least_one(by)) && (speed == Velocity::Backward
                ==> !number_at_least_one(by)))
            &&& verb == Some("pinch"@) && !(next is Pinch) ==> next == ErrandCommandView::Finish(
                FinishView::Invalid,
            )
            &&& verb == Some("pinch"@) && velocity is None ==> (scale matches Some(
                NumberView::Unsigned(n),
            ) ==> 1 <= n <= 10 ==> next == (ErrandCommandView::Pinch {
                id,
                scale: NumberView::Unsigned(n),
                velocity: Velocity::Forward,
            }))
            &&& verb == Some("rotate"@) ==> (next matches ErrandCommandView::Rotate {
                id: at,
                rotation: by,
                velocity: speed,
            } ==> at == id && Some(by) == rotation && !number_zero(by) && (speed matches
                Velocity::Given(v) ==> Some(v) == velocity) && (speed == Velocity::Forward
                ==> number_positive(by)) && (speed == Velocity::Backward ==> !number_positive(by)))
            &&& verb == Some("rotate"@) && !(next is Rotate) ==> next == ErrandCommandView::Finish(
                FinishView::Invalid,
            )
            &&& verb == Some("rotate"@) && velocity is None ==> (rotation matches Some(
                NumberView::Negative(n),
            ) ==> -6 <= n < 0 ==> next == (ErrandCommandView::Rotate {
                id,
                rotation: NumberView::Negative(n),
                velocity: Velocity::Backward,
            }))
            &&& verb == Some("rotate"@) && velocity is None ==> (rotation matches Some(
                NumberView::Unsigned(n),
            ) ==> 1 <= n <= 6 ==> next == (ErrandCommandView::Rotate {
                id,
                rotation: NumberView::Unsigned(n),
                velocity: Velocity::Forward,
            }))
            &&& verb == Some("force_press"@) ==> (next matches ErrandCommandView::ForcePress {
                id: at,
                pressure: p,
                ms,
            } ==> at == id && p == pressure && ms == unsigned_of(
                field_of(e.action, "duration_ms"@),
            ) && (p matches Some(p) ==> number_positive(p)))
        }),
{
    lemma_verb_words();
}

/// Toggling presses the one switch inside a row, and the row itself where it has
/// none or several or cannot be looked into.
pub proof fn law_a_toggle_presses_the_switch(e: ErrandView, id: Seq<char>, ids: Seq<Seq<char>>)
    requires
        e.stage == (StageView::Switches { id }),
    ensures
        ids.len() == 1 ==> errand_next(e, ErrandEventView::Ids(ids)).1
            == (ErrandCommandView::Click { id: ids[0] }),
        ids.len() != 1 ==> errand_next(e, ErrandEventView::Ids(ids)).1
            == (ErrandCommandView::Click { id }),
        errand_next(e, ErrandEventView::ReadFailed).1 == (ErrandCommandView::Click { id }),
{
}

/// Setting a value clears the field and then types exactly the value, once, into
/// the same field; an empty value clears only.
pub proof fn law_a_value_replaces_what_was_there(
    e: ErrandView,
    id: Seq<char>,
    kind: Seq<char>,
    shown: Option<Seq<char>>,
    sent: Sent,
    text: Seq<char>,
)
    requires
        e.job == Job::SetValue,
        e.stage == (StageView::Finding { kind, value: shown }) || e.stage
            == (StageView::Framing { kind, value: shown }),
        text_of(field_of(e.action, "value"@)) == Some(text),
    ensures
        ({
            let cleared = errand_next(e, ErrandEventView::Ids(seq![id]));
            let typed = errand_next(cleared.0, ErrandEventView::Sent(sent));
            &&& cleared.1 == (ErrandCommandView::Clear { id })
            &&& text.len() > 0 ==> typed.1 == (ErrandCommandView::Type { id, text })
            &&& text.len() == 0 ==> typed.1 is Finish
            &&& text.len() == 0 && sent == Sent::Done ==> typed.1 == ErrandCommandView::Finish(
                FinishView::Success,
            )
        }),
{
}

/// A tap on a row clicks the element that was found for it.
pub proof fn law_a_tap_clicks_what_was_found(
    e: ErrandView,
    id: Seq<char>,
    kind: Seq<char>,
    value: Option<Seq<char>>,
)
    requires
        e.job == Job::Tap,
        e.stage == (StageView::Finding { kind, value }),
    ensures
        errand_next(e, ErrandEventView::Ids(seq![id])).1 == (ErrandCommandView::Click { id }),
{
}

/// A slider is moved only to a text that is a position, and a wheel counts as
/// moved only where it then shows the option that was asked for.
pub proof fn law_an_adjustment_takes_effect_or_says_so(
    e: ErrandView,
    id: Seq<char>,
    target: Seq<char>,
    shown: Seq<char>,
    valid: bool,
    sent: Sent,
)
    ensures
        e.stage == (StageView::Position { id, target }) ==> {
            let next = errand_next(e, ErrandEventView::Position(valid)).1;
            &&& valid ==> next == (ErrandCommandView::Adjust { id, target })
            &&& !valid ==> (next matches ErrandCommandView::Finish(FinishView::InvalidValue(_)))
        },
        e.stage == (StageView::Adjusting { id, target, picker: true }) ==> {
            let next = errand_next(e, ErrandEventView::Sent(sent));
            &&& sent == Sent::Done ==> next.1 == (ErrandCommandView::ReadValue { id })
            &&& sent != Sent::Done ==> next.1 is Finish && next.1 != ErrandCommandView::Finish(
                FinishView::Success,
            )
            &&& sent == Sent::Done && trimmed(shown) != trimmed(target) ==> (errand_next(
                next.0,
                ErrandEventView::Value(Some(shown)),
            ).1 matches ErrandCommandView::Finish(FinishView::NoEffect(_)))
            &&& sent == Sent::Done && trimmed(shown) == trimmed(target) ==> errand_next(
                next.0,
                ErrandEventView::Value(Some(shown)),
            ).1 == ErrandCommandView::Finish(FinishView::Success)
        },
        e.stage == (StageView::Adjusting { id, target, picker: false }) && sent == Sent::Done
            ==> errand_next(e, ErrandEventView::Sent(sent)).1 == ErrandCommandView::Finish(
            FinishView::Success,
        ),
{
}

/// An errand is a success only where its request went through; where the request
/// failed, the errand tells that it failed after the sending, and whether
/// anything can have been delivered; where the element was gone, that it was not
/// found.
pub proof fn law_an_errand_ends_as_its_request_did(e: ErrandView, element: bool, sent: Sent)
    requires
        e.stage == (StageView::Sending { element }),
    ensures
        ({
            let next = errand_next(e, ErrandEventView::Sent(sent)).1;
            &&& next == ErrandCommandView::Finish(FinishView::Success) <==> sent == Sent::Done
            &&& sent matches Sent::Failed { never_reached } ==> next == ErrandCommandView::Finish(
                FinishView::AfterDispatch { never_reached },
            )
            &&& sent == Sent::Missing && element ==> next == ErrandCommandView::Finish(
                FinishView::NotFound,
            )
            &&& sent == Sent::Missing && !element ==> next == ErrandCommandView::Finish(
                FinishView::AfterDispatch { never_reached: false },
            )
        }),
{
}

/// A scroll into view that reports a failure counts as done where the element is
/// then on screen, and as failed where it is not.
pub proof fn law_a_scroll_into_view_is_judged_by_the_screen(
    e: ErrandView,
    id: Seq<char>,
    never_reached: bool,
    visible: bool,
)
    requires
        e.stage == (StageView::ScrollingTo { id }),
    ensures
        errand_next(e, ErrandEventView::Sent(Sent::Done)).1 == ErrandCommandView::Finish(
            FinishView::Success,
        ),
        errand_next(e, ErrandEventView::Sent(Sent::Missing)).1 == ErrandCommandView::Finish(
            FinishView::NotFound,
        ),
        ({
            let failed = errand_next(e, ErrandEventView::Sent(Sent::Failed { never_reached }));
            let end = errand_next(failed.0, ErrandEventView::Visible(visible)).1;
            &&& failed.1 == (ErrandCommandView::Look { id })
            &&& visible ==> end == ErrandCommandView::Finish(FinishView::Success)
            &&& !visible ==> end == ErrandCommandView::Finish(
                FinishView::AfterDispatch { never_reached },
            )
        }),
{
}

/// A read that fails before the request ends the errand as not sent.
pub proof fn law_a_failed_lookup_sends_nothing(e: ErrandView)
    requires
        e.stage is Reading || e.stage is Finding || e.stage is Framing || e.stage is NamedButtons
            || e.stage is Buttons || e.stage is Sides,
    ensures
        errand_next(e, ErrandEventView::ReadFailed).1 == ErrandCommandView::Finish(
            FinishView::BeforeDispatch,
        ),
{
}

/// An errand starts only for an action that names a row by its index and the
/// token of the tree it was seen in, and then it is about that row of that tree.
pub proof fn law_an_errand_is_about_the_row_named(action: JsonView, job: Job)
    ensures
        errand_start(action, job) matches Some(e) ==> {
            &&& field_of(action, "element"@) matches Some(JsonView::Number(NumberView::Unsigned(n)))
                && e.index == n
            &&& field_of(action, "snapshot"@) == Some(JsonView::Text(e.snapshot))
            &&& e.snapshot.len() > 0
            &&& e.action == action
            &&& e.job == job
            &&& e.stage is Reading
        },
        errand_start(action, job) is Some && job == Job::SetValue ==> (field_of(action, "value"@)
            matches Some(JsonView::Text(_))),
        errand_start(action, job) is Some && job == Job::Perform ==> (field_of(action, "action"@)
            matches Some(JsonView::Text(_))),
        errand_start(action, job) is Some && job == Job::Scroll ==> exists|key: Seq<char>|
            (key == "dx"@ || key == "dy"@) && (#[trigger] number_of(field_of(action, key)) matches
                Some(n) && !number_zero(n)),
        (field_of(action, "element"@) matches Some(JsonView::Number(NumberView::Unsigned(n))) && n
            <= usize::MAX) && (field_of(action, "snapshot"@) matches Some(JsonView::Text(s)) && s.len()
            > 0) && job == Job::Tap ==> errand_start(action, job) is Some,
{
    if errand_start(action, job) is Some && job == Job::Scroll {
        if !distance_zero(action, "dx"@) {
            assert(number_of(field_of(action, "dx"@)) is Some);
        } else {
            assert(number_of(field_of(action, "dy"@)) is Some);
        }
    }
}

/// Where the tree is still the one that was seen, the row at the index that was
/// named is the one that is looked for: a row that says nothing is tapped where
/// it stands, and a scroll starts from its frame.
pub proof fn law_the_row_named_is_the_one_acted_on(
    e: ErrandView,
    rows: Seq<ElementRow>,
    snapshot: Seq<char>,
)
    requires
        e.stage is Reading,
        snapshot == e.snapshot,
    ensures
        ({
            let (n, next) = errand_next(e, ErrandEventView::Rows { rows, snapshot });
            let row = rows[e.index as int];
            &&& e.index >= rows.len() ==> next == ErrandCommandView::Finish(FinishView::Invalid)
            &&& e.index < rows.len() && e.job == Job::Tap && row.label@.len() == 0 && (opt_text(
                row.identifier,
            ) matches Some(i) ==> i.len() == 0) ==> next == (ErrandCommandView::TapRect {
                rect: row.rect@,
            })
            &&& e.index < rows.len() && e.job == Job::Scroll ==> (next matches
                ErrandCommandView::ScrollRow { rect, is_container, .. } && rect == row.rect@ && (
            is_container <==> row.kind@ == "Table"@ || row.kind@ == "CollectionView"@ || row.kind@
                == "ScrollView"@ || row.kind@ == "Picker"@ || row.kind@ == "PickerWheel"@
                || row.kind@ == "WebView"@))
            &&& e.index < rows.len() && (n.stage is Finding || n.stage is Framing) ==> {
                &&& n.stage matches StageView::Finding { kind, value } ==> kind == row.kind@
                    && value == opt_text(row.value)
                &&& n.stage matches StageView::Framing { kind, value } ==> kind == row.kind@
                    && value == opt_text(row.value)
                &&& next matches ErrandCommandView::Frame { rect, .. } ==> rect == row.rect@
            }
            &&& e.index < rows.len() && e.job == Job::Perform && !verb_permitted(
                verb_of(e.action),
                row,
            ) ==> next == ErrandCommandView::Finish(FinishView::InvalidTarget)
        }),
{
    let kinds = scrollable_kinds();
    assert(kinds[0] == "Table"@ && kinds[1] == "CollectionView"@ && kinds[2] == "ScrollView"@
        && kinds[3] == "Picker"@ && kinds[4] == "PickerWheel"@ && kinds[5] == "WebView"@);
}

/// What an errand comes to is told as it was: a success as applied, a stale or
/// doubtful target as just that, a read that failed before as not sent, and a
/// request whose result is not known as neither applied nor unsent.
pub proof fn law_an_errands_end_is_told_as_it_was(hint: &'static str)
    ensures
        element_end(Ok(())) == (ElementEnd::Dispatched { applied: true }),
        element_end(Err(SnapshotElementTapError::Stale)) matches ElementEnd::Final {
            outcome,
            ..
        } && outcome == WdaControlOutcome::StaleElementSnapshot,
        element_end(Err(SnapshotElementTapError::Invalid)) matches ElementEnd::Final {
            outcome,
            ..
        } && outcome == WdaControlOutcome::InvalidElementSnapshot,
        element_end(Err(SnapshotElementTapError::NotFound)) matches ElementEnd::Final {
            outcome,
            ..
        } && outcome == WdaControlOutcome::ElementNotFound,
        element_end(Err(SnapshotElementTapError::Ambiguous)) matches ElementEnd::Final {
            outcome,
            ..
        } && outcome == WdaControlOutcome::AmbiguousElement,
        element_end(Err(SnapshotElementTapError::InvalidTarget)) matches ElementEnd::Final {
            outcome,
            ..
        } && outcome == WdaControlOutcome::InvalidElementTarget,
        element_end(Err(SnapshotElementTapError::InvalidValue(hint))) matches ElementEnd::Final {
            outcome,
            ..
        } && outcome == WdaControlOutcome::InvalidValue(hint),
        element_end(Err(SnapshotElementTapError::NoEffect(hint))) matches ElementEnd::Final {
            outcome,
            ..
        } && outcome == WdaControlOutcome::NoEffect(hint),
        element_end(Err(SnapshotElementTapError::BeforeDispatch)) == (ElementEnd::Final {
            outcome: WdaControlOutcome::NotSent,
            drop_session: true,
        }),
        element_end(Err(SnapshotElementTapError::AfterDispatch { never_reached: false }))
            == (ElementEnd::Dispatched { applied: false }),
        element_end(
            Err(SnapshotElementTapError::AfterDispatch { never_reached: true }),
        ) matches ElementEnd::Final { outcome, .. } && outcome == WdaControlOutcome::NotSent,
{
}

} // verus!
