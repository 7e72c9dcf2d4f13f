//! Control requests: what a request document asks for, the targets it may have,
//! and the answer to its outcome.

use vstd::prelude::*;

use crate::apps::{bundle_named, stock_apps, system_app_bundle};
use crate::element::{indexes, ElementRow};
use crate::errand::{distance_zero, Job};
use crate::health::WdaHealth;
use crate::json::{
    bool_of, field_of, finite_unit, json_document, number_of, number_unit, number_zero, text_of,
    unsigned_of, Json, JsonView, NumberView,
};
use crate::lifecycle::WdaLifecycleTransition;
use crate::locator::{
    agent_locator_matches, has_condition, listed, locator_has_condition, locator_matches,
    locator_of, parse_locator, perform_action_names, perform_verbs, AgentElementLocator,
    LocatorView,
};
use crate::outcome::{
    after_dispatch_reply, ambiguous_element_response, ambiguous_reply, before_dispatch_reply,
    candidates_view, deadline_reply, element_not_found_response, invalid_element_snapshot_response,
    invalid_element_target_response, invalid_snapshot_reply, invalid_target_reply, no_alert_reply,
    no_alert_response, not_found_reply, stale_element_snapshot_response, stale_snapshot_reply,
    unsupported_perform_action_response, unsupported_perform_reply, wda_deadline_response,
    wda_failed_after_dispatch_response, wda_failed_before_dispatch_response, Candidates,
    WdaControlOutcome,
};
use crate::reply::{
    array_of, array_text, json_reply, json_retry_reply, json_string_text, object_text,
    opt_string_text, opt_text, plain_reply, texts, ObjectText, Reply, ReplyView,
};
use crate::text::{decimal, same_text, trimmed};

verus! {

/// What a control document asks for.
#[derive(Debug)]
pub enum ControlPlan {
    /// Nothing is sent.
    Refuse(WdaControlOutcome),
    LaunchApp { bundle: String },
    TapLabel { label: String },
    TapLocator { locator: AgentElementLocator },
    SetPicker { column: usize, value: String },
    /// Clear the focused field, then type.
    ClearAndType { text: String },
    /// An action on a row of a snapshot.
    Element(Job),
    Alert { button: Option<String>, action: Option<String> },
    TapPoint { x: NumberView, y: NumberView },
    LongPress { x: NumberView, y: NumberView, ms: u64 },
    /// A swipe at a point; what is `None` takes its default.
    ScrollPoint {
        x: Option<NumberView>,
        y: Option<NumberView>,
        dx: Option<NumberView>,
        dy: Option<NumberView>,
    },
    Keys { text: String },
    DismissKeyboard,
    NamedKey { name: String },
    Home,
    Back,
    Spotlight,
    /// One gesture from one point to another; without `ms` its length decides.
    Swipe { from: (NumberView, NumberView), to: (NumberView, NumberView), ms: Option<u64> },
    Drag {
        from: (NumberView, NumberView),
        to: (NumberView, NumberView),
        ms: Option<u64>,
        hold_ms: u64,
    },
}

/// The content of a [`ControlPlan`].
pub enum PlanView {
    Refuse(WdaControlOutcome),
    LaunchApp { bundle: Seq<char> },
    TapLabel { label: Seq<char> },
    TapLocator { locator: LocatorView },
    SetPicker { column: nat, value: Seq<char> },
    ClearAndType { text: Seq<char> },
    Element(Job),
    Alert { button: Option<Seq<char>>, action: Option<Seq<char>> },
    TapPoint { x: NumberView, y: NumberView },
    LongPress { x: NumberView, y: NumberView, ms: u64 },
    ScrollPoint {
        x: Option<NumberView>,
        y: Option<NumberView>,
        dx: Option<NumberView>,
        dy: Option<NumberView>,
    },
    Keys { text: Seq<char> },
    DismissKeyboard,
    NamedKey { name: Seq<char> },
    Home,
    Back,
    Spotlight,
    Swipe { from: (NumberView, NumberView), to: (NumberView, NumberView), ms: Option<u64> },
    Drag {
        from: (NumberView, NumberView),
        to: (NumberView, NumberView),
        ms: Option<u64>,
        hold_ms: u64,
    },
}

impl View for ControlPlan {
    type V = PlanView;

    open spec fn view(&self) -> PlanView {
        match *self {
            ControlPlan::Refuse(outcome) => PlanView::Refuse(outcome),
            ControlPlan::LaunchApp { bundle } => PlanView::LaunchApp { bundle: bundle@ },
            ControlPlan::TapLabel { label } => PlanView::TapLabel { label: label@ },
            ControlPlan::TapLocator { locator } => PlanView::TapLocator { locator: locator@ },
            ControlPlan::SetPicker { column, value } => PlanView::SetPicker {
                column: column as nat,
                value: value@,
            },
            ControlPlan::ClearAndType { text } => PlanView::ClearAndType { text: text@ },
            ControlPlan::Element(job) => PlanView::Element(job),
            ControlPlan::Alert { button, action } => PlanView::Alert {
                button: opt_text(button),
                action: opt_text(action),
            },
            ControlPlan::TapPoint { x, y } => PlanView::TapPoint { x, y },
            ControlPlan::LongPress { x, y, ms } => PlanView::LongPress { x, y, ms },
            ControlPlan::ScrollPoint { x, y, dx, dy } => PlanView::ScrollPoint { x, y, dx, dy },
            ControlPlan::Keys { text } => PlanView::Keys { text: text@ },
            ControlPlan::DismissKeyboard => PlanView::DismissKeyboard,
            ControlPlan::NamedKey { name } => PlanView::NamedKey { name: name@ },
            ControlPlan::Home => PlanView::Home,
            ControlPlan::Back => PlanView::Back,
            ControlPlan::Spotlight => PlanView::Spotlight,
            ControlPlan::Swipe { from, to, ms } => PlanView::Swipe { from, to, ms },
            ControlPlan::Drag { from, to, ms, hold_ms } => PlanView::Drag {
                from,
                to,
                ms,
                hold_ms,
            },
        }
    }
}

pub open spec fn type_of(v: JsonView) -> Seq<char> {
    match text_of(field_of(v, "type"@)) {
        Some(typ) => typ,
        None => ""@,
    }
}

pub open spec fn refused() -> PlanView {
    PlanView::Refuse(WdaControlOutcome::Unsupported)
}

/// The number in a field, where it is one from 0 to 1.
pub open spec fn unit_of(v: JsonView, key: Seq<char>) -> Option<NumberView> {
    let n = number_of(field_of(v, key));
    if number_unit(n) {
        n
    } else {
        None
    }
}

/// A field that is no number takes its default, which is inside 0 to 1.
pub open spec fn unit_or_default(v: JsonView, key: Seq<char>) -> bool {
    number_of(field_of(v, key)) is Some ==> unit_of(v, key) is Some
}

pub open spec fn label_plan(v: JsonView) -> PlanView {
    match text_of(field_of(v, "label"@)) {
        Some(label) if label.len() > 0 => PlanView::TapLabel { label },
        _ => refused(),
    }
}

pub open spec fn perform_plan(v: JsonView) -> PlanView {
    match text_of(field_of(v, "action"@)) {
        Some(verb) if perform_verbs().contains(verb) => PlanView::Element(Job::Perform),
        _ => PlanView::Refuse(WdaControlOutcome::UnsupportedPerformAction),
    }
}

pub open spec fn alert_plan(v: JsonView) -> PlanView {
    PlanView::Alert {
        button: match text_of(field_of(v, "button"@)) {
            Some(button) if button.len() > 0 => Some(button),
            _ => None,
        },
        action: text_of(field_of(v, "action"@)),
    }
}

pub open spec fn point_plan(v: JsonView) -> PlanView {
    match (unit_of(v, "x"@), unit_of(v, "y"@)) {
        (Some(x), Some(y)) => PlanView::TapPoint { x, y },
        _ => refused(),
    }
}

pub open spec fn longpress_plan(v: JsonView) -> PlanView {
    match (unit_of(v, "x"@), unit_of(v, "y"@)) {
        (Some(x), Some(y)) => PlanView::LongPress {
            x,
            y,
            ms: match unsigned_of(field_of(v, "duration_ms"@)) {
                Some(ms) => ms,
                None => 600,
            },
        },
        _ => refused(),
    }
}

pub open spec fn scroll_plan(v: JsonView) -> PlanView {
    if unit_or_default(v, "x"@) && unit_or_default(v, "y"@) && !(distance_zero(v, "dx"@)
        && distance_zero(v, "dy"@)) {
        PlanView::ScrollPoint {
            x: number_of(field_of(v, "x"@)),
            y: number_of(field_of(v, "y"@)),
            dx: number_of(field_of(v, "dx"@)),
            dy: number_of(field_of(v, "dy"@)),
        }
    } else {
        refused()
    }
}

pub open spec fn key_plan(v: JsonView) -> PlanView {
    match text_of(field_of(v, "name"@)) {
        Some(name) => if name == "dismiss"@ || name == "hide"@ {
            PlanView::DismissKeyboard
        } else {
            PlanView::NamedKey { name }
        },
        None => refused(),
    }
}

pub open spec fn shortcut_plan(v: JsonView) -> PlanView {
    match text_of(field_of(v, "name"@)) {
        Some(name) => if name == "home"@ {
            PlanView::Home
        } else if name == "spotlight"@ {
            PlanView::Spotlight
        } else {
            refused()
        },
        None => refused(),
    }
}

pub open spec fn swipe_plan(v: JsonView, drag: bool) -> PlanView {
    match (unit_of(v, "x1"@), unit_of(v, "y1"@), unit_of(v, "x2"@), unit_of(v, "y2"@)) {
        (Some(x1), Some(y1), Some(x2), Some(y2)) => {
            let ms = unsigned_of(field_of(v, "duration_ms"@));
            if drag {
                PlanView::Drag {
                    from: (x1, y1),
                    to: (x2, y2),
                    ms,
                    hold_ms: match unsigned_of(field_of(v, "hold_ms"@)) {
                        Some(ms) => ms,
                        None => 500,
                    },
                }
            } else {
                PlanView::Swipe { from: (x1, y1), to: (x2, y2), ms }
            }
        },
        _ => refused(),
    }
}

/// What a control document asks for, of all that both browsers and agents may
/// ask.
pub open spec fn control_plan(v: JsonView) -> PlanView {
    let typ = type_of(v);
    if typ == "tap"@ && field_of(v, "label"@) is Some {
        label_plan(v)
    } else if typ == "tap"@ && field_of(v, "element"@) is Some {
        PlanView::Element(Job::Tap)
    } else if typ == "set_value"@ {
        PlanView::Element(Job::SetValue)
    } else if typ == "perform"@ {
        perform_plan(v)
    } else if typ == "alert"@ {
        alert_plan(v)
    } else if typ == "scroll"@ && field_of(v, "element"@) is Some {
        PlanView::Element(Job::Scroll)
    } else if typ == "tap"@ {
        point_plan(v)
    } else if typ == "longpress"@ {
        longpress_plan(v)
    } else if typ == "scroll"@ {
        scroll_plan(v)
    } else if typ == "text"@ {
        match text_of(field_of(v, "text"@)) {
            Some(text) => PlanView::Keys { text },
            None => refused(),
        }
    } else if typ == "key"@ {
        key_plan(v)
    } else if typ == "keyboard"@ {
        PlanView::DismissKeyboard
    } else if typ == "home"@ {
        PlanView::Home
    } else if typ == "back"@ {
        PlanView::Back
    } else if typ == "shortcut"@ {
        shortcut_plan(v)
    } else if typ == "swipe"@ || typ == "drag"@ {
        swipe_plan(v, typ == "drag"@)
    } else {
        refused()
    }
}

pub open spec fn launch_plan(v: JsonView) -> PlanView {
    match text_of(field_of(v, "bundle"@)) {
        Some(bundle) => PlanView::LaunchApp { bundle },
        None => match text_of(field_of(v, "name"@)) {
            Some(name) => match bundle_named(stock_apps(), trimmed(name)) {
                Some(bundle) => PlanView::LaunchApp { bundle },
                None => refused(),
            },
            None => refused(),
        },
    }
}

pub open spec fn locator_plan(v: JsonView) -> PlanView {
    match field_of(v, "locator"@) {
        Some(json) => match locator_of(json) {
            Some(locator) if has_condition(locator) => PlanView::TapLocator { locator },
            _ => refused(),
        },
        None => refused(),
    }
}

pub open spec fn picker_plan(v: JsonView) -> PlanView {
    match text_of(field_of(v, "value"@)) {
        Some(value) => PlanView::SetPicker {
            column: match unsigned_of(field_of(v, "column"@)) {
                Some(column) if column <= usize::MAX => column as nat,
                _ => 0,
            },
            value,
        },
        None => refused(),
    }
}

/// What a control document asks for when it comes from an agent, who may ask for
/// some things more.
pub open spec fn agent_plan(v: JsonView) -> PlanView {
    let typ = type_of(v);
    if typ == "launch_app"@ {
        launch_plan(v)
    } else if typ == "tap_locator"@ {
        locator_plan(v)
    } else if typ == "picker"@ {
        picker_plan(v)
    } else if typ == "text"@ && bool_of(field_of(v, "clear"@)) == Some(true) {
        match text_of(field_of(v, "text"@)) {
            Some(text) => PlanView::ClearAndType { text },
            None => refused(),
        }
    } else {
        control_plan(v)
    }
}

fn unit_value(v: &Json, key: &str) -> (n: Option<NumberView>)
    ensures
        n == unit_of(v@, key@),
{
    let n = v.number_field(key);
    if finite_unit(n) {
        match n {
            Some(n) => Some(n.value()),
            None => None,
        }
    } else {
        None
    }
}

fn plain_value(v: &Json, key: &str) -> (n: Option<NumberView>)
    ensures
        n == number_of(field_of(v@, key@)),
{
    match v.number_field(key) {
        Some(n) => Some(n.value()),
        None => None,
    }
}

fn zero_distance(v: &Json, key: &str) -> (zero: bool)
    ensures
        zero == distance_zero(v@, key@),
{
    match v.number_field(key) {
        Some(n) => n.is_zero(),
        None => true,
    }
}

fn refuse() -> (plan: ControlPlan)
    ensures
        plan@ == refused(),
{
    ControlPlan::Refuse(WdaControlOutcome::Unsupported)
}

fn plan_swipe(v: &Json, drag: bool) -> (plan: ControlPlan)
    ensures
        plan@ == swipe_plan(v@, drag),
{
    match (unit_value(v, "x1"), unit_value(v, "y1"), unit_value(v, "x2"), unit_value(v, "y2")) {
        (Some(x1), Some(y1), Some(x2), Some(y2)) => {
            let ms: Option<u64> = v.unsigned_field("duration_ms");
            if drag {
                let hold_ms: u64 = match v.unsigned_field("hold_ms") {
                    Some(ms) => ms,
                    None => 500,
                };
                ControlPlan::Drag { from: (x1, y1), to: (x2, y2), ms, hold_ms }
            } else {
                ControlPlan::Swipe { from: (x1, y1), to: (x2, y2), ms }
            }
        },
        _ => refuse(),
    }
}

fn plan_scroll(v: &Json) -> (plan: ControlPlan)
    ensures
        plan@ == scroll_plan(v@),
{
    let x = plain_value(v, "x");
    let y = plain_value(v, "y");
    let x_usable = x.is_none() || unit_value(v, "x").is_some();
    let y_usable = y.is_none() || unit_value(v, "y").is_some();
    if x_usable && y_usable && !(zero_distance(v, "dx") && zero_distance(v, "dy")) {
        let dx = plain_value(v, "dx");
        let dy = plain_value(v, "dy");
        ControlPlan::ScrollPoint { x, y, dx, dy }
    } else {
        refuse()
    }
}

fn plan_key(v: &Json) -> (plan: ControlPlan)
    ensures
        plan@ == key_plan(v@),
{
    match v.text_field("name") {
        Some(name) => {
            if same_text(name, "dismiss") || same_text(name, "hide") {
                ControlPlan::DismissKeyboard
            } else {
                ControlPlan::NamedKey { name: name.to_owned() }
            }
        },
        None => refuse(),
    }
}

fn plan_shortcut(v: &Json) -> (plan: ControlPlan)
    ensures
        plan@ == shortcut_plan(v@),
{
    match v.text_field("name") {
        Some(name) => {
            if same_text(name, "home") {
                ControlPlan::Home
            } else if same_text(name, "spotlight") {
                ControlPlan::Spotlight
            } else {
                refuse()
            }
        },
        None => refuse(),
    }
}

fn plan_alert(v: &Json) -> (plan: ControlPlan)
    ensures
        plan@ == alert_plan(v@),
{
    let button = match v.text_field("button") {
        Some(button) if !button.is_empty() => Some(button.to_owned()),
        _ => None,
    };
    let action = match v.text_field("action") {
        Some(action) => Some(action.to_owned()),
        None => None,
    };
    ControlPlan::Alert { button, action }
}

/// Reads a control document of a browser or an agent.
pub fn wda_control_plan(v: &Json) -> (plan: ControlPlan)
    ensures
        plan@ == control_plan(v@),
{
    let typ = match v.text_field("type") {
        Some(typ) => typ,
        None => "",
    };
    if same_text(typ, "tap") && v.has("label") {
        return match v.text_field("label") {
            Some(label) if !label.is_empty() => ControlPlan::TapLabel { label: label.to_owned() },
            _ => refuse(),
        };
    }
    if same_text(typ, "tap") && v.has("element") {
        return ControlPlan::Element(Job::Tap);
    }
    if same_text(typ, "set_value") {
        return ControlPlan::Element(Job::SetValue);
    }
    if same_text(typ, "perform") {
        let verbs = perform_action_names();
        return match v.text_field("action") {
            Some(verb) if listed(&verbs, verb) => ControlPlan::Element(Job::Perform),
            _ => ControlPlan::Refuse(WdaControlOutcome::UnsupportedPerformAction),
        };
    }
    if same_text(typ, "alert") {
        return plan_alert(v);
    }
    if same_text(typ, "scroll") && v.has("element") {
        return ControlPlan::Element(Job::Scroll);
    }
    if same_text(typ, "tap") {
        return match (unit_value(v, "x"), unit_value(v, "y")) {
            (Some(x), Some(y)) => ControlPlan::TapPoint { x, y },
            _ => refuse(),
        };
    }
    if same_text(typ, "longpress") {
        return match (unit_value(v, "x"), unit_value(v, "y")) {
            (Some(x), Some(y)) => {
                let ms: u64 = match v.unsigned_field("duration_ms") {
                    Some(ms) => ms,
                    None => 600,
                };
                ControlPlan::LongPress { x, y, ms }
            },
            _ => refuse(),
        };
    }
    if same_text(typ, "scroll") {
        return plan_scroll(v);
    }
    if same_text(typ, "text") {
        return match v.text_field("text") {
            Some(text) => ControlPlan::Keys { text: text.to_owned() },
            None => refuse(),
        };
    }
    if same_text(typ, "key") {
        return plan_key(v);
    }
    if same_text(typ, "keyboard") {
        return ControlPlan::DismissKeyboard;
    }
    if same_text(typ, "home") {
        return ControlPlan::Home;
    }
    if same_text(typ, "back") {
        return ControlPlan::Back;
    }
    if same_text(typ, "shortcut") {
        return plan_shortcut(v);
    }
    if same_text(typ, "swipe") || same_text(typ, "drag") {
        return plan_swipe(v, same_text(typ, "drag"));
    }
    refuse()
}

fn plan_launch(v: &Json) -> (plan: ControlPlan)
    ensures
        plan@ == launch_plan(v@),
{
    match v.text_field("bundle") {
        Some(bundle) => ControlPlan::LaunchApp { bundle: bundle.to_owned() },
        None => match v.text_field("name") {
            Some(name) => match system_app_bundle(name) {
                Some(bundle) => ControlPlan::LaunchApp { bundle: bundle.to_owned() },
                None => refuse(),
            },
            None => refuse(),
        },
    }
}

fn plan_locator(v: &Json) -> (plan: ControlPlan)
    ensures
        plan@ == locator_plan(v@),
{
    match v.get("locator") {
        Some(json) => match parse_locator(json) {
            Some(locator) => {
                if locator_has_condition(&locator) {
                    ControlPlan::TapLocator { locator }
                } else {
                    refuse()
                }
            },
            None => refuse(),
        },
        None => refuse(),
    }
}

fn plan_picker(v: &Json) -> (plan: ControlPlan)
    ensures
        plan@ == picker_plan(v@),
{
    match v.text_field("value") {
        Some(value) => {
            let column: usize = match v.unsigned_field("column") {
                Some(column) if column <= usize::MAX as u64 => column as usize,
                _ => 0,
            };
            ControlPlan::SetPicker { column, value: value.to_owned() }
        },
        None => refuse(),
    }
}

/// Reads a control document of an agent.
pub fn direct_agent_plan(v: &Json) -> (plan: ControlPlan)
    ensures
        plan@ == agent_plan(v@),
{
    let typ = match v.text_field("type") {
        Some(typ) => typ,
        None => "",
    };
    if same_text(typ, "launch_app") {
        return plan_launch(v);
    }
    if same_text(typ, "tap_locator") {
        return plan_locator(v);
    }
    if same_text(typ, "picker") {
        return plan_picker(v);
    }
    if same_text(typ, "text") {
        if let Some(true) = v.bool_field("clear") {
            return match v.text_field("text") {
                Some(text) => ControlPlan::ClearAndType { text: text.to_owned() },
                None => refuse(),
            };
        }
    }
    wda_control_plan(v)
}

/// How a single call went.
#[derive(Clone, Copy, Debug, PartialEq, Eq, Structural)]
pub enum CallEnd {
    Done,
    /// The connection was refused; nothing was delivered.
    NeverReached,
    Failed,
}

/// The end of a dispatched request: its outcome, whether the phone is now taken
/// as carrying out actions, and whether the session is to be rebuilt.
#[derive(Clone, Copy, Debug, PartialEq, Eq)]
pub struct ControlEnd {
    pub outcome: WdaControlOutcome,
    pub actionable: bool,
    pub drop_session: bool,
}

/// The end of a request that both browsers and agents may make.
pub open spec fn control_end(end: CallEnd) -> ControlEnd {
    ControlEnd {
        outcome: match end {
            CallEnd::Done => WdaControlOutcome::Applied,
            CallEnd::NeverReached => WdaControlOutcome::NotSent,
            CallEnd::Failed => WdaControlOutcome::Failed,
        },
        actionable: end == CallEnd::Done,
        drop_session: end != CallEnd::Done,
    }
}

pub fn finish_control(end: CallEnd) -> (finish: ControlEnd)
    ensures
        finish == control_end(end),
{
    match end {
        CallEnd::Done => ControlEnd {
            outcome: WdaControlOutcome::Applied,
            actionable: true,
            drop_session: false,
        },
        CallEnd::NeverReached => ControlEnd {
            outcome: WdaControlOutcome::NotSent,
            actionable: false,
            drop_session: true,
        },
        CallEnd::Failed => ControlEnd {
            outcome: WdaControlOutcome::Failed,
            actionable: false,
            drop_session: true,
        },
    }
}

/// Whether a request is one that only an agent's dispatcher carries out itself.
pub open spec fn agents_own(plan: PlanView) -> bool {
    match plan {
        PlanView::LaunchApp { .. } => true,
        PlanView::TapLabel { .. } => true,
        PlanView::TapLocator { .. } => true,
        PlanView::SetPicker { .. } => true,
        PlanView::ClearAndType { .. } => true,
        PlanView::Element(job) => job == Job::Tap,
        _ => false,
    }
}

/// The end of a request. An agent's own requests do not tell a refused
/// connection from another failure.
pub open spec fn plan_end(plan: PlanView, from_agent: bool, end: CallEnd) -> ControlEnd {
    control_end(
        if from_agent && agents_own(plan) && end != CallEnd::Done {
            CallEnd::Failed
        } else {
            end
        },
    )
}

impl ControlPlan {
    /// The end of a request, by how its call went.
    pub fn finish(&self, from_agent: bool, end: CallEnd) -> (finish: ControlEnd)
        ensures
            finish == plan_end(self@, from_agent, end),
    {
        let own = match self {
            ControlPlan::LaunchApp { .. } => true,
            ControlPlan::TapLabel { .. } => true,
            ControlPlan::TapLocator { .. } => true,
            ControlPlan::SetPicker { .. } => true,
            ControlPlan::ClearAndType { .. } => true,
            ControlPlan::Element(job) => *job == Job::Tap,
            _ => false,
        };
        if from_agent && own && end != CallEnd::Done {
            return finish_control(CallEnd::Failed);
        }
        finish_control(end)
    }
}

/// What to do about the alert that is showing.
#[derive(Debug)]
pub enum AlertStep {
    Refuse(WdaControlOutcome),
    /// Press this button.
    Press { name: String },
    Accept,
    Dismiss,
}

/// The content of an [`AlertStep`].
pub enum AlertView {
    Refuse(WdaControlOutcome),
    Press { name: Seq<char> },
    Accept,
    Dismiss,
}

impl View for AlertStep {
    type V = AlertView;

    open spec fn view(&self) -> AlertView {
        match *self {
            AlertStep::Refuse(outcome) => AlertView::Refuse(outcome),
            AlertStep::Press { name } => AlertView::Press { name: name@ },
            AlertStep::Accept => AlertView::Accept,
            AlertStep::Dismiss => AlertView::Dismiss,
        }
    }
}

/// An alert action needs an alert, and a named button needs to be on it.
pub open spec fn alert_next(
    button: Option<Seq<char>>,
    action: Option<Seq<char>>,
    buttons: Option<Seq<Seq<char>>>,
) -> AlertView {
    match buttons {
        None => AlertView::Refuse(WdaControlOutcome::NoAlert),
        Some(buttons) => match (button, action) {
            (Some(name), None) => if buttons.contains(name) {
                AlertView::Press { name }
            } else {
                AlertView::Refuse(WdaControlOutcome::ElementNotFound)
            },
            (None, Some(verb)) => if verb == "accept"@ {
                AlertView::Accept
            } else if verb == "dismiss"@ {
                AlertView::Dismiss
            } else {
                AlertView::Refuse(WdaControlOutcome::Unsupported)
            },
            _ => AlertView::Refuse(WdaControlOutcome::Unsupported),
        },
    }
}

/// Whether a string is among others.
pub fn among(list: &Vec<String>, s: &str) -> (found: bool)
    ensures
        found == texts(list@).contains(s@),
{
    let mut i: usize = 0;
    while i < list.len()
        invariant
            i <= list@.len(),
            forall|k: int| 0 <= k < i ==> texts(list@)[k] != s@,
        decreases list@.len() - i,
    {
        if same_text(list[i].as_str(), s) {
            assert(texts(list@)[i as int] == s@);
            return true;
        }
        i += 1;
    }
    false
}

/// Decides an alert action, given the buttons of the alert that is showing.
pub fn alert_step(
    button: &Option<String>,
    action: &Option<String>,
    buttons: &Option<Vec<String>>,
) -> (step: AlertStep)
    ensures
        step@ == alert_next(
            opt_text(*button),
            opt_text(*action),
            match *buttons {
                Some(buttons) => Some(texts(buttons@)),
                None => None,
            },
        ),
{
    match buttons {
        None => AlertStep::Refuse(WdaControlOutcome::NoAlert),
        Some(buttons) => match (button, action) {
            (Some(name), None) => {
                if among(buttons, name.as_str()) {
                    AlertStep::Press { name: name.clone() }
                } else {
                    AlertStep::Refuse(WdaControlOutcome::ElementNotFound)
                }
            },
            (None, Some(verb)) => {
                if same_text(verb.as_str(), "accept") {
                    AlertStep::Accept
                } else if same_text(verb.as_str(), "dismiss") {
                    AlertStep::Dismiss
                } else {
                    AlertStep::Refuse(WdaControlOutcome::Unsupported)
                }
            },
            _ => AlertStep::Refuse(WdaControlOutcome::Unsupported),
        },
    }
}

/// The row that a label or locator stands for.
#[derive(Debug, PartialEq, Eq)]
pub enum UniqueTarget {
    NotFound,
    Row(usize),
    /// The matching rows, in order.
    Ambiguous(Vec<usize>),
}

/// The content of a [`UniqueTarget`].
pub enum TargetView {
    NotFound,
    Row(usize),
    Ambiguous(Seq<usize>),
}

impl View for UniqueTarget {
    type V = TargetView;

    open spec fn view(&self) -> TargetView {
        match *self {
            UniqueTarget::NotFound => TargetView::NotFound,
            UniqueTarget::Row(index) => TargetView::Row(index),
            UniqueTarget::Ambiguous(indexes) => TargetView::Ambiguous(indexes@),
        }
    }
}

/// Exactly one match is a target; none and several are not.
pub open spec fn target_of(matches: Seq<usize>) -> TargetView {
    if matches.len() == 0 {
        TargetView::NotFound
    } else if matches.len() == 1 {
        TargetView::Row(matches[0])
    } else {
        TargetView::Ambiguous(matches)
    }
}

fn unique(matches: Vec<usize>) -> (target: UniqueTarget)
    ensures
        target@ == target_of(matches@),
{
    if matches.len() == 0 {
        UniqueTarget::NotFound
    } else if matches.len() == 1 {
        UniqueTarget::Row(matches[0])
    } else {
        UniqueTarget::Ambiguous(matches)
    }
}

/// The row with exactly this label.
pub fn unique_label(rows: &Vec<ElementRow>, label: &str) -> (target: UniqueTarget)
    ensures
        target@ == target_of(indexes(rows@.len(), |i: int| rows@[i].label@ == label@)),
{
    let ghost p = |i: int| rows@[i].label@ == label@;
    let mut found: Vec<usize> = Vec::new();
    let mut i: usize = 0;
    while i < rows.len()
        invariant
            i <= rows@.len(),
            p == (|i: int| rows@[i].label@ == label@),
            found@ == indexes(i as nat, p),
        decreases rows@.len() - i,
    {
        if same_text(rows[i].label.as_str(), label) {
            assert(p(i as int));
            found.push(i);
        } else {
            assert(!p(i as int));
        }
        i += 1;
    }
    unique(found)
}

/// The row that meets a locator.
pub fn unique_locator(rows: &Vec<ElementRow>, locator: &AgentElementLocator) -> (target:
    UniqueTarget)
    ensures
        target@ == target_of(
            indexes(rows@.len(), |i: int| locator_matches(rows@[i], locator@)),
        ),
{
    let ghost p = |i: int| locator_matches(rows@[i], locator@);
    let mut found: Vec<usize> = Vec::new();
    let mut i: usize = 0;
    while i < rows.len()
        invariant
            i <= rows@.len(),
            p == (|i: int| locator_matches(rows@[i], locator@)),
            found@ == indexes(i as nat, p),
        decreases rows@.len() - i,
    {
        if agent_locator_matches(&rows[i], locator) {
            assert(p(i as int));
            found.push(i);
        } else {
            assert(!p(i as int));
        }
        i += 1;
    }
    unique(found)
}

/// One row of the candidates: what it is, and its frame as JSON text.
pub open spec fn candidate_text(row: ElementRow, index: usize, rect: Seq<char>) -> Seq<char> {
    object_text(
        seq![
            ("identifier"@, opt_string_text(opt_text(row.identifier))),
            ("index"@, decimal(index as nat)),
            ("kind"@, json_string_text(row.kind@)),
            ("rect"@, rect),
            ("value"@, opt_string_text(opt_text(row.value))),
        ],
    )
}

pub open spec fn candidate_texts(
    rows: Seq<ElementRow>,
    matches: Seq<usize>,
    rects: Seq<Seq<char>>,
) -> Seq<Seq<char>> {
    Seq::new(
        matches.len(),
        |k: int| candidate_text(rows[matches[k] as int], matches[k], rects[matches[k] as int]),
    )
}

/// The candidates of an ambiguous label. `rects` holds the JSON text of each
/// row's frame.
pub fn ambiguity_candidates(
    rows: &Vec<ElementRow>,
    matches: &Vec<usize>,
    rects: &Vec<String>,
    snapshot: String,
) -> (candidates: Candidates)
    requires
        rects@.len() == rows@.len(),
        forall|k: int| 0 <= k < matches@.len() ==> #[trigger] matches@[k] < rows@.len(),
    ensures
        candidates.snapshot@ == snapshot@,
        candidates.matches@ == array_text(candidate_texts(rows@, matches@, texts(rects@))),
{
    let mut items: Vec<String> = Vec::new();
    let mut k: usize = 0;
    let ghost all = candidate_texts(rows@, matches@, texts(rects@));
    assert(texts(items@) =~= all.take(0));
    while k < matches.len()
        invariant
            k <= matches@.len(),
            rects@.len() == rows@.len(),
            all == candidate_texts(rows@, matches@, texts(rects@)),
            forall|k: int| 0 <= k < matches@.len() ==> #[trigger] matches@[k] < rows@.len(),
            texts(items@) == all.take(k as int),
        decreases matches@.len() - k,
    {
        let index: usize = matches[k];
        let row = &rows[index];
        let identifier = match &row.identifier {
            Some(s) => Some(s.as_str()),
            None => None,
        };
        let value = match &row.value {
            Some(s) => Some(s.as_str()),
            None => None,
        };
        let item = ObjectText::new().opt_text("identifier", identifier).count(
            "index",
            index as u64,
        ).text("kind", row.kind.as_str()).raw("rect", rects[index].as_str()).opt_text(
            "value",
            value,
        );
        assert(item.fields() =~= seq![
            ("identifier"@, opt_string_text(opt_text(row.identifier))),
            ("index"@, decimal(index as nat)),
            ("kind"@, json_string_text(row.kind@)),
            ("rect"@, texts(rects@)[index as int]),
            ("value"@, opt_string_text(opt_text(row.value))),
        ]);
        let item = item.finish();
        let ghost before = items@;
        items.push(item);
        assert(texts(items@) =~= texts(before).push(item@));
        assert(all.take(k + 1) =~= all.take(k as int).push(all[k as int]));
        k += 1;
    }
    assert(all.take(k as int) =~= all);
    let matches = array_of(&items);
    Candidates { snapshot, matches }
}

/// Why the freshness of a control request cannot be told.
#[derive(Clone, Copy, Debug, PartialEq, Eq, Structural)]
pub enum ControlFreshnessError {
    Missing,
    Invalid,
}

/// How long a control request stays fresh, in milliseconds. When it was issued
/// is a remark for the record; the sender's clock may be off.
pub open spec fn freshness(v: JsonView) -> Result<u64, ControlFreshnessError> {
    match unsigned_of(field_of(v, "ttl_ms"@)) {
        None => Err(ControlFreshnessError::Missing),
        Some(ttl) => if (field_of(v, "issued_at_ms"@) is Some && unsigned_of(
            field_of(v, "issued_at_ms"@),
        ) is None) || ttl == 0 || ttl > 2500 {
            Err(ControlFreshnessError::Invalid)
        } else {
            Ok(ttl)
        },
    }
}

/// The time on the server's monotonic clock, in milliseconds, until which a
/// request that arrives now may be carried out.
pub fn direct_control_deadline(value: &Json, now: u64) -> (deadline: Result<
    u64,
    ControlFreshnessError,
>)
    requires
        now <= u64::MAX - 2500,
    ensures
        match freshness(value@) {
            Ok(ttl) => deadline == Ok::<u64, ControlFreshnessError>((now + ttl) as u64),
            Err(error) => deadline == Err::<u64, ControlFreshnessError>(error),
        },
{
    let ttl: u64 = match value.unsigned_field("ttl_ms") {
        Some(ttl) => ttl,
        None => {
            return Err(ControlFreshnessError::Missing);
        },
    };
    let odd_issue = value.has("issued_at_ms") && value.unsigned_field("issued_at_ms").is_none();
    if odd_issue || ttl == 0 || ttl > 2500 {
        return Err(ControlFreshnessError::Invalid);
    }
    Ok(now + ttl)
}

/// What is known of the phone when a request arrives.
#[derive(Clone, Copy, Debug, PartialEq, Eq, Structural)]
pub struct DeviceFacts {
    /// The backend drives the phone itself, not a mirror of it.
    pub direct: bool,
    /// Setup has not chosen a phone yet.
    pub pending: bool,
    pub transition: WdaLifecycleTransition,
    pub released: bool,
    pub has_runner: bool,
}

pub open spec fn target_not_configured_reply() -> ReplyView {
    json_reply(
        409,
        r#"{"ok":false,"error":"target_not_configured","hint":"run setup-wda.sh to select and persist the canonical iPhone before using Direct control"}"#@,
    )
}

pub fn target_not_configured_response() -> (reply: Reply)
    ensures
        reply@ == target_not_configured_reply(),
{
    Reply::fixed(
        409,
        r#"{"ok":false,"error":"target_not_configured","hint":"run setup-wda.sh to select and persist the canonical iPhone before using Direct control"}"#,
    )
}

/// The answer while the phone is being released or reconnected, or is released.
pub open spec fn busy_reply(transition: WdaLifecycleTransition) -> ReplyView {
    json_retry_reply(
        503,
        5,
        match transition {
            WdaLifecycleTransition::Releasing => {
                r#"{"ok":false,"error":"releasing","reconnecting":false}"#@
            },
            WdaLifecycleTransition::Reconnecting => {
                r#"{"ok":false,"error":"reconnecting","reconnecting":true}"#@
            },
            WdaLifecycleTransition::Active => {
                r#"{"ok":false,"error":"released","reconnecting":false}"#@
            },
        },
    )
}

fn busy_response(transition: WdaLifecycleTransition) -> (reply: Reply)
    ensures
        reply@ == busy_reply(transition),
{
    match transition {
        WdaLifecycleTransition::Releasing => Reply::fixed_retry(
            503,
            5,
            r#"{"ok":false,"error":"releasing","reconnecting":false}"#,
        ),
        WdaLifecycleTransition::Reconnecting => Reply::fixed_retry(
            503,
            5,
            r#"{"ok":false,"error":"reconnecting","reconnecting":true}"#,
        ),
        WdaLifecycleTransition::Active => Reply::fixed_retry(
            503,
            5,
            r#"{"ok":false,"error":"released","reconnecting":false}"#,
        ),
    }
}

/// The refusal of a browser's control request, or the document and its time to
/// live where it may go on.
pub open spec fn control_admission(facts: DeviceFacts, body: Seq<char>) -> Result<
    (JsonView, u64),
    ReplyView,
> {
    if !facts.direct {
        Err(plain_reply(409, r#"{"ok":false,"error":"legacy_mirror_uses_webrtc"}"#@))
    } else if facts.pending {
        Err(target_not_configured_reply())
    } else {
        match json_document(body) {
            Some(JsonView::Object(fields)) => match freshness(JsonView::Object(fields)) {
                Err(_) => Err(
                    plain_reply(400, r#"{"ok":false,"error":"invalid_control_deadline"}"#@),
                ),
                Ok(ttl) => if facts.transition != WdaLifecycleTransition::Active
                    || facts.released {
                    Err(busy_reply(facts.transition))
                } else if !facts.has_runner {
                    Err(plain_reply(503, r#"{"ok":false,"error":"wda_not_configured"}"#@))
                } else {
                    Ok((JsonView::Object(fields), ttl))
                },
            },
            _ => Err(plain_reply(400, r#"{"ok":false,"error":"invalid_control_message"}"#@)),
        }
    }
}

/// Admits or refuses a browser's control request. `now` is the time of its
/// arrival; an admitted request comes with its document and its deadline.
pub fn direct_control_admission(facts: DeviceFacts, body: &str, now: u64) -> (admitted: Result<
    (Json, u64),
    Reply,
>)
    requires
        now <= u64::MAX - 2500,
    ensures
        match admitted {
            Ok((document, deadline)) => control_admission(facts, body@) == Ok::<
                (JsonView, u64),
                ReplyView,
            >((document@, (deadline - now) as u64)) && deadline > now,
            Err(reply) => control_admission(facts, body@) == Err::<(JsonView, u64), ReplyView>(
                reply@,
            ),
        },
{
    if !facts.direct {
        return Err(Reply::plain(409, r#"{"ok":false,"error":"legacy_mirror_uses_webrtc"}"#));
    }
    if facts.pending {
        return Err(target_not_configured_response());
    }
    let document = match Json::parse(body) {
        Some(document) => document,
        None => {
            return Err(Reply::plain(400, r#"{"ok":false,"error":"invalid_control_message"}"#));
        },
    };
    if !document.is_object() {
        return Err(Reply::plain(400, r#"{"ok":false,"error":"invalid_control_message"}"#));
    }
    let deadline: u64 = match direct_control_deadline(&document, now) {
        Ok(deadline) => deadline,
        Err(_) => {
            return Err(Reply::plain(400, r#"{"ok":false,"error":"invalid_control_deadline"}"#));
        },
    };
    if facts.transition != WdaLifecycleTransition::Active || facts.released {
        return Err(busy_response(facts.transition));
    }
    if !facts.has_runner {
        return Err(Reply::plain(503, r#"{"ok":false,"error":"wda_not_configured"}"#));
    }
    Ok((document, deadline))
}

/// How an admitted request ended.
#[derive(Debug)]
pub enum DirectEnd {
    /// The deadline had passed, or the phone was given up, before anything was
    /// sent.
    TooLate,
    /// The deadline passed; `dispatched` where the request was already handed on.
    DeadlinePassed { dispatched: bool },
    Outcome { outcome: WdaControlOutcome, candidates: Option<Candidates> },
}

pub open spec fn unsupported_control_reply() -> ReplyView {
    json_reply(
        422,
        r#"{"ok":false,"error":"unsupported_control","outcome":"not_sent","retry_safe":false}"#@,
    )
}

/// The answer to a browser's control request.
pub open spec fn direct_reply(end: DirectEnd) -> ReplyView {
    match end {
        DirectEnd::TooLate => deadline_reply(false),
        DirectEnd::DeadlinePassed { dispatched } => deadline_reply(dispatched),
        DirectEnd::Outcome { outcome, candidates } => match outcome {
            WdaControlOutcome::Applied => json_reply(200, r#"{"ok":true}"#@),
            WdaControlOutcome::Failed => after_dispatch_reply(),
            WdaControlOutcome::NotSent => before_dispatch_reply(),
            WdaControlOutcome::InvalidElementSnapshot => invalid_snapshot_reply(),
            WdaControlOutcome::StaleElementSnapshot => stale_snapshot_reply(),
            WdaControlOutcome::ElementNotFound => not_found_reply(),
            WdaControlOutcome::AmbiguousElement => ambiguous_reply(candidates_view(candidates)),
            WdaControlOutcome::InvalidElementTarget => invalid_target_reply(),
            WdaControlOutcome::NoAlert => no_alert_reply(),
            WdaControlOutcome::UnsupportedPerformAction => unsupported_perform_reply(),
            _ => unsupported_control_reply(),
        },
    }
}

/// The cached health after a control request: an applied or failed one shows
/// that the runner answers, and whether it carries out actions; one that was not
/// delivered shows only that it does not.
pub open spec fn health_after(health: WdaHealth, outcome: WdaControlOutcome) -> WdaHealth {
    match outcome {
        WdaControlOutcome::Applied => WdaHealth { up: true, actionable: true, ..health },
        WdaControlOutcome::Failed => WdaHealth { up: true, actionable: false, ..health },
        WdaControlOutcome::NotSent => WdaHealth { actionable: false, ..health },
        _ => health,
    }
}

/// Takes the outcome of a control request into the cached health.
pub fn note_control_outcome(health: &mut WdaHealth, outcome: WdaControlOutcome)
    ensures
        *final(health) == health_after(*old(health), outcome),
{
    match outcome {
        WdaControlOutcome::Applied => {
            *health = WdaHealth { up: true, actionable: true, locked: health.locked };
        },
        WdaControlOutcome::Failed => {
            *health = WdaHealth { up: true, actionable: false, locked: health.locked };
        },
        WdaControlOutcome::NotSent => {
            *health = WdaHealth { up: health.up, actionable: false, locked: health.locked };
        },
        _ => {},
    }
}

/// Answers a browser's control request.
pub fn direct_control_reply(end: &DirectEnd) -> (reply: Reply)
    ensures
        reply@ == direct_reply(*end),
{
    match end {
        DirectEnd::TooLate => wda_deadline_response(false),
        DirectEnd::DeadlinePassed { dispatched } => wda_deadline_response(*dispatched),
        DirectEnd::Outcome { outcome, candidates } => match *outcome {
            WdaControlOutcome::Applied => Reply::fixed(200, r#"{"ok":true}"#),
            WdaControlOutcome::Failed => wda_failed_after_dispatch_response(),
            WdaControlOutcome::NotSent => wda_failed_before_dispatch_response(),
            WdaControlOutcome::InvalidElementSnapshot => invalid_element_snapshot_response(),
            WdaControlOutcome::StaleElementSnapshot => stale_element_snapshot_response(),
            WdaControlOutcome::ElementNotFound => element_not_found_response(),
            WdaControlOutcome::AmbiguousElement => ambiguous_element_response(candidates),
            WdaControlOutcome::InvalidElementTarget => invalid_element_target_response(),
            WdaControlOutcome::NoAlert => no_alert_response(),
            WdaControlOutcome::UnsupportedPerformAction => unsupported_perform_action_response(),
            _ => Reply::fixed(
                422,
                r#"{"ok":false,"error":"unsupported_control","outcome":"not_sent","retry_safe":false}"#,
            ),
        },
    }
}

/// A failed or impossible read shows that actions cannot be carried out.
pub fn mark_wda_read_path_unactionable(health: &mut WdaHealth, actionable: &mut bool)
    ensures
        *final(health) == (WdaHealth { actionable: false, ..*old(health) }),
        !*final(actionable),
{
    *actionable = false;
    *health = WdaHealth { up: health.up, actionable: false, locked: health.locked };
}

/// The lengths and some letters of words, which tell them apart.
proof fn lemma_type_words()
    ensures
        "tap"@.len() == 3,
        "tap"@[0] == 't',
        "key"@.len() == 3,
        "key"@[0] == 'k',
        "text"@.len() == 4,
        "text"@[0] == 't',
        "home"@.len() == 4,
        "home"@[0] == 'h',
        "back"@.len() == 4,
        "back"@[0] == 'b',
        "drag"@.len() == 4,
        "drag"@[0] == 'd',
        "alert"@.len() == 5,
        "alert"@[0] == 'a',
        "swipe"@.len() == 5,
        "swipe"@[0] == 's',
        "scroll"@.len() == 6,
        "scroll"@[0] == 's',
        "picker"@.len() == 6,
        "picker"@[0] == 'p',
        "perform"@.len() == 7,
        "keyboard"@.len() == 8,
        "keyboard"@[0] == 'k',
        "shortcut"@.len() == 8,
        "shortcut"@[0] == 's',
        "set_value"@.len() == 9,
        "set_value"@[0] == 's',
        "longpress"@.len() == 9,
        "longpress"@[0] == 'l',
        "launch_app"@.len() == 10,
        "tap_locator"@.len() == 11,
{
    reveal_strlit("tap");
    reveal_strlit("key");
    reveal_strlit("text");
    reveal_strlit("home");
    reveal_strlit("back");
    reveal_strlit("drag");
    reveal_strlit("alert");
    reveal_strlit("swipe");
    reveal_strlit("scroll");
    reveal_strlit("picker");
    reveal_strlit("perform");
    reveal_strlit("keyboard");
    reveal_strlit("shortcut");
    reveal_strlit("set_value");
    reveal_strlit("longpress");
    reveal_strlit("launch_app");
    reveal_strlit("tap_locator");
}
proof fn lemma_name_words()
    ensures
        "hide"@.len() == 4,
        "hide"@[1] == 'i',
        "home"@.len() == 4,
        "home"@[1] == 'o',
        "accept"@.len() == 6,
        "dismiss"@.len() == 7,
        "spotlight"@.len() == 9,
{
    reveal_strlit("hide");
    reveal_strlit("home");
    reveal_strlit("accept");
    reveal_strlit("dismiss");
    reveal_strlit("spotlight");
}

/// The number that a field holds, where it holds one.
pub open spec fn number_at(v: JsonView, key: Seq<char>) -> Option<NumberView> {
    match field_of(v, key) {
        Some(JsonView::Number(n)) => Some(n),
        _ => None,
    }
}

/// Whether a field holds a number from 0 to 1.
pub open spec fn unit_at(v: JsonView, key: Seq<char>) -> bool {
    number_at(v, key) matches Some(n) && number_unit(Some(n))
}

/// A swipe and a drag go from the point that `x1` and `y1` give to the point that
/// `x2` and `y2` give, with the times of the document; without one of the four,
/// or with one outside the screen, there is no gesture. A drag holds before it
/// moves, half a second where nothing else is said.
pub proof fn law_a_swipe_goes_from_its_first_point_to_its_second(v: JsonView)
    ensures
        ({
            let from = (number_at(v, "x1"@)->0, number_at(v, "y1"@)->0);
            let to = (number_at(v, "x2"@)->0, number_at(v, "y2"@)->0);
            let whole = unit_at(v, "x1"@) && unit_at(v, "y1"@) && unit_at(v, "x2"@) && unit_at(
                v,
                "y2"@,
            );
            let ms = unsigned_of(field_of(v, "duration_ms"@));
            let hold = unsigned_of(field_of(v, "hold_ms"@));
            &&& field_of(v, "type"@) == Some(JsonView::Text("swipe"@)) ==> {
                &&& whole ==> agent_plan(v) == (PlanView::Swipe { from, to, ms })
                &&& !whole ==> agent_plan(v) is Refuse
            }
            &&& field_of(v, "type"@) == Some(JsonView::Text("drag"@)) ==> {
                &&& whole ==> (agent_plan(v) matches PlanView::Drag {
                    from: a,
                    to: b,
                    ms: m,
                    hold_ms,
                } && a == from && b == to && m == ms && (hold is None ==> hold_ms == 500) && (hold
                    is Some ==> Some(hold_ms) == hold))
                &&& !whole ==> agent_plan(v) is Refuse
            }
            &&& agent_plan(v) is Swipe ==> field_of(v, "type"@) == Some(JsonView::Text("swipe"@))
            &&& agent_plan(v) is Drag ==> field_of(v, "type"@) == Some(JsonView::Text("drag"@))
        }),
{
    lemma_type_words();
    lemma_name_words();
    reveal_strlit("");
}

/// A tap goes to the label, the row or the point that it names, in that order; a
/// long press to its point, six tenths of a second where nothing else is said;
/// and none of them off the screen.
pub proof fn law_a_tap_goes_where_it_says(v: JsonView)
    ensures
        field_of(v, "type"@) == Some(JsonView::Text("tap"@)) ==> {
            &&& field_of(v, "label"@) matches Some(JsonView::Text(label)) ==> label.len() > 0
                ==> agent_plan(v) == (PlanView::TapLabel { label })
            &&& field_of(v, "label"@) is Some && !(agent_plan(v) is TapLabel) ==> agent_plan(v)
                is Refuse
            &&& field_of(v, "label"@) is None && field_of(v, "element"@) is Some ==> agent_plan(v)
                == PlanView::Element(Job::Tap)
            &&& field_of(v, "label"@) is None && field_of(v, "element"@) is None ==> if unit_at(
                v,
                "x"@,
            ) && unit_at(v, "y"@) {
                agent_plan(v) == (PlanView::TapPoint {
                    x: number_at(v, "x"@)->0,
                    y: number_at(v, "y"@)->0,
                })
            } else {
                agent_plan(v) is Refuse
            }
        },
        field_of(v, "type"@) == Some(JsonView::Text("longpress"@)) ==> if unit_at(v, "x"@)
            && unit_at(v, "y"@) {
            &&& agent_plan(v) matches PlanView::LongPress { x, y, ms }
            &&& Some(x) == number_at(v, "x"@)
            &&& Some(y) == number_at(v, "y"@)
            &&& unsigned_of(field_of(v, "duration_ms"@)) matches Some(asked) ==> ms == asked
            &&& unsigned_of(field_of(v, "duration_ms"@)) is None ==> ms == 600
        } else {
            agent_plan(v) is Refuse
        },
{
    lemma_type_words();
    lemma_name_words();
    reveal_strlit("");
}

/// A scroll with a row is an action on that row; one without goes by the
/// distances and from the point of the document, and there is none without a
/// distance or from off the screen.
pub proof fn law_a_scroll_goes_by_its_distances(v: JsonView)
    requires
        field_of(v, "type"@) == Some(JsonView::Text("scroll"@)),
    ensures
        field_of(v, "element"@) is Some ==> agent_plan(v) == PlanView::Element(Job::Scroll),
        field_of(v, "element"@) is None ==> {
            let still = (number_at(v, "dx"@) matches Some(n) ==> number_zero(n)) && (number_at(
                v,
                "dy"@,
            ) matches Some(n) ==> number_zero(n));
            let off = (number_at(v, "x"@) is Some && !unit_at(v, "x"@)) || (number_at(v, "y"@)
                is Some && !unit_at(v, "y"@));
            if still || off {
                agent_plan(v) is Refuse
            } else {
                agent_plan(v) == (PlanView::ScrollPoint {
                    x: number_at(v, "x"@),
                    y: number_at(v, "y"@),
                    dx: number_at(v, "dx"@),
                    dy: number_at(v, "dy"@),
                })
            }
        },
{
    lemma_type_words();
    lemma_name_words();
    reveal_strlit("");
}

/// Text is typed as it stands, into a field that is cleared first where that is
/// asked for; a key is pressed by its name, and two of the names put the
/// keyboard away; home and the search are reached by name too.
pub proof fn law_text_and_keys_are_sent_as_they_stand(v: JsonView)
    ensures
        field_of(v, "type"@) == Some(JsonView::Text("text"@)) ==> {
            &&& field_of(v, "text"@) matches Some(JsonView::Text(text)) ==> {
                &&& field_of(v, "clear"@) == Some(JsonView::Bool(true)) ==> agent_plan(v)
                    == (PlanView::ClearAndType { text })
                &&& field_of(v, "clear"@) != Some(JsonView::Bool(true)) ==> agent_plan(v)
                    == (PlanView::Keys { text })
            }
            &&& !(field_of(v, "text"@) matches Some(JsonView::Text(_))) ==> agent_plan(v) is Refuse
        },
        field_of(v, "type"@) == Some(JsonView::Text("key"@)) ==> {
            &&& field_of(v, "name"@) matches Some(JsonView::Text(name)) ==> {
                &&& name == "dismiss"@ || name == "hide"@ ==> agent_plan(v)
                    == PlanView::DismissKeyboard
                &&& name != "dismiss"@ && name != "hide"@ ==> agent_plan(v)
                    == (PlanView::NamedKey { name })
            }
            &&& !(field_of(v, "name"@) matches Some(JsonView::Text(_))) ==> agent_plan(v) is Refuse
        },
        field_of(v, "type"@) == Some(JsonView::Text("keyboard"@)) ==> agent_plan(v)
            == PlanView::DismissKeyboard,
        field_of(v, "type"@) == Some(JsonView::Text("home"@)) ==> agent_plan(v) == PlanView::Home,
        field_of(v, "type"@) == Some(JsonView::Text("back"@)) ==> agent_plan(v) == PlanView::Back,
        field_of(v, "type"@) == Some(JsonView::Text("shortcut"@)) ==> {
            &&& field_of(v, "name"@) == Some(JsonView::Text("home"@)) ==> agent_plan(v)
                == PlanView::Home
            &&& field_of(v, "name"@) == Some(JsonView::Text("spotlight"@)) ==> agent_plan(v)
                == PlanView::Spotlight
            &&& field_of(v, "name"@) != Some(JsonView::Text("home"@)) && field_of(v, "name"@)
                != Some(JsonView::Text("spotlight"@)) ==> agent_plan(v) is Refuse
        },
{
    lemma_type_words();
    lemma_name_words();
    reveal_strlit("");
}

/// An app is opened by its bundle, or by the name of one that comes with the
/// phone; a wheel is set to the value that is given, in the column that is
/// given or else the first; a locator is tapped as it is stated; and the actions
/// on a row of a snapshot are what they are called.
pub proof fn law_the_other_actions_are_what_they_are_called(v: JsonView)
    ensures
        field_of(v, "type"@) == Some(JsonView::Text("launch_app"@)) ==> {
            &&& field_of(v, "bundle"@) matches Some(JsonView::Text(bundle)) ==> agent_plan(v)
                == (PlanView::LaunchApp { bundle })
            &&& field_of(v, "bundle"@) is None ==> {
                &&& field_of(v, "name"@) matches Some(JsonView::Text(name)) ==> {
                    &&& bundle_named(stock_apps(), trimmed(name)) matches Some(bundle)
                        ==> agent_plan(v) == (PlanView::LaunchApp { bundle })
                    &&& bundle_named(stock_apps(), trimmed(name)) is None ==> agent_plan(v)
                        is Refuse
                }
                &&& field_of(v, "name"@) is None ==> agent_plan(v) is Refuse
            }
        },
        field_of(v, "type"@) == Some(JsonView::Text("picker"@)) ==> {
            &&& field_of(v, "value"@) matches Some(JsonView::Text(value)) ==> {
                &&& agent_plan(v) matches PlanView::SetPicker { column, value: set }
                &&& set == value
                &&& field_of(v, "column"@) is None ==> column == 0
                &&& unsigned_of(field_of(v, "column"@)) matches Some(n) ==> n <= usize::MAX
                    ==> column == n
            }
            &&& field_of(v, "value"@) is None ==> agent_plan(v) is Refuse
        },
        field_of(v, "type"@) == Some(JsonView::Text("tap_locator"@)) ==> {
            &&& agent_plan(v) matches PlanView::TapLocator { locator } ==> field_of(v, "locator"@)
                is Some && locator_of(field_of(v, "locator"@)->0) == Some(locator) && has_condition(
                locator,
            )
            &&& !(agent_plan(v) is TapLocator) ==> agent_plan(v) is Refuse
            &&& field_of(v, "locator"@) matches Some(json) ==> (locator_of(json) matches Some(
                locator,
            ) ==> has_condition(locator) ==> agent_plan(v) == (PlanView::TapLocator { locator }))
        },
        field_of(v, "type"@) == Some(JsonView::Text("set_value"@)) ==> agent_plan(v)
            == PlanView::Element(Job::SetValue),
        field_of(v, "type"@) == Some(JsonView::Text("perform"@)) ==> {
            &&& field_of(v, "action"@) matches Some(JsonView::Text(verb)) ==> perform_verbs().contains(
                verb,
            ) ==> agent_plan(v) == PlanView::Element(Job::Perform)
            &&& agent_plan(v) != PlanView::Element(Job::Perform) ==> agent_plan(v)
                == PlanView::Refuse(WdaControlOutcome::UnsupportedPerformAction)
        },
        field_of(v, "type"@) == Some(JsonView::Text("alert"@)) ==> {
            &&& agent_plan(v) matches PlanView::Alert { button, action }
            &&& button matches Some(b) ==> field_of(v, "button"@) == Some(JsonView::Text(b))
            &&& field_of(v, "button"@) matches Some(JsonView::Text(b)) ==> b.len() > 0 ==> button
                == Some(b)
            &&& action matches Some(a) ==> field_of(v, "action"@) == Some(JsonView::Text(a))
            &&& field_of(v, "action"@) matches Some(JsonView::Text(a)) ==> action == Some(a)
        },
{
    lemma_type_words();
    lemma_name_words();
    reveal_strlit("");
}

/// A browser's document is read as an agent's is, but for what only agents may
/// ask; and a document without a type asks for nothing.
pub proof fn law_a_browser_may_ask_for_less(v: JsonView)
    ensures
        control_plan(v) !is Refuse ==> agent_plan(v) == control_plan(v) || agent_plan(v)
            is ClearAndType,
        agent_plan(v) is LaunchApp || agent_plan(v) is TapLocator || agent_plan(v) is SetPicker
            ==> control_plan(v) is Refuse,
        !(field_of(v, "type"@) matches Some(JsonView::Text(_))) ==> agent_plan(v) is Refuse,
{
    lemma_type_words();
    lemma_name_words();
    reveal_strlit("");
}

/// A press on an alert goes to a button that the alert has, an answer accepts or
/// dismisses as it says, and nothing is pressed where there is no alert.
pub proof fn law_an_alert_is_answered_as_asked(
    button: Option<Seq<char>>,
    action: Option<Seq<char>>,
    buttons: Option<Seq<Seq<char>>>,
)
    ensures
        buttons is None ==> alert_next(button, action, buttons) == AlertView::Refuse(
            WdaControlOutcome::NoAlert,
        ),
        alert_next(button, action, buttons) matches AlertView::Press { name } ==> button == Some(
            name,
        ) && action is None && buttons is Some && (buttons->0).contains(name),
        alert_next(button, action, buttons) is Accept <==> buttons is Some && button is None
            && action == Some("accept"@),
        alert_next(button, action, buttons) is Dismiss <==> buttons is Some && button is None
            && action == Some("dismiss"@),
        buttons is Some && action is None && button is Some && !(buttons->0).contains(button->0)
            ==> alert_next(button, action, buttons) == AlertView::Refuse(
            WdaControlOutcome::ElementNotFound,
        ),
        buttons is Some && action is None && button is Some && (buttons->0).contains(button->0)
            ==> alert_next(button, action, buttons) is Press,
{
    lemma_name_words();
}

/// One call ends as it went: done is applied, refused by the runner's port is
/// not sent, and anything else is failed, after which the session is rebuilt and
/// the phone not taken as acting. What the agents' dispatcher carries out itself is
/// never called unsent.
pub proof fn law_a_call_ends_as_it_went(plan: PlanView, from_agent: bool)
    ensures
        plan_end(plan, from_agent, CallEnd::Done) == (ControlEnd {
            outcome: WdaControlOutcome::Applied,
            actionable: true,
            drop_session: false,
        }),
        plan_end(plan, from_agent, CallEnd::Failed) == (ControlEnd {
            outcome: WdaControlOutcome::Failed,
            actionable: false,
            drop_session: true,
        }),
        !from_agent ==> plan_end(plan, from_agent, CallEnd::NeverReached) == (ControlEnd {
            outcome: WdaControlOutcome::NotSent,
            actionable: false,
            drop_session: true,
        }),
        from_agent && (plan is LaunchApp || plan is SetPicker || plan is ClearAndType || plan
            is TapLabel || plan is TapLocator || plan == PlanView::Element(Job::Tap)) ==> plan_end(
            plan,
            from_agent,
            CallEnd::NeverReached,
        ).outcome == WdaControlOutcome::Failed,
        from_agent && (plan is TapPoint || plan is Swipe || plan is Drag || plan is Keys || plan
            is Home || plan is LongPress || plan is ScrollPoint || plan == PlanView::Element(
            Job::Perform,
        ) || plan == PlanView::Element(Job::SetValue)) ==> plan_end(
            plan,
            from_agent,
            CallEnd::NeverReached,
        ).outcome == WdaControlOutcome::NotSent,
{
}

/// A target is a row only where it is the only match; no match and several are
/// told apart, and the several are all told.
pub proof fn law_only_a_sole_match_is_a_target(matches: Seq<usize>)
    ensures
        target_of(matches) matches TargetView::Row(row) ==> matches == seq![row],
        matches.len() == 0 ==> target_of(matches) is NotFound,
        matches.len() == 1 ==> target_of(matches) == TargetView::Row(matches[0]),
        matches.len() > 1 ==> target_of(matches) == TargetView::Ambiguous(matches),
{
    if matches.len() == 1 {
        assert(matches =~= seq![matches[0]]);
    }
}

/// A gesture stays fresh for as long as it says, two and a half seconds at most;
/// the sender's own clock decides nothing, but must be a number.
pub proof fn law_freshness_is_what_the_document_says(v: JsonView)
    ensures
        freshness(v) matches Ok(ttl) ==> field_of(v, "ttl_ms"@) == Some(
            JsonView::Number(NumberView::Unsigned(ttl)),
        ) && 1 <= ttl <= 2500,
        unsigned_of(field_of(v, "ttl_ms"@)) matches Some(ttl) ==> (1 <= ttl <= 2500 && (field_of(
            v,
            "issued_at_ms"@,
        ) is None || unsigned_of(field_of(v, "issued_at_ms"@)) is Some) ==> freshness(v) == Ok::<
            u64,
            ControlFreshnessError,
        >(ttl)),
        unsigned_of(field_of(v, "ttl_ms"@)) is None ==> freshness(v) == Err::<
            u64,
            ControlFreshnessError,
        >(ControlFreshnessError::Missing),
        unsigned_of(field_of(v, "ttl_ms"@)) matches Some(ttl) ==> (ttl == 0 || ttl > 2500
            ==> freshness(v) == Err::<u64, ControlFreshnessError>(ControlFreshnessError::Invalid)),
{
}

/// A gesture is admitted only to a phone that is driven directly, is chosen, is
/// neither given up nor about to be, and has a runner; and it is admitted as it
/// was sent.
pub proof fn law_a_gesture_is_admitted_only_to_a_drivable_phone(
    facts: DeviceFacts,
    body: Seq<char>,
)
    ensures
        control_admission(facts, body) matches Ok((document, ttl)) ==> {
            &&& facts.direct
            &&& !facts.pending
            &&& facts.transition == WdaLifecycleTransition::Active
            &&& !facts.released
            &&& facts.has_runner
            &&& json_document(body) == Some(document)
            &&& document is Object
            &&& freshness(document) == Ok::<u64, ControlFreshnessError>(ttl)
        },
        control_admission(facts, body) matches Err(reply) ==> reply.status == 409 || reply.status
            == 400 || reply.status == 503,
        !facts.direct ==> (control_admission(facts, body) matches Err(reply) && reply.status
            == 409),
        facts.direct && !facts.pending && json_document(body) is None ==> (control_admission(
            facts,
            body,
        ) matches Err(reply) && reply.status == 400),
        facts.direct && !facts.pending && facts.transition == WdaLifecycleTransition::Active
            && !facts.released && facts.has_runner && (json_document(body) matches Some(d) && d
            is Object && freshness(d) is Ok) ==> control_admission(facts, body) is Ok,
        facts.direct && !facts.pending && (json_document(body) matches Some(d) && d is Object
            && freshness(d) is Ok) && (facts.transition != WdaLifecycleTransition::Active
            || facts.released || !facts.has_runner) ==> (control_admission(facts, body) matches Err(
            reply,
        ) && reply.status == 503),
{
}

/// Only an applied gesture is answered as done, and an answer that leaves the
/// result open is never called safe to send again.
pub proof fn law_only_an_applied_gesture_is_answered_as_done(
    outcome: WdaControlOutcome,
    candidates: Option<Candidates>,
)
    ensures
        direct_reply(DirectEnd::Outcome { outcome, candidates }).status == 200 <==> outcome
            == WdaControlOutcome::Applied,
        outcome == WdaControlOutcome::Failed ==> direct_reply(
            DirectEnd::Outcome { outcome, candidates },
        ).status == 502,
        outcome == WdaControlOutcome::StaleElementSnapshot ==> direct_reply(
            DirectEnd::Outcome { outcome, candidates },
        ).status == 409,
        direct_reply(DirectEnd::TooLate).status == 408,
        direct_reply(DirectEnd::DeadlinePassed { dispatched: false }).status == 408,
        direct_reply(DirectEnd::DeadlinePassed { dispatched: true }).status == 504,
{
}

/// An applied action shows a runner that acts, a failed one a runner that answers
/// and does not act, an unsent one that none acts; whether the phone is locked is
/// not touched by any of them, and other outcomes show nothing.
pub proof fn law_an_outcome_shows_how_the_runner_is(health: WdaHealth, outcome: WdaControlOutcome)
    ensures
        health_after(health, outcome).locked == health.locked,
        outcome == WdaControlOutcome::Applied ==> health_after(health, outcome).up && health_after(
            health,
            outcome,
        ).actionable,
        outcome == WdaControlOutcome::Failed ==> health_after(health, outcome).up && !health_after(
            health,
            outcome,
        ).actionable,
        outcome == WdaControlOutcome::NotSent ==> health_after(health, outcome).up == health.up
            && !health_after(health, outcome).actionable,
        outcome != WdaControlOutcome::Applied && outcome != WdaControlOutcome::Failed && outcome
            != WdaControlOutcome::NotSent ==> health_after(health, outcome) == health,
{
}

} // verus!
