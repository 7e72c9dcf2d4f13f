//! How a control request ends, and what is answered for each end.

use vstd::prelude::*;

use crate::reply::{
    bool_text, json_reply, json_string_text, object_text, ObjectText, Reply, ReplyView,
};

verus! {

/// How one control request ended.
#[derive(Clone, Copy, Debug, PartialEq, Eq)]
pub enum WdaControlOutcome {
    Applied,
    /// Nothing was delivered to the phone.
    NotSent,
    Unsupported,
    /// A `perform` verb outside the closed set.
    UnsupportedPerformAction,
    InvalidElementSnapshot,
    StaleElementSnapshot,
    ElementNotFound,
    AmbiguousElement,
    InvalidElementTarget,
    /// A value of the wrong shape for the action; nothing was sent.
    InvalidValue(&'static str),
    /// Delivered and acknowledged, but the element did not change.
    NoEffect(&'static str),
    /// An alert action while no alert is showing.
    NoAlert,
    /// Delivered, with an unknown result.
    Failed,
}

pub open spec fn deadline_reply(dispatched: bool) -> ReplyView {
    if dispatched {
        json_reply(
            504,
            r#"{"ok":false,"error":"outcome_unknown","outcome":"unknown","retry_safe":false}"#@,
        )
    } else {
        json_reply(
            408,
            r#"{"ok":false,"error":"not_sent","outcome":"not_sent","retry_safe":true}"#@,
        )
    }
}

/// The answer to a request whose deadline passed: known not to be sent, or
/// dispatched and of unknown result.
pub fn wda_deadline_response(dispatched: bool) -> (reply: Reply)
    ensures
        reply@ == deadline_reply(dispatched),
{
    if dispatched {
        Reply::fixed(
            504,
            r#"{"ok":false,"error":"outcome_unknown","outcome":"unknown","retry_safe":false}"#,
        )
    } else {
        Reply::fixed(
            408,
            r#"{"ok":false,"error":"not_sent","outcome":"not_sent","retry_safe":true}"#,
        )
    }
}

pub open spec fn after_dispatch_reply() -> ReplyView {
    json_reply(
        502,
        r#"{"ok":false,"error":"outcome_unknown","outcome":"unknown","retry_safe":false}"#@,
    )
}

pub fn wda_failed_after_dispatch_response() -> (reply: Reply)
    ensures
        reply@ == after_dispatch_reply(),
{
    Reply::fixed(
        502,
        r#"{"ok":false,"error":"outcome_unknown","outcome":"unknown","retry_safe":false}"#,
    )
}

pub open spec fn before_dispatch_reply() -> ReplyView {
    json_reply(
        502,
        r#"{"ok":false,"error":"wda_pre_dispatch_failed","outcome":"not_sent","retry_safe":true}"#@,
    )
}

pub fn wda_failed_before_dispatch_response() -> (reply: Reply)
    ensures
        reply@ == before_dispatch_reply(),
{
    Reply::fixed(
        502,
        r#"{"ok":false,"error":"wda_pre_dispatch_failed","outcome":"not_sent","retry_safe":true}"#,
    )
}

pub open spec fn invalid_snapshot_reply() -> ReplyView {
    json_reply(
        400,
        r#"{"ok":false,"error":"invalid_element_snapshot","outcome":"not_sent","retry_safe":true}"#@,
    )
}

pub fn invalid_element_snapshot_response() -> (reply: Reply)
    ensures
        reply@ == invalid_snapshot_reply(),
{
    Reply::fixed(
        400,
        r#"{"ok":false,"error":"invalid_element_snapshot","outcome":"not_sent","retry_safe":true}"#,
    )
}

pub open spec fn stale_snapshot_reply() -> ReplyView {
    json_reply(
        409,
        r#"{"ok":false,"error":"stale_element_snapshot","outcome":"not_sent","retry_safe":true,"hint":"refresh /agent/elements and choose the element again"}"#@,
    )
}

pub fn stale_element_snapshot_response() -> (reply: Reply)
    ensures
        reply@ == stale_snapshot_reply(),
{
    Reply::fixed(
        409,
        r#"{"ok":false,"error":"stale_element_snapshot","outcome":"not_sent","retry_safe":true,"hint":"refresh /agent/elements and choose the element again"}"#,
    )
}

pub open spec fn not_found_reply() -> ReplyView {
    json_reply(
        422,
        r#"{"ok":false,"error":"element_not_found","outcome":"not_sent","retry_safe":true,"hint":"refresh /agent/elements and use an exact current label or snapshot-bound element index"}"#@,
    )
}

/// A `422` about which element was meant.
fn element_resolution_response(body: &str) -> (reply: Reply)
    ensures
        reply@ == json_reply(422, body@),
{
    Reply::fixed(422, body)
}

pub fn element_not_found_response() -> (reply: Reply)
    ensures
        reply@ == not_found_reply(),
{
    element_resolution_response(
        r#"{"ok":false,"error":"element_not_found","outcome":"not_sent","retry_safe":true,"hint":"refresh /agent/elements and use an exact current label or snapshot-bound element index"}"#,
    )
}

/// The rows that an ambiguous label matched: the token of the tree they are in,
/// and the JSON text of the list of them.
#[derive(Debug)]
pub struct Candidates {
    pub snapshot: String,
    pub matches: String,
}

/// The content of optional [`Candidates`].
pub open spec fn candidates_view(c: Option<Candidates>) -> Option<(Seq<char>, Seq<char>)> {
    match c {
        Some(c) => Some((c.snapshot@, c.matches@)),
        None => None,
    }
}

pub open spec fn ambiguous_fields(snapshot: Seq<char>, matches: Seq<char>) -> Seq<
    (Seq<char>, Seq<char>),
> {
    seq![
        ("error"@, json_string_text("ambiguous_element_label"@)),
        (
            "hint"@,
            json_string_text(
                "several current rows carry this exact label; pick one of `matches` and send element plus the included snapshot"@,
            ),
        ),
        ("matches"@, matches),
        ("ok"@, bool_text(false)),
        ("outcome"@, json_string_text("not_sent"@)),
        ("retry_safe"@, bool_text(true)),
        ("snapshot"@, json_string_text(snapshot)),
    ]
}

pub open spec fn ambiguous_reply(candidates: Option<(Seq<char>, Seq<char>)>) -> ReplyView {
    match candidates {
        None => json_reply(
            422,
            r#"{"ok":false,"error":"ambiguous_element_label","outcome":"not_sent","retry_safe":true,"hint":"refresh /agent/elements, disambiguate by identifier/kind/state, then send element plus snapshot"}"#@,
        ),
        Some((snapshot, matches)) => json_reply(
            422,
            object_text(ambiguous_fields(snapshot, matches)),
        ),
    }
}

/// Several elements match. Where the candidates are known they go along, so that
/// one of them can be picked without another read.
pub fn ambiguous_element_response(detail: &Option<Candidates>) -> (reply: Reply)
    ensures
        reply@ == ambiguous_reply(candidates_view(*detail)),
{
    match detail {
        None => element_resolution_response(
            r#"{"ok":false,"error":"ambiguous_element_label","outcome":"not_sent","retry_safe":true,"hint":"refresh /agent/elements, disambiguate by identifier/kind/state, then send element plus snapshot"}"#,
        ),
        Some(c) => {
            let body = ObjectText::new().text("error", "ambiguous_element_label").text(
                "hint",
                "several current rows carry this exact label; pick one of `matches` and send element plus the included snapshot",
            ).raw("matches", c.matches.as_str()).flag("ok", false).text("outcome", "not_sent").flag(
                "retry_safe",
                true,
            ).text("snapshot", c.snapshot.as_str());
            assert(body.fields() =~= ambiguous_fields(c.snapshot@, c.matches@));
            Reply::json(422, body.finish())
        },
    }
}

pub open spec fn no_alert_reply() -> ReplyView {
    json_reply(
        422,
        r#"{"ok":false,"error":"no_alert","outcome":"not_sent","retry_safe":true,"hint":"no system alert is showing; /agent/elements carries an `alert` block only while one is up"}"#@,
    )
}

pub fn no_alert_response() -> (reply: Reply)
    ensures
        reply@ == no_alert_reply(),
{
    element_resolution_response(
        r#"{"ok":false,"error":"no_alert","outcome":"not_sent","retry_safe":true,"hint":"no system alert is showing; /agent/elements carries an `alert` block only while one is up"}"#,
    )
}

pub open spec fn hinted_fields(error: Seq<char>, outcome: Seq<char>, hint: Seq<char>) -> Seq<
    (Seq<char>, Seq<char>),
> {
    seq![
        ("error"@, json_string_text(error)),
        ("hint"@, json_string_text(hint)),
        ("ok"@, bool_text(false)),
        ("outcome"@, json_string_text(outcome)),
        ("retry_safe"@, bool_text(true)),
    ]
}

/// A final answer that can be retried, with a hint.
pub fn hinted_control_response(status: u16, error: &str, outcome: &str, hint: &str) -> (reply: Reply)
    ensures
        reply@ == json_reply(status, object_text(hinted_fields(error@, outcome@, hint@))),
{
    let body = ObjectText::new().text("error", error).text("hint", hint).flag("ok", false).text(
        "outcome",
        outcome,
    ).flag("retry_safe", true);
    assert(body.fields() =~= hinted_fields(error@, outcome@, hint@));
    Reply::json(status, body.finish())
}

pub open spec fn invalid_target_reply() -> ReplyView {
    json_reply(
        422,
        r#"{"ok":false,"error":"invalid_element_target","outcome":"not_sent","retry_safe":true,"hint":"the matched element has no finite positive-size hit target; refresh /agent/elements and choose another locator"}"#@,
    )
}

pub fn invalid_element_target_response() -> (reply: Reply)
    ensures
        reply@ == invalid_target_reply(),
{
    element_resolution_response(
        r#"{"ok":false,"error":"invalid_element_target","outcome":"not_sent","retry_safe":true,"hint":"the matched element has no finite positive-size hit target; refresh /agent/elements and choose another locator"}"#,
    )
}

pub open spec fn unsupported_perform_reply() -> ReplyView {
    json_reply(
        422,
        r#"{"ok":false,"error":"unsupported_perform_action","outcome":"not_sent","retry_safe":false,"hint":"supported perform actions: increment, decrement, adjust, toggle, menu, double_tap, two_finger_tap, scroll_to_visible, pinch, rotate, force_press"}"#@,
    )
}

/// The same request cannot succeed later, so it is not called safe to retry.
pub fn unsupported_perform_action_response() -> (reply: Reply)
    ensures
        reply@ == unsupported_perform_reply(),
{
    Reply::fixed(
        422,
        r#"{"ok":false,"error":"unsupported_perform_action","outcome":"not_sent","retry_safe":false,"hint":"supported perform actions: increment, decrement, adjust, toggle, menu, double_tap, two_finger_tap, scroll_to_visible, pinch, rotate, force_press"}"#,
    )
}

/// How a failed batch step is reported: status, error, outcome, and whether the
/// step by itself may be sent again. `None` for an applied action.
pub open spec fn batch_report(outcome: WdaControlOutcome) -> Option<
    (u16, Seq<char>, Seq<char>, bool),
> {
    match outcome {
        WdaControlOutcome::Applied => None,
        WdaControlOutcome::NotSent => Some((502, "wda_pre_dispatch_failed"@, "not_sent"@, true)),
        WdaControlOutcome::Unsupported => Some((422, "unsupported_control"@, "not_sent"@, true)),
        WdaControlOutcome::UnsupportedPerformAction => Some(
            (422, "unsupported_perform_action"@, "not_sent"@, false),
        ),
        WdaControlOutcome::InvalidElementSnapshot => Some(
            (400, "invalid_element_snapshot"@, "not_sent"@, true),
        ),
        WdaControlOutcome::StaleElementSnapshot => Some(
            (409, "stale_element_snapshot"@, "not_sent"@, true),
        ),
        WdaControlOutcome::ElementNotFound => Some((422, "element_not_found"@, "not_sent"@, true)),
        WdaControlOutcome::AmbiguousElement => Some(
            (422, "ambiguous_element_label"@, "not_sent"@, true),
        ),
        WdaControlOutcome::NoAlert => Some((422, "no_alert"@, "not_sent"@, true)),
        WdaControlOutcome::InvalidElementTarget => Some(
            (422, "invalid_element_target"@, "not_sent"@, true),
        ),
        WdaControlOutcome::InvalidValue(_) => Some((422, "invalid_value"@, "not_sent"@, true)),
        WdaControlOutcome::NoEffect(_) => Some((409, "adjust_no_effect"@, "no_effect"@, true)),
        WdaControlOutcome::Failed => Some((502, "outcome_unknown"@, "unknown"@, false)),
    }
}

/// How a failed batch step is reported.
pub struct BatchReport {
    pub status: u16,
    pub error: &'static str,
    pub outcome: &'static str,
    pub retry_safe: bool,
}

impl WdaControlOutcome {
    pub fn batch_report(self) -> (report: Option<BatchReport>)
        ensures
            match report {
                Some(r) => batch_report(self) == Some((r.status, r.error@, r.outcome@, r.retry_safe)),
                None => batch_report(self) is None,
            },
    {
        let (status, error, outcome, retry_safe) = match self {
            WdaControlOutcome::Applied => {
                return None;
            },
            WdaControlOutcome::NotSent => (502, "wda_pre_dispatch_failed", "not_sent", true),
            WdaControlOutcome::Unsupported => (422, "unsupported_control", "not_sent", true),
            WdaControlOutcome::UnsupportedPerformAction => (
                422,
                "unsupported_perform_action",
                "not_sent",
                false,
            ),
            WdaControlOutcome::InvalidElementSnapshot => (
                400,
                "invalid_element_snapshot",
                "not_sent",
                true,
            ),
            WdaControlOutcome::StaleElementSnapshot => (
                409,
                "stale_element_snapshot",
                "not_sent",
                true,
            ),
            WdaControlOutcome::ElementNotFound => (422, "element_not_found", "not_sent", true),
            WdaControlOutcome::AmbiguousElement => (
                422,
                "ambiguous_element_label",
                "not_sent",
                true,
            ),
            WdaControlOutcome::NoAlert => (422, "no_alert", "not_sent", true),
            WdaControlOutcome::InvalidElementTarget => (
                422,
                "invalid_element_target",
                "not_sent",
                true,
            ),
            WdaControlOutcome::InvalidValue(_) => (422, "invalid_value", "not_sent", true),
            WdaControlOutcome::NoEffect(_) => (409, "adjust_no_effect", "no_effect", true),
            WdaControlOutcome::Failed => (502, "outcome_unknown", "unknown", false),
        };
        Some(BatchReport { status, error, outcome, retry_safe })
    }

    /// Whether the read path is no longer trusted after this outcome.
    pub fn breaks_read_path(self) -> (breaks: bool)
        ensures
            breaks == (self == WdaControlOutcome::Failed || self == WdaControlOutcome::NotSent),
    {
        match self {
            WdaControlOutcome::Failed => true,
            WdaControlOutcome::NotSent => true,
            _ => false,
        }
    }
}

/// An unknown result is never called safe to retry.
pub proof fn law_unknown_is_never_retry_safe(outcome: WdaControlOutcome)
    ensures
        batch_report(outcome) matches Some((_, _, name, retry_safe)) ==> (name == "unknown"@
            ==> !retry_safe),
        outcome == WdaControlOutcome::Failed ==> (batch_report(outcome) matches Some(report)
            && report.2 == "unknown"@),
{
    reveal_strlit("unknown");
    reveal_strlit("not_sent");
    reveal_strlit("no_effect");
    assert("unknown"@.len() == 7);
    assert("not_sent"@.len() == 8);
    assert("no_effect"@.len() == 9);
}

/// Every outcome but an applied one is reported, with its own status and words;
/// only an unknown outcome and a verb that there is not are unsafe to retry.
pub proof fn law_an_outcome_is_reported_as_what_it_is(hint: &'static str)
    ensures
        batch_report(WdaControlOutcome::Applied) is None,
        batch_report(WdaControlOutcome::NotSent) == Some(
            (502u16, "wda_pre_dispatch_failed"@, "not_sent"@, true),
        ),
        batch_report(WdaControlOutcome::Failed) == Some(
            (502u16, "outcome_unknown"@, "unknown"@, false),
        ),
        batch_report(WdaControlOutcome::Unsupported) == Some(
            (422u16, "unsupported_control"@, "not_sent"@, true),
        ),
        batch_report(WdaControlOutcome::UnsupportedPerformAction) == Some(
            (422u16, "unsupported_perform_action"@, "not_sent"@, false),
        ),
        batch_report(WdaControlOutcome::InvalidElementSnapshot) == Some(
            (400u16, "invalid_element_snapshot"@, "not_sent"@, true),
        ),
        batch_report(WdaControlOutcome::StaleElementSnapshot) == Some(
            (409u16, "stale_element_snapshot"@, "not_sent"@, true),
        ),
        batch_report(WdaControlOutcome::ElementNotFound) == Some(
            (422u16, "element_not_found"@, "not_sent"@, true),
        ),
        batch_report(WdaControlOutcome::AmbiguousElement) == Some(
            (422u16, "ambiguous_element_label"@, "not_sent"@, true),
        ),
        batch_report(WdaControlOutcome::NoAlert) == Some((422u16, "no_alert"@, "not_sent"@, true)),
        batch_report(WdaControlOutcome::InvalidElementTarget) == Some(
            (422u16, "invalid_element_target"@, "not_sent"@, true),
        ),
        batch_report(WdaControlOutcome::InvalidValue(hint)) == Some(
            (422u16, "invalid_value"@, "not_sent"@, true),
        ),
        batch_report(WdaControlOutcome::NoEffect(hint)) == Some(
            (409u16, "adjust_no_effect"@, "no_effect"@, true),
        ),
{
}

/// A request whose time is up before it was sent is safe to send again and says
/// so; one that was sent is not; and each failure has its own words.
pub proof fn law_failures_say_whether_to_send_again(candidates: Option<(Seq<char>, Seq<char>)>)
    ensures
        deadline_reply(false) == json_reply(
            408,
            r#"{"ok":false,"error":"not_sent","outcome":"not_sent","retry_safe":true}"#@,
        ),
        deadline_reply(true) == json_reply(
            504,
            r#"{"ok":false,"error":"outcome_unknown","outcome":"unknown","retry_safe":false}"#@,
        ),
        after_dispatch_reply() == json_reply(
            502,
            r#"{"ok":false,"error":"outcome_unknown","outcome":"unknown","retry_safe":false}"#@,
        ),
        before_dispatch_reply() == json_reply(
            502,
            r#"{"ok":false,"error":"wda_pre_dispatch_failed","outcome":"not_sent","retry_safe":true}"#@,
        ),
        invalid_snapshot_reply() == json_reply(
            400,
            r#"{"ok":false,"error":"invalid_element_snapshot","outcome":"not_sent","retry_safe":true}"#@,
        ),
        stale_snapshot_reply().status == 409,
        not_found_reply().status == 422,
        ambiguous_reply(candidates).status == 422,
        no_alert_reply().status == 422,
        invalid_target_reply().status == 422,
        unsupported_perform_reply().status == 422,
        candidates matches Some((snapshot, matches)) ==> ambiguous_reply(candidates).body
            == object_text(ambiguous_fields(snapshot, matches)),
{
}

/// The answer to a doubtful target lists what it may mean, with the snapshot that
/// the list is of, and says that nothing was sent.
pub proof fn law_a_doubtful_target_is_answered_with_its_candidates(
    snapshot: Seq<char>,
    matches: Seq<char>,
    error: Seq<char>,
    outcome: Seq<char>,
    hint: Seq<char>,
)
    ensures
        ambiguous_fields(snapshot, matches).contains(("matches"@, matches)),
        ambiguous_fields(snapshot, matches).contains(("snapshot"@, json_string_text(snapshot))),
        ambiguous_fields(snapshot, matches).contains(("outcome"@, json_string_text("not_sent"@))),
        ambiguous_fields(snapshot, matches).contains(("retry_safe"@, "true"@)),
        ambiguous_fields(snapshot, matches).contains(("ok"@, "false"@)),
        ambiguous_fields(snapshot, matches).contains(
            ("error"@, json_string_text("ambiguous_element_label"@)),
        ),
        hinted_fields(error, outcome, hint).contains(("error"@, json_string_text(error))),
        hinted_fields(error, outcome, hint).contains(("outcome"@, json_string_text(outcome))),
        hinted_fields(error, outcome, hint).contains(("hint"@, json_string_text(hint))),
        hinted_fields(error, outcome, hint).contains(("ok"@, "false"@)),
        hinted_fields(error, outcome, hint).contains(("retry_safe"@, "true"@)),
{
    let f = ambiguous_fields(snapshot, matches);
    assert(f[0] == ("error"@, json_string_text("ambiguous_element_label"@)));
    assert(f[2] == ("matches"@, matches));
    assert(f[3] == ("ok"@, bool_text(false)));
    assert(f[4] == ("outcome"@, json_string_text("not_sent"@)));
    assert(f[5] == ("retry_safe"@, bool_text(true)));
    assert(f[6] == ("snapshot"@, json_string_text(snapshot)));
    let h = hinted_fields(error, outcome, hint);
    assert(h[0] == ("error"@, json_string_text(error)));
    assert(h[1] == ("hint"@, json_string_text(hint)));
    assert(h[2] == ("ok"@, bool_text(false)));
    assert(h[3] == ("outcome"@, json_string_text(outcome)));
    assert(h[4] == ("retry_safe"@, bool_text(true)));
}

} // verus!
