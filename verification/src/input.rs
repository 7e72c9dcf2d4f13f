//! One control message from an agent: what it asks for, whether the phone can
//! take it, and the answer.

use vstd::prelude::*;

use crate::action::{bundle_valid, valid_bundle};
use crate::control::{target_not_configured_reply, target_not_configured_response};
use crate::device::{hex_and_dashes, is_hex_and_dashes, DevicectlError};
use crate::element::ElementRow;
use crate::json::{field_of, json_document, text_of, Json, JsonView};
use crate::lifecycle::{
    next_round, owned, WdaLifecycle, WdaLifecycleTransition, WdaTransitionToken,
};
use crate::locator::{app_change, app_changed_json};
use crate::observe::{
    attach_alert, put_opt, recall, tree_delta_fields, tree_delta_text, with_alert, Alert,
    SnapshotCache, SnapshotView,
};
use crate::outcome::{
    after_dispatch_reply, ambiguous_element_response, ambiguous_reply, before_dispatch_reply,
    candidates_view, deadline_reply, element_not_found_response, hinted_control_response,
    hinted_fields, invalid_element_snapshot_response, invalid_element_target_response,
    invalid_snapshot_reply, invalid_target_reply, no_alert_reply, no_alert_response,
    not_found_reply, stale_element_snapshot_response, stale_snapshot_reply,
    unsupported_perform_action_response, unsupported_perform_reply, wda_deadline_response,
    wda_failed_after_dispatch_response, wda_failed_before_dispatch_response, Candidates,
    WdaControlOutcome,
};
use crate::reply::{
    json_reply, json_retry_reply, json_string_text, object_text, opt_str, plain_reply, texts,
    bool_text, ObjectText, Reply, ReplyView,
};
use crate::run::opt_field;
use crate::settle::{report_fields, ReportView, SettleReport};
use crate::text::{decimal, decimal_text, join2, join3, same_text};

verus! {

/// What a message asks to uninstall.
pub enum UninstallView {
    /// The message is about something else.
    Other,
    Refused(ReplyView),
    Run { udid: Option<Seq<char>>, bundle: Seq<char> },
}

/// What a message asks to uninstall.
#[derive(Debug)]
pub enum Uninstall {
    /// The message is about something else.
    Other,
    Refused(Reply),
    /// Remove this app from this phone, or from the one that is connected.
    Run { udid: Option<String>, bundle: String },
}

impl View for Uninstall {
    type V = UninstallView;

    open spec fn view(&self) -> UninstallView {
        match *self {
            Uninstall::Other => UninstallView::Other,
            Uninstall::Refused(reply) => UninstallView::Refused(reply@),
            Uninstall::Run { udid, bundle } => UninstallView::Run {
                udid: match udid {
                    Some(udid) => Some(udid@),
                    None => None,
                },
                bundle: bundle@,
            },
        }
    }
}

pub open spec fn bundle_asked(v: JsonView) -> Seq<char> {
    match text_of(field_of(v, "bundle"@)) {
        Some(bundle) => bundle,
        None => Seq::empty(),
    }
}

/// A message of type "uninstall" names an app, and the phone that is set up or
/// none.
pub open spec fn uninstall_asked(body: Seq<char>, configured: Option<Seq<char>>) -> UninstallView {
    match json_document(body) {
        None => UninstallView::Other,
        Some(v) => if text_of(field_of(v, "type"@)) != Some("uninstall"@) {
            UninstallView::Other
        } else if !bundle_valid(bundle_asked(v)) {
            UninstallView::Refused(
                plain_reply(400, "uninstall needs a valid \"bundle\" (reverse-DNS id)"@),
            )
        } else {
            match field_of(v, "udid"@) {
                None => UninstallView::Run { udid: configured, bundle: bundle_asked(v) },
                Some(JsonView::Text(udid)) => if udid.len() == 0 || !hex_and_dashes(udid) {
                    UninstallView::Refused(
                        plain_reply(400, "uninstall \"udid\" must be non-empty hex and dashes"@),
                    )
                } else if configured is Some && configured != Some(udid) {
                    UninstallView::Refused(
                        json_reply(409, r#"{"ok":false,"error":"target_change_requires_restart"}"#@),
                    )
                } else {
                    UninstallView::Run { udid: Some(udid), bundle: bundle_asked(v) }
                },
                Some(_) => UninstallView::Refused(
                    plain_reply(400, "uninstall \"udid\" must be non-empty hex and dashes"@),
                ),
            }
        },
    }
}

/// Reads what a message asks to uninstall. Names are checked before they reach a
/// command.
pub fn uninstall_request(body: &str, configured: Option<&str>) -> (asked: Uninstall)
    ensures
        asked@ == uninstall_asked(body@, opt_str(configured)),
{
    let v = match Json::parse(body) {
        Some(v) => v,
        None => {
            return Uninstall::Other;
        },
    };
    let uninstall = match v.text_field("type") {
        Some(kind) => same_text(kind, "uninstall"),
        None => false,
    };
    if !uninstall {
        return Uninstall::Other;
    }
    let bundle = match v.text_field("bundle") {
        Some(bundle) => bundle.to_string(),
        None => String::new(),
    };
    assert(bundle@ =~= bundle_asked(v@));
    if !valid_bundle(bundle.as_str()) {
        return Uninstall::Refused(
            Reply::plain(400, "uninstall needs a valid \"bundle\" (reverse-DNS id)"),
        );
    }
    match v.get("udid") {
        None => {
            let udid = match configured {
                Some(udid) => Some(udid.to_string()),
                None => None,
            };
            Uninstall::Run { udid, bundle }
        },
        Some(Json::Text(udid)) => {
            if udid.as_str().is_empty() || !is_hex_and_dashes(udid.as_str()) {
                return Uninstall::Refused(
                    Reply::plain(400, "uninstall \"udid\" must be non-empty hex and dashes"),
                );
            }
            let same = match configured {
                Some(configured) => same_text(configured, udid.as_str()),
                None => true,
            };
            if !same {
                return Uninstall::Refused(
                    Reply::fixed(409, r#"{"ok":false,"error":"target_change_requires_restart"}"#),
                );
            }
            Uninstall::Run { udid: Some(udid.clone()), bundle }
        },
        Some(_) => Uninstall::Refused(
            Reply::plain(400, "uninstall \"udid\" must be non-empty hex and dashes"),
        ),
    }
}

/// The answer to an uninstall.
pub open spec fn uninstall_reply(end: Result<(), DevicectlError>) -> ReplyView {
    match end {
        Ok(_) => plain_reply(200, "ok (uninstalled)"@),
        Err(DevicectlError::Timeout) => plain_reply(
            504,
            "uninstall timed out; devicectl was terminated"@,
        ),
        Err(DevicectlError::TargetRequired(count)) => json_reply(
            409,
            r#"{"ok":false,"error":"target_required","connected_candidates":"#@ + decimal(
                count as nat,
            )
                + r#","hint":"configure PHONE_REMOTE_UDID or pass an explicit matching udid"}"#@,
        ),
        Err(DevicectlError::Failed(error)) => plain_reply(502, "uninstall failed: "@ + error@),
    }
}

/// Answers an uninstall.
pub fn uninstall_response(end: &Result<(), DevicectlError>) -> (reply: Reply)
    ensures
        reply@ == uninstall_reply(*end),
{
    match end {
        Ok(_) => Reply::plain(200, "ok (uninstalled)"),
        Err(DevicectlError::Timeout) => Reply::plain(
            504,
            "uninstall timed out; devicectl was terminated",
        ),
        Err(DevicectlError::TargetRequired(count)) => {
            let number = decimal_text(*count as u64);
            let body = join3(
                r#"{"ok":false,"error":"target_required","connected_candidates":"#,
                number.as_str(),
                r#","hint":"configure PHONE_REMOTE_UDID or pass an explicit matching udid"}"#,
            );
            Reply::json(409, body)
        },
        Err(DevicectlError::Failed(error)) => {
            let body = join2("uninstall failed: ", error.as_str());
            Reply::plain(502, body.as_str())
        },
    }
}

/// What is known of the phone when an agent's message arrives.
#[derive(Clone, Copy, Debug, PartialEq, Eq, Structural)]
pub struct InputFacts {
    /// The backend drives the phone itself, not a mirror of it.
    pub direct: bool,
    /// Setup has not chosen a phone yet.
    pub pending: bool,
    pub released: bool,
    /// This server starts and stops the runner.
    pub managed: bool,
    /// The phone is in the hands of a person.
    pub handed: bool,
}

/// Whether the phone can take a message now.
#[derive(Debug)]
pub enum InputGate {
    Refused(Reply),
    /// The phone was released; this message starts its reconnection, and has to
    /// be sent again later.
    Reconnect { token: WdaTransitionToken, reply: Reply },
    Open,
}

pub open spec fn release_in_progress_reply() -> ReplyView {
    json_retry_reply(503, 5, r#"{"ok":false,"error":"device_release_in_progress"}"#@)
}

pub open spec fn external_reply() -> ReplyView {
    json_reply(
        503,
        r#"{"ok":false,"error":"wda_is_externally_managed","recovery_owner":"external","reconnecting":false,"hint":"restart WDA on the configured endpoint's owning host"}"#@,
    )
}

pub open spec fn handed_reply() -> ReplyView {
    json_reply(
        409,
        r#"{"ok":false,"error":"phone_handed_to_human","released":true,"hint":"a person is using the phone through iPhone Mirroring; POST /agent/mode {\"mode\":\"agent\"} to take it back before sending input"}"#@,
    )
}

pub open spec fn restarting_reply() -> ReplyView {
    json_retry_reply(
        503,
        5,
        r#"{"ok":false,"reconnecting":true,"hint":"phone was idle-released to free it for hands-on use; managed WDA is restarting (~30-90s) — retry. If the phone is locked, unlock it once."}"#@,
    )
}

pub open spec fn reconnect_in_progress_reply() -> ReplyView {
    json_retry_reply(503, 5, r#"{"ok":false,"error":"reconnect_in_progress","reconnecting":true}"#@)
}

/// The refusal of a message, if there is one. A released phone is refused in any
/// case; whether a reconnection begins is another matter.
pub open spec fn gate_reply(facts: InputFacts, phase: WdaLifecycleTransition) -> Option<ReplyView> {
    if phase == WdaLifecycleTransition::Releasing {
        Some(release_in_progress_reply())
    } else if facts.released {
        if !facts.managed {
            Some(external_reply())
        } else if facts.handed {
            Some(handed_reply())
        } else {
            Some(restarting_reply())
        }
    } else if facts.direct && facts.pending {
        Some(target_not_configured_reply())
    } else if phase == WdaLifecycleTransition::Reconnecting {
        Some(reconnect_in_progress_reply())
    } else {
        None
    }
}

/// A message starts a reconnection where the phone was released by this server,
/// stays with no person, and no transition is under way.
pub open spec fn gate_reconnects(facts: InputFacts, phase: WdaLifecycleTransition) -> bool {
    phase == WdaLifecycleTransition::Active && facts.released && facts.managed && !facts.handed
}

/// Lets a message through to the phone, or refuses it. `lifecycle` is held by
/// this call alone, so that no release can begin in between.
pub fn input_gate(lifecycle: &mut WdaLifecycle, facts: InputFacts) -> (gate: InputGate)
    ensures
        match gate {
            InputGate::Refused(reply) => {
                &&& gate_reply(facts, old(lifecycle)@.phase) == Some(reply@)
                &&& !gate_reconnects(facts, old(lifecycle)@.phase)
                &&& final(lifecycle)@ == old(lifecycle)@
            },
            InputGate::Reconnect { token, reply } => {
                &&& gate_reply(facts, old(lifecycle)@.phase) == Some(reply@)
                &&& gate_reconnects(facts, old(lifecycle)@.phase)
                &&& final(lifecycle)@ == next_round(
                    old(lifecycle)@,
                    WdaLifecycleTransition::Reconnecting,
                )
                &&& owned(final(lifecycle)@, token)
            },
            InputGate::Open => {
                &&& gate_reply(facts, old(lifecycle)@.phase) is None
                &&& final(lifecycle)@ == old(lifecycle)@
            },
        },
{
    if lifecycle.is_releasing() {
        return InputGate::Refused(
            Reply::fixed_retry(503, 5, r#"{"ok":false,"error":"device_release_in_progress"}"#),
        );
    }
    if facts.released {
        if !facts.managed {
            return InputGate::Refused(
                Reply::fixed(
                    503,
                    r#"{"ok":false,"error":"wda_is_externally_managed","recovery_owner":"external","reconnecting":false,"hint":"restart WDA on the configured endpoint's owning host"}"#,
                ),
            );
        }
        if facts.handed {
            return InputGate::Refused(
                Reply::fixed(
                    409,
                    r#"{"ok":false,"error":"phone_handed_to_human","released":true,"hint":"a person is using the phone through iPhone Mirroring; POST /agent/mode {\"mode\":\"agent\"} to take it back before sending input"}"#,
                ),
            );
        }
        let reply = Reply::fixed_retry(
            503,
            5,
            r#"{"ok":false,"reconnecting":true,"hint":"phone was idle-released to free it for hands-on use; managed WDA is restarting (~30-90s) — retry. If the phone is locked, unlock it once."}"#,
        );
        return match lifecycle.try_begin_reconnecting() {
            Some(token) => InputGate::Reconnect { token, reply },
            None => InputGate::Refused(reply),
        };
    }
    if facts.direct && facts.pending {
        return InputGate::Refused(target_not_configured_response());
    }
    if lifecycle.is_reconnecting() {
        return InputGate::Refused(
            Reply::fixed_retry(
                503,
                5,
                r#"{"ok":false,"error":"reconnect_in_progress","reconnecting":true}"#,
            ),
        );
    }
    InputGate::Open
}

/// How long one message may take in all, in milliseconds.
pub open spec fn input_deadline_ms() -> u64 {
    15000
}

/// The time by which a message that arrives now must be answered.
pub fn input_deadline(now: u64) -> (deadline: u64)
    requires
        now + input_deadline_ms() <= u64::MAX,
    ensures
        deadline == now + input_deadline_ms(),
{
    now + 15000
}

/// The document that may be sent to the runner, or the refusal.
pub open spec fn input_document(
    body: Seq<char>,
    has_runner: bool,
    now: u64,
    deadline: u64,
) -> Result<JsonView, ReplyView> {
    match json_document(body) {
        Some(JsonView::Object(fields)) => if !has_runner {
            Err(
                json_reply(
                    503,
                    r#"{"ok":false,"error":"wda_not_configured","fallback":"disabled"}"#@,
                ),
            )
        } else if now >= deadline {
            Err(deadline_reply(false))
        } else {
            Ok(JsonView::Object(fields))
        },
        _ => Err(plain_reply(400, r#"{"ok":false,"error":"invalid_control_message"}"#@)),
    }
}

/// Reads a message for the runner.
pub fn input_message(body: &str, has_runner: bool, now: u64, deadline: u64) -> (message: Result<
    Json,
    Reply,
>)
    ensures
        match message {
            Ok(document) => input_document(body@, has_runner, now, deadline) == Ok::<
                JsonView,
                ReplyView,
            >(document@),
            Err(reply) => input_document(body@, has_runner, now, deadline) == Err::<
                JsonView,
                ReplyView,
            >(reply@),
        },
{
    let document = match Json::parse(body) {
        Some(document) => document,
        None => {
            return Err(Reply::plain(400, r#"{"ok":false,"error":"invalid_control_message"}"#));
        },
    };
    if !document.is_object() {
        return Err(Reply::plain(400, r#"{"ok":false,"error":"invalid_control_message"}"#));
    }
    if !has_runner {
        return Err(
            Reply::fixed(503, r#"{"ok":false,"error":"wda_not_configured","fallback":"disabled"}"#),
        );
    }
    if now >= deadline {
        return Err(wda_deadline_response(false));
    }
    Ok(document)
}

/// Whether a message may be sent once the runner is at hand.
pub fn may_dispatch(now: u64, deadline: u64, lifecycle: &WdaLifecycle, released: bool) -> (may:
    bool)
    ensures
        may == (now < deadline && lifecycle@.phase == WdaLifecycleTransition::Active && !released),
{
    now < deadline && !lifecycle.is_transitioning() && !released
}

/// Whether the caller asked to see what the action changed.
pub fn wants_delta(return_mode: Option<&str>) -> (wants: bool)
    ensures
        wants == (opt_str(return_mode) == Some("delta"@)),
{
    match return_mode {
        Some(mode) => same_text(mode, "delta"),
        None => false,
    }
}

/// How long the screen is watched after an action: what was asked for, at most
/// five seconds, and no longer than leaves three seconds to answer.
pub open spec fn observation_budget(settle_ms: Option<u64>, now: u64, deadline: u64) -> int {
    let asked = match settle_ms {
        Some(ms) => if ms < 5000 {
            ms as int
        } else {
            5000
        },
        None => 1200,
    };
    let left = if deadline - now > 3000 {
        deadline - now - 3000
    } else {
        0
    };
    if asked < left {
        asked
    } else {
        left
    }
}

pub fn settle_budget(settle_ms: Option<u64>, now: u64, deadline: u64) -> (budget: u64)
    ensures
        budget == observation_budget(settle_ms, now, deadline),
{
    let asked: u64 = match settle_ms {
        Some(ms) => if ms < 5000 {
            ms
        } else {
            5000
        },
        None => 1200,
    };
    let left: u64 = if alert_probe_allowed(now, deadline) {
        deadline - now - 3000
    } else {
        0
    };
    if asked < left {
        asked
    } else {
        left
    }
}

/// Whether there is time to look for a system alert.
pub fn alert_probe_allowed(now: u64, deadline: u64) -> (allowed: bool)
    ensures
        allowed == (deadline - now > 3000),
{
    deadline > now && deadline - now > 3000
}

/// Watching after an action ends with time to answer, however long was asked
/// for.
pub proof fn law_watching_leaves_time_to_answer(settle_ms: Option<u64>, now: u64, deadline: u64)
    ensures
        0 <= observation_budget(settle_ms, now, deadline) <= 5000,
        now < deadline ==> now + observation_budget(settle_ms, now, deadline) < deadline,
        observation_budget(settle_ms, now, deadline) > 0 ==> now + observation_budget(
            settle_ms,
            now,
            deadline,
        ) + 3000 <= deadline,
{
}

/// The tree after an action, with the texts that the caller provides for it: the
/// whole list of rows, and each row.
#[derive(Debug)]
pub struct ObservedTree {
    pub snapshot: String,
    pub rows: Vec<ElementRow>,
    pub elements: String,
    pub row_texts: Vec<String>,
}

impl ObservedTree {
    pub open spec fn well_formed(&self) -> bool {
        self.row_texts@.len() == self.rows@.len()
    }
}

/// The tree to compare with: that of the given token, else that of the token in
/// the action itself, where it is still known.
pub open spec fn action_baseline(
    since: Option<Seq<char>>,
    own: Option<Seq<char>>,
    cache: Seq<SnapshotView>,
) -> Option<(Seq<char>, Seq<ElementRow>)> {
    let token = if since is Some && since->0.len() > 0 {
        since
    } else {
        own
    };
    match token {
        Some(token) => match recall(cache, token) {
            Some(rows) => Some((token, rows)),
            None => None,
        },
        None => None,
    }
}

pub open spec fn error_field(report: ReportView) -> Seq<(Seq<char>, Seq<char>)> {
    opt_field(
        "delta_error"@,
        match report.error {
            Some(error) => Some(json_string_text(error)),
            None => None,
        },
    )
}

/// The fields at the end of every answer to an applied action that was watched.
pub open spec fn closing_fields(report: ReportView, snapshot: Option<Seq<char>>) -> Seq<
    (Seq<char>, Seq<char>),
> {
    let settle = seq![("settle"@, object_text(report_fields(report)))];
    let transport = seq![("transport"@, json_string_text("wda"@))];
    match snapshot {
        Some(snapshot) => settle + seq![("snapshot"@, json_string_text(snapshot))] + transport,
        None => settle + transport,
    }
}

/// The fields that tell the difference between two trees.
pub open spec fn change_fields(
    token: Seq<char>,
    rows: Seq<ElementRow>,
    tree: ObservedTree,
) -> Seq<(Seq<char>, Seq<char>)> {
    opt_field("app_changed"@, app_change(rows, tree.rows@)) + seq![
        ("baseline"@, json_string_text(token)),
        ("delta"@, object_text(tree_delta_fields(rows, tree.rows@, texts(tree.row_texts@)))),
    ]
}

/// The fields of the answer to an applied action whose result was watched.
pub open spec fn watched_fields(
    tree: Option<ObservedTree>,
    baseline: Option<(Seq<char>, Seq<ElementRow>)>,
    report: ReportView,
) -> Seq<(Seq<char>, Seq<char>)> {
    let ok = seq![("ok"@, bool_text(true))];
    match tree {
        None => error_field(report) + ok + closing_fields(report, None),
        Some(tree) => match baseline {
            Some((token, rows)) => change_fields(token, rows, tree) + error_field(report) + ok
                + closing_fields(report, Some(tree.snapshot@)),
            None => error_field(report) + seq![("elements"@, tree.elements@)] + ok
                + closing_fields(report, Some(tree.snapshot@)),
        },
    }
}

/// What was seen after an action.
#[derive(Debug)]
pub struct Watched {
    pub tree: Option<ObservedTree>,
    pub report: SettleReport,
}

/// The body of the answer to an applied action. That it was applied never
/// depends on what was seen afterwards.
pub open spec fn applied_body(
    watched: Option<Watched>,
    baseline: Option<(Seq<char>, Seq<ElementRow>)>,
    alert: Option<Alert>,
) -> Seq<char> {
    with_alert(
        match watched {
            None => r#"{"ok":true,"transport":"wda"}"#@,
            Some(watched) => object_text(watched_fields(watched.tree, baseline, watched.report@)),
        },
        alert,
    )
}

fn put_error(body: ObjectText, report: &SettleReport) -> (next: ObjectText)
    ensures
        next.fields() == body.fields() + error_field(report@),
{
    match &report.error {
        Some(error) => {
            let next = body.text("delta_error", error.as_str());
            assert(next.fields() =~= body.fields() + error_field(report@));
            next
        },
        None => {
            assert(body.fields() =~= body.fields() + error_field(report@));
            body
        },
    }
}

/// The closing fields, after the word that all went well.
fn close(body: ObjectText, report: &SettleReport, snapshot: Option<&str>) -> (next: ObjectText)
    ensures
        next.fields() == body.fields() + seq![("ok"@, bool_text(true))] + closing_fields(
            report@,
            opt_str(snapshot),
        ),
{
    let settle = report.to_json();
    let ghost before = body.fields();
    let next = body.flag("ok", true).raw("settle", settle.as_str());
    let next = match snapshot {
        Some(snapshot) => next.text("snapshot", snapshot),
        None => next,
    };
    let next = next.text("transport", "wda");
    assert(next.fields() =~= before + seq![("ok"@, bool_text(true))] + closing_fields(
        report@,
        opt_str(snapshot),
    ));
    next
}

fn change_body(token: &str, rows: &Vec<ElementRow>, tree: &ObservedTree) -> (body: ObjectText)
    requires
        tree.well_formed(),
    ensures
        body.fields() == change_fields(token@, rows@, *tree),
{
    let change = app_changed_json(rows, &tree.rows);
    let delta = tree_delta_text(rows, &tree.rows, &tree.row_texts);
    let body = put_opt(ObjectText::new(), "app_changed", &change).text("baseline", token).raw(
        "delta",
        delta.as_str(),
    );
    assert(body.fields() =~= change_fields(token@, rows@, *tree));
    body
}

fn watched_text(
    tree: &Option<ObservedTree>,
    baseline: Option<(&str, &Vec<ElementRow>)>,
    report: &SettleReport,
) -> (text: String)
    requires
        *tree matches Some(tree) ==> tree.well_formed(),
    ensures
        text@ == object_text(
            watched_fields(
                *tree,
                match baseline {
                    Some((token, rows)) => Some((token@, rows@)),
                    None => None,
                },
                report@,
            ),
        ),
{
    match tree {
        None => {
            let body = put_error(ObjectText::new(), report);
            assert(body.fields() =~= error_field(report@));
            close(body, report, None).finish()
        },
        Some(seen) => match baseline {
            Some((token, rows)) => {
                let body = put_error(change_body(token, rows, seen), report);
                close(body, report, Some(seen.snapshot.as_str())).finish()
            },
            None => {
                let body = put_error(ObjectText::new(), report).raw(
                    "elements",
                    seen.elements.as_str(),
                );
                assert(body.fields() =~= error_field(report@) + seq![
                    ("elements"@, seen.elements@),
                ]);
                close(body, report, Some(seen.snapshot.as_str())).finish()
            },
        },
    }
}

/// Answers an applied action. `own` is the token in the action itself; `cache`
/// is the cache in which the tree that was seen is already kept.
pub fn applied_response(
    watched: &Option<Watched>,
    since: Option<&str>,
    own: Option<&str>,
    cache: &SnapshotCache,
    alert: &Option<Alert>,
) -> (reply: Reply)
    requires
        *watched matches Some(watched) ==> (watched.tree matches Some(tree) ==> tree.well_formed()),
    ensures
        reply@ == json_reply(
            200,
            applied_body(
                *watched,
                action_baseline(opt_str(since), opt_str(own), cache@),
                *alert,
            ),
        ),
{
    let body = match watched {
        None => r#"{"ok":true,"transport":"wda"}"#.to_string(),
        Some(seen) => {
            let token = match since {
                Some(given) if !given.is_empty() => since,
                _ => own,
            };
            let baseline = match token {
                Some(token) => match cache.lookup_element_snapshot(token) {
                    Some(rows) => Some((token, rows)),
                    None => None,
                },
                None => None,
            };
            watched_text(&seen.tree, baseline, &seen.report)
        },
    };
    Reply::json(200, attach_alert(body, alert))
}

/// How a message to the runner ended.
#[derive(Debug)]
pub enum InputEnd {
    /// The phone was given up, or time ran out, before anything was sent.
    TooLate,
    /// Time ran out; `dispatched` where the message was already handed on.
    DeadlinePassed { dispatched: bool },
    /// The action was not applied.
    Unapplied { outcome: WdaControlOutcome, candidates: Option<Candidates> },
}

/// The answer to a message that was not applied.
pub open spec fn unapplied_reply(end: InputEnd) -> ReplyView {
    match end {
        InputEnd::TooLate => deadline_reply(false),
        InputEnd::DeadlinePassed { dispatched } => deadline_reply(dispatched),
        InputEnd::Unapplied { outcome, candidates } => match outcome {
            WdaControlOutcome::Applied | WdaControlOutcome::Unsupported => json_reply(
                503,
                r#"{"ok":false,"error":"wda_unavailable_or_unsupported","fallback":"disabled"}"#@,
            ),
            WdaControlOutcome::NotSent => before_dispatch_reply(),
            WdaControlOutcome::UnsupportedPerformAction => unsupported_perform_reply(),
            WdaControlOutcome::InvalidElementSnapshot => invalid_snapshot_reply(),
            WdaControlOutcome::StaleElementSnapshot => stale_snapshot_reply(),
            WdaControlOutcome::ElementNotFound => not_found_reply(),
            WdaControlOutcome::AmbiguousElement => ambiguous_reply(candidates_view(candidates)),
            WdaControlOutcome::InvalidElementTarget => invalid_target_reply(),
            WdaControlOutcome::InvalidValue(hint) => json_reply(
                422,
                object_text(hinted_fields("invalid_value"@, "not_sent"@, hint@)),
            ),
            WdaControlOutcome::NoEffect(hint) => json_reply(
                409,
                object_text(hinted_fields("adjust_no_effect"@, "no_effect"@, hint@)),
            ),
            WdaControlOutcome::NoAlert => no_alert_reply(),
            WdaControlOutcome::Failed => after_dispatch_reply(),
        },
    }
}

/// Answers a message that was not applied.
pub fn unapplied_response(end: &InputEnd) -> (reply: Reply)
    requires
        end matches InputEnd::Unapplied { outcome, .. } ==> outcome !is Applied,
    ensures
        reply@ == unapplied_reply(*end),
{
    match end {
        InputEnd::TooLate => wda_deadline_response(false),
        InputEnd::DeadlinePassed { dispatched } => wda_deadline_response(*dispatched),
        InputEnd::Unapplied { outcome, candidates } => match *outcome {
            WdaControlOutcome::Applied | WdaControlOutcome::Unsupported => Reply::fixed(
                503,
                r#"{"ok":false,"error":"wda_unavailable_or_unsupported","fallback":"disabled"}"#,
            ),
            WdaControlOutcome::NotSent => wda_failed_before_dispatch_response(),
            WdaControlOutcome::UnsupportedPerformAction => unsupported_perform_action_response(),
            WdaControlOutcome::InvalidElementSnapshot => invalid_element_snapshot_response(),
            WdaControlOutcome::StaleElementSnapshot => stale_element_snapshot_response(),
            WdaControlOutcome::ElementNotFound => element_not_found_response(),
            WdaControlOutcome::AmbiguousElement => ambiguous_element_response(candidates),
            WdaControlOutcome::InvalidElementTarget => invalid_element_target_response(),
            WdaControlOutcome::InvalidValue(hint) => hinted_control_response(
                422,
                "invalid_value",
                "not_sent",
                hint,
            ),
            WdaControlOutcome::NoEffect(hint) => hinted_control_response(
                409,
                "adjust_no_effect",
                "no_effect",
                hint,
            ),
            WdaControlOutcome::NoAlert => no_alert_response(),
            WdaControlOutcome::Failed => wda_failed_after_dispatch_response(),
        },
    }
}

/// Whether the sender asks to wait while a person is at the computer.
pub open spec fn yields(header: Option<Seq<char>>) -> bool {
    header matches Some(v) && v.len() > 0 && v != "0"@ && v != "false"@
}

pub fn yields_to_human(header: Option<&str>) -> (asked: bool)
    ensures
        asked == yields(opt_str(header)),
{
    match header {
        Some(v) => !v.is_empty() && !same_text(v, "0") && !same_text(v, "false"),
        None => false,
    }
}

/// The name under which an agent holds the pointer.
pub open spec fn agent_named(header: Option<Seq<char>>) -> Seq<char> {
    match header {
        Some(name) => if name.len() > 0 {
            name
        } else {
            "agent"@
        },
        None => "agent"@,
    }
}

pub fn agent_id(header: Option<&str>) -> (name: String)
    ensures
        name@ == agent_named(opt_str(header)),
{
    match header {
        Some(name) if !name.is_empty() => name.to_string(),
        _ => "agent".to_string(),
    }
}

/// How a message to the mirrored phone ended.
#[derive(Clone, Copy, Debug, PartialEq, Eq, Structural)]
pub enum MirrorEnd {
    /// The message cannot be read.
    Undecodable,
    /// A person is at the computer, and the sender yields.
    Yielded,
    /// The mirror could not be brought to the front.
    Dropped,
    Sent,
}

pub open spec fn mirror_reply(end: MirrorEnd) -> ReplyView {
    match end {
        MirrorEnd::Undecodable => plain_reply(400, "invalid control message"@),
        MirrorEnd::Yielded => plain_reply(
            409,
            "yielded to human: iPhone Mirroring is not frontmost — retry when status human_active is false; on-device control requires PHONE_REMOTE_BACKEND=direct plus a daemon restart"@,
        ),
        MirrorEnd::Dropped => json_reply(
            409,
            r#"{"ok":false,"dropped":true,"reason":"iPhone Mirroring could not be brought frontmost (a human is using the Mac, or it is paused/in-use) — poll /agent/status until human_active is false and drivable is true; on-device control requires PHONE_REMOTE_BACKEND=direct plus a daemon restart"}"#@,
        ),
        MirrorEnd::Sent => plain_reply(200, "ok"@),
    }
}

/// Answers a message to the mirrored phone. A dropped message is never reported
/// as sent.
pub fn mirror_response(end: MirrorEnd) -> (reply: Reply)
    ensures
        reply@ == mirror_reply(end),
{
    match end {
        MirrorEnd::Undecodable => Reply::plain(400, "invalid control message"),
        MirrorEnd::Yielded => Reply::plain(
            409,
            "yielded to human: iPhone Mirroring is not frontmost — retry when status human_active is false; on-device control requires PHONE_REMOTE_BACKEND=direct plus a daemon restart",
        ),
        MirrorEnd::Dropped => Reply::fixed(
            409,
            r#"{"ok":false,"dropped":true,"reason":"iPhone Mirroring could not be brought frontmost (a human is using the Mac, or it is paused/in-use) — poll /agent/status until human_active is false and drivable is true; on-device control requires PHONE_REMOTE_BACKEND=direct plus a daemon restart"}"#,
        ),
        MirrorEnd::Sent => Reply::plain(200, "ok"),
    }
}

/// An app is removed only where a document asks for it by the word, names a
/// bundle that may be one, and means the phone that is configured: that phone
/// itself, or one named by its id where none is configured.
pub proof fn law_an_app_is_removed_only_as_asked(body: Seq<char>, configured: Option<Seq<char>>)
    ensures
        uninstall_asked(body, configured) matches UninstallView::Run { udid, bundle } ==> {
            let v = json_document(body)->0;
            &&& json_document(body) is Some
            &&& text_of(field_of(v, "type"@)) == Some("uninstall"@)
            &&& text_of(field_of(v, "bundle"@)) == Some(bundle) || bundle.len() == 0
            &&& bundle_valid(bundle)
            &&& configured is Some ==> udid == configured
            &&& configured is None && field_of(v, "udid"@) is None ==> udid is None
            &&& field_of(v, "udid"@) is Some ==> udid == text_of(field_of(v, "udid"@)) && udid
                is Some && udid->0.len() > 0 && hex_and_dashes(udid->0)
        },
        uninstall_asked(body, configured) is Other <==> json_document(body) is None || text_of(
            field_of(json_document(body)->0, "type"@),
        ) != Some("uninstall"@),
        uninstall_asked(body, configured) matches UninstallView::Refused(reply) ==> {
            let v = json_document(body)->0;
            &&& reply.status == 400 || reply.status == 409
            &&& reply.status == 409 ==> configured is Some && text_of(field_of(v, "udid"@))
                != configured && reply.body
                == r#"{"ok":false,"error":"target_change_requires_restart"}"#@
            &&& bundle_valid(bundle_asked(v)) ==> field_of(v, "udid"@) is Some
        },
{
}

/// The answer to a removal is by how it ended: done, out of time, not knowing
/// which phone, or failed in its own words.
pub proof fn law_a_removal_is_answered_by_its_end(error: String, n: usize)
    ensures
        uninstall_reply(Ok(())) == plain_reply(200, "ok (uninstalled)"@),
        uninstall_reply(Err(DevicectlError::Timeout)).status == 504,
        uninstall_reply(Err(DevicectlError::Failed(error))) == plain_reply(
            502,
            "uninstall failed: "@ + error@,
        ),
        uninstall_reply(Err(DevicectlError::TargetRequired(n))).status == 409,
        uninstall_reply(Err(DevicectlError::TargetRequired(n))).body
            == r#"{"ok":false,"error":"target_required","connected_candidates":"#@ + decimal(
            n as nat,
        ) + r#","hint":"configure PHONE_REMOTE_UDID or pass an explicit matching udid"}"#@,
{
}

/// A message is let through exactly to a phone that is in no transition, was not
/// given away, and is configured. A phone that was given away is taken back only where
/// the server itself runs it, no person holds it and nothing else is under way;
/// to every other one the request changes nothing.
pub proof fn law_the_gate_opens_only_to_a_phone_at_hand(
    facts: InputFacts,
    phase: WdaLifecycleTransition,
)
    ensures
        gate_reply(facts, phase) is None <==> phase is Active && !facts.released && !(facts.direct
            && facts.pending),
        gate_reconnects(facts, phase) <==> phase is Active && facts.released && facts.managed
            && !facts.handed,
        gate_reconnects(facts, phase) ==> gate_reply(facts, phase) == Some(restarting_reply()),
        phase is Releasing ==> gate_reply(facts, phase) == Some(release_in_progress_reply()),
        phase !is Releasing && facts.released && !facts.managed ==> gate_reply(facts, phase)
            == Some(external_reply()),
        phase !is Releasing && facts.released && facts.managed && facts.handed ==> gate_reply(
            facts,
            phase,
        ) == Some(handed_reply()),
        phase !is Releasing && !facts.released && facts.direct && facts.pending ==> gate_reply(
            facts,
            phase,
        ) == Some(target_not_configured_reply()),
        phase is Reconnecting && !facts.released && !(facts.direct && facts.pending) ==> gate_reply(
            facts,
            phase,
        ) == Some(reconnect_in_progress_reply()),
        release_in_progress_reply().status == 503 && release_in_progress_reply().retry_after
            == Some(5u64),
        restarting_reply().status == 503 && restarting_reply().retry_after == Some(5u64),
        reconnect_in_progress_reply().status == 503 && reconnect_in_progress_reply().retry_after
            == Some(5u64),
        external_reply().status == 503 && external_reply().retry_after is None,
        handed_reply().status == 409 && handed_reply().retry_after is None,
        release_in_progress_reply().body
            == r#"{"ok":false,"error":"device_release_in_progress"}"#@,
        reconnect_in_progress_reply().body
            == r#"{"ok":false,"error":"reconnect_in_progress","reconnecting":true}"#@,
{
}

/// A message is taken up as the document that it is, where it is an object, there
/// is a runner and there is time; else it is told which of these is missing.
pub proof fn law_a_message_is_an_object_in_time(
    body: Seq<char>,
    has_runner: bool,
    now: u64,
    deadline: u64,
)
    ensures
        ({
            let got = input_document(body, has_runner, now, deadline);
            let object = json_document(body) matches Some(v) && v is Object;
            &&& got is Ok <==> object && has_runner && now < deadline
            &&& got matches Ok(v) ==> json_document(body) == Some(v)
            &&& !object ==> got == Err::<JsonView, ReplyView>(
                plain_reply(400, r#"{"ok":false,"error":"invalid_control_message"}"#@),
            )
            &&& object && !has_runner ==> got == Err::<JsonView, ReplyView>(
                json_reply(
                    503,
                    r#"{"ok":false,"error":"wda_not_configured","fallback":"disabled"}"#@,
                ),
            )
            &&& object && has_runner && now >= deadline ==> got == Err::<JsonView, ReplyView>(
                deadline_reply(false),
            )
        }),
        input_deadline_ms() == 15000,
{
}

/// Watching takes the time that was asked for, twelve tenths of a second where
/// none was and five seconds at most, as far as three seconds are left after it.
pub proof fn law_watching_takes_the_time_asked_for(ms: u64, now: u64, deadline: u64)
    ensures
        deadline - now >= 8000 ==> {
            &&& observation_budget(None, now, deadline) == 1200
            &&& ms <= 5000 ==> observation_budget(Some(ms), now, deadline) == ms
            &&& ms > 5000 ==> observation_budget(Some(ms), now, deadline) == 5000
        },
        deadline - now <= 3000 ==> observation_budget(Some(ms), now, deadline) == 0
            && observation_budget(None, now, deadline) == 0,
        3000 < deadline - now && ms <= 5000 && ms + 3000 > deadline - now ==> observation_budget(
            Some(ms),
            now,
            deadline,
        ) + 3000 == deadline - now,
        observation_budget(Some(ms), now, deadline) <= ms,
{
}

/// A change is told from the snapshot that the sender names, or else from the one
/// that the action was aimed by; and only where that snapshot is still known.
pub proof fn law_a_change_is_told_from_a_known_snapshot(
    since: Option<Seq<char>>,
    own: Option<Seq<char>>,
    cache: Seq<SnapshotView>,
)
    ensures
        action_baseline(since, own, cache) matches Some((token, rows)) ==> {
            &&& recall(cache, token) == Some(rows)
            &&& since is Some && since->0.len() > 0 ==> since == Some(token)
            &&& since is None || since->0.len() == 0 ==> own == Some(token)
        },
        since is Some && since->0.len() > 0 && recall(cache, since->0) is Some ==> action_baseline(
            since,
            own,
            cache,
        ) is Some,
        (since is None || since->0.len() == 0) && own is Some && recall(cache, own->0) is Some
            ==> action_baseline(since, own, cache) is Some,
        (since is None || since->0.len() == 0) && own is None ==> action_baseline(since, own, cache)
            is None,
{
}

/// What was watched is told as it was: the snapshot that was read last, how the
/// watching went, and what changed since the baseline, or the whole tree where
/// there is none to compare with. Where no tree was read, none is told of.
pub proof fn law_what_was_watched_is_told(
    tree: ObservedTree,
    token: Seq<char>,
    rows: Seq<ElementRow>,
    report: ReportView,
)
    ensures
        ({
            let changed = watched_fields(Some(tree), Some((token, rows)), report);
            &&& changed.contains(("ok"@, "true"@))
            &&& changed.contains(("snapshot"@, json_string_text(tree.snapshot@)))
            &&& changed.contains(("settle"@, object_text(report_fields(report))))
            &&& changed.contains(("baseline"@, json_string_text(token)))
            &&& changed.contains(
                ("delta"@, object_text(tree_delta_fields(rows, tree.rows@, texts(tree.row_texts@)))),
            )
            &&& changed.contains(("transport"@, json_string_text("wda"@)))
            &&& app_change(rows, tree.rows@) matches Some(change) ==> changed.contains(
                ("app_changed"@, change),
            )
            &&& report.error matches Some(e) ==> changed.contains(
                ("delta_error"@, json_string_text(e)),
            )
        }),
        ({
            let whole = watched_fields(Some(tree), None, report);
            &&& whole.contains(("ok"@, "true"@))
            &&& whole.contains(("snapshot"@, json_string_text(tree.snapshot@)))
            &&& whole.contains(("settle"@, object_text(report_fields(report))))
            &&& whole.contains(("elements"@, tree.elements@))
            &&& whole.contains(("transport"@, json_string_text("wda"@)))
            &&& report.error matches Some(e) ==> whole.contains(
                ("delta_error"@, json_string_text(e)),
            )
        }),
        ({
            let none = watched_fields(None, Some((token, rows)), report);
            &&& none.contains(("ok"@, "true"@))
            &&& none.contains(("settle"@, object_text(report_fields(report))))
            &&& none.contains(("transport"@, json_string_text("wda"@)))
            &&& none.len() == 3 + (if report.error is Some {
                1int
            } else {
                0
            })
            &&& report.error matches Some(e) ==> none.contains(
                ("delta_error"@, json_string_text(e)),
            )
        }),
{
    let e: int = if report.error is Some {
        1
    } else {
        0
    };
    let a: int = if app_change(rows, tree.rows@) is Some {
        1
    } else {
        0
    };
    let settle = ("settle"@, object_text(report_fields(report)));
    let snapshot = ("snapshot"@, json_string_text(tree.snapshot@));
    let transport = ("transport"@, json_string_text("wda"@));
    let changed = watched_fields(Some(tree), Some((token, rows)), report);
    if a == 1 {
        assert(changed[0] == ("app_changed"@, app_change(rows, tree.rows@)->0));
    }
    assert(changed[a] == ("baseline"@, json_string_text(token)));
    assert(changed[a + 1] == (
        "delta"@,
        object_text(tree_delta_fields(rows, tree.rows@, texts(tree.row_texts@))),
    ));
    if let Some(text) = report.error {
        assert(changed[a + 2] == ("delta_error"@, json_string_text(text)));
    }
    assert(changed[a + e + 2] == ("ok"@, bool_text(true)));
    assert(changed[a + e + 3] == settle);
    assert(changed[a + e + 4] == snapshot);
    assert(changed[a + e + 5] == transport);
    let whole = watched_fields(Some(tree), None, report);
    if let Some(text) = report.error {
        assert(whole[0] == ("delta_error"@, json_string_text(text)));
    }
    assert(whole[e] == ("elements"@, tree.elements@));
    assert(whole[e + 1] == ("ok"@, bool_text(true)));
    assert(whole[e + 2] == settle);
    assert(whole[e + 3] == snapshot);
    assert(whole[e + 4] == transport);
    let none = watched_fields(None, Some((token, rows)), report);
    if let Some(text) = report.error {
        assert(none[0] == ("delta_error"@, json_string_text(text)));
    }
    assert(none[e] == ("ok"@, bool_text(true)));
    assert(none[e + 1] == settle);
    assert(none[e + 2] == transport);
}

/// An action that was not watched is answered as done and no more.
pub proof fn law_an_unwatched_action_is_answered_as_done(
    baseline: Option<(Seq<char>, Seq<ElementRow>)>,
    watched: Watched,
    alert: Option<Alert>,
)
    ensures
        applied_body(None, baseline, alert) == with_alert(
            r#"{"ok":true,"transport":"wda"}"#@,
            alert,
        ),
        applied_body(Some(watched), baseline, alert) == with_alert(
            object_text(watched_fields(watched.tree, baseline, watched.report@)),
            alert,
        ),
{
}

/// What was not applied is answered by what became of it; a request that the
/// deadline cut off by whether it had been sent.
pub proof fn law_what_was_not_applied_is_answered_by_its_outcome(
    outcome: WdaControlOutcome,
    candidates: Option<Candidates>,
    dispatched: bool,
)
    ensures
        unapplied_reply(InputEnd::TooLate) == deadline_reply(false),
        unapplied_reply(InputEnd::DeadlinePassed { dispatched }) == deadline_reply(dispatched),
        ({
            let r = unapplied_reply(InputEnd::Unapplied { outcome, candidates });
            &&& r.status >= 400
            &&& outcome is Unsupported ==> r.status == 503 && r.body
                == r#"{"ok":false,"error":"wda_unavailable_or_unsupported","fallback":"disabled"}"#@
            &&& outcome is Failed ==> r == after_dispatch_reply()
            &&& outcome is NotSent ==> r == before_dispatch_reply()
            &&& outcome is UnsupportedPerformAction ==> r == unsupported_perform_reply()
            &&& outcome is InvalidElementSnapshot ==> r == invalid_snapshot_reply()
            &&& outcome is StaleElementSnapshot ==> r == stale_snapshot_reply()
            &&& outcome is ElementNotFound ==> r == not_found_reply()
            &&& outcome is AmbiguousElement ==> r == ambiguous_reply(candidates_view(candidates))
            &&& outcome is InvalidElementTarget ==> r == invalid_target_reply()
            &&& outcome is NoAlert ==> r == no_alert_reply()
            &&& outcome matches WdaControlOutcome::InvalidValue(hint) ==> r.status == 422 && r.body
                == object_text(hinted_fields("invalid_value"@, "not_sent"@, hint@))
            &&& outcome matches WdaControlOutcome::NoEffect(hint) ==> r.status == 409 && r.body
                == object_text(hinted_fields("adjust_no_effect"@, "no_effect"@, hint@))
        }),
{
}

/// A sender yields where it says so by any value but an empty one, a nought or
/// the word for no; it goes by its own name, or by the common one where it gives
/// none; and it is told how its message to the mirrored phone ended.
pub proof fn law_a_sender_of_the_mirror_is_heard(value: Seq<char>)
    ensures
        !yields(None),
        yields(Some(value)) <==> value.len() > 0 && value != "0"@ && value != "false"@,
        agent_named(None) == "agent"@,
        value.len() > 0 ==> agent_named(Some(value)) == value,
        value.len() == 0 ==> agent_named(Some(value)) == "agent"@,
        mirror_reply(MirrorEnd::Sent) == plain_reply(200, "ok"@),
        mirror_reply(MirrorEnd::Undecodable) == plain_reply(400, "invalid control message"@),
        mirror_reply(MirrorEnd::Yielded).status == 409,
        mirror_reply(MirrorEnd::Dropped).status == 409,
        mirror_reply(MirrorEnd::Yielded).media is Plain,
        mirror_reply(MirrorEnd::Dropped).media is Json,
{
}

} // verus!
