//! The state of the phone as it is told to agents and browsers: whether it can be
//! driven, what is in the way, and what to do about it.

use vstd::prelude::*;

use crate::capability::{backend_name, recovery_owner, recovery_owner_of, CapabilityConfig};
use crate::health::{death_hint, wda_death_hint, WdaHealth};
use crate::lifecycle::WdaLifecycleTransition;
use crate::owner::{owner_seen, owner_status};
use crate::reply::{
    bool_text, json_reply, json_string_text, object_text, opt_bool_text, opt_str, opt_string_text,
    opt_text, plain_reply, ObjectText, Reply, ReplyView,
};
use crate::setup::{blocker_hint, setup_blocker_hint};
use crate::state::{hold_left, human_handoff_active, AppState, AppView};
use crate::stream::{stream_id_valid, valid_mjpeg_stream_id};
use crate::text::{chars_of, decimal, decimal_text, join3, same_text};

verus! {

/// What the mirror of the phone shows.
#[derive(Debug)]
pub struct MirrorFacts {
    /// The mirror's own word for it.
    pub state: String,
    pub drivable: bool,
}

/// What is known beside the state of the phone.
#[derive(Debug)]
pub struct StatusFacts {
    pub config: CapabilityConfig,
    pub instance: String,
    pub udid: Option<String>,
    /// How long an owner's lease lasts, in milliseconds.
    pub lease: u64,
    /// What is known of the runner.
    pub health: WdaHealth,
    /// The mirror's window is there, and this is what it shows.
    pub mirror: Option<MirrorFacts>,
    /// The mirror's window is in front.
    pub mirror_in_front: bool,
    pub version: String,
    /// The latest release.
    pub latest: Option<String>,
    /// Connected browsers.
    pub viewers: usize,
    /// Milliseconds since the asking browser's own view received anything.
    pub stream_age: Option<u64>,
    pub setup_phase: String,
    pub setup_message: String,
    pub setup_blocked_on: String,
    /// How the runner's bring-up is going, as JSON text.
    pub build: String,
}

/// Whether the runner's health is looked up for a status, and how.
#[derive(Clone, Copy, Debug, PartialEq, Eq, Structural)]
pub enum HealthSource {
    /// There is no runner to ask.
    Down,
    /// What is known already; a bring-up is under way and is not disturbed.
    Cached,
    /// What is known already, and a new look begins if none is under way.
    Refreshed,
}

pub fn status_health_source(direct: bool, pending: bool, reconnecting: bool) -> (source:
    HealthSource)
    ensures
        source == (if !direct || pending {
            HealthSource::Down
        } else if reconnecting {
            HealthSource::Cached
        } else {
            HealthSource::Refreshed
        }),
{
    if !direct || pending {
        HealthSource::Down
    } else if reconnecting {
        HealthSource::Cached
    } else {
        HealthSource::Refreshed
    }
}

pub open spec fn releasing(state: AppView) -> bool {
    state.lifecycle.phase == WdaLifecycleTransition::Releasing
}

pub open spec fn reconnecting(state: AppView) -> bool {
    state.lifecycle.phase == WdaLifecycleTransition::Reconnecting
}

/// Whether an agent can act now. A runner that acts is not enough: it must not
/// be about to go or to come.
pub open spec fn drivable(facts: StatusFacts, state: AppView) -> bool {
    if facts.config.direct {
        facts.health.actionable && !releasing(state) && !reconnecting(state) && !state.released
    } else {
        facts.mirror matches Some(mirror) && mirror.drivable
    }
}

/// What the mirror shows, for those who use it.
pub open spec fn mirror_state(facts: StatusFacts) -> Seq<char> {
    if facts.config.direct {
        "disabled"@
    } else {
        match facts.mirror {
            Some(mirror) => mirror.state@,
            None => "offline"@,
        }
    }
}

pub open spec fn mode_name(facts: StatusFacts) -> Seq<char> {
    if facts.config.direct {
        if facts.health.up {
            "agent"@
        } else {
            "offline"@
        }
    } else if facts.mirror is Some {
        "mirror"@
    } else {
        "offline"@
    }
}

/// Whether a person is at the computer whom a tap would interrupt.
pub open spec fn human_active(facts: StatusFacts, state: AppView) -> bool {
    !facts.config.direct && drivable(facts, state) && !facts.mirror_in_front
}

/// Why the runner is down, and since when. What took down a runner that works
/// again is not told.
pub open spec fn death_told(facts: StatusFacts, state: AppView) -> (Seq<char>, u64) {
    if facts.health.actionable || state.death.0.len() == 0 {
        (""@, 0u64)
    } else {
        state.death
    }
}

/// What to do while the runner does not answer.
pub open spec fn down_hint(facts: StatusFacts, state: AppView) -> Seq<char> {
    if facts.config.pending {
        "no canonical iPhone target is configured — run setup-wda.sh to persist PHONE_REMOTE_UDID; until then the daemon will not stop or bootstrap local WDA"@
    } else if blocker_hint(facts.setup_blocked_on@) is Some {
        blocker_hint(facts.setup_blocked_on@)->0
    } else if reconnecting(state) {
        "the daemon is restarting its managed direct device service — wait for reconnecting=false before retrying"@
    } else if state.released && !facts.config.managed {
        "the remote WDA endpoint is externally managed — restart it on the owning host; this daemon will not stop or bootstrap local services"@
    } else if state.released && state.handed {
        "the phone was handed to a human (mode=human) — a person is using it through iPhone Mirroring; POST /agent/mode {mode:agent} takes it back"@
    } else if state.released {
        "direct device service was released after inactivity — reconnect to restart WDA, then keep the phone unlocked and awake"@
    } else if !facts.config.managed {
        "the configured remote WDA endpoint is unreachable and externally managed — recover it on the owning host; this daemon will not run local setup or launchctl commands"@
    } else {
        "direct device service is unreachable — start or repair WDA and the 8100/9100 relays; iPhone Mirroring is not used"@
    }
}

/// What to do while the runner answers but does not act.
pub open spec fn idle_runner_hint(facts: StatusFacts, state: AppView) -> Seq<char> {
    if facts.health.locked == Some(true) {
        "WDA is reachable but the iPhone is locked — unlock it and keep it awake; direct control never falls back to iPhone Mirroring"@
    } else if death_told(facts, state).0.len() > 0 {
        death_hint(death_told(facts, state).0)
    } else {
        "WDA is reachable but the last read or action did not complete (usually a /source read that timed out on a heavy page, or a stalled app) — retry the read; the next health probe decides whether this clears or becomes offline"@
    }
}

/// What to do while the mirror cannot be driven.
pub open spec fn mirror_hint(mirror: Seq<char>) -> Seq<char> {
    if mirror == "paused"@ {
        "Mirroring needs reconnecting (paused / interrupted / timed out) — tap the Resume/Connect/Try Again button (x=0.5, y=0.64), once, then wait 45s+; do NOT loop"@
    } else if mirror == "in_use"@ {
        "iPhone in use — LOCK the phone to reconnect; the on-screen Connect button will not reconnect while it is in use"@
    } else if mirror == "offline"@ {
        "no iPhone Mirroring window — open it on the Mac; to use on-device control, persist PHONE_REMOTE_BACKEND=direct and restart the daemon"@
    } else {
        ""@
    }
}

/// What to do now; empty where nothing is in the way.
pub open spec fn hint(facts: StatusFacts, state: AppView) -> Seq<char> {
    if facts.config.direct && releasing(state) {
        "direct device service is being released after inactivity — wait for confirmation before reconnecting"@
    } else if facts.config.direct && !facts.health.up {
        down_hint(facts, state)
    } else if facts.config.direct && reconnecting(state) {
        "the daemon is restarting its managed direct device service — wait for reconnecting=false before retrying"@
    } else if facts.config.direct && !facts.health.actionable {
        idle_runner_hint(facts, state)
    } else if !drivable(facts, state) {
        mirror_hint(mirror_state(facts))
    } else if human_active(facts, state) {
        "a human is using the Mac (iPhone Mirroring is not frontmost) — an L3 tap will steal their focus; pause until they are idle, or persist PHONE_REMOTE_BACKEND=direct and restart for on-device control"@
    } else {
        ""@
    }
}

/// One word for the state of the phone. It is blocked only where a named
/// prerequisite is missing.
pub open spec fn device_state(facts: StatusFacts, state: AppView) -> Seq<char> {
    if releasing(state) {
        "releasing"@
    } else if facts.config.direct && !facts.health.up && facts.setup_blocked_on@.len() > 0 {
        "blocked"@
    } else if reconnecting(state) {
        "reconnecting"@
    } else if state.released {
        "released"@
    } else if facts.health.actionable {
        "ready"@
    } else if facts.health.locked == Some(true) {
        "locked"@
    } else {
        "offline"@
    }
}

/// The words that a phone's state is told in.
pub open spec fn device_states() -> Seq<Seq<char>> {
    seq![
        "ready"@,
        "locked"@,
        "blocked"@,
        "offline"@,
        "releasing"@,
        "released"@,
        "reconnecting"@,
    ]
}

/// Whether the asking browser's own view still receives pictures: something came
/// in the last eight seconds.
pub open spec fn stream_fresh(facts: StatusFacts) -> bool {
    facts.stream_age matches Some(age) && age <= 8000
}

pub open spec fn screen_state(facts: StatusFacts) -> Seq<char> {
    if facts.config.direct && facts.health.up && stream_fresh(facts) {
        "live"@
    } else if facts.config.direct && facts.health.up {
        "waiting"@
    } else if facts.config.direct {
        "offline"@
    } else if facts.mirror is Some {
        "ready"@
    } else {
        "offline"@
    }
}

/// A release's name without the letters before its number.
pub open spec fn without_v(tag: Seq<char>) -> Seq<char>
    decreases tag.len(),
{
    if tag.len() > 0 && tag[0] == 'v' {
        without_v(tag.drop_first())
    } else {
        tag
    }
}

pub open spec fn update_available(facts: StatusFacts) -> bool {
    facts.latest matches Some(tag) && without_v(tag@) != facts.version@
}

pub open spec fn all_viewers(facts: StatusFacts, state: AppView) -> nat {
    if facts.viewers + state.live_streams > usize::MAX {
        usize::MAX as nat
    } else {
        (facts.viewers + state.live_streams) as nat
    }
}

/// A word in quotes.
pub open spec fn quoted(s: Seq<char>) -> Seq<char> {
    "\""@ + s + "\""@
}

pub open spec fn opt_number_text(n: Option<u64>) -> Seq<char> {
    match n {
        Some(n) => decimal(n as nat),
        None => "null"@,
    }
}

/// Who and what the server is.
pub open spec fn identity_fields(facts: StatusFacts, state: AppView, now: u64) -> Seq<
    (Seq<char>, Seq<char>),
> {
    let owner = owner_seen(state.owner, now, facts.lease);
    seq![
        ("ok"@, bool_text(true)),
        ("backend"@, quoted(backend_name(facts.config.direct))),
        ("instance"@, quoted(facts.instance@)),
        ("udid"@, opt_string_text(opt_text(facts.udid))),
        ("owner"@, opt_string_text(owner.0)),
        ("owner_lease_remaining_secs"@, decimal(owner.1)),
        ("target_configured"@, bool_text(facts.udid is Some)),
        ("managed_wda"@, bool_text(facts.config.managed)),
        ("managed_wda_pending"@, bool_text(facts.config.pending)),
        ("recovery_owner"@, quoted(recovery_owner(facts.config))),
    ]
}

/// How the phone is.
pub open spec fn device_fields(facts: StatusFacts, state: AppView) -> Seq<
    (Seq<char>, Seq<char>),
> {
    seq![
        ("phone_target"@, bool_text(!facts.config.direct && facts.mirror is Some)),
        ("wda"@, bool_text(facts.health.up)),
        ("wda_actionable"@, bool_text(facts.health.actionable)),
        ("wda_locked"@, opt_bool_text(facts.health.locked)),
        ("drivable"@, bool_text(drivable(facts, state))),
        ("human_active"@, bool_text(human_active(facts, state))),
        ("mode"@, quoted(mode_name(facts))),
        ("device_state"@, quoted(device_state(facts, state))),
        ("screen_state"@, quoted(screen_state(facts))),
        ("mirror_state"@, quoted(mirror_state(facts))),
    ]
}

/// What is going on with it.
pub open spec fn progress_fields(facts: StatusFacts, state: AppView, now: u64) -> Seq<
    (Seq<char>, Seq<char>),
> {
    seq![
        ("releasing"@, bool_text(releasing(state))),
        ("reconnecting"@, bool_text(reconnecting(state))),
        ("released"@, bool_text(state.released)),
        ("human_handoff"@, bool_text(state.released && state.handed)),
        ("hold_remaining_secs"@, decimal(hold_left(state.hold_until, now) as nat)),
        ("hint"@, quoted(hint(facts, state))),
        ("setup_blocked_on"@, quoted(facts.setup_blocked_on@)),
        ("setup_phase"@, json_string_text(facts.setup_phase@)),
        ("setup_message"@, json_string_text(facts.setup_message@)),
        ("wda_build"@, facts.build@),
        ("wda_died_reason"@, quoted(death_told(facts, state).0)),
        ("wda_died_at"@, decimal(death_told(facts, state).1 as nat)),
    ]
}

/// Who watches it, and how old the server is.
pub open spec fn viewer_fields(facts: StatusFacts, state: AppView) -> Seq<
    (Seq<char>, Seq<char>),
> {
    seq![
        ("viewer_count"@, decimal(all_viewers(facts, state))),
        ("mjpeg_viewer_count"@, decimal(state.live_streams as nat)),
        ("mjpeg_stream_fresh"@, bool_text(stream_fresh(facts))),
        ("mjpeg_stream_age_ms"@, opt_number_text(facts.stream_age)),
        ("version"@, quoted(facts.version@)),
        ("latest"@, opt_string_text(opt_text(facts.latest))),
        ("update_available"@, bool_text(update_available(facts))),
    ]
}

pub open spec fn status_fields(facts: StatusFacts, state: AppView, now: u64) -> Seq<
    (Seq<char>, Seq<char>),
> {
    identity_fields(facts, state, now) + device_fields(facts, state) + progress_fields(
        facts,
        state,
        now,
    ) + viewer_fields(facts, state)
}

fn put_quoted(body: ObjectText, name: &str, value: &str) -> (next: ObjectText)
    ensures
        next.fields() == body.fields().push((name@, quoted(value@))),
{
    let text = join3("\"", value, "\"");
    body.raw(name, text.as_str())
}

fn is_drivable(facts: &StatusFacts, state: &AppState) -> (can: bool)
    ensures
        can == drivable(*facts, state@),
{
    if facts.config.direct {
        facts.health.actionable && !state.lifecycle.is_transitioning() && !state.released
    } else {
        match &facts.mirror {
            Some(mirror) => mirror.drivable,
            None => false,
        }
    }
}

fn mirror_word<'a>(facts: &'a StatusFacts) -> (word: &'a str)
    ensures
        word@ == mirror_state(*facts),
{
    if facts.config.direct {
        "disabled"
    } else {
        match &facts.mirror {
            Some(mirror) => mirror.state.as_str(),
            None => "offline",
        }
    }
}

fn mode_word(facts: &StatusFacts) -> (word: &'static str)
    ensures
        word@ == mode_name(*facts),
{
    if facts.config.direct {
        if facts.health.up {
            "agent"
        } else {
            "offline"
        }
    } else if facts.mirror.is_some() {
        "mirror"
    } else {
        "offline"
    }
}

fn death_seen(facts: &StatusFacts, state: &AppState) -> (death: (&'static str, u64))
    ensures
        (death.0@, death.1) == death_told(*facts, state@),
{
    if facts.health.actionable || state.death.reason.is_empty() {
        ("", 0)
    } else {
        (state.death.reason, state.death.at)
    }
}

fn is_locked(health: &WdaHealth) -> (locked: bool)
    ensures
        locked == (health.locked == Some(true)),
{
    match health.locked {
        Some(locked) => locked,
        None => false,
    }
}

fn down_word(facts: &StatusFacts, state: &AppState) -> (word: &'static str)
    ensures
        word@ == down_hint(*facts, state@),
{
    if facts.config.pending {
        return "no canonical iPhone target is configured — run setup-wda.sh to persist PHONE_REMOTE_UDID; until then the daemon will not stop or bootstrap local WDA";
    }
    if let Some(word) = setup_blocker_hint(facts.setup_blocked_on.as_str()) {
        return word;
    }
    if state.lifecycle.is_reconnecting() {
        "the daemon is restarting its managed direct device service — wait for reconnecting=false before retrying"
    } else if state.released && !facts.config.managed {
        "the remote WDA endpoint is externally managed — restart it on the owning host; this daemon will not stop or bootstrap local services"
    } else if state.released && human_handoff_active(&state.handoff) {
        "the phone was handed to a human (mode=human) — a person is using it through iPhone Mirroring; POST /agent/mode {mode:agent} takes it back"
    } else if state.released {
        "direct device service was released after inactivity — reconnect to restart WDA, then keep the phone unlocked and awake"
    } else if !facts.config.managed {
        "the configured remote WDA endpoint is unreachable and externally managed — recover it on the owning host; this daemon will not run local setup or launchctl commands"
    } else {
        "direct device service is unreachable — start or repair WDA and the 8100/9100 relays; iPhone Mirroring is not used"
    }
}

fn idle_runner_word(facts: &StatusFacts, state: &AppState) -> (word: &'static str)
    ensures
        word@ == idle_runner_hint(*facts, state@),
{
    let death = death_seen(facts, state);
    if is_locked(&facts.health) {
        "WDA is reachable but the iPhone is locked — unlock it and keep it awake; direct control never falls back to iPhone Mirroring"
    } else if !death.0.is_empty() {
        wda_death_hint(death.0)
    } else {
        "WDA is reachable but the last read or action did not complete (usually a /source read that timed out on a heavy page, or a stalled app) — retry the read; the next health probe decides whether this clears or becomes offline"
    }
}

fn mirror_hint_word(mirror: &str) -> (word: &'static str)
    ensures
        word@ == mirror_hint(mirror@),
{
    if same_text(mirror, "paused") {
        "Mirroring needs reconnecting (paused / interrupted / timed out) — tap the Resume/Connect/Try Again button (x=0.5, y=0.64), once, then wait 45s+; do NOT loop"
    } else if same_text(mirror, "in_use") {
        "iPhone in use — LOCK the phone to reconnect; the on-screen Connect button will not reconnect while it is in use"
    } else if same_text(mirror, "offline") {
        "no iPhone Mirroring window — open it on the Mac; to use on-device control, persist PHONE_REMOTE_BACKEND=direct and restart the daemon"
    } else {
        ""
    }
}

/// What to do now.
pub fn status_hint(facts: &StatusFacts, state: &AppState) -> (word: &'static str)
    ensures
        word@ == hint(*facts, state@),
{
    let direct = facts.config.direct;
    if direct && state.lifecycle.is_releasing() {
        return "direct device service is being released after inactivity — wait for confirmation before reconnecting";
    }
    if direct && !facts.health.up {
        return down_word(facts, state);
    }
    if direct && state.lifecycle.is_reconnecting() {
        return "the daemon is restarting its managed direct device service — wait for reconnecting=false before retrying";
    }
    if direct && !facts.health.actionable {
        return idle_runner_word(facts, state);
    }
    let can = is_drivable(facts, state);
    if !can {
        return mirror_hint_word(mirror_word(facts));
    }
    if !direct && !facts.mirror_in_front {
        return "a human is using the Mac (iPhone Mirroring is not frontmost) — an L3 tap will steal their focus; pause until they are idle, or persist PHONE_REMOTE_BACKEND=direct and restart for on-device control";
    }
    ""
}

/// One word for the state of the phone.
pub fn status_device_state(facts: &StatusFacts, state: &AppState) -> (word: &'static str)
    ensures
        word@ == device_state(*facts, state@),
{
    if state.lifecycle.is_releasing() {
        "releasing"
    } else if facts.config.direct && !facts.health.up
        && !facts.setup_blocked_on.as_str().is_empty() {
        "blocked"
    } else if state.lifecycle.is_reconnecting() {
        "reconnecting"
    } else if state.released {
        "released"
    } else if facts.health.actionable {
        "ready"
    } else if is_locked(&facts.health) {
        "locked"
    } else {
        "offline"
    }
}

fn is_fresh(facts: &StatusFacts) -> (fresh: bool)
    ensures
        fresh == stream_fresh(*facts),
{
    match facts.stream_age {
        Some(age) => age <= 8000,
        None => false,
    }
}

fn screen_word(facts: &StatusFacts) -> (word: &'static str)
    ensures
        word@ == screen_state(*facts),
{
    if facts.config.direct && facts.health.up && is_fresh(facts) {
        "live"
    } else if facts.config.direct && facts.health.up {
        "waiting"
    } else if facts.config.direct {
        "offline"
    } else if facts.mirror.is_some() {
        "ready"
    } else {
        "offline"
    }
}

fn newer(facts: &StatusFacts) -> (is: bool)
    ensures
        is == update_available(*facts),
{
    match &facts.latest {
        None => false,
        Some(tag) => {
            let chars = chars_of(tag.as_str());
            let n: usize = chars.len();
            let mut from: usize = 0;
            assert(tag@.skip(0) =~= tag@);
            while from < n && chars[from] == 'v'
                invariant
                    from <= n,
                    n == chars@.len(),
                    chars@ == tag@,
                    without_v(tag@) == without_v(tag@.skip(from as int)),
                decreases n - from,
            {
                assert(tag@.skip(from as int).drop_first() =~= tag@.skip(from + 1));
                from += 1;
            }
            let k: usize = tag.as_str().unicode_len();
            let number = tag.as_str().substring_char(from, k);
            assert(number@ =~= tag@.skip(from as int));
            !same_text(number, facts.version.as_str())
        },
    }
}

fn put_identity(body: ObjectText, facts: &StatusFacts, state: &AppState, now: u64) -> (next:
    ObjectText)
    ensures
        next.fields() == body.fields() + identity_fields(*facts, state@, now),
{
    let ghost before = body.fields();
    let (owner, left) = owner_status(&state.owner, now, facts.lease);
    let udid = match &facts.udid {
        Some(udid) => Some(udid.as_str()),
        None => None,
    };
    let owner_name = match &owner {
        Some(owner) => Some(owner.as_str()),
        None => None,
    };
    let body = body.flag("ok", true);
    let body = put_quoted(
        body,
        "backend",
        if facts.config.direct {
            "direct"
        } else {
            "mirror"
        },
    );
    let body = put_quoted(body, "instance", facts.instance.as_str());
    let body = body.opt_text("udid", udid).opt_text("owner", owner_name).count(
        "owner_lease_remaining_secs",
        left,
    ).flag("target_configured", facts.udid.is_some()).flag("managed_wda", facts.config.managed).flag(
        "managed_wda_pending",
        facts.config.pending,
    );
    let body = put_quoted(body, "recovery_owner", recovery_owner_of(facts.config));
    assert(body.fields() =~= before + identity_fields(*facts, state@, now));
    body
}

fn put_device(body: ObjectText, facts: &StatusFacts, state: &AppState) -> (next: ObjectText)
    ensures
        next.fields() == body.fields() + device_fields(*facts, state@),
{
    let ghost before = body.fields();
    let can = is_drivable(facts, state);
    let body = body.flag("phone_target", !facts.config.direct && facts.mirror.is_some()).flag(
        "wda",
        facts.health.up,
    ).flag("wda_actionable", facts.health.actionable).opt_flag(
        "wda_locked",
        facts.health.locked,
    ).flag("drivable", can).flag(
        "human_active",
        !facts.config.direct && can && !facts.mirror_in_front,
    );
    let body = put_quoted(body, "mode", mode_word(facts));
    let body = put_quoted(body, "device_state", status_device_state(facts, state));
    let body = put_quoted(body, "screen_state", screen_word(facts));
    let body = put_quoted(body, "mirror_state", mirror_word(facts));
    assert(body.fields() =~= before + device_fields(*facts, state@));
    body
}

fn put_progress(body: ObjectText, facts: &StatusFacts, state: &AppState, now: u64) -> (next:
    ObjectText)
    ensures
        next.fields() == body.fields() + progress_fields(*facts, state@, now),
{
    let ghost before = body.fields();
    let death = death_seen(facts, state);
    let handed = state.released && human_handoff_active(&state.handoff);
    let body = body.flag("releasing", state.lifecycle.is_releasing()).flag(
        "reconnecting",
        state.lifecycle.is_reconnecting(),
    ).flag("released", state.released).flag("human_handoff", handed).count(
        "hold_remaining_secs",
        state.hold_remaining_secs(now),
    );
    let body = put_quoted(body, "hint", status_hint(facts, state));
    let body = put_quoted(body, "setup_blocked_on", facts.setup_blocked_on.as_str());
    let body = body.text("setup_phase", facts.setup_phase.as_str()).text(
        "setup_message",
        facts.setup_message.as_str(),
    ).raw("wda_build", facts.build.as_str());
    let body = put_quoted(body, "wda_died_reason", death.0);
    let body = body.count("wda_died_at", death.1);
    assert(body.fields() =~= before + progress_fields(*facts, state@, now));
    body
}

fn put_viewers(body: ObjectText, facts: &StatusFacts, state: &AppState) -> (next: ObjectText)
    ensures
        next.fields() == body.fields() + viewer_fields(*facts, state@),
{
    let ghost before = body.fields();
    let viewers: usize = facts.viewers.saturating_add(state.live_streams);
    let age = match facts.stream_age {
        Some(age) => decimal_text(age),
        None => "null".to_string(),
    };
    let latest = match &facts.latest {
        Some(latest) => Some(latest.as_str()),
        None => None,
    };
    let body = body.count("viewer_count", viewers as u64).count(
        "mjpeg_viewer_count",
        state.live_streams as u64,
    ).flag("mjpeg_stream_fresh", is_fresh(facts)).raw("mjpeg_stream_age_ms", age.as_str());
    let body = put_quoted(body, "version", facts.version.as_str());
    let body = body.opt_text("latest", latest).flag("update_available", newer(facts));
    assert(body.fields() =~= before + viewer_fields(*facts, state@));
    body
}

pub open spec fn stream_id_refusal() -> ReplyView {
    plain_reply(400, "invalid MJPEG stream id"@)
}

/// Refuses a name of a view that is not usable.
pub fn refuse_stream_id(stream_id: Option<&str>) -> (refusal: Option<Reply>)
    ensures
        match refusal {
            Some(reply) => {
                &&& opt_str(stream_id) matches Some(id) && !stream_id_valid(id)
                &&& reply@ == stream_id_refusal()
            },
            None => opt_str(stream_id) matches Some(id) ==> stream_id_valid(id),
        },
{
    match stream_id {
        Some(id) => if valid_mjpeg_stream_id(id) {
            None
        } else {
            Some(Reply::plain(400, "invalid MJPEG stream id"))
        },
        None => None,
    }
}

/// Answers how the phone is. It changes nothing, and ends no transition.
pub fn agent_status(facts: &StatusFacts, state: &AppState, now: u64) -> (reply: Reply)
    ensures
        reply@ == json_reply(200, object_text(status_fields(*facts, state@, now))),
{
    let body = put_identity(ObjectText::new(), facts, state, now);
    let body = put_device(body, facts, state);
    let body = put_progress(body, facts, state, now);
    let body = put_viewers(body, facts, state);
    assert(body.fields() =~= status_fields(*facts, state@, now));
    Reply::json(200, body.finish())
}

/// A phone that is driven directly can be driven only while its state is ready,
/// and while it is ready nothing need be done.
pub proof fn law_drivable_means_ready(facts: StatusFacts, state: AppView)
    requires
        facts.config.direct,
        facts.health.actionable ==> facts.health.up,
    ensures
        drivable(facts, state) == (device_state(facts, state) == "ready"@),
        drivable(facts, state) ==> hint(facts, state) == ""@,
{
    reveal_strlit("ready");
    reveal_strlit("releasing");
    reveal_strlit("blocked");
    reveal_strlit("reconnecting");
    reveal_strlit("released");
    reveal_strlit("locked");
    reveal_strlit("offline");
    assert("ready"@.len() == 5);
    assert("releasing"@.len() == 9);
    assert("blocked"@.len() == 7);
    assert("reconnecting"@.len() == 12);
    assert("released"@.len() == 8);
    assert("locked"@.len() == 6);
    assert("offline"@.len() == 7);
}

/// The state of a phone is always told in one of seven words.
pub proof fn law_a_state_is_one_of_seven_words(facts: StatusFacts, state: AppView)
    ensures
        device_states().len() == 7,
        device_states().contains(device_state(facts, state)),
{
    let words = device_states();
    assert(words[0] == "ready"@);
    assert(words[1] == "locked"@);
    assert(words[2] == "blocked"@);
    assert(words[3] == "offline"@);
    assert(words[4] == "releasing"@);
    assert(words[5] == "released"@);
    assert(words[6] == "reconnecting"@);
}

/// A phone is called blocked only where a prerequisite is named.
pub proof fn law_blocked_names_its_blocker(facts: StatusFacts, state: AppView)
    requires
        device_state(facts, state) == "blocked"@,
    ensures
        facts.setup_blocked_on@.len() > 0,
{
    reveal_strlit("blocked");
    reveal_strlit("ready");
    reveal_strlit("releasing");
    reveal_strlit("reconnecting");
    reveal_strlit("released");
    reveal_strlit("locked");
    reveal_strlit("offline");
    assert("blocked"@[0] == 'b' && "blocked"@.len() == 7);
    assert("ready"@.len() == 5);
    assert("releasing"@.len() == 9);
    assert("reconnecting"@.len() == 12);
    assert("released"@.len() == 8);
    assert("locked"@.len() == 6);
    assert("offline"@[0] == 'o');
}

/// The lengths and some letters of words, which tell them apart.
proof fn lemma_mirror_words()
    ensures
        "paused"@.len() == 6,
        "paused"@[0] == 'p',
        "in_use"@.len() == 6,
        "in_use"@[0] == 'i',
        "offline"@.len() == 7,
{
    reveal_strlit("paused");
    reveal_strlit("in_use");
    reveal_strlit("offline");
}

/// A phone that is reached directly can be driven exactly where its runner can
/// act, nothing is under way and it was not given back; a mirrored one where the
/// mirror says so. A person counts as using the mirror while its window is not in
/// front.
pub proof fn law_a_phone_is_driven_through_its_runner_or_its_mirror(
    facts: StatusFacts,
    state: AppView,
)
    ensures
        facts.config.direct ==> (drivable(facts, state) <==> facts.health.actionable
            && state.lifecycle.phase is Active && !state.released),
        !facts.config.direct ==> (drivable(facts, state) <==> facts.mirror is Some
            && facts.mirror->0.drivable),
        human_active(facts, state) <==> !facts.config.direct && facts.mirror is Some
            && facts.mirror->0.drivable && !facts.mirror_in_front,
        facts.config.direct ==> mirror_state(facts) == "disabled"@,
        !facts.config.direct && facts.mirror is None ==> mirror_state(facts) == "offline"@,
        !facts.config.direct && facts.mirror is Some ==> mirror_state(facts)
            == facts.mirror->0.state@,
        facts.config.direct && facts.health.up ==> mode_name(facts) == "agent"@,
        facts.config.direct && !facts.health.up ==> mode_name(facts) == "offline"@,
        !facts.config.direct && facts.mirror is Some ==> mode_name(facts) == "mirror"@,
        !facts.config.direct && facts.mirror is None ==> mode_name(facts) == "offline"@,
{
}

/// The state of the phone is told by one word: a release before all, then a setup
/// that waits for a person while the runner is down, then a reconnect, a phone
/// that was given back, one that is ready, one that is locked, and else one that
/// is away.
pub proof fn law_a_state_is_told_by_what_matters_most(facts: StatusFacts, state: AppView)
    ensures
        ({
            let word = device_state(facts, state);
            let moving = state.lifecycle.phase !is Active;
            let blocked = facts.config.direct && !facts.health.up && facts.setup_blocked_on@.len()
                > 0;
            &&& state.lifecycle.phase is Releasing ==> word == "releasing"@
            &&& state.lifecycle.phase !is Releasing && blocked ==> word == "blocked"@
            &&& state.lifecycle.phase is Reconnecting && !blocked ==> word == "reconnecting"@
            &&& !moving && !blocked && state.released ==> word == "released"@
            &&& !moving && !blocked && !state.released && facts.health.actionable ==> word
                == "ready"@
            &&& !moving && !blocked && !state.released && !facts.health.actionable
                && facts.health.locked == Some(true) ==> word == "locked"@
            &&& !moving && !blocked && !state.released && !facts.health.actionable
                && facts.health.locked != Some(true) ==> word == "offline"@
        }),
{
}

/// The screen is live while pictures come: the last not longer than eight seconds
/// ago; the mirror is ready while it is there.
pub proof fn law_a_screen_is_live_while_pictures_come(facts: StatusFacts, age: u64)
    ensures
        stream_fresh(facts) <==> facts.stream_age is Some && facts.stream_age->0 <= 8000,
        facts.config.direct && facts.health.up && stream_fresh(facts) ==> screen_state(facts)
            == "live"@,
        facts.config.direct && facts.health.up && !stream_fresh(facts) ==> screen_state(facts)
            == "waiting"@,
        facts.config.direct && !facts.health.up ==> screen_state(facts) == "offline"@,
        !facts.config.direct && facts.mirror is Some ==> screen_state(facts) == "ready"@,
        !facts.config.direct && facts.mirror is None ==> screen_state(facts) == "offline"@,
{
}

/// A newer version is told where the latest one, without the letter before it, is
/// not the one that runs; and all viewers are counted.
pub proof fn law_a_newer_version_and_all_viewers_are_told(
    facts: StatusFacts,
    state: AppView,
    tag: Seq<char>,
)
    ensures
        facts.latest is None ==> !update_available(facts),
        facts.latest is Some ==> (update_available(facts) <==> without_v(facts.latest->0@)
            != facts.version@),
        tag.len() == 0 || tag[0] != 'v' ==> without_v(tag) == tag && without_v(seq!['v'] + tag)
            == tag,
        facts.viewers + state.live_streams <= usize::MAX ==> all_viewers(facts, state)
            == facts.viewers + state.live_streams,
{
    assert((seq!['v'] + tag).drop_first() =~= tag);
    if tag.len() == 0 || tag[0] != 'v' {
        assert(without_v(seq!['v'] + tag) == without_v(tag));
    }
}

/// What a death was is told until the runner acts again.
pub proof fn law_a_death_is_told_until_the_runner_acts(facts: StatusFacts, state: AppView)
    ensures
        facts.health.actionable ==> death_told(facts, state) == (""@, 0u64),
        !facts.health.actionable && state.death.0.len() > 0 ==> death_told(facts, state)
            == state.death,
{
}

/// Each state of the phone has its advice: what is in the way, and what to do
/// about it; a phone that can be driven has none.
pub proof fn law_each_state_has_its_advice(facts: StatusFacts, state: AppView)
    ensures
        ({
            let word = hint(facts, state);
            let direct = facts.config.direct;
            let releasing = state.lifecycle.phase is Releasing;
            let reconnecting = state.lifecycle.phase is Reconnecting;
            let down = direct && !releasing && !facts.health.up;
            let known = blocker_hint(facts.setup_blocked_on@);
            let away = down && !facts.config.pending && known is None && !reconnecting;
            let idle = direct && !releasing && facts.health.up && !reconnecting
                && !facts.health.actionable;
            &&& direct && releasing ==> word == "direct device service is being released after inactivity — wait for confirmation before reconnecting"@
            &&& down && facts.config.pending ==> word == "no canonical iPhone target is configured — run setup-wda.sh to persist PHONE_REMOTE_UDID; until then the daemon will not stop or bootstrap local WDA"@
            &&& down && !facts.config.pending && known is Some ==> Some(word) == known
            &&& down && !facts.config.pending && known is None && reconnecting ==> word == "the daemon is restarting its managed direct device service — wait for reconnecting=false before retrying"@
            &&& away && state.released && !facts.config.managed ==> word == "the remote WDA endpoint is externally managed — restart it on the owning host; this daemon will not stop or bootstrap local services"@
            &&& away && state.released && facts.config.managed && state.handed ==> word == "the phone was handed to a human (mode=human) — a person is using it through iPhone Mirroring; POST /agent/mode {mode:agent} takes it back"@
            &&& away && state.released && facts.config.managed && !state.handed ==> word == "direct device service was released after inactivity — reconnect to restart WDA, then keep the phone unlocked and awake"@
            &&& away && !state.released && !facts.config.managed ==> word == "the configured remote WDA endpoint is unreachable and externally managed — recover it on the owning host; this daemon will not run local setup or launchctl commands"@
            &&& away && !state.released && facts.config.managed ==> word == "direct device service is unreachable — start or repair WDA and the 8100/9100 relays; iPhone Mirroring is not used"@
            &&& direct && !releasing && facts.health.up && reconnecting ==> word == "the daemon is restarting its managed direct device service — wait for reconnecting=false before retrying"@
            &&& idle && facts.health.locked == Some(true) ==> word == "WDA is reachable but the iPhone is locked — unlock it and keep it awake; direct control never falls back to iPhone Mirroring"@
            &&& idle && facts.health.locked != Some(true) && state.death.0.len() > 0 ==> word
                == death_hint(state.death.0)
            &&& idle && facts.health.locked != Some(true) && state.death.0.len() == 0 ==> word
                == "WDA is reachable but the last read or action did not complete (usually a /source read that timed out on a heavy page, or a stalled app) — retry the read; the next health probe decides whether this clears or becomes offline"@
            &&& !direct && facts.mirror is None ==> word == "no iPhone Mirroring window — open it on the Mac; to use on-device control, persist PHONE_REMOTE_BACKEND=direct and restart the daemon"@
            &&& !direct && facts.mirror is Some && !facts.mirror->0.drivable
                && facts.mirror->0.state@ == "paused"@ ==> word == "Mirroring needs reconnecting (paused / interrupted / timed out) — tap the Resume/Connect/Try Again button (x=0.5, y=0.64), once, then wait 45s+; do NOT loop"@
            &&& !direct && facts.mirror is Some && !facts.mirror->0.drivable
                && facts.mirror->0.state@ == "in_use"@ ==> word == "iPhone in use — LOCK the phone to reconnect; the on-screen Connect button will not reconnect while it is in use"@
            &&& human_active(facts, state) ==> word == "a human is using the Mac (iPhone Mirroring is not frontmost) — an L3 tap will steal their focus; pause until they are idle, or persist PHONE_REMOTE_BACKEND=direct and restart for on-device control"@
            &&& drivable(facts, state) && !human_active(facts, state) && (direct ==> facts.health.up)
                ==> word == ""@
        }),
{
    lemma_mirror_words();
    reveal_strlit("");
}

/// The whole answer: each fact under its name.
pub proof fn law_the_status_tells_each_fact_under_its_name(
    facts: StatusFacts,
    state: AppView,
    now: u64,
)
    ensures
        ({
            let all = status_fields(facts, state, now);
            &&& all.contains(("ok"@, bool_text(true)))
            &&& all.contains(("backend"@, quoted(backend_name(facts.config.direct))))
            &&& all.contains(("instance"@, quoted(facts.instance@)))
            &&& all.contains(("udid"@, opt_string_text(opt_text(facts.udid))))
            &&& all.contains(("owner"@, opt_string_text(owner_seen(state.owner, now, facts.lease).0)))
            &&& all.contains(("owner_lease_remaining_secs"@, decimal(owner_seen(state.owner, now, facts.lease).1)))
            &&& all.contains(("target_configured"@, bool_text(facts.udid is Some)))
            &&& all.contains(("managed_wda"@, bool_text(facts.config.managed)))
            &&& all.contains(("managed_wda_pending"@, bool_text(facts.config.pending)))
            &&& all.contains(("recovery_owner"@, quoted(recovery_owner(facts.config))))
            &&& all.contains(("phone_target"@, bool_text(!facts.config.direct && facts.mirror is Some)))
            &&& all.contains(("wda"@, bool_text(facts.health.up)))
            &&& all.contains(("wda_actionable"@, bool_text(facts.health.actionable)))
            &&& all.contains(("wda_locked"@, opt_bool_text(facts.health.locked)))
            &&& all.contains(("drivable"@, bool_text(drivable(facts, state))))
            &&& all.contains(("human_active"@, bool_text(human_active(facts, state))))
            &&& all.contains(("mode"@, quoted(mode_name(facts))))
            &&& all.contains(("device_state"@, quoted(device_state(facts, state))))
            &&& all.contains(("screen_state"@, quoted(screen_state(facts))))
            &&& all.contains(("mirror_state"@, quoted(mirror_state(facts))))
            &&& all.contains(("releasing"@, bool_text(state.lifecycle.phase is Releasing)))
            &&& all.contains(("reconnecting"@, bool_text(state.lifecycle.phase is Reconnecting)))
            &&& all.contains(("released"@, bool_text(state.released)))
            &&& all.contains(("human_handoff"@, bool_text(state.released && state.handed)))
            &&& all.contains(("hold_remaining_secs"@, decimal(hold_left(state.hold_until, now) as nat)))
            &&& all.contains(("hint"@, quoted(hint(facts, state))))
            &&& all.contains(("setup_blocked_on"@, quoted(facts.setup_blocked_on@)))
            &&& all.contains(("setup_phase"@, json_string_text(facts.setup_phase@)))
            &&& all.contains(("setup_message"@, json_string_text(facts.setup_message@)))
            &&& all.contains(("wda_build"@, facts.build@))
            &&& all.contains(("wda_died_reason"@, quoted(death_told(facts, state).0)))
            &&& all.contains(("wda_died_at"@, decimal(death_told(facts, state).1 as nat)))
            &&& all.contains(("viewer_count"@, decimal(all_viewers(facts, state))))
            &&& all.contains(("mjpeg_viewer_count"@, decimal(state.live_streams as nat)))
            &&& all.contains(("mjpeg_stream_fresh"@, bool_text(stream_fresh(facts))))
            &&& all.contains(("mjpeg_stream_age_ms"@, opt_number_text(facts.stream_age)))
            &&& all.contains(("version"@, quoted(facts.version@)))
            &&& all.contains(("latest"@, opt_string_text(opt_text(facts.latest))))
            &&& all.contains(("update_available"@, bool_text(update_available(facts))))
            &&& all.len() == 39
        }),
{
    let all = status_fields(facts, state, now);
    assert(all[0] == ("ok"@, bool_text(true)));
    assert(all[1] == ("backend"@, quoted(backend_name(facts.config.direct))));
    assert(all[2] == ("instance"@, quoted(facts.instance@)));
    assert(all[3] == ("udid"@, opt_string_text(opt_text(facts.udid))));
    assert(all[4] == ("owner"@, opt_string_text(owner_seen(state.owner, now, facts.lease).0)));
    assert(all[5] == ("owner_lease_remaining_secs"@, decimal(owner_seen(state.owner, now, facts.lease).1)));
    assert(all[6] == ("target_configured"@, bool_text(facts.udid is Some)));
    assert(all[7] == ("managed_wda"@, bool_text(facts.config.managed)));
    assert(all[8] == ("managed_wda_pending"@, bool_text(facts.config.pending)));
    assert(all[9] == ("recovery_owner"@, quoted(recovery_owner(facts.config))));
    assert(all[10] == ("phone_target"@, bool_text(!facts.config.direct && facts.mirror is Some)));
    assert(all[11] == ("wda"@, bool_text(facts.health.up)));
    assert(all[12] == ("wda_actionable"@, bool_text(facts.health.actionable)));
    assert(all[13] == ("wda_locked"@, opt_bool_text(facts.health.locked)));
    assert(all[14] == ("drivable"@, bool_text(drivable(facts, state))));
    assert(all[15] == ("human_active"@, bool_text(human_active(facts, state))));
    assert(all[16] == ("mode"@, quoted(mode_name(facts))));
    assert(all[17] == ("device_state"@, quoted(device_state(facts, state))));
    assert(all[18] == ("screen_state"@, quoted(screen_state(facts))));
    assert(all[19] == ("mirror_state"@, quoted(mirror_state(facts))));
    assert(all[20] == ("releasing"@, bool_text(state.lifecycle.phase is Releasing)));
    assert(all[21] == ("reconnecting"@, bool_text(state.lifecycle.phase is Reconnecting)));
    assert(all[22] == ("released"@, bool_text(state.released)));
    assert(all[23] == ("human_handoff"@, bool_text(state.released && state.handed)));
    assert(all[24] == ("hold_remaining_secs"@, decimal(hold_left(state.hold_until, now) as nat)));
    assert(all[25] == ("hint"@, quoted(hint(facts, state))));
    assert(all[26] == ("setup_blocked_on"@, quoted(facts.setup_blocked_on@)));
    assert(all[27] == ("setup_phase"@, json_string_text(facts.setup_phase@)));
    assert(all[28] == ("setup_message"@, json_string_text(facts.setup_message@)));
    assert(all[29] == ("wda_build"@, facts.build@));
    assert(all[30] == ("wda_died_reason"@, quoted(death_told(facts, state).0)));
    assert(all[31] == ("wda_died_at"@, decimal(death_told(facts, state).1 as nat)));
    assert(all[32] == ("viewer_count"@, decimal(all_viewers(facts, state))));
    assert(all[33] == ("mjpeg_viewer_count"@, decimal(state.live_streams as nat)));
    assert(all[34] == ("mjpeg_stream_fresh"@, bool_text(stream_fresh(facts))));
    assert(all[35] == ("mjpeg_stream_age_ms"@, opt_number_text(facts.stream_age)));
    assert(all[36] == ("version"@, quoted(facts.version@)));
    assert(all[37] == ("latest"@, opt_string_text(opt_text(facts.latest))));
    assert(all[38] == ("update_available"@, bool_text(update_available(facts))));
}

/// Texts are quoted as they stand, and a number that is missing is told as that.
pub proof fn law_a_missing_number_is_told_as_missing(s: Seq<char>, n: u64)
    ensures
        quoted(s) == "\""@ + s + "\""@,
        opt_number_text(None) == "null"@,
        opt_number_text(Some(n)) == decimal(n as nat),
        stream_id_refusal() == plain_reply(400, "invalid MJPEG stream id"@),
{
}

/// What is known of the runner is looked up afresh only for a phone that is
/// reached directly, is chosen and is not being reconnected.
pub proof fn law_health_is_refreshed_only_at_rest(
    direct: bool,
    pending: bool,
    reconnecting: bool,
    source: HealthSource,
)
    requires
        call_ensures(status_health_source, (direct, pending, reconnecting), source),
    ensures
        source is Refreshed <==> direct && !pending && !reconnecting,
        source is Cached <==> direct && !pending && reconnecting,
        source is Down <==> !direct || pending,
{
}

} // verus!
