//! What the setup script reports of itself: its status file, its log, and what
//! they say of a runner that is being built.

use vstd::prelude::*;

use crate::json::{bool_of, json_document, lookup, text_of, unsigned_of, Json, JsonView};
use crate::reply::{json_string, json_string_text, texts};
use crate::scan::{lines, lines_of};
use crate::search::{
    after_last, contains, end_within, last_bytes, occurs, rest_after_last, text_size,
};
use crate::text::{decimal, decimal_text, join3, same_text, trim, trimmed};

verus! {

/// What the setup script writes into its status file.
#[derive(Debug)]
pub struct WdaSetupStatus {
    pub phase: String,
    pub blocked_on: String,
    pub message: String,
    /// Unix seconds of the last write.
    pub ts: u64,
    /// Zero where the script is too old to say.
    pub schema_version: u32,
    pub active: bool,
    pub terminal: bool,
    pub owner_pid: u32,
    pub owner_start: String,
    pub heartbeat_ts: u64,
}

/// The content of a [`WdaSetupStatus`].
pub struct StatusView {
    pub phase: Seq<char>,
    pub blocked_on: Seq<char>,
    pub message: Seq<char>,
    pub ts: u64,
    pub schema_version: u32,
    pub active: bool,
    pub terminal: bool,
    pub owner_pid: u32,
    pub owner_start: Seq<char>,
    pub heartbeat_ts: u64,
}

impl View for WdaSetupStatus {
    type V = StatusView;

    open spec fn view(&self) -> StatusView {
        StatusView {
            phase: self.phase@,
            blocked_on: self.blocked_on@,
            message: self.message@,
            ts: self.ts,
            schema_version: self.schema_version,
            active: self.active,
            terminal: self.terminal,
            owner_pid: self.owner_pid,
            owner_start: self.owner_start@,
            heartbeat_ts: self.heartbeat_ts,
        }
    }
}

impl Default for WdaSetupStatus {
    fn default() -> (status: WdaSetupStatus)
        ensures
            status@ == (StatusView {
                phase: Seq::empty(),
                blocked_on: Seq::empty(),
                message: Seq::empty(),
                ts: 0,
                schema_version: 0,
                active: false,
                terminal: false,
                owner_pid: 0,
                owner_start: Seq::empty(),
                heartbeat_ts: 0,
            }),
    {
        let status = WdaSetupStatus {
            phase: String::new(),
            blocked_on: String::new(),
            message: String::new(),
            ts: 0,
            schema_version: 0,
            active: false,
            terminal: false,
            owner_pid: 0,
            owner_start: String::new(),
            heartbeat_ts: 0,
        };
        assert(status.phase@ =~= Seq::empty());
        assert(status.blocked_on@ =~= Seq::empty());
        assert(status.message@ =~= Seq::empty());
        assert(status.owner_start@ =~= Seq::empty());
        status
    }
}

/// A member of the status: by its name in an object, by its place in a list.
pub open spec fn member_of(v: JsonView, name: Seq<char>, place: int) -> Option<JsonView> {
    match v {
        JsonView::Object(fields) => lookup(fields, name),
        JsonView::List(items) => if place < items.len() {
            Some(items[place])
        } else {
            None
        },
        _ => None,
    }
}

/// A text member; it may be missing, but not of another kind.
pub open spec fn text_member(v: JsonView, name: Seq<char>, place: int) -> Option<Seq<char>> {
    match member_of(v, name, place) {
        None => Some(Seq::empty()),
        Some(member) => text_of(Some(member)),
    }
}

/// A number member that fits in 32 bits; it may be missing.
pub open spec fn small_member(v: JsonView, name: Seq<char>, place: int) -> Option<u32> {
    match member_of(v, name, place) {
        None => Some(0u32),
        Some(member) => match unsigned_of(Some(member)) {
            Some(n) => if n <= u32::MAX {
                Some(n as u32)
            } else {
                None
            },
            None => None,
        },
    }
}

pub open spec fn number_member(v: JsonView, name: Seq<char>, place: int) -> Option<u64> {
    match member_of(v, name, place) {
        None => Some(0u64),
        Some(member) => unsigned_of(Some(member)),
    }
}

pub open spec fn flag_member(v: JsonView, name: Seq<char>, place: int) -> Option<bool> {
    match member_of(v, name, place) {
        None => Some(false),
        Some(member) => bool_of(Some(member)),
    }
}

/// Whether every member is of its kind, and the time of writing is there.
pub open spec fn status_formed(v: JsonView) -> bool {
    &&& (v is Object || (v matches JsonView::List(items) && items.len() <= 10))
    &&& text_member(v, "phase"@, 0) is Some
    &&& text_member(v, "blocked_on"@, 1) is Some
    &&& text_member(v, "message"@, 2) is Some
    &&& unsigned_of(member_of(v, "ts"@, 3)) is Some
    &&& small_member(v, "schema_version"@, 4) is Some
    &&& flag_member(v, "active"@, 5) is Some
    &&& flag_member(v, "terminal"@, 6) is Some
    &&& small_member(v, "owner_pid"@, 7) is Some
    &&& text_member(v, "owner_start"@, 8) is Some
    &&& number_member(v, "heartbeat_ts"@, 9) is Some
}

/// The status that a document holds.
pub open spec fn status_in(v: JsonView) -> StatusView {
    StatusView {
        phase: text_member(v, "phase"@, 0)->0,
        blocked_on: text_member(v, "blocked_on"@, 1)->0,
        message: text_member(v, "message"@, 2)->0,
        ts: unsigned_of(member_of(v, "ts"@, 3))->0,
        schema_version: small_member(v, "schema_version"@, 4)->0,
        active: flag_member(v, "active"@, 5)->0,
        terminal: flag_member(v, "terminal"@, 6)->0,
        owner_pid: small_member(v, "owner_pid"@, 7)->0,
        owner_start: text_member(v, "owner_start"@, 8)->0,
        heartbeat_ts: number_member(v, "heartbeat_ts"@, 9)->0,
    }
}

/// The status that a file holds.
pub open spec fn status_of(text: Seq<char>) -> Option<StatusView> {
    match json_document(text) {
        Some(v) => if status_formed(v) {
            Some(status_in(v))
        } else {
            None
        },
        None => None,
    }
}

fn member<'a>(v: &'a Json, name: &str, place: usize) -> (member: Option<&'a Json>)
    ensures
        match member {
            Some(member) => member_of(v@, name@, place as int) == Some(member@),
            None => member_of(v@, name@, place as int) is None,
        },
{
    match v {
        Json::Object(_) => v.get(name),
        Json::List(items) => if place < items.len() {
            Some(&items[place])
        } else {
            None
        },
        _ => None,
    }
}

fn read_text(v: &Json, name: &str, place: usize) -> (text: Option<String>)
    ensures
        crate::reply::opt_text(text) == text_member(v@, name@, place as int),
{
    match member(v, name, place) {
        None => {
            let none = String::new();
            assert(none@ =~= Seq::<char>::empty());
            Some(none)
        },
        Some(found) => match found.as_str() {
            Some(text) => Some(text.to_string()),
            None => None,
        },
    }
}

fn read_number(v: &Json, name: &str, place: usize) -> (n: Option<u64>)
    ensures
        n == number_member(v@, name@, place as int),
{
    match member(v, name, place) {
        None => Some(0),
        Some(found) => found.as_u64(),
    }
}

fn read_small(v: &Json, name: &str, place: usize) -> (n: Option<u32>)
    ensures
        n == small_member(v@, name@, place as int),
{
    match member(v, name, place) {
        None => Some(0),
        Some(found) => match found.as_u64() {
            Some(n) => if n <= u32::MAX as u64 {
                Some(n as u32)
            } else {
                None
            },
            None => None,
        },
    }
}

fn read_flag(v: &Json, name: &str, place: usize) -> (flag: Option<bool>)
    ensures
        flag == flag_member(v@, name@, place as int),
{
    match member(v, name, place) {
        None => Some(false),
        Some(found) => found.as_bool(),
    }
}

/// Reads a status file.
pub fn read_status(text: &str) -> (status: Option<WdaSetupStatus>)
    ensures
        match status {
            Some(status) => status_of(text@) == Some(status@),
            None => status_of(text@) is None,
        },
{
    let v = match Json::parse(text) {
        Some(v) => v,
        None => {
            return None;
        },
    };
    let shaped = match &v {
        Json::Object(_) => true,
        Json::List(items) => items.len() <= 10,
        _ => false,
    };
    if !shaped {
        return None;
    }
    let ts = match member(&v, "ts", 3) {
        Some(found) => found.as_u64(),
        None => None,
    };
    let phase = read_text(&v, "phase", 0);
    let blocked_on = read_text(&v, "blocked_on", 1);
    let message = read_text(&v, "message", 2);
    let schema_version = read_small(&v, "schema_version", 4);
    let active = read_flag(&v, "active", 5);
    let terminal = read_flag(&v, "terminal", 6);
    let owner_pid = read_small(&v, "owner_pid", 7);
    let owner_start = read_text(&v, "owner_start", 8);
    let heartbeat_ts = read_number(&v, "heartbeat_ts", 9);
    match (phase, blocked_on, message, ts, owner_start) {
        (Some(phase), Some(blocked_on), Some(message), Some(ts), Some(owner_start)) => {
            match (schema_version, active, terminal, owner_pid, heartbeat_ts) {
                (
                    Some(schema_version),
                    Some(active),
                    Some(terminal),
                    Some(owner_pid),
                    Some(heartbeat_ts),
                ) => Some(
                    WdaSetupStatus {
                        phase,
                        blocked_on,
                        message,
                        ts,
                        schema_version,
                        active,
                        terminal,
                        owner_pid,
                        owner_start,
                        heartbeat_ts,
                    },
                ),
                _ => None,
            }
        },
        _ => None,
    }
}

/// What a status may be blocked on; empty where it is not.
pub open spec fn known_blocker(s: Seq<char>) -> bool {
    s == ""@ || s == "warp"@ || s == "proxy"@ || s == "usb"@ || s == "trust"@ || s == "ddi"@ || s
        == "account"@ || s == "locked"@ || s == "wda"@
}

fn is_known_blocker(s: &str) -> (known: bool)
    ensures
        known == known_blocker(s@),
{
    same_text(s, "") || same_text(s, "warp") || same_text(s, "proxy") || same_text(s, "usb")
        || same_text(s, "trust") || same_text(s, "ddi") || same_text(s, "account") || same_text(
        s,
        "locked",
    ) || same_text(s, "wda")
}

/// The first characters of a text.
pub open spec fn first_chars(s: Seq<char>, most: int) -> Seq<char> {
    if s.len() <= most {
        s
    } else {
        s.take(most)
    }
}

fn shortened(s: &str, most: usize) -> (short: String)
    ensures
        short@ == first_chars(s@, most as int),
{
    if s.unicode_len() <= most {
        s.to_string()
    } else {
        let short = s.substring_char(0, most).to_string();
        assert(short@ =~= s@.take(most as int));
        short
    }
}

/// A status with its texts cut to a bearable length.
pub open spec fn bounded(status: StatusView) -> StatusView {
    StatusView {
        phase: first_chars(status.phase, 64),
        message: first_chars(status.message, 512),
        ..status
    }
}

pub open spec fn age_of(ts: u64, now: u64) -> u64 {
    if now > ts {
        (now - ts) as u64
    } else {
        0
    }
}

/// The status that counts: at most five minutes old, blocked on nothing unknown,
/// and saying something.
pub open spec fn live_status(text: Seq<char>, now: u64) -> Option<StatusView> {
    match status_of(text) {
        Some(status) => if age_of(status.ts, now) > 300 || !known_blocker(status.blocked_on) || (
        status.phase.len() == 0 && status.blocked_on.len() == 0) {
            None
        } else {
            Some(bounded(status))
        },
        None => None,
    }
}

fn bound(status: WdaSetupStatus) -> (short: WdaSetupStatus)
    ensures
        short@ == bounded(status@),
{
    let phase = shortened(status.phase.as_str(), 64);
    let message = shortened(status.message.as_str(), 512);
    WdaSetupStatus {
        phase,
        blocked_on: status.blocked_on,
        message,
        ts: status.ts,
        schema_version: status.schema_version,
        active: status.active,
        terminal: status.terminal,
        owner_pid: status.owner_pid,
        owner_start: status.owner_start,
        heartbeat_ts: status.heartbeat_ts,
    }
}

/// Reads a status file for what holds now. `now` is in Unix seconds.
pub fn parse_setup_status(text: &str, now: u64) -> (status: Option<WdaSetupStatus>)
    ensures
        match status {
            Some(status) => live_status(text@, now) == Some(status@),
            None => live_status(text@, now) is None,
        },
{
    let status = match read_status(text) {
        Some(status) => status,
        None => {
            return None;
        },
    };
    if now.saturating_sub(status.ts) > 300 {
        return None;
    }
    if !is_known_blocker(status.blocked_on.as_str()) {
        return None;
    }
    if status.phase.as_str().is_empty() && status.blocked_on.as_str().is_empty() {
        return None;
    }
    Some(bound(status))
}

/// What a status file says setup is blocked on now; empty where nothing.
pub open spec fn blocker_in(text: Seq<char>, now: u64) -> Seq<char> {
    match live_status(text, now) {
        Some(status) => status.blocked_on,
        None => Seq::empty(),
    }
}

pub fn parse_setup_blocked_on(text: &str, now: u64) -> (blocker: String)
    ensures
        blocker@ == blocker_in(text@, now),
{
    match parse_setup_status(text, now) {
        Some(status) => status.blocked_on,
        None => {
            let none = String::new();
            assert(none@ =~= Seq::<char>::empty());
            none
        },
    }
}

/// Reads a status file whatever its age: that of a build that went silent is
/// just what one wants to see.
pub fn read_raw_setup_status(text: &str) -> (status: Option<WdaSetupStatus>)
    ensures
        match status {
            Some(status) => status_of(text@) matches Some(read) && status@ == bounded(read),
            None => status_of(text@) is None,
        },
{
    match read_status(text) {
        Some(status) => Some(bound(status)),
        None => None,
    }
}

/// What the last attempt in a log is blocked on; empty where nothing is
/// recognised.
pub open spec fn log_blocker(log: Seq<char>) -> Seq<char> {
    let latest = after_last(log, "== Checking prerequisites"@);
    if occurs(latest, "WARP is ON and will block WDA"@) || occurs(
        latest,
        "Split Tunnel exclusions do not cover the CoreDevice"@,
    ) {
        "warp"@
    } else if occurs(latest, "not currently connected over USB"@) || occurs(
        latest,
        "no USB iPhone was found"@,
    ) || occurs(latest, "no USB iPhone is connected"@) {
        "usb"@
    } else if occurs(latest, "has no signed-in Apple account"@) || occurs(latest, "No Accounts:"@)
        || occurs(latest, "could not find or create the WDA development provisioning"@) {
        "account"@
    } else {
        ""@
    }
}

/// Reads from a log what its last attempt is blocked on.
pub fn parse_setup_log_blocked_on(log: &str) -> (blocker: String)
    ensures
        blocker@ == log_blocker(log@),
{
    let text = rest_after_last(log, "== Checking prerequisites");
    let latest = text.as_str();
    if contains(latest, "WARP is ON and will block WDA") || contains(
        latest,
        "Split Tunnel exclusions do not cover the CoreDevice",
    ) {
        "warp".to_string()
    } else if contains(latest, "not currently connected over USB") || contains(
        latest,
        "no USB iPhone was found",
    ) || contains(latest, "no USB iPhone is connected") {
        "usb".to_string()
    } else if contains(latest, "has no signed-in Apple account") || contains(
        latest,
        "No Accounts:",
    ) || contains(latest, "could not find or create the WDA development provisioning") {
        "account".to_string()
    } else {
        "".to_string()
    }
}

/// From where a log is read: its last 64 KiB, where it was written to in the
/// last five minutes.
pub fn recent_log_start(age_secs: Option<u64>, size: u64) -> (start: Option<u64>)
    ensures
        start == (match age_secs {
            Some(age) => if age <= 300 {
                Some(
                    if size > 65536 {
                        (size - 65536) as u64
                    } else {
                        0
                    },
                )
            } else {
                None
            },
            None => None,
        }),
{
    match age_secs {
        Some(age) => if age <= 300 {
            Some(size.saturating_sub(65536))
        } else {
            None
        },
        None => None,
    }
}

/// The blocker that counts: that of the status file, else that of the log, which
/// is looked into only then.
pub fn read_setup_blocked_on<F: FnOnce() -> String>(structured: String, logged: F) -> (blocker:
    String)
    requires
        structured@.len() == 0 ==> call_requires(logged, ()),
    ensures
        if structured@.len() > 0 {
            blocker@ == structured@
        } else {
            call_ensures(logged, (), blocker)
        },
{
    if !structured.as_str().is_empty() {
        structured
    } else {
        logged()
    }
}

/// What a person can do about a blocker.
pub open spec fn blocker_hint(blocker: Seq<char>) -> Option<Seq<char>> {
    if blocker == "warp"@ {
        Some(
            "WARP is capturing the CoreDevice device tunnel — for selected destinations, ask the Zero Trust administrator for Traffic only mode with Split Tunnels Include limited to those destination IPs/CIDRs; otherwise exclude fe80::/10 and fd00::/8 in full-tunnel mode (or temporarily run warp-cli disconnect), then wait for policy propagation and poll status; do not send another reconnect request while this blocker remains"@,
        )
    } else if blocker == "proxy"@ {
        Some(
            "a system proxy is blocking CoreDevice/WDA — disable the proxy for the device tunnel, then poll status; do not send another reconnect request while this blocker remains"@,
        )
    } else if blocker == "usb"@ {
        Some(
            "the configured iPhone is not available over USB — connect that phone, unlock it, and keep it awake while the managed service retries"@,
        )
    } else if blocker == "trust"@ {
        Some(
            "the configured iPhone needs trust or developer-signing approval — unlock the phone, accept the prompt, then keep it awake while the managed service retries"@,
        )
    } else if blocker == "ddi"@ {
        Some(
            "the iPhone Developer Disk Image is unavailable — open Xcode with the phone connected, let device preparation finish, then poll status"@,
        )
    } else if blocker == "account"@ {
        Some(
            "Xcode has no usable signed-in Apple account or WDA provisioning profile — open Xcode → Settings → Accounts, sign in and select the development team, then poll status; the managed service retries automatically"@,
        )
    } else if blocker == "locked"@ {
        Some(
            "the iPhone is locked — unlock it and keep it awake; the managed service is already retrying on its own backoff, so do not send another reconnect request"@,
        )
    } else if blocker == "wda"@ {
        Some(
            "WebDriverAgent failed to start — inspect ~/.iphone-use/wda-agent.log and run setup-wda.sh doctor before retrying"@,
        )
    } else {
        None
    }
}

pub fn setup_blocker_hint(blocked_on: &str) -> (hint: Option<&'static str>)
    ensures
        crate::reply::opt_str(hint) == blocker_hint(blocked_on@),
{
    if same_text(blocked_on, "warp") {
        Some(
            "WARP is capturing the CoreDevice device tunnel — for selected destinations, ask the Zero Trust administrator for Traffic only mode with Split Tunnels Include limited to those destination IPs/CIDRs; otherwise exclude fe80::/10 and fd00::/8 in full-tunnel mode (or temporarily run warp-cli disconnect), then wait for policy propagation and poll status; do not send another reconnect request while this blocker remains",
        )
    } else if same_text(blocked_on, "proxy") {
        Some(
            "a system proxy is blocking CoreDevice/WDA — disable the proxy for the device tunnel, then poll status; do not send another reconnect request while this blocker remains",
        )
    } else if same_text(blocked_on, "usb") {
        Some(
            "the configured iPhone is not available over USB — connect that phone, unlock it, and keep it awake while the managed service retries",
        )
    } else if same_text(blocked_on, "trust") {
        Some(
            "the configured iPhone needs trust or developer-signing approval — unlock the phone, accept the prompt, then keep it awake while the managed service retries",
        )
    } else if same_text(blocked_on, "ddi") {
        Some(
            "the iPhone Developer Disk Image is unavailable — open Xcode with the phone connected, let device preparation finish, then poll status",
        )
    } else if same_text(blocked_on, "account") {
        Some(
            "Xcode has no usable signed-in Apple account or WDA provisioning profile — open Xcode → Settings → Accounts, sign in and select the development team, then poll status; the managed service retries automatically",
        )
    } else if same_text(blocked_on, "locked") {
        Some(
            "the iPhone is locked — unlock it and keep it awake; the managed service is already retrying on its own backoff, so do not send another reconnect request",
        )
    } else if same_text(blocked_on, "wda") {
        Some(
            "WebDriverAgent failed to start — inspect ~/.iphone-use/wda-agent.log and run setup-wda.sh doctor before retrying",
        )
    } else {
        None
    }
}

/// Every blocker that a status can report has a hint, and nothing else has.
pub proof fn law_every_blocker_has_a_hint(blocker: Seq<char>)
    ensures
        blocker_hint(blocker) is Some == (known_blocker(blocker) && blocker.len() > 0),
{
    reveal_strlit("");
    reveal_strlit("warp");
    reveal_strlit("proxy");
    reveal_strlit("usb");
    reveal_strlit("trust");
    reveal_strlit("ddi");
    reveal_strlit("account");
    reveal_strlit("locked");
    reveal_strlit("wda");
    if blocker.len() == 0 {
        assert(blocker =~= ""@);
    }
}

/// How a build is going. Nothing rewrites the status for so many seconds only
/// where the script is gone.
pub open spec fn build_state(phase: Seq<char>, age_secs: u64) -> Seq<char> {
    if phase.len() == 0 {
        "unknown"@
    } else if phase == "ready"@ {
        "ready"@
    } else if ends(phase, "-fail"@) {
        "failed"@
    } else if age_secs > 300 {
        "stalled"@
    } else {
        "building"@
    }
}

/// Whether a text ends with another.
pub open spec fn ends(s: Seq<char>, suffix: Seq<char>) -> bool {
    s.len() >= suffix.len() && s.skip(s.len() - suffix.len()) == suffix
}

fn ends_with(s: &str, suffix: &str) -> (is: bool)
    ensures
        is == ends(s@, suffix@),
{
    let n: usize = s.unicode_len();
    let m: usize = suffix.unicode_len();
    if n < m {
        return false;
    }
    let end = s.substring_char(n - m, n);
    assert(end@ =~= s@.skip(n - m));
    same_text(end, suffix)
}

/// Seconds after which a silent build counts as gone.
pub const BUILD_STALE_SECS: u64 = 300;

pub fn classify_build_state(phase: &str, age_secs: u64) -> (state: &'static str)
    ensures
        state@ == build_state(phase@, age_secs),
{
    if phase.is_empty() {
        return "unknown";
    }
    if same_text(phase, "ready") {
        return "ready";
    }
    if ends_with(phase, "-fail") {
        return "failed";
    }
    if age_secs > BUILD_STALE_SECS {
        return "stalled";
    }
    "building"
}

/// The lines that are not blank.
pub open spec fn nonblank(lines: Seq<Seq<char>>) -> Seq<Seq<char>>
    decreases lines.len(),
{
    if lines.len() == 0 {
        Seq::empty()
    } else {
        let before = nonblank(lines.drop_last());
        if trimmed(lines.last()).len() > 0 {
            before.push(lines.last())
        } else {
            before
        }
    }
}

/// Lines as one text.
pub open spec fn joined(lines: Seq<Seq<char>>) -> Seq<char>
    decreases lines.len(),
{
    if lines.len() == 0 {
        Seq::empty()
    } else if lines.len() == 1 {
        lines[0]
    } else {
        joined(lines.drop_last()) + "\n"@ + lines.last()
    }
}

/// The last of some lines.
pub open spec fn last_lines(lines: Seq<Seq<char>>, most: int) -> Seq<Seq<char>> {
    if lines.len() <= most {
        lines
    } else {
        lines.skip(lines.len() - most)
    }
}

/// The last lines of a text that are not blank, and of them no more bytes than
/// the limit, from the end.
pub open spec fn tail_of(text: Seq<char>, max_lines: int, max_bytes: nat) -> Seq<char> {
    end_within(joined(last_lines(nonblank(lines_of(text)), max_lines)), max_bytes)
}

/// The end of a log, bounded in lines and in bytes.
pub fn tail_lines(text: &str, max_lines: usize, max_bytes: usize) -> (tail: String)
    ensures
        tail@ == tail_of(text@, max_lines as int, max_bytes as nat),
{
    let listed = lines(text);
    let ghost all = lines_of(text@);
    let mut kept: Vec<String> = Vec::new();
    let mut i: usize = 0;
    assert(texts(kept@) =~= nonblank(all.take(0)));
    while i < listed.len()
        invariant
            i <= listed@.len(),
            all == texts(listed@),
            texts(kept@) == nonblank(all.take(i as int)),
        decreases listed@.len() - i,
    {
        assert(all.take(i + 1).drop_last() =~= all.take(i as int));
        assert(all[i as int] == listed@[i as int]@);
        let ghost before = texts(kept@);
        if !trim(listed[i].as_str()).is_empty() {
            kept.push(listed[i].clone());
            assert(texts(kept@) =~= before.push(all[i as int]));
        }
        i += 1;
    }
    assert(all.take(i as int) =~= all);
    let ghost lines = texts(kept@);
    let n: usize = kept.len();
    let start: usize = if n > max_lines {
        n - max_lines
    } else {
        0
    };
    let ghost last = last_lines(lines, max_lines as int);
    assert(last =~= lines.skip(start as int));
    let mut out = String::new();
    let mut j: usize = start;
    assert(out@ =~= joined(last.take(0)));
    while j < n
        invariant
            start <= j <= n,
            n == kept@.len(),
            lines == texts(kept@),
            last == lines.skip(start as int),
            out@ == joined(last.take(j - start)),
        decreases n - j,
    {
        let ghost k = j - start;
        assert(last.take(k + 1).drop_last() =~= last.take(k));
        assert(last[k] == kept@[j as int]@);
        if j == start {
            out = kept[j].clone();
        } else {
            out = join3(out.as_str(), "\n", kept[j].as_str());
        }
        j += 1;
    }
    assert(last.take(j - start) =~= last);
    last_bytes(out.as_str(), max_bytes)
}

/// A log's end never takes more bytes than its limit.
pub proof fn law_a_log_end_is_bounded(text: Seq<char>, max_lines: int, max_bytes: nat)
    ensures
        text_size(tail_of(text, max_lines, max_bytes)) <= max_bytes,
{
    crate::search::law_an_end_stays_within_its_limit(
        joined(last_lines(nonblank(lines_of(text)), max_lines)),
        max_bytes,
    );
}

/// How the bring-up of the runner is going: still at work, or given up.
#[derive(Debug)]
pub struct WdaBuild {
    pub state: &'static str,
    /// The script's own word for it.
    pub phase: String,
    /// Unix seconds of the script's last write.
    pub since: u64,
    pub age_secs: u64,
    /// The end of the runner's log, where that is what to look at.
    pub log_tail: String,
}

/// The content of a [`WdaBuild`].
pub struct BuildView {
    pub state: Seq<char>,
    pub phase: Seq<char>,
    pub since: u64,
    pub age_secs: u64,
    pub log_tail: Seq<char>,
}

impl View for WdaBuild {
    type V = BuildView;

    open spec fn view(&self) -> BuildView {
        BuildView {
            state: self.state@,
            phase: self.phase@,
            since: self.since,
            age_secs: self.age_secs,
            log_tail: self.log_tail@,
        }
    }
}

pub open spec fn build_unknown() -> BuildView {
    BuildView {
        state: "unknown"@,
        phase: Seq::empty(),
        since: 0,
        age_secs: 0,
        log_tail: Seq::empty(),
    }
}

pub open spec fn build_text(b: BuildView) -> Seq<char> {
    r#"{"state":""#@ + b.state + r#"","phase":"#@ + json_string_text(b.phase) + r#","since":"#@
        + decimal(b.since as nat) + r#","age_secs":"#@ + decimal(b.age_secs as nat)
        + r#","log_tail":"#@ + json_string_text(b.log_tail) + "}"@
}

impl WdaBuild {
    /// Nothing was ever reported.
    pub fn unknown() -> (build: WdaBuild)
        ensures
            build@ == build_unknown(),
    {
        let build = WdaBuild {
            state: "unknown",
            phase: String::new(),
            since: 0,
            age_secs: 0,
            log_tail: String::new(),
        };
        assert(build.phase@ =~= Seq::empty());
        assert(build.log_tail@ =~= Seq::empty());
        build
    }

    pub fn to_json(&self) -> (text: String)
        ensures
            text@ == build_text(self@),
    {
        let phase = json_string(self.phase.as_str());
        let since = decimal_text(self.since);
        let age = decimal_text(self.age_secs);
        let tail = json_string(self.log_tail.as_str());
        let text = join3(r#"{"state":""#, self.state, r#"","phase":"#);
        let text = join3(text.as_str(), phase.as_str(), r#","since":"#);
        let text = join3(text.as_str(), since.as_str(), r#","age_secs":"#);
        let text = join3(text.as_str(), age.as_str(), r#","log_tail":"#);
        join3(text.as_str(), tail.as_str(), "}")
    }
}

/// Whether a state is one to read the log for.
pub open spec fn log_wanted(state: Seq<char>) -> bool {
    state == "failed"@ || state == "stalled"@
}

/// How a build is going, by the status and the log.
pub open spec fn build_of(status: StatusView, now: u64, log: Seq<char>) -> BuildView {
    let age_secs = age_of(status.ts, now);
    BuildView {
        state: build_state(status.phase, age_secs),
        phase: status.phase,
        since: status.ts,
        age_secs,
        log_tail: if log_wanted(build_state(status.phase, age_secs)) {
            tail_of(log, 12, 1200)
        } else {
            Seq::empty()
        },
    }
}

/// Tells how a build is going. The log is read only where it is the answer, and
/// then once.
pub fn derive_wda_build<F: FnOnce() -> String>(
    status: Option<&WdaSetupStatus>,
    now: u64,
    read_log: F,
) -> (build: WdaBuild)
    requires
        status is Some && log_wanted(
            build_state((status->0)@.phase, age_of((status->0)@.ts, now)),
        ) ==> call_requires(read_log, ()),
    ensures
        match status {
            None => build@ == build_unknown(),
            Some(status) => if log_wanted(build_state(status@.phase, age_of(status@.ts, now))) {
                exists|log: String|
                    call_ensures(read_log, (), log) && build@ == build_of(
                        status@,
                        now,
                        #[trigger] log@,
                    )
            } else {
                build@ == build_of(status@, now, Seq::empty())
            },
        },
{
    let status = match status {
        Some(status) => status,
        None => {
            return WdaBuild::unknown();
        },
    };
    let age_secs: u64 = now.saturating_sub(status.ts);
    let state = classify_build_state(status.phase.as_str(), age_secs);
    if same_text(state, "failed") || same_text(state, "stalled") {
        let log = read_log();
        let log_tail = tail_lines(log.as_str(), 12, 1200);
        let build = WdaBuild {
            state,
            phase: status.phase.clone(),
            since: status.ts,
            age_secs,
            log_tail,
        };
        assert(build@ == build_of(status@, now, log@));
        return build;
    }
    let build = WdaBuild {
        state,
        phase: status.phase.clone(),
        since: status.ts,
        age_secs,
        log_tail: String::new(),
    };
    assert(build.log_tail@ =~= Seq::empty());
    build
}

/// Seconds after which a script that beats every fifteen seconds is gone.
pub const SETUP_HEARTBEAT_STALE_SECS: u64 = 60;

/// Milliseconds for which a touch of the status file counts as work of a script
/// that does not beat.
pub const LEGACY_SETUP_ACTIVE_WITHIN_MS: u64 = 180000;

/// Whether the status alone says that setup is at work, or that its owner has to
/// be looked for.
pub open spec fn owner_decides(status: StatusView, now: u64) -> bool {
    &&& status.schema_version != 0
    &&& !status.terminal
    &&& status.active
    &&& age_of(status.heartbeat_ts, now) <= SETUP_HEARTBEAT_STALE_SECS
}

/// Whether setup is at work. A record that is finished or inactive never is;
/// else its script must have beaten lately and still be the same process. A
/// script that does not beat counts by when the file was touched. The owner is
/// asked about only where it decides, and then once.
pub fn setup_in_flight_from<F: FnOnce(u32, &str) -> bool>(
    status: &WdaSetupStatus,
    now: u64,
    touched_ms_ago: Option<u64>,
    owner_alive: F,
) -> (active: bool)
    requires
        owner_decides(status@, now) ==> forall|start: &str|
            start@ == status@.owner_start ==> #[trigger] call_requires(
                owner_alive,
                (status@.owner_pid, start),
            ),
    ensures
        status@.schema_version == 0 ==> active == (touched_ms_ago matches Some(age) && age
            < LEGACY_SETUP_ACTIVE_WITHIN_MS),
        status@.schema_version != 0 && !owner_decides(status@, now) ==> !active,
        owner_decides(status@, now) ==> exists|start: &str|
            start@ == status@.owner_start && #[trigger] call_ensures(
                owner_alive,
                (status@.owner_pid, start),
                active,
            ),
{
    if status.schema_version == 0 {
        return match touched_ms_ago {
            Some(age) => age < LEGACY_SETUP_ACTIVE_WITHIN_MS,
            None => false,
        };
    }
    if status.terminal || !status.active {
        return false;
    }
    if now.saturating_sub(status.heartbeat_ts) > SETUP_HEARTBEAT_STALE_SECS {
        return false;
    }
    let start = status.owner_start.as_str();
    let alive = owner_alive(status.owner_pid, start);
    assert(start@ == status@.owner_start && call_ensures(
        owner_alive,
        (status@.owner_pid, start),
        alive,
    ));
    alive
}

/// Whether there is an owner to look for.
pub fn owner_recorded(pid: u32, owner_start: &str) -> (recorded: bool)
    ensures
        recorded == (pid != 0 && trimmed(owner_start@).len() > 0),
{
    pid != 0 && !trim(owner_start).is_empty()
}

/// Whether the process that was found is the recorded owner: it started at the
/// same time.
pub fn setup_owner_alive(found_start: &str, owner_start: &str) -> (alive: bool)
    ensures
        alive == (trimmed(found_start@) == trimmed(owner_start@)),
{
    same_text(trim(found_start), trim(owner_start))
}

/// The lengths and some letters of words, which tell them apart.
proof fn lemma_blocker_words()
    ensures
        ""@.len() == 0,
        "usb"@.len() == 3,
        "usb"@[0] == 'u',
        "ddi"@.len() == 3,
        "ddi"@[0] == 'd',
        "wda"@.len() == 3,
        "wda"@[0] == 'w',
        "warp"@.len() == 4,
        "proxy"@.len() == 5,
        "proxy"@[0] == 'p',
        "trust"@.len() == 5,
        "trust"@[0] == 't',
        "locked"@.len() == 6,
        "account"@.len() == 7,
{
    reveal_strlit("");
    reveal_strlit("usb");
    reveal_strlit("ddi");
    reveal_strlit("wda");
    reveal_strlit("warp");
    reveal_strlit("proxy");
    reveal_strlit("trust");
    reveal_strlit("locked");
    reveal_strlit("account");
}
/// The lengths and some letters of words, which tell them apart.
proof fn lemma_build_words()
    ensures
        "ready"@.len() == 5,
        "ready"@[0] == 'r',
        "-fail"@.len() == 5,
        "-fail"@[0] == '-',
        "failed"@.len() == 6,
        "unknown"@.len() == 7,
        "unknown"@[0] == 'u',
        "stalled"@.len() == 7,
        "stalled"@[0] == 's',
        "building"@.len() == 8,
{
    reveal_strlit("ready");
    reveal_strlit("-fail");
    reveal_strlit("failed");
    reveal_strlit("unknown");
    reveal_strlit("stalled");
    reveal_strlit("building");
}

/// A status says what its document says, each member under its own name; only the
/// time has to be there.
pub proof fn law_a_status_says_what_its_document_says(text: Seq<char>)
    ensures
        status_of(text) matches Some(s) ==> {
            let v = json_document(text)->0;
            &&& json_document(text) is Some
            &&& v matches JsonView::Object(fields) ==> {
                &&& unsigned_of(lookup(fields, "ts"@)) == Some(s.ts)
                &&& lookup(fields, "phase"@) matches Some(m) ==> m == JsonView::Text(s.phase)
                &&& lookup(fields, "phase"@) is None ==> s.phase.len() == 0
                &&& lookup(fields, "blocked_on"@) matches Some(m) ==> m == JsonView::Text(
                    s.blocked_on,
                )
                &&& lookup(fields, "blocked_on"@) is None ==> s.blocked_on.len() == 0
                &&& lookup(fields, "message"@) matches Some(m) ==> m == JsonView::Text(s.message)
                &&& lookup(fields, "message"@) is None ==> s.message.len() == 0
                &&& lookup(fields, "schema_version"@) is Some ==> unsigned_of(
                    lookup(fields, "schema_version"@),
                ) == Some(s.schema_version as u64)
                &&& lookup(fields, "schema_version"@) is None ==> s.schema_version == 0
                &&& lookup(fields, "active"@) matches Some(m) ==> m == JsonView::Bool(s.active)
                &&& lookup(fields, "active"@) is None ==> !s.active
                &&& lookup(fields, "terminal"@) matches Some(m) ==> m == JsonView::Bool(s.terminal)
                &&& lookup(fields, "terminal"@) is None ==> !s.terminal
                &&& lookup(fields, "owner_pid"@) is Some ==> unsigned_of(
                    lookup(fields, "owner_pid"@),
                ) == Some(s.owner_pid as u64)
                &&& lookup(fields, "owner_pid"@) is None ==> s.owner_pid == 0
                &&& lookup(fields, "owner_start"@) matches Some(m) ==> m == JsonView::Text(
                    s.owner_start,
                )
                &&& lookup(fields, "owner_start"@) is None ==> s.owner_start.len() == 0
                &&& lookup(fields, "heartbeat_ts"@) is Some ==> unsigned_of(
                    lookup(fields, "heartbeat_ts"@),
                ) == Some(s.heartbeat_ts)
                &&& lookup(fields, "heartbeat_ts"@) is None ==> s.heartbeat_ts == 0
            }
            &&& v is Object || v is List
        },
{
}

/// A status counts for five minutes, where what blocks it is a known word and it
/// says anything at all; its texts are cut, and all else is kept.
pub proof fn law_a_status_counts_for_five_minutes(text: Seq<char>, now: u64)
    ensures
        live_status(text, now) is Some <==> status_of(text) is Some && (now <= status_of(text)->0.ts
            + 300) && known_blocker(status_of(text)->0.blocked_on) && !(status_of(
            text,
        )->0.phase.len() == 0 && status_of(text)->0.blocked_on.len() == 0),
        live_status(text, now) matches Some(s) ==> {
            let read = status_of(text)->0;
            &&& s.blocked_on == read.blocked_on && s.ts == read.ts && s.schema_version
                == read.schema_version && s.active == read.active && s.terminal == read.terminal
            &&& s.owner_pid == read.owner_pid && s.owner_start == read.owner_start
                && s.heartbeat_ts == read.heartbeat_ts
            &&& read.phase.len() <= 64 ==> s.phase == read.phase
            &&& read.phase.len() > 64 ==> s.phase == read.phase.take(64)
            &&& read.message.len() <= 512 ==> s.message == read.message
            &&& read.message.len() > 512 ==> s.message == read.message.take(512)
            &&& blocker_in(text, now) == read.blocked_on
        },
        live_status(text, now) is None ==> blocker_in(text, now).len() == 0,
{
}

/// The words for what can block a setup, and for each of them its own advice.
pub proof fn law_a_blocker_has_its_own_advice(word: Seq<char>)
    ensures
        known_blocker(word) <==> word == ""@ || word == "warp"@ || word == "proxy"@ || word
            == "usb"@ || word == "trust"@ || word == "ddi"@ || word == "account"@ || word
            == "locked"@ || word == "wda"@,
        blocker_hint("warp"@) == Some(
            "WARP is capturing the CoreDevice device tunnel — for selected destinations, ask the Zero Trust administrator for Traffic only mode with Split Tunnels Include limited to those destination IPs/CIDRs; otherwise exclude fe80::/10 and fd00::/8 in full-tunnel mode (or temporarily run warp-cli disconnect), then wait for policy propagation and poll status; do not send another reconnect request while this blocker remains"@,
        ),
        blocker_hint("proxy"@) == Some(
            "a system proxy is blocking CoreDevice/WDA — disable the proxy for the device tunnel, then poll status; do not send another reconnect request while this blocker remains"@,
        ),
        blocker_hint("usb"@) == Some(
            "the configured iPhone is not available over USB — connect that phone, unlock it, and keep it awake while the managed service retries"@,
        ),
        blocker_hint("trust"@) == Some(
            "the configured iPhone needs trust or developer-signing approval — unlock the phone, accept the prompt, then keep it awake while the managed service retries"@,
        ),
        blocker_hint("ddi"@) == Some(
            "the iPhone Developer Disk Image is unavailable — open Xcode with the phone connected, let device preparation finish, then poll status"@,
        ),
        blocker_hint("account"@) == Some(
            "Xcode has no usable signed-in Apple account or WDA provisioning profile — open Xcode → Settings → Accounts, sign in and select the development team, then poll status; the managed service retries automatically"@,
        ),
        blocker_hint("locked"@) == Some(
            "the iPhone is locked — unlock it and keep it awake; the managed service is already retrying on its own backoff, so do not send another reconnect request"@,
        ),
        blocker_hint("wda"@) == Some(
            "WebDriverAgent failed to start — inspect ~/.iphone-use/wda-agent.log and run setup-wda.sh doctor before retrying"@,
        ),
        blocker_hint(""@) is None,
        !known_blocker(word) ==> blocker_hint(word) is None,
{
    lemma_blocker_words();
}

/// A log is read from its latest run only; what it complains of first by this
/// order is what blocks: the tunnel, the cable, the account.
pub proof fn law_a_log_tells_its_latest_complaint(log: Seq<char>)
    ensures
        ({
            let latest = after_last(log, "== Checking prerequisites"@);
            let tunnel = occurs(latest, "WARP is ON and will block WDA"@) || occurs(
                latest,
                "Split Tunnel exclusions do not cover the CoreDevice"@,
            );
            let cable = occurs(latest, "not currently connected over USB"@) || occurs(
                latest,
                "no USB iPhone was found"@,
            ) || occurs(latest, "no USB iPhone is connected"@);
            let account = occurs(latest, "has no signed-in Apple account"@) || occurs(
                latest,
                "No Accounts:"@,
            ) || occurs(latest, "could not find or create the WDA development provisioning"@);
            &&& log_blocker(log) == "warp"@ <==> tunnel
            &&& log_blocker(log) == "usb"@ <==> !tunnel && cable
            &&& log_blocker(log) == "account"@ <==> !tunnel && !cable && account
            &&& log_blocker(log) == ""@ <==> !tunnel && !cable && !account
        }),
{
    lemma_blocker_words();
}

/// Only the end of a recent log is read: the last sixty-four kilobytes of one that
/// was written within five minutes.
pub proof fn law_only_the_end_of_a_recent_log_is_read(age: u64, size: u64, start: Option<u64>)
    ensures
        call_ensures(recent_log_start, (Some(age), size), start) ==> (start is Some <==> age
            <= 300),
        call_ensures(recent_log_start, (Some(age), size), start) ==> (start matches Some(from)
            ==> from <= size && size - from <= 65536 && (from == 0 || size - from == 65536)),
        call_ensures(recent_log_start, (None, size), start) ==> start is None,
{
}

/// A build is ready or failed by its own word; else it goes on for five minutes
/// without a word, and has stalled after.
pub proof fn law_a_build_stalls_after_five_minutes(phase: Seq<char>, age_secs: u64)
    ensures
        phase.len() == 0 ==> build_state(phase, age_secs) == "unknown"@,
        build_state("ready"@, age_secs) == "ready"@,
        build_state(phase + "-fail"@, age_secs) == "failed"@,
        phase.len() > 0 && phase != "ready"@ && !ends(phase, "-fail"@) && age_secs > 300
            ==> build_state(phase, age_secs) == "stalled"@,
        phase.len() > 0 && phase != "ready"@ && !ends(phase, "-fail"@) && age_secs <= 300
            ==> build_state(phase, age_secs) == "building"@,
        log_wanted(phase) <==> phase == "failed"@ || phase == "stalled"@,
        BUILD_STALE_SECS == 300,
{
    lemma_build_words();
    let failed = phase + "-fail"@;
    assert(failed.skip(failed.len() - "-fail"@.len()) =~= "-fail"@);
    assert(ends(failed, "-fail"@));
    if failed == "ready"@ {
        reveal_strlit("ready");
        reveal_strlit("-fail");
        assert(failed[4] == 'l');
        assert(false);
    }
}

/// A build is told with its state, its phase, since when and for how long; with
/// the end of the log only where it failed or stalled.
pub proof fn law_a_build_is_told_as_it_is(status: StatusView, now: u64, log: Seq<char>, b: BuildView)
    ensures
        ({
            let built = build_of(status, now, log);
            &&& built.phase == status.phase && built.since == status.ts
            &&& now >= status.ts ==> built.age_secs == now - status.ts
            &&& now < status.ts ==> built.age_secs == 0
            &&& built.state == build_state(status.phase, built.age_secs)
            &&& built.state == "failed"@ || built.state == "stalled"@ ==> built.log_tail == tail_of(
                log,
                12,
                1200,
            )
            &&& built.state != "failed"@ && built.state != "stalled"@ ==> built.log_tail.len() == 0
        }),
        build_text(b) == r#"{"state":""#@ + b.state + r#"","phase":"#@ + json_string_text(b.phase)
            + r#","since":"#@ + decimal(b.since as nat) + r#","age_secs":"#@ + decimal(
            b.age_secs as nat,
        ) + r#","log_tail":"#@ + json_string_text(b.log_tail) + "}"@,
        build_unknown().state == "unknown"@ && build_unknown().phase.len() == 0
            && build_unknown().log_tail.len() == 0 && build_unknown().since == 0,
{
}

/// The end of a log is its last lines that say something, in their order, with
/// line feeds between them, and of these as much as fits.
pub proof fn law_the_end_of_a_log_is_its_last_lines(
    lines: Seq<Seq<char>>,
    line: Seq<char>,
    most: int,
    text: Seq<char>,
    bytes: nat,
)
    requires
        most >= 0,
    ensures
        trimmed(line).len() > 0 ==> nonblank(lines.push(line)) == nonblank(lines).push(line),
        trimmed(line).len() == 0 ==> nonblank(lines.push(line)) == nonblank(lines),
        nonblank(Seq::empty()).len() == 0,
        joined(Seq::empty()).len() == 0,
        joined(seq![line]) == line,
        lines.len() > 0 ==> joined(lines.push(line)) == joined(lines) + "\n"@ + line,
        lines.len() <= most ==> last_lines(lines, most) == lines,
        lines.len() > most ==> last_lines(lines, most).len() == most && lines.take(
            lines.len() - most,
        ) + last_lines(lines, most) == lines,
        tail_of(text, most, bytes) == end_within(
            joined(last_lines(nonblank(lines_of(text)), most)),
            bytes,
        ),
{
    assert(lines.push(line).drop_last() =~= lines);
    if lines.len() > most {
        assert(lines.take(lines.len() - most) + last_lines(lines, most) =~= lines);
    }
}

/// Whether a setup runs is for its owner to decide only where the status says that
/// it is active and not over, and its last sign of life is not older than a
/// minute; a status of the old form goes by when its file was touched.
pub proof fn law_a_setup_runs_while_it_shows_signs_of_life(status: StatusView, now: u64)
    ensures
        owner_decides(status, now) <==> status.schema_version != 0 && !status.terminal
            && status.active && now <= status.heartbeat_ts + 60,
        SETUP_HEARTBEAT_STALE_SECS == 60,
        LEGACY_SETUP_ACTIVE_WITHIN_MS == 180000,
{
}

/// An owner is known by its number and the time at which it began, and is the same
/// one where both are.
pub proof fn law_an_owner_is_known_by_its_start(
    pid: u32,
    found: &str,
    start: &str,
    said: bool,
)
    ensures
        call_ensures(owner_recorded, (pid, start), said) ==> (said <==> pid != 0 && trimmed(
            start@,
        ).len() > 0),
        call_ensures(setup_owner_alive, (found, start), said) ==> (said <==> trimmed(found@)
            == trimmed(start@)),
{
}

} // verus!
