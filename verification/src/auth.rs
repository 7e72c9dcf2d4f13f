//! Who may use the server: failed attempts, bearer credentials, and the header
//! that state-changing requests need.

use vstd::prelude::*;

use crate::reply::{json_reply, opt_str, plain_reply, Reply, ReplyView};
use crate::text::same_text;

verus! {

/// Failed attempts to log in or to show a credential. Five in a row close the
/// door to everyone for half a minute; a right one opens it at once.
#[derive(Debug)]
pub struct AuthLimiter {
    pub failures: u32,
    /// Milliseconds on one monotonic clock.
    pub locked_until: Option<u64>,
}

/// The content of an [`AuthLimiter`].
pub struct LimiterView {
    pub failures: u32,
    pub locked_until: Option<u64>,
}

impl View for AuthLimiter {
    type V = LimiterView;

    open spec fn view(&self) -> LimiterView {
        LimiterView { failures: self.failures, locked_until: self.locked_until }
    }
}

/// Whether attempts are refused.
pub open spec fn limiter_locked(limiter: LimiterView, now: u64) -> bool {
    limiter.locked_until matches Some(until) && now < until
}

pub open spec fn one_failure_more(failures: u32) -> u32 {
    if failures < u32::MAX {
        (failures + 1) as u32
    } else {
        failures
    }
}

/// The end of the half minute for which the door closes, as far as the clock
/// goes.
pub open spec fn closed_until(now: u64) -> u64 {
    if now <= u64::MAX - 30000 {
        (now + 30000) as u64
    } else {
        u64::MAX
    }
}

/// The limiter after a wrong attempt.
pub open spec fn after_failure(limiter: LimiterView, now: u64) -> LimiterView {
    LimiterView {
        failures: one_failure_more(limiter.failures),
        locked_until: if one_failure_more(limiter.failures) >= 5 {
            Some(closed_until(now))
        } else {
            limiter.locked_until
        },
    }
}

/// The limiter after a right attempt.
pub open spec fn after_success() -> LimiterView {
    LimiterView { failures: 0, locked_until: None }
}

impl AuthLimiter {
    pub fn new() -> (limiter: AuthLimiter)
        ensures
            limiter@ == after_success(),
    {
        AuthLimiter { failures: 0, locked_until: None }
    }

    /// Whether attempts are refused now.
    pub fn is_locked(&self, now: u64) -> (locked: bool)
        ensures
            locked == limiter_locked(self@, now),
    {
        match self.locked_until {
            Some(until) => now < until,
            None => false,
        }
    }

    /// Counts a wrong attempt.
    pub fn record_failure(&mut self, now: u64)
        ensures
            final(self)@ == after_failure(old(self)@, now),
    {
        self.failures = self.failures.saturating_add(1);
        if self.failures >= 5 {
            self.locked_until = Some(now.saturating_add(30000));
        }
    }

    /// Forgets all wrong attempts.
    pub fn record_success(&mut self)
        ensures
            final(self)@ == after_success(),
    {
        self.failures = 0;
        self.locked_until = None;
    }
}

impl Default for AuthLimiter {
    fn default() -> (limiter: AuthLimiter)
        ensures
            limiter@ == after_success(),
    {
        AuthLimiter::new()
    }
}

/// The limiter after wrong attempts at these times.
pub open spec fn after_failures(limiter: LimiterView, times: Seq<u64>) -> LimiterView
    decreases times.len(),
{
    if times.len() == 0 {
        limiter
    } else {
        after_failure(after_failures(limiter, times.drop_last()), times.last())
    }
}

proof fn lemma_failures_counted(times: Seq<u64>)
    requires
        times.len() <= 5,
    ensures
        after_failures(after_success(), times).failures == times.len(),
        after_failures(after_success(), times).locked_until == (if times.len() == 5 {
            Some(closed_until(times.last()))
        } else {
            None
        }),
    decreases times.len(),
{
    if times.len() > 0 {
        lemma_failures_counted(times.drop_last());
    }
}

/// Five wrong attempts in a row close the door; it stays closed for thirty
/// seconds after the last of them, and no longer.
pub proof fn law_five_failures_lock_for_thirty_seconds(times: Seq<u64>, later: u64)
    requires
        times.len() == 5,
        times.last() <= later,
        times.last() <= u64::MAX - 30000,
    ensures
        limiter_locked(after_failures(after_success(), times), later) == (later - times.last()
            < 30000),
{
    lemma_failures_counted(times);
}

/// A right attempt opens the door at once and forgets what was before it: at no
/// time is the door closed by fewer than five wrong attempts after it, whenever
/// they come.
pub proof fn law_a_right_attempt_starts_anew(times: Seq<u64>, later: u64)
    requires
        times.len() < 5,
    ensures
        after_failures(after_success(), times).locked_until is None,
        !limiter_locked(after_failures(after_success(), times), later),
{
    lemma_failures_counted(times);
}

pub open spec fn ascii_blank(b: u8) -> bool {
    b == 0x20 || b == 0x09 || b == 0x0a || b == 0x0c || b == 0x0d
}

/// Bytes without the blanks before them.
pub open spec fn blank_front(s: Seq<u8>) -> Seq<u8>
    decreases s.len(),
{
    if s.len() > 0 && ascii_blank(s[0]) {
        blank_front(s.drop_first())
    } else {
        s
    }
}

/// Bytes without the blanks after them.
pub open spec fn blank_back(s: Seq<u8>) -> Seq<u8>
    decreases s.len(),
{
    if s.len() > 0 && ascii_blank(s.last()) {
        blank_back(s.drop_last())
    } else {
        s
    }
}

pub open spec fn bearer_prefix() -> Seq<u8> {
    seq![0x42u8, 0x65, 0x61, 0x72, 0x65, 0x72, 0x20]
}

/// The credential in an `Authorization` header: what follows "Bearer ", without
/// blanks around it.
pub open spec fn credential_of(header: Option<Seq<u8>>) -> Option<Seq<u8>> {
    match header {
        Some(raw) => if raw.len() >= 7 && raw.take(7) == bearer_prefix() {
            Some(blank_back(blank_front(raw.skip(7))))
        } else {
            None
        },
        None => None,
    }
}

pub open spec fn opt_bytes(bytes: Option<&[u8]>) -> Option<Seq<u8>> {
    match bytes {
        Some(bytes) => Some(bytes@),
        None => None,
    }
}

fn is_blank(b: u8) -> (blank: bool)
    ensures
        blank == ascii_blank(b),
{
    b == 0x20 || b == 0x09 || b == 0x0a || b == 0x0c || b == 0x0d
}

/// The credential of a request. It is read as bytes: a password need not be
/// ASCII.
pub fn bearer_credential(header: Option<&[u8]>) -> (credential: Option<Vec<u8>>)
    ensures
        match credential {
            Some(credential) => credential_of(opt_bytes(header)) == Some(credential@),
            None => credential_of(opt_bytes(header)) is None,
        },
{
    let raw = match header {
        Some(raw) => raw,
        None => {
            return None;
        },
    };
    if raw.len() < 7 {
        return None;
    }
    let bearer = raw[0] == 0x42 && raw[1] == 0x65 && raw[2] == 0x61 && raw[3] == 0x72 && raw[4]
        == 0x65 && raw[5] == 0x72 && raw[6] == 0x20;
    if !bearer {
        proof {
            if raw@.take(7) == bearer_prefix() {
                let p = bearer_prefix();
                assert(raw@[0] == p[0] && raw@[1] == p[1] && raw@[2] == p[2] && raw@[3] == p[3]
                    && raw@[4] == p[4] && raw@[5] == p[5] && raw@[6] == p[6]);
            }
        }
        return None;
    }
    assert(raw@.take(7) =~= bearer_prefix());
    let n: usize = raw.len();
    let ghost body = raw@.skip(7);
    let mut from: usize = 7;
    assert(body.skip(0) =~= body);
    while from < n && is_blank(raw[from])
        invariant
            7 <= from <= n,
            n == raw@.len(),
            body == raw@.skip(7),
            blank_front(body) == blank_front(body.skip(from - 7)),
        decreases n - from,
    {
        assert(body.skip(from - 7).drop_first() =~= body.skip(from + 1 - 7));
        from += 1;
    }
    let ghost tail = body.skip(from - 7);
    assert(blank_front(body) == tail);
    let mut to: usize = n;
    assert(tail.take(to - from) =~= tail);
    while to > from && is_blank(raw[to - 1])
        invariant
            7 <= from <= to <= n,
            n == raw@.len(),
            body == raw@.skip(7),
            tail == body.skip(from - 7),
            blank_back(tail) == blank_back(tail.take(to - from)),
        decreases to,
    {
        assert(tail.take(to - from).drop_last() =~= tail.take(to - 1 - from));
        to -= 1;
    }
    let mut out: Vec<u8> = Vec::new();
    let mut i: usize = from;
    while i < to
        invariant
            7 <= from <= i <= to <= n,
            n == raw@.len(),
            body == raw@.skip(7),
            tail == body.skip(from - 7),
            out@ == tail.take(i - from),
        decreases to - i,
    {
        out.push(raw[i]);
        assert(tail.take(i + 1 - from) =~= tail.take(i - from).push(tail[i - from]));
        i += 1;
    }
    Some(out)
}

/// Compares two byte strings without stopping at the first difference.
pub fn ct_eq(a: &[u8], b: &[u8]) -> (same: bool)
    ensures
        same == (a@ == b@),
{
    let n: usize = a.len();
    if n != b.len() {
        return false;
    }
    let mut acc: u8 = 0;
    let mut i: usize = 0;
    assert(a@.take(0) =~= b@.take(0));
    while i < n
        invariant
            i <= n,
            n == a@.len(),
            n == b@.len(),
            (acc == 0) == (a@.take(i as int) == b@.take(i as int)),
        decreases n - i,
    {
        let x: u8 = a[i];
        let y: u8 = b[i];
        let ghost before = acc;
        acc = acc | (x ^ y);
        proof {
            assert((before | (x ^ y)) == 0 <==> before == 0 && x == y) by (bit_vector);
            assert(a@.take(i + 1) =~= a@.take(i as int).push(x));
            assert(b@.take(i + 1) =~= b@.take(i as int).push(y));
            if a@.take(i + 1) == b@.take(i + 1) {
                assert(a@.take(i + 1)[i as int] == b@.take(i + 1)[i as int]);
                assert(a@.take(i as int) =~= a@.take(i + 1).drop_last());
                assert(b@.take(i as int) =~= b@.take(i + 1).drop_last());
            }
        }
        i += 1;
    }
    assert(a@.take(i as int) =~= a@);
    assert(b@.take(i as int) =~= b@);
    acc == 0
}

/// The secret that a credential is held against: the token for agents where one
/// is set, else the password.
pub open spec fn agent_secret(token: Option<Seq<u8>>, password: Option<Seq<u8>>) -> Option<
    Seq<u8>,
> {
    match token {
        Some(token) => Some(token),
        None => password,
    }
}

/// Whether a request shows the right credential, or needs none.
pub open spec fn bearer_right(
    token: Option<Seq<u8>>,
    password: Option<Seq<u8>>,
    header: Option<Seq<u8>>,
) -> bool {
    agent_secret(token, password) matches Some(secret) ==> credential_of(header) == Some(secret)
}

pub fn check_bearer(
    token: Option<&[u8]>,
    password: Option<&[u8]>,
    header: Option<&[u8]>,
) -> (right: bool)
    ensures
        right == bearer_right(opt_bytes(token), opt_bytes(password), opt_bytes(header)),
{
    let secret: &[u8] = match (token, password) {
        (Some(token), _) => token,
        (None, Some(password)) => password,
        (None, None) => {
            return true;
        },
    };
    match bearer_credential(header) {
        Some(credential) => ct_eq(credential.as_slice(), secret),
        None => false,
    }
}

/// What became of a credential.
#[derive(Clone, Copy, Debug, PartialEq, Eq, Structural)]
pub enum AgentAuth {
    Granted,
    /// Too many attempts failed.
    Locked,
    /// The credential is missing or wrong.
    Denied,
}

/// What becomes of a credential, and of the limiter. Without a secret nothing is
/// asked and nothing counted; a closed door is not even tried.
pub open spec fn auth_next(
    limiter: LimiterView,
    token: Option<Seq<u8>>,
    password: Option<Seq<u8>>,
    header: Option<Seq<u8>>,
    now: u64,
) -> (LimiterView, AgentAuth) {
    if agent_secret(token, password) is None {
        (limiter, AgentAuth::Granted)
    } else if limiter_locked(limiter, now) {
        (limiter, AgentAuth::Locked)
    } else if bearer_right(token, password, header) {
        (after_success(), AgentAuth::Granted)
    } else {
        (after_failure(limiter, now), AgentAuth::Denied)
    }
}

/// Checks the credential of an agent.
pub fn agent_auth(
    limiter: &mut AuthLimiter,
    token: Option<&[u8]>,
    password: Option<&[u8]>,
    header: Option<&[u8]>,
    now: u64,
) -> (auth: AgentAuth)
    ensures
        (final(limiter)@, auth) == auth_next(
            old(limiter)@,
            opt_bytes(token),
            opt_bytes(password),
            opt_bytes(header),
            now,
        ),
{
    if token.is_none() && password.is_none() {
        return AgentAuth::Granted;
    }
    if limiter.is_locked(now) {
        return AgentAuth::Locked;
    }
    if check_bearer(token, password, header) {
        limiter.record_success();
        AgentAuth::Granted
    } else {
        limiter.record_failure(now);
        AgentAuth::Denied
    }
}

/// Checks a request that a browser or an agent may make. Only a request that
/// shows a credential counts as an attempt: a page whose session ran out must
/// not lock agents out.
pub fn browser_or_agent_auth(
    authed: bool,
    limiter: &mut AuthLimiter,
    token: Option<&[u8]>,
    password: Option<&[u8]>,
    header: Option<&[u8]>,
    now: u64,
) -> (auth: AgentAuth)
    ensures
        (final(limiter)@, auth) == (if authed {
            (old(limiter)@, AgentAuth::Granted)
        } else if header is None {
            (old(limiter)@, AgentAuth::Denied)
        } else {
            auth_next(
                old(limiter)@,
                opt_bytes(token),
                opt_bytes(password),
                opt_bytes(header),
                now,
            )
        }),
{
    if authed {
        AgentAuth::Granted
    } else if header.is_some() {
        agent_auth(limiter, token, password, header, now)
    } else {
        AgentAuth::Denied
    }
}

/// The refusal that belongs to a credential.
pub open spec fn auth_refusal(auth: AgentAuth) -> Option<ReplyView> {
    match auth {
        AgentAuth::Granted => None,
        AgentAuth::Locked => Some(plain_reply(429, "too many attempts"@)),
        AgentAuth::Denied => Some(plain_reply(401, "unauthorized"@)),
    }
}

pub fn auth_response(auth: AgentAuth) -> (refusal: Option<Reply>)
    ensures
        match refusal {
            Some(reply) => auth_refusal(auth) == Some(reply@),
            None => auth_refusal(auth) is None,
        },
{
    match auth {
        AgentAuth::Granted => None,
        AgentAuth::Locked => Some(Reply::plain(429, "too many attempts")),
        AgentAuth::Denied => Some(Reply::plain(401, "unauthorized")),
    }
}

/// Whether a request carries the header that a foreign page cannot set.
pub fn has_phone_control_header(header: Option<&str>) -> (present: bool)
    ensures
        present == (opt_str(header) == Some("1"@)),
{
    match header {
        Some(value) => same_text(value, "1"),
        None => false,
    }
}

pub open spec fn missing_header_reply() -> ReplyView {
    json_reply(
        403,
        r#"{"ok":false,"error":"missing_control_header","required_header":"X-Phone-Control: 1","hint":"retry the same state-changing request with X-Phone-Control: 1"}"#@,
    )
}

pub fn missing_phone_control_header_response() -> (reply: Reply)
    ensures
        reply@ == missing_header_reply(),
{
    Reply::fixed(
        403,
        r#"{"ok":false,"error":"missing_control_header","required_header":"X-Phone-Control: 1","hint":"retry the same state-changing request with X-Phone-Control: 1"}"#,
    )
}

/// The refusal of a state-changing request: by its credential first, then for
/// want of the header.
pub open spec fn change_refusal(auth: AgentAuth, control: Option<Seq<char>>) -> Option<ReplyView> {
    match auth_refusal(auth) {
        Some(reply) => Some(reply),
        None => if control == Some("1"@) {
            None
        } else {
            Some(missing_header_reply())
        },
    }
}

/// Refuses a state-changing request whose credential is not accepted or whose
/// header is missing.
pub fn admit_change(auth: AgentAuth, control: Option<&str>) -> (refusal: Option<Reply>)
    ensures
        match refusal {
            Some(reply) => change_refusal(auth, opt_str(control)) == Some(reply@),
            None => change_refusal(auth, opt_str(control)) is None,
        },
{
    match auth_response(auth) {
        Some(reply) => Some(reply),
        None => if has_phone_control_header(control) {
            None
        } else {
            Some(missing_phone_control_header_response())
        },
    }
}

/// Where a token for agents is set, the password is no credential for them.
pub proof fn law_the_agent_token_replaces_the_password(
    token: Seq<u8>,
    password: Option<Seq<u8>>,
    header: Option<Seq<u8>>,
)
    ensures
        bearer_right(Some(token), password, header) == (credential_of(header) == Some(token)),
        credential_of(header) == password && password != Some(token) ==> !bearer_right(
            Some(token),
            password,
            header,
        ),
{
}

/// While the door is closed no credential opens it, and no attempt is counted.
pub proof fn law_a_locked_door_tries_no_credential(
    limiter: LimiterView,
    token: Option<Seq<u8>>,
    password: Option<Seq<u8>>,
    header: Option<Seq<u8>>,
    now: u64,
)
    requires
        limiter_locked(limiter, now),
        agent_secret(token, password) is Some,
    ensures
        auth_next(limiter, token, password, header, now) == (limiter, AgentAuth::Locked),
{
}

proof fn lemma_blank_front_keeps(s: Seq<u8>)
    ensures
        s.len() == 0 || !ascii_blank(s[0]) ==> blank_front(s) == s,
        s.len() == 0 || !ascii_blank(s.last()) ==> blank_back(s) == s,
{
}

/// A header carries a credential where it begins with the word for it: what
/// follows, without the blanks around it.
pub proof fn law_a_credential_follows_its_word(token: Seq<u8>, raw: Seq<u8>)
    requires
        token.len() > 0,
        !ascii_blank(token[0]),
        !ascii_blank(token.last()),
    ensures
        credential_of(Some(seq![66u8, 101, 97, 114, 101, 114, 32] + token)) == Some(token),
        credential_of(Some(seq![66u8, 101, 97, 114, 101, 114, 32, 32] + token)) == Some(token),
        credential_of(Some(seq![66u8, 101, 97, 114, 101, 114, 32] + token.push(32))) == Some(token),
        credential_of(None) is None,
        credential_of(Some(raw)) is Some ==> raw.len() >= 7 && raw[0] == 66 && raw[1] == 101
            && raw[2] == 97 && raw[3] == 114 && raw[4] == 101 && raw[5] == 114 && raw[6] == 32,
{
    lemma_blank_front_keeps(token);
    let plain = seq![66u8, 101, 97, 114, 101, 114, 32] + token;
    assert(plain.take(7) =~= bearer_prefix());
    assert(plain.skip(7) =~= token);
    let spaced = seq![66u8, 101, 97, 114, 101, 114, 32, 32] + token;
    assert(spaced.take(7) =~= bearer_prefix());
    assert(spaced.skip(7)[0] == 32);
    assert(spaced.skip(7).drop_first() =~= token);
    let trailed = seq![66u8, 101, 97, 114, 101, 114, 32] + token.push(32);
    assert(trailed.take(7) =~= bearer_prefix());
    assert(trailed.skip(7) =~= token.push(32));
    lemma_blank_front_keeps(token.push(32));
    assert(token.push(32).last() == 32);
    assert(token.push(32).drop_last() =~= token);
    if credential_of(Some(raw)) is Some {
        let front = raw.take(7);
        assert(front[0] == raw[0] && front[1] == raw[1] && front[2] == raw[2] && front[3] == raw[3]
            && front[4] == raw[4] && front[5] == raw[5] && front[6] == raw[6]);
    }
}

/// Without any secret everyone is let in. With one, a caller is let in exactly by
/// showing it while the door is not locked; a wrong one is counted, and a right
/// one clears the count.
pub proof fn law_a_caller_is_let_in_by_the_secret(
    limiter: LimiterView,
    token: Option<Seq<u8>>,
    password: Option<Seq<u8>>,
    header: Option<Seq<u8>>,
    now: u64,
)
    ensures
        ({
            let (after, auth) = auth_next(limiter, token, password, header, now);
            let secret = if token is Some {
                token
            } else {
                password
            };
            let locked = limiter.locked_until matches Some(until) && now < until;
            let right = credential_of(header) == secret;
            &&& secret is None ==> auth is Granted && after == limiter
            &&& secret is Some ==> {
                &&& auth is Granted <==> !locked && right
                &&& auth is Locked <==> locked
                &&& auth is Denied <==> !locked && !right
                &&& auth is Locked ==> after == limiter
                &&& auth is Granted ==> after.failures == 0 && after.locked_until is None
                &&& auth is Denied && limiter.failures < u32::MAX ==> after.failures
                    == limiter.failures + 1
                &&& auth is Denied && limiter.failures >= 4 ==> after.locked_until is Some
                &&& auth is Denied && limiter.failures < 4 ==> after.locked_until
                    == limiter.locked_until
            }
        }),
{
}

/// A change is admitted only from a caller who is let in and says by the header
/// that it means it.
pub proof fn law_a_change_needs_a_caller_and_a_header(auth: AgentAuth, control: Option<Seq<char>>)
    ensures
        change_refusal(auth, control) is None <==> auth is Granted && control == Some("1"@),
        auth is Locked ==> change_refusal(auth, control) == Some(
            plain_reply(429, "too many attempts"@),
        ),
        auth is Denied ==> change_refusal(auth, control) == Some(plain_reply(401, "unauthorized"@)),
        auth is Granted && control != Some("1"@) ==> change_refusal(auth, control) == Some(
            missing_header_reply(),
        ),
        auth_refusal(auth) is None <==> auth is Granted,
        missing_header_reply().status == 403,
{
}

} // verus!
