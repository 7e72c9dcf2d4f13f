//! Sessions of the browser: the cookie, the login page and the login itself.

use vstd::prelude::*;

use crate::auth::{limiter_locked, AuthLimiter};
use crate::reply::{html_reply, opt_str, redirect_reply, texts, Reply, ReplyView};
use crate::scan::{split, split_on};
use crate::text::{
    after_prefix, begins, decimal, decimal_text, join2, join3, lowered, same_text, to_lower, trim,
    trimmed,
};

verus! {

/// The login page up to the place of the hidden field.
pub const LOGIN_HEAD: &'static str = r#"<!doctype html><html lang="zh-CN"><head>
<meta charset="utf-8"><meta name="viewport" content="width=device-width,initial-scale=1">
<title>登录 · iphone-use</title>
<style>
:root{color-scheme:dark}
html,body{margin:0;height:100%;background:#08090c;color:#eef2ff;
  font-family:-apple-system,BlinkMacSystemFont,"PingFang SC","Segoe UI",sans-serif;
  display:flex;align-items:center;justify-content:center}
form{background:#11131a;border:1px solid #272b38;border-radius:16px;padding:28px 24px;
  width:min(86vw,320px);display:flex;flex-direction:column;gap:12px}
h1{font-size:17px;margin:0 0 4px;letter-spacing:.02em}
label{font-size:13px;font-weight:600;color:#dbe6ff}
.hint{margin:-4px 0 2px;color:#8b93a7;font-size:12px;line-height:1.45}
input{background:#08090c;color:#eef2ff;border:1px solid #272b38;border-radius:12px;
  padding:12px 14px;font-size:16px;-webkit-appearance:none}
input:focus{outline:none;border-color:#4f8cff}
input[aria-invalid="true"]{border-color:#ff5a66}
input:focus-visible,button:focus-visible{outline:3px solid rgba(79,140,255,.35);
  outline-offset:2px}
input[aria-invalid="true"]:focus-visible{outline-color:rgba(255,90,102,.32)}
button{background:#4f8cff;border:1px solid #4f8cff;color:#fff;border-radius:12px;
  padding:12px;font-size:15px;font-weight:600;cursor:pointer}
.err{color:#ff5a66;font-size:13px;line-height:1.4}
.err:empty{display:none}
</style></head><body>
<form method="POST" action="/login" novalidate>
  <h1>iphone-use</h1>
  <p class="hint" id="passwordHint">请输入这台 Mac 安装 iphone-use 时生成的控制密码。忘记后，请回到 Mac 重新运行安装程序查看或重设。</p>
  "#;

/// The login page from there to the mark of a faulty entry.
pub const LOGIN_FIELD: &'static str = r#"
  <label for="password">控制密码</label>
  <input id="password" type="password" name="password" autofocus required
    autocomplete="current-password" autocapitalize="off" spellcheck="false"
    aria-describedby="passwordHint loginError" aria-invalid=""#;

/// The login page from there to the place of the complaint.
pub const LOGIN_ALERT: &'static str = r#"" />
  <div class="err" id="loginError" role="alert" aria-live="assertive">"#;

/// The rest of the login page.
pub const LOGIN_TAIL: &'static str = r#"</div>
  <button type="submit">登录</button>
</form></body></html>"#;

/// The value of the session's cookie among the pieces of a header: that of the
/// first piece that names it.
pub open spec fn cookie_in(pieces: Seq<Seq<char>>) -> Option<Seq<char>>
    decreases pieces.len(),
{
    if pieces.len() == 0 {
        None
    } else if begins(trimmed(pieces[0]), "phone_session="@) {
        Some(trimmed(pieces[0]).skip("phone_session="@.len() as int))
    } else {
        cookie_in(pieces.drop_first())
    }
}

/// The value of the session's cookie in a request's header.
pub open spec fn cookie_of(header: Option<Seq<char>>) -> Option<Seq<char>> {
    match header {
        Some(header) => cookie_in(split_on(header, ';')),
        None => None,
    }
}

pub fn session_cookie(header: Option<&str>) -> (value: Option<String>)
    ensures
        crate::reply::opt_text(value) == cookie_of(opt_str(header)),
{
    let given_header = match header {
        Some(given_header) => given_header,
        None => {
            return None;
        },
    };
    let ghost given = given_header@;
    let pieces = split(given_header, ';');
    let ghost all = texts(pieces@);
    let mut i: usize = 0;
    assert(all.skip(0) =~= all);
    while i < pieces.len()
        invariant
            i <= pieces@.len(),
            all == texts(pieces@),
            opt_str(header) == Some(given),
            cookie_of(Some(given)) == cookie_in(all),
            cookie_in(all) == cookie_in(all.skip(i as int)),
        decreases pieces@.len() - i,
    {
        assert(all.skip(i as int)[0] == pieces@[i as int]@);
        assert(all.skip(i as int).drop_first() =~= all.skip(i + 1));
        match after_prefix(trim(pieces[i].as_str()), "phone_session=") {
            Some(value) => {
                let found = value.to_string();
                assert(cookie_in(all.skip(i as int)) == Some(found@));
                return Some(found);
            },
            None => {},
        }
        i += 1;
    }
    None
}

/// Whether a request comes from someone who has logged in. Without a password
/// everyone has; else the cookie must be there and carry a valid token, which is
/// what `token_valid` says of it.
pub fn is_authed(has_password: bool, token_valid: Option<bool>) -> (authed: bool)
    ensures
        authed == (!has_password || token_valid == Some(true)),
{
    if !has_password {
        return true;
    }
    match token_valid {
        Some(valid) => valid,
        None => false,
    }
}

/// Whether a request came over an encrypted connection. The server itself never
/// speaks one; what stands before it says so in a header, or `forced` does.
pub open spec fn is_https(forced: bool, proto: Option<Seq<char>>) -> bool {
    forced || (proto matches Some(proto) && lowered(proto) == "https"@)
}

pub fn request_is_https(forced: bool, proto: Option<&str>) -> (https: bool)
    ensures
        https == is_https(forced, opt_str(proto)),
{
    if forced {
        return true;
    }
    match proto {
        Some(proto) => {
            let small = to_lower(proto);
            same_text(small.as_str(), "https")
        },
        None => false,
    }
}

pub open spec fn secure_text(secure: bool) -> Seq<char> {
    if secure {
        "; Secure"@
    } else {
        ""@
    }
}

/// The cookie of a new session.
pub open spec fn session_cookie_text(token: Seq<char>, ttl_secs: u64, secure: bool) -> Seq<char> {
    "phone_session="@ + token + "; Path=/; HttpOnly; SameSite=Lax; Max-Age="@ + decimal(
        ttl_secs as nat,
    ) + secure_text(secure)
}

/// The cookie that ends a session.
pub open spec fn cleared_cookie_text(secure: bool) -> Seq<char> {
    "phone_session=; Path=/; HttpOnly; SameSite=Lax; Max-Age=0"@ + secure_text(secure)
}

pub fn make_session_cookie(token: &str, ttl_secs: u64, secure: bool) -> (cookie: String)
    ensures
        cookie@ == session_cookie_text(token@, ttl_secs, secure),
{
    let named = join3("phone_session=", token, "; Path=/; HttpOnly; SameSite=Lax; Max-Age=");
    let age = decimal_text(ttl_secs);
    join3(
        named.as_str(),
        age.as_str(),
        if secure {
            "; Secure"
        } else {
            ""
        },
    )
}

pub fn clear_session_cookie(secure: bool) -> (cookie: String)
    ensures
        cookie@ == cleared_cookie_text(secure),
{
    join2(
        "phone_session=; Path=/; HttpOnly; SameSite=Lax; Max-Age=0",
        if secure {
            "; Secure"
        } else {
            ""
        },
    )
}

/// Where a login leads: only these two pages can be asked for.
pub open spec fn destination(next: Option<Seq<char>>) -> Seq<char> {
    if next == Some("/setup"@) {
        "/setup"@
    } else {
        "/phone"@
    }
}

pub fn login_destination(next: Option<&str>) -> (to: &'static str)
    ensures
        to@ == destination(opt_str(next)),
{
    match next {
        Some(page) => if same_text(page, "/setup") {
            "/setup"
        } else {
            "/phone"
        },
        None => "/phone",
    }
}

/// What is wrong with a login.
#[derive(Clone, Copy, Debug, PartialEq, Eq, Structural)]
pub enum LoginFault {
    Nothing,
    MissingPassword,
    TooManyAttempts,
    WrongPassword,
}

pub open spec fn fault_text(fault: LoginFault) -> Seq<char> {
    match fault {
        LoginFault::Nothing => ""@,
        LoginFault::MissingPassword => "请输入控制密码"@,
        LoginFault::TooManyAttempts => "尝试次数过多。为保护手机，请 30 秒后再试"@,
        LoginFault::WrongPassword => "密码错误，请检查安装时保存的控制密码"@,
    }
}

pub open spec fn next_field(next: Option<Seq<char>>) -> Seq<char> {
    if next == Some("/setup"@) {
        r#"<input type="hidden" name="next" value="/setup">"#@
    } else {
        ""@
    }
}

/// The login page.
pub open spec fn login_page(fault: LoginFault, next: Option<Seq<char>>) -> Seq<char> {
    LOGIN_HEAD@ + next_field(next) + LOGIN_FIELD@ + (if fault == LoginFault::Nothing {
        "false"@
    } else {
        "true"@
    }) + LOGIN_ALERT@ + fault_text(fault) + LOGIN_TAIL@
}

pub fn render_login(fault: LoginFault, next: Option<&str>) -> (page: String)
    ensures
        page@ == login_page(fault, opt_str(next)),
{
    let setup = match next {
        Some(page) => same_text(page, "/setup"),
        None => false,
    };
    let field = if setup {
        r#"<input type="hidden" name="next" value="/setup">"#
    } else {
        ""
    };
    let invalid = if fault == LoginFault::Nothing {
        "false"
    } else {
        "true"
    };
    let complaint = match fault {
        LoginFault::Nothing => "",
        LoginFault::MissingPassword => "请输入控制密码",
        LoginFault::TooManyAttempts => "尝试次数过多。为保护手机，请 30 秒后再试",
        LoginFault::WrongPassword => "密码错误，请检查安装时保存的控制密码",
    };
    let page = join3(LOGIN_HEAD, field, LOGIN_FIELD);
    let page = join3(page.as_str(), invalid, LOGIN_ALERT);
    join3(page.as_str(), complaint, LOGIN_TAIL)
}

/// The login page, or the page behind it where one has logged in already.
pub fn login_form(authed: bool, next: Option<&str>) -> (reply: Reply)
    ensures
        reply@ == (if authed {
            redirect_reply(destination(opt_str(next)), None)
        } else {
            html_reply(200, login_page(LoginFault::Nothing, Some(destination(opt_str(next)))))
        }),
{
    let to = login_destination(next);
    if authed {
        return Reply::redirect(to, None);
    }
    Reply::html(200, render_login(LoginFault::Nothing, Some(to)))
}

pub open spec fn fault_reply(fault: LoginFault, to: Seq<char>) -> ReplyView {
    let reply = html_reply(
        match fault {
            LoginFault::MissingPassword => 400,
            LoginFault::TooManyAttempts => 429,
            _ => 401,
        },
        login_page(fault, Some(to)),
    );
    ReplyView {
        retry_after: if fault == LoginFault::TooManyAttempts {
            Some(30)
        } else {
            None
        },
        ..reply
    }
}

fn fault_response(fault: LoginFault, to: &str) -> (reply: Reply)
    ensures
        reply@ == fault_reply(fault, to@),
{
    let status: u16 = match fault {
        LoginFault::MissingPassword => 400,
        LoginFault::TooManyAttempts => 429,
        _ => 401,
    };
    let mut reply = Reply::html(status, render_login(fault, Some(to)));
    if fault == LoginFault::TooManyAttempts {
        reply.retry_after = Some(30);
    }
    reply
}

/// What a login comes to before the password is compared.
#[derive(Debug)]
pub enum LoginStep {
    /// No password is set: whoever asks is let in.
    Open,
    Refused(Reply),
    /// Compare the password.
    Compare,
}

/// Looks at a login before the password is compared. An empty entry is no
/// attempt, and counts as none.
pub fn login_gate(
    limiter: &AuthLimiter,
    has_password: bool,
    entry: &str,
    next: Option<&str>,
    now: u64,
) -> (step: LoginStep)
    ensures
        match step {
            LoginStep::Open => !has_password,
            LoginStep::Refused(reply) => {
                &&& has_password
                &&& if entry@.len() == 0 {
                    reply@ == fault_reply(
                        LoginFault::MissingPassword,
                        destination(opt_str(next)),
                    )
                } else {
                    limiter_locked(limiter@, now) && reply@ == fault_reply(
                        LoginFault::TooManyAttempts,
                        destination(opt_str(next)),
                    )
                }
            },
            LoginStep::Compare => {
                has_password && entry@.len() > 0 && !limiter_locked(limiter@, now)
            },
        },
{
    if !has_password {
        return LoginStep::Open;
    }
    let to = login_destination(next);
    if entry.is_empty() {
        return LoginStep::Refused(fault_response(LoginFault::MissingPassword, to));
    }
    if limiter.is_locked(now) {
        return LoginStep::Refused(fault_response(LoginFault::TooManyAttempts, to));
    }
    LoginStep::Compare
}

/// Lets in whoever asks, where no password is set. `cookie` is that of the new
/// session.
pub fn login_open(cookie: String, next: Option<&str>) -> (reply: Reply)
    ensures
        reply@ == redirect_reply(destination(opt_str(next)), Some(cookie@)),
{
    Reply::redirect(login_destination(next), Some(cookie))
}

/// Ends a login whose password was compared. `cookie` is that of the new
/// session.
pub fn login_submit(
    limiter: &mut AuthLimiter,
    right: bool,
    cookie: String,
    next: Option<&str>,
    now: u64,
) -> (reply: Reply)
    ensures
        final(limiter)@ == (if right {
            crate::auth::after_success()
        } else {
            crate::auth::after_failure(old(limiter)@, now)
        }),
        reply@ == (if right {
            redirect_reply(destination(opt_str(next)), Some(cookie@))
        } else {
            fault_reply(LoginFault::WrongPassword, destination(opt_str(next)))
        }),
{
    let to = login_destination(next);
    if right {
        limiter.record_success();
        Reply::redirect(to, Some(cookie))
    } else {
        limiter.record_failure(now);
        fault_response(LoginFault::WrongPassword, to)
    }
}

/// A page for those who have logged in; others are sent to `login`.
pub fn page(authed: bool, html: String, login: &str) -> (reply: Reply)
    ensures
        reply@ == (if authed {
            html_reply(200, html@)
        } else {
            redirect_reply(login@, None)
        }),
{
    if authed {
        Reply::html(200, html)
    } else {
        Reply::redirect(login, None)
    }
}

/// The first page.
pub fn root() -> (reply: Reply)
    ensures
        reply@ == redirect_reply("/phone"@, None),
{
    Reply::redirect("/phone", None)
}

/// The control page.
pub fn phone(authed: bool, html: String) -> (reply: Reply)
    ensures
        reply@ == (if authed {
            html_reply(200, html@)
        } else {
            redirect_reply("/login"@, None)
        }),
{
    page(authed, html, "/login")
}

/// The setup guide.
pub fn setup(authed: bool, html: String) -> (reply: Reply)
    ensures
        reply@ == (if authed {
            html_reply(200, html@)
        } else {
            redirect_reply("/login?next=%2Fsetup"@, None)
        }),
{
    page(authed, html, "/login?next=%2Fsetup")
}

/// Ends a session.
pub fn logout(secure: bool) -> (reply: Reply)
    ensures
        reply@ == redirect_reply("/login"@, Some(cleared_cookie_text(secure))),
{
    Reply::redirect("/login", Some(clear_session_cookie(secure)))
}

/// The cookie of a session gives its token back, whatever cookies stand beside
/// it.
pub proof fn law_a_session_cookie_is_read_back(token: Seq<char>, rest: Seq<Seq<char>>)
    requires
        trimmed("phone_session="@ + token) == "phone_session="@ + token,
    ensures
        cookie_in(seq!["phone_session="@ + token] + rest) == Some(token),
{
    let pieces = seq!["phone_session="@ + token] + rest;
    let named = "phone_session="@ + token;
    assert(pieces[0] == named);
    assert(named.take("phone_session="@.len() as int) =~= "phone_session="@);
    assert(named.skip("phone_session="@.len() as int) =~= token);
}

/// No login leads anywhere but to the two pages of this server.
pub proof fn law_a_login_stays_here(next: Option<Seq<char>>)
    ensures
        destination(next) == "/setup"@ || destination(next) == "/phone"@,
{
}

/// Whoever has a password set lets in only sessions that are valid; without one,
/// everybody is let in.
pub proof fn law_a_password_asks_for_a_session(token_valid: Option<bool>, authed: bool)
    ensures
        call_ensures(is_authed, (true, token_valid), authed) ==> (authed <==> token_valid == Some(
            true,
        )),
        call_ensures(is_authed, (false, token_valid), authed) ==> authed,
{
}

/// A page is shown only to a session that is let in; all others are sent to log
/// in first, and come back to where they wanted.
pub proof fn law_a_page_is_shown_to_a_session(html: String, login: &str, reply: Reply)
    ensures
        call_ensures(phone, (true, html), reply) ==> reply@ == html_reply(200, html@),
        call_ensures(phone, (false, html), reply) ==> reply@ == redirect_reply("/login"@, None),
        call_ensures(setup, (true, html), reply) ==> reply@ == html_reply(200, html@),
        call_ensures(setup, (false, html), reply) ==> reply@ == redirect_reply(
            "/login?next=%2Fsetup"@,
            None,
        ),
        call_ensures(page, (true, html, login), reply) ==> reply@ == html_reply(200, html@),
        call_ensures(page, (false, html, login), reply) ==> reply@ == redirect_reply(login@, None),
        call_ensures(root, (), reply) ==> reply@ == redirect_reply("/phone"@, None),
{
}

/// The cookie of a session carries its token, is kept from scripts and from other
/// sites, lives as long as the session, and is sent only over a safe line where
/// there is one; logging out lets it lapse at once.
pub proof fn law_a_cookie_is_kept_close(token: Seq<char>, ttl_secs: u64, reply: Reply)
    ensures
        session_cookie_text(token, ttl_secs, false) == "phone_session="@ + token
            + "; Path=/; HttpOnly; SameSite=Lax; Max-Age="@ + decimal(ttl_secs as nat),
        session_cookie_text(token, ttl_secs, true) == session_cookie_text(token, ttl_secs, false)
            + "; Secure"@,
        cleared_cookie_text(false) == "phone_session=; Path=/; HttpOnly; SameSite=Lax; Max-Age=0"@,
        cleared_cookie_text(true) == cleared_cookie_text(false) + "; Secure"@,
        call_ensures(logout, (true,), reply) ==> reply@.cookie == Some(cleared_cookie_text(true))
            && reply@.location == Some("/login"@),
        call_ensures(logout, (false,), reply) ==> reply@.cookie == Some(cleared_cookie_text(false))
            && reply@.location == Some("/login"@),
{
    reveal_strlit("");
    assert(""@ =~= Seq::<char>::empty());
    let open = session_cookie_text(token, ttl_secs, false);
    assert(open =~= "phone_session="@ + token + "; Path=/; HttpOnly; SameSite=Lax; Max-Age="@
        + decimal(ttl_secs as nat));
    assert(session_cookie_text(token, ttl_secs, true) =~= open + "; Secure"@);
    assert(cleared_cookie_text(false)
        =~= "phone_session=; Path=/; HttpOnly; SameSite=Lax; Max-Age=0"@);
    assert(cleared_cookie_text(true) =~= cleared_cookie_text(false) + "; Secure"@);
}

/// A line is safe where it was said to be, or where the header of the proxy says
/// so, in letters of any size.
pub proof fn law_a_safe_line_is_named(proto: Seq<char>)
    ensures
        is_https(true, None),
        is_https(true, Some(proto)),
        !is_https(false, None),
        is_https(false, Some(proto)) <==> lowered(proto) == "https"@,
{
}

/// What is wrong with a login is told by its status and on the page; only too
/// many attempts say when to come back.
pub proof fn law_a_failed_login_says_why(fault: LoginFault, to: Seq<char>)
    ensures
        fault is MissingPassword ==> fault_reply(fault, to).status == 400,
        fault is TooManyAttempts ==> fault_reply(fault, to).status == 429,
        fault is WrongPassword ==> fault_reply(fault, to).status == 401,
        fault_reply(fault, to).retry_after is Some <==> fault is TooManyAttempts,
        fault is TooManyAttempts ==> fault_reply(fault, to).retry_after == Some(30u64),
        fault_reply(fault, to).cookie is None,
        fault_reply(fault, to).location is None,
        fault_reply(fault, to).body == login_page(fault, Some(to)),
        fault !is Nothing ==> login_page(fault, Some(to)) == LOGIN_HEAD@ + next_field(Some(to))
            + LOGIN_FIELD@ + "true"@ + LOGIN_ALERT@ + fault_text(fault) + LOGIN_TAIL@,
        login_page(LoginFault::Nothing, Some(to)) == LOGIN_HEAD@ + next_field(Some(to))
            + LOGIN_FIELD@ + "false"@ + LOGIN_ALERT@ + ""@ + LOGIN_TAIL@,
        fault_text(LoginFault::MissingPassword) == "请输入控制密码"@,
        fault_text(LoginFault::TooManyAttempts)
            == "尝试次数过多。为保护手机，请 30 秒后再试"@,
        fault_text(LoginFault::WrongPassword) == "密码错误，请检查安装时保存的控制密码"@,
        to == "/setup"@ ==> next_field(Some(to))
            == r#"<input type="hidden" name="next" value="/setup">"#@,
        to != "/setup"@ ==> next_field(Some(to)) == ""@,
{
}

/// A password is compared only where one is set, one was entered, and the door is
/// not locked; an empty entry is told as that before a locked door is.
pub proof fn law_a_password_is_compared_in_order(
    limiter: &AuthLimiter,
    has_password: bool,
    entry: &str,
    next: Option<&str>,
    now: u64,
    step: LoginStep,
)
    requires
        call_ensures(login_gate, (limiter, has_password, entry, next, now), step),
    ensures
        step is Open <==> !has_password,
        step is Compare <==> has_password && entry@.len() > 0 && !limiter_locked(limiter@, now),
        step matches LoginStep::Refused(reply) ==> (entry@.len() == 0 <==> reply@.status == 400),
        step matches LoginStep::Refused(reply) ==> (entry@.len() > 0 <==> reply@.status == 429),
{
}

/// The way in shows the login page to a stranger and leads on a session that is
/// in already; a right password leads on with its cookie.
pub proof fn law_a_login_leads_on(
    authed: bool,
    next: Option<&str>,
    cookie: String,
    reply: Reply,
)
    ensures
        call_ensures(login_form, (authed, next), reply) ==> (authed <==> reply@.status == 303),
        call_ensures(login_form, (authed, next), reply) ==> (authed ==> reply@.location == Some(
            destination(opt_str(next)),
        )),
        call_ensures(login_open, (cookie, next), reply) ==> reply@.status == 303 && reply@.cookie
            == Some(cookie@) && reply@.location == Some(destination(opt_str(next))),
        destination(Some("/setup"@)) == "/setup"@,
        destination(None) == "/phone"@,
{
}

} // verus!
