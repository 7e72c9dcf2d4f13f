//! The job that keeps the runner alive: its description, and how it is started
//! without losing the description that works.

use vstd::prelude::*;

use crate::auth::ct_eq;
use crate::device::{udid_valid, valid_wda_udid};
use crate::text::{chars_of, join2, join3};

verus! {

/// A character as it stands in the text of a description.
pub open spec fn xml_char(c: char) -> Seq<char> {
    if c == '&' {
        "&amp;"@
    } else if c == '<' {
        "&lt;"@
    } else if c == '>' {
        "&gt;"@
    } else if c == '"' {
        "&quot;"@
    } else if c == '\'' {
        "&apos;"@
    } else {
        seq![c]
    }
}

/// A text as it stands in a description.
pub open spec fn xml_text(s: Seq<char>) -> Seq<char>
    decreases s.len(),
{
    if s.len() == 0 {
        Seq::empty()
    } else {
        xml_text(s.drop_last()) + xml_char(s.last())
    }
}

pub fn xml_escape(value: &str) -> (escaped: String)
    ensures
        escaped@ == xml_text(value@),
{
    let chars = chars_of(value);
    let mut out = String::new();
    let mut i: usize = 0;
    assert(out@ =~= xml_text(value@.take(0)));
    while i < chars.len()
        invariant
            i <= chars@.len(),
            chars@ == value@,
            out@ == xml_text(value@.take(i as int)),
        decreases chars@.len() - i,
    {
        let c = chars[i];
        assert(value@.take(i + 1).drop_last() =~= value@.take(i as int));
        if c == '&' {
            out = join2(out.as_str(), "&amp;");
        } else if c == '<' {
            out = join2(out.as_str(), "&lt;");
        } else if c == '>' {
            out = join2(out.as_str(), "&gt;");
        } else if c == '"' {
            out = join2(out.as_str(), "&quot;");
        } else if c == '\'' {
            out = join2(out.as_str(), "&apos;");
        } else {
            let ghost before = out@;
            out.push(c);
            assert(out@ =~= before + seq![c]);
        }
        i += 1;
    }
    assert(value@.take(i as int) =~= value@);
    out
}

pub open spec fn xml_safe(c: char) -> bool {
    c != '<' && c != '>' && c != '"' && c != '\''
}

proof fn lemma_xml_char(c: char)
    ensures
        xml_char(c).len() > 0,
        forall|i: int| 0 <= i < xml_char(c).len() ==> xml_safe(#[trigger] xml_char(c)[i]),
        (c == '&' || !xml_safe(c)) ==> xml_char(c)[0] == '&' && xml_char(c).len() >= 4,
        !(c == '&' || !xml_safe(c)) ==> xml_char(c) == seq![c],
{
    reveal_strlit("&amp;");
    reveal_strlit("&lt;");
    reveal_strlit("&gt;");
    reveal_strlit("&quot;");
    reveal_strlit("&apos;");
}

/// An escaped text can end no element and no attribute: it holds no angle
/// bracket and no quote.
pub proof fn law_escaped_text_stays_text(s: Seq<char>)
    ensures
        forall|i: int| 0 <= i < xml_text(s).len() ==> xml_safe(#[trigger] xml_text(s)[i]),
    decreases s.len(),
{
    if s.len() > 0 {
        law_escaped_text_stays_text(s.drop_last());
        lemma_xml_char(s.last());
        let head = xml_text(s.drop_last());
        let code = xml_char(s.last());
        assert forall|i: int| 0 <= i < xml_text(s).len() implies xml_safe(
            #[trigger] xml_text(s)[i],
        ) by {
            if i < head.len() {
                assert(xml_text(s)[i] == head[i]);
            } else {
                assert(xml_text(s)[i] == code[i - head.len()]);
            }
        }
    }
}

proof fn lemma_xml_cons(c: char, s: Seq<char>)
    ensures
        xml_text(seq![c] + s) == xml_char(c) + xml_text(s),
    decreases s.len(),
{
    if s.len() == 0 {
        assert(seq![c] + s =~= seq![c]);
        assert(seq![c].drop_last() =~= Seq::<char>::empty());
        assert(seq![c].last() == c);
        assert(xml_text(seq![c]) == xml_text(Seq::<char>::empty()) + xml_char(c));
        assert(xml_text(Seq::<char>::empty()) =~= Seq::<char>::empty());
        assert(xml_text(Seq::<char>::empty()) + xml_char(c) =~= xml_char(c));
        assert(xml_char(c) + xml_text(s) =~= xml_char(c));
    } else {
        assert((seq![c] + s).drop_last() =~= seq![c] + s.drop_last());
        lemma_xml_cons(c, s.drop_last());
        assert(xml_char(c) + (xml_text(s.drop_last()) + xml_char(s.last())) =~= (xml_char(c)
            + xml_text(s.drop_last())) + xml_char(s.last()));
    }
}

proof fn lemma_xml_code(a: char, b: char, x: Seq<char>, y: Seq<char>)
    requires
        xml_char(a) + x == xml_char(b) + y,
    ensures
        a == b,
        x == y,
{
    reveal_strlit("&amp;");
    reveal_strlit("&lt;");
    reveal_strlit("&gt;");
    reveal_strlit("&quot;");
    reveal_strlit("&apos;");
    lemma_xml_char(a);
    lemma_xml_char(b);
    let left = xml_char(a) + x;
    let right = xml_char(b) + y;
    assert(left[0] == xml_char(a)[0] && right[0] == xml_char(b)[0]);
    if a != b {
        if xml_char(a)[0] == '&' && xml_char(b)[0] == '&' {
            assert(left[1] == xml_char(a)[1] && right[1] == xml_char(b)[1]);
            assert(left[2] == xml_char(a)[2] && right[2] == xml_char(b)[2]);
        }
        assert(false);
    }
    let n = xml_char(a).len();
    assert(left.skip(n as int) =~= x);
    assert(right.skip(n as int) =~= y);
}

/// An escaped text tells which text it was.
pub proof fn law_escaped_text_reads_back(a: Seq<char>, b: Seq<char>)
    requires
        xml_text(a) == xml_text(b),
    ensures
        a == b,
    decreases a.len(),
{
    if a.len() > 0 {
        lemma_xml_char(a[0]);
        assert(a =~= seq![a[0]] + a.drop_first());
        lemma_xml_cons(a[0], a.drop_first());
    }
    if b.len() > 0 {
        lemma_xml_char(b[0]);
        assert(b =~= seq![b[0]] + b.drop_first());
        lemma_xml_cons(b[0], b.drop_first());
    }
    if a.len() == 0 {
        if b.len() > 0 {
            assert(xml_text(b).len() > 0);
        }
        assert(a =~= b);
    } else if b.len() == 0 {
        assert(xml_text(a).len() > 0);
    } else {
        lemma_xml_code(a[0], b[0], xml_text(a.drop_first()), xml_text(b.drop_first()));
        law_escaped_text_reads_back(a.drop_first(), b.drop_first());
    }
}

/// One environment variable in a description.
pub open spec fn variable_text(name: Seq<char>, value: Seq<char>) -> Seq<char> {
    "        <key>"@ + name + "</key><string>"@ + xml_text(value) + "</string>\n"@
}

pub open spec fn environment_text(vars: Seq<(Seq<char>, Seq<char>)>) -> Seq<char>
    decreases vars.len(),
{
    if vars.len() == 0 {
        Seq::empty()
    } else {
        environment_text(vars.drop_last()) + variable_text(vars.last().0, vars.last().1)
    }
}

/// The variables of a runner: those that are always set, then those of the given
/// ones that are not empty.
pub open spec fn runner_variables(udid: Seq<char>, given: Seq<(Seq<char>, Seq<char>)>) -> Seq<
    (Seq<char>, Seq<char>),
> {
    seq![
        ("WDA_KEEPALIVE"@, "1"@),
        ("WDA_UDID"@, udid),
        ("PATH"@, "/opt/homebrew/bin:/usr/local/bin:/usr/sbin:/usr/bin:/bin"@),
    ] + set_variables(given)
}

/// The variables that are not empty.
pub open spec fn set_variables(given: Seq<(Seq<char>, Seq<char>)>) -> Seq<(Seq<char>, Seq<char>)>
    decreases given.len(),
{
    if given.len() == 0 {
        Seq::empty()
    } else {
        let before = set_variables(given.drop_last());
        if given.last().1.len() > 0 {
            before.push(given.last())
        } else {
            before
        }
    }
}

/// The description of the job.
pub open spec fn plist_text(
    label: Seq<char>,
    script: Seq<char>,
    log: Seq<char>,
    vars: Seq<(Seq<char>, Seq<char>)>,
) -> Seq<char> {
    r#"<?xml version="1.0" encoding="UTF-8"?>
<!DOCTYPE plist PUBLIC "-//Apple//DTD PLIST 1.0//EN" "http://www.apple.com/DTDs/PropertyList-1.0.dtd">
<plist version="1.0"><dict>
    <key>Label</key><string>"#@ + label + r#"</string>
    <key>ProgramArguments</key>
    <array><string>/bin/bash</string><string>"#@ + xml_text(script) + r#"</string></array>
    <key>EnvironmentVariables</key>
    <dict>
"#@ + environment_text(vars) + r#"    </dict>
    <key>KeepAlive</key><true/>
    <key>ThrottleInterval</key><integer>5</integer>
    <key>RunAtLoad</key><true/>
    <key>StandardOutPath</key><string>"#@ + xml_text(log) + r#"</string>
    <key>StandardErrorPath</key><string>"#@ + xml_text(log) + r#"</string>
</dict></plist>
"#@
}

/// The names of the variables that a new description takes over from the
/// server's own environment.
pub fn inherited_variables() -> (names: Vec<&'static str>)
    ensures
        names@.len() == 12,
        names@[0]@ == "WDA_TEAM_ID"@,
        names@[1]@ == "WDA_BUNDLE_ID"@,
        names@[2]@ == "WDA_DIR"@,
        names@[3]@ == "WDA_REF"@,
        names@[4]@ == "WDA_PORT"@,
        names@[5]@ == "MJPEG_PORT"@,
        names@[6]@ == "WDA_ALLOW_LAN"@,
        names@[7]@ == "WDA_RUNNER_NAME"@,
        names@[8]@ == "WDA_RUNNER_ICON"@,
        names@[9]@ == "WDA_ASC_KEY_PATH"@,
        names@[10]@ == "WDA_ASC_KEY_ID"@,
        names@[11]@ == "WDA_ASC_ISSUER_ID"@,
{
    vec![
        "WDA_TEAM_ID",
        "WDA_BUNDLE_ID",
        "WDA_DIR",
        "WDA_REF",
        "WDA_PORT",
        "MJPEG_PORT",
        "WDA_ALLOW_LAN",
        "WDA_RUNNER_NAME",
        "WDA_RUNNER_ICON",
        "WDA_ASC_KEY_PATH",
        "WDA_ASC_KEY_ID",
        "WDA_ASC_ISSUER_ID",
    ]
}

pub open spec fn pair_views(pairs: Seq<(String, String)>) -> Seq<(Seq<char>, Seq<char>)> {
    pairs.map_values(|pair: (String, String)| (pair.0@, pair.1@))
}

fn append_variable(text: &str, name: &str, value: &str) -> (more: String)
    ensures
        more@ == text@ + variable_text(name@, value@),
{
    let escaped = xml_escape(value);
    let line = join3("        <key>", name, "</key><string>");
    let line = join3(line.as_str(), escaped.as_str(), "</string>\n");
    join2(text, line.as_str())
}

proof fn lemma_environment_push(
    vars: Seq<(Seq<char>, Seq<char>)>,
    var: (Seq<char>, Seq<char>),
)
    ensures
        environment_text(vars.push(var)) == environment_text(vars) + variable_text(var.0, var.1),
{
    assert(vars.push(var).drop_last() =~= vars);
}

/// A new description of the job. `given` holds the inherited variables that are
/// set.
pub fn fresh_plist(
    label: &str,
    script: &str,
    log: &str,
    udid: &str,
    given: &Vec<(String, String)>,
) -> (text: String)
    ensures
        text@ == plist_text(
            label@,
            script@,
            log@,
            runner_variables(udid@, pair_views(given@)),
        ),
{
    let ghost all = pair_views(given@);
    let ghost first = Seq::<(Seq<char>, Seq<char>)>::empty().push(("WDA_KEEPALIVE"@, "1"@)).push(
        ("WDA_UDID"@, udid@),
    ).push(("PATH"@, "/opt/homebrew/bin:/usr/local/bin:/usr/sbin:/usr/bin:/bin"@));
    let env = append_variable("", "WDA_KEEPALIVE", "1");
    let env = append_variable(env.as_str(), "WDA_UDID", udid);
    let mut env = append_variable(
        env.as_str(),
        "PATH",
        "/opt/homebrew/bin:/usr/local/bin:/usr/sbin:/usr/bin:/bin",
    );
    proof {
        reveal_strlit("");
        let empty = Seq::<(Seq<char>, Seq<char>)>::empty();
        assert(""@ =~= environment_text(empty));
        lemma_environment_push(empty, ("WDA_KEEPALIVE"@, "1"@));
        let one = empty.push(("WDA_KEEPALIVE"@, "1"@));
        lemma_environment_push(one, ("WDA_UDID"@, udid@));
        let two = one.push(("WDA_UDID"@, udid@));
        lemma_environment_push(
            two,
            ("PATH"@, "/opt/homebrew/bin:/usr/local/bin:/usr/sbin:/usr/bin:/bin"@),
        );
        assert(first + set_variables(all.take(0)) =~= first);
    }
    let mut i: usize = 0;
    while i < given.len()
        invariant
            i <= given@.len(),
            all == pair_views(given@),
            env@ == environment_text(first + set_variables(all.take(i as int))),
        decreases given@.len() - i,
    {
        assert(all.take(i + 1).drop_last() =~= all.take(i as int));
        assert(all[i as int] == (given@[i as int].0@, given@[i as int].1@));
        if !given[i].1.as_str().is_empty() {
            env = append_variable(env.as_str(), given[i].0.as_str(), given[i].1.as_str());
            proof {
                let before = first + set_variables(all.take(i as int));
                lemma_environment_push(before, all[i as int]);
                assert(first + set_variables(all.take(i + 1)) =~= before.push(all[i as int]));
            }
        }
        i += 1;
    }
    assert(all.take(i as int) =~= all);
    assert(first + set_variables(all) =~= runner_variables(udid@, all));
    let script_text = xml_escape(script);
    let log_text = xml_escape(log);
    let text = join3(
        r#"<?xml version="1.0" encoding="UTF-8"?>
<!DOCTYPE plist PUBLIC "-//Apple//DTD PLIST 1.0//EN" "http://www.apple.com/DTDs/PropertyList-1.0.dtd">
<plist version="1.0"><dict>
    <key>Label</key><string>"#,
        label,
        r#"</string>
    <key>ProgramArguments</key>
    <array><string>/bin/bash</string><string>"#,
    );
    let text = join3(
        text.as_str(),
        script_text.as_str(),
        r#"</string></array>
    <key>EnvironmentVariables</key>
    <dict>
"#,
    );
    let text = join3(
        text.as_str(),
        env.as_str(),
        r#"    </dict>
    <key>KeepAlive</key><true/>
    <key>ThrottleInterval</key><integer>5</integer>
    <key>RunAtLoad</key><true/>
    <key>StandardOutPath</key><string>"#,
    );
    let text = join3(
        text.as_str(),
        log_text.as_str(),
        r#"</string>
    <key>StandardErrorPath</key><string>"#,
    );
    join3(
        text.as_str(),
        log_text.as_str(),
        r#"</string>
</dict></plist>
"#,
    )
}

/// Where the start of the job stands. Each stage waits for the result of the
/// command that led to it.
#[derive(Clone, Copy, Debug, PartialEq, Eq, Structural)]
pub enum BootStage {
    /// The description that is there is being read.
    Reading,
    /// A copy to work on is being written.
    Staging,
    /// The phone is being set in the copy.
    Setting,
    /// The phone is being added to the copy.
    Adding,
    Linting,
    Protecting,
    /// The finished copy is being read.
    Comparing,
    /// The copy takes the place of the description.
    Installing,
    /// The copy is not needed, and is being removed.
    Dropping,
    /// The copy is being removed after a failure.
    Discarding { restore: bool },
    /// The old description is being put back after a failure.
    Restoring,
    /// Whether the job is there at all.
    Asking,
    /// The job is being made known, for the first or the second time.
    ColdStart { again: bool },
    /// Whether the job is there although making it known failed.
    ColdDoubt,
    /// A disabled job is being enabled.
    ColdEnable,
    /// Whether the job is there now.
    ColdCheck,
    /// The job gets one fresh run.
    ColdKick,
    /// Whether the job is there at the end.
    ColdVerify,
    WarmEnable,
    WarmKick,
    /// The job that knows the old description is being taken out.
    WarmOut,
    WarmGone,
    WarmStart,
    WarmVerify,
    /// A job whose start failed is being taken out.
    FailedOut,
    FailedGone,
    Over,
}

/// The start of the job.
#[derive(Debug)]
pub struct Bootstrap {
    udid: String,
    fresh: String,
    original: Option<Vec<u8>>,
    changed: bool,
    bootstrapped: bool,
    stage: BootStage,
}

/// The content of a [`Bootstrap`].
pub struct BootView {
    pub udid: Seq<char>,
    pub fresh: Seq<char>,
    /// The description that was there.
    pub original: Option<Seq<u8>>,
    /// The description was replaced.
    pub changed: bool,
    /// The job was made known.
    pub bootstrapped: bool,
    pub stage: BootStage,
}

pub open spec fn bytes_view(bytes: Option<Vec<u8>>) -> Option<Seq<u8>> {
    match bytes {
        Some(bytes) => Some(bytes@),
        None => None,
    }
}

impl View for Bootstrap {
    type V = BootView;

    closed spec fn view(&self) -> BootView {
        BootView {
            udid: self.udid@,
            fresh: self.fresh@,
            original: bytes_view(self.original),
            changed: self.changed,
            bootstrapped: self.bootstrapped,
            stage: self.stage,
        }
    }
}

/// The result of a command.
#[derive(Debug)]
pub enum BootEvent {
    /// The description that is there.
    Found(Vec<u8>),
    /// There is none.
    Absent,
    /// What the finished copy holds.
    Copied(Vec<u8>),
    /// The command was carried out, or what it asked for is so; or not.
    Done(bool),
}

/// The content of a [`BootEvent`].
pub enum BootEventView {
    Found(Seq<u8>),
    Absent,
    Copied(Seq<u8>),
    Done(bool),
}

impl View for BootEvent {
    type V = BootEventView;

    open spec fn view(&self) -> BootEventView {
        match *self {
            BootEvent::Found(bytes) => BootEventView::Found(bytes@),
            BootEvent::Absent => BootEventView::Absent,
            BootEvent::Copied(bytes) => BootEventView::Copied(bytes@),
            BootEvent::Done(ok) => BootEventView::Done(ok),
        }
    }
}

/// What to do next.
#[derive(Debug)]
pub enum BootCommand {
    /// Forget that earlier attempts failed, make the directory, and read the
    /// description.
    Read,
    /// Write the description that was read into a copy.
    StageOriginal,
    /// Write this description into a copy.
    StageFresh { text: String },
    /// Edit the copy.
    Edit { command: String },
    /// Have the copy's form checked.
    Lint,
    /// Let nobody else read the copy.
    Protect,
    ReadCopy,
    /// Put the copy in the place of the description, for good.
    Install,
    DropCopy,
    /// Put the description that was read back, or remove the new one.
    Restore,
    AskLoaded,
    /// Make the job known.
    Load,
    Enable,
    Kickstart,
    /// Take the job out.
    Unload,
    /// Wait until the job is gone.
    WaitGone,
    Finish { started: bool },
    /// The event does not fit; nothing changed.
    Ignored,
}

/// The content of a [`BootCommand`].
pub enum BootCommandView {
    Read,
    StageOriginal,
    StageFresh { text: Seq<char> },
    Edit { command: Seq<char> },
    Lint,
    Protect,
    ReadCopy,
    Install,
    DropCopy,
    Restore,
    AskLoaded,
    Load,
    Enable,
    Kickstart,
    Unload,
    WaitGone,
    Finish { started: bool },
    Ignored,
}

impl View for BootCommand {
    type V = BootCommandView;

    open spec fn view(&self) -> BootCommandView {
        match *self {
            BootCommand::Read => BootCommandView::Read,
            BootCommand::StageOriginal => BootCommandView::StageOriginal,
            BootCommand::StageFresh { text } => BootCommandView::StageFresh { text: text@ },
            BootCommand::Edit { command } => BootCommandView::Edit { command: command@ },
            BootCommand::Lint => BootCommandView::Lint,
            BootCommand::Protect => BootCommandView::Protect,
            BootCommand::ReadCopy => BootCommandView::ReadCopy,
            BootCommand::Install => BootCommandView::Install,
            BootCommand::DropCopy => BootCommandView::DropCopy,
            BootCommand::Restore => BootCommandView::Restore,
            BootCommand::AskLoaded => BootCommandView::AskLoaded,
            BootCommand::Load => BootCommandView::Load,
            BootCommand::Enable => BootCommandView::Enable,
            BootCommand::Kickstart => BootCommandView::Kickstart,
            BootCommand::Unload => BootCommandView::Unload,
            BootCommand::WaitGone => BootCommandView::WaitGone,
            BootCommand::Finish { started } => BootCommandView::Finish { started },
            BootCommand::Ignored => BootCommandView::Ignored,
        }
    }
}

pub open spec fn boot_at(b: BootView, stage: BootStage) -> BootView {
    BootView { stage, ..b }
}

pub open spec fn boot_over(b: BootView, started: bool) -> (BootView, BootCommandView) {
    (boot_at(b, BootStage::Over), BootCommandView::Finish { started })
}

/// The start failed with a copy still there.
pub open spec fn discarding(b: BootView, restore: bool) -> (BootView, BootCommandView) {
    (boot_at(b, BootStage::Discarding { restore }), BootCommandView::DropCopy)
}

/// The description is settled; now for the job.
pub open spec fn asking(b: BootView) -> (BootView, BootCommandView) {
    (boot_at(b, BootStage::Asking), BootCommandView::AskLoaded)
}

/// The finished copy: it replaces a description that it differs from.
pub open spec fn compared(b: BootView, copy: Seq<u8>) -> (BootView, BootCommandView) {
    if b.original == Some(copy) {
        (
            BootView { stage: BootStage::Dropping, changed: false, ..b },
            BootCommandView::DropCopy,
        )
    } else {
        (
            BootView { stage: BootStage::Installing, changed: true, ..b },
            BootCommandView::Install,
        )
    }
}

/// A command on the job was carried out, or was not.
pub open spec fn job_next(b: BootView, ok: bool) -> (BootView, BootCommandView) {
    match b.stage {
        BootStage::Asking => if ok {
            (boot_at(b, BootStage::WarmEnable), BootCommandView::Enable)
        } else {
            (boot_at(b, BootStage::ColdStart { again: false }), BootCommandView::Load)
        },
        BootStage::ColdStart { again } => {
            let after = BootView { bootstrapped: ok, ..b };
            if ok || again {
                (boot_at(after, BootStage::ColdCheck), BootCommandView::AskLoaded)
            } else {
                (boot_at(after, BootStage::ColdDoubt), BootCommandView::AskLoaded)
            }
        },
        BootStage::ColdDoubt => if ok {
            (boot_at(b, BootStage::ColdCheck), BootCommandView::AskLoaded)
        } else {
            (boot_at(b, BootStage::ColdEnable), BootCommandView::Enable)
        },
        BootStage::ColdEnable => (
            boot_at(b, BootStage::ColdStart { again: true }),
            BootCommandView::Load,
        ),
        BootStage::ColdCheck => if ok {
            (boot_at(b, BootStage::ColdKick), BootCommandView::Kickstart)
        } else if !b.bootstrapped && b.changed {
            (boot_at(b, BootStage::Restoring), BootCommandView::Restore)
        } else {
            boot_over(b, false)
        },
        BootStage::ColdKick => (boot_at(b, BootStage::ColdVerify), BootCommandView::AskLoaded),
        BootStage::ColdVerify => boot_over(b, ok),
        BootStage::WarmEnable => if ok {
            if b.changed {
                (boot_at(b, BootStage::WarmOut), BootCommandView::Unload)
            } else {
                (boot_at(b, BootStage::WarmKick), BootCommandView::Kickstart)
            }
        } else {
            job_failed(b)
        },
        BootStage::WarmKick => if ok {
            (boot_at(b, BootStage::WarmVerify), BootCommandView::AskLoaded)
        } else {
            job_failed(b)
        },
        BootStage::WarmOut => (boot_at(b, BootStage::WarmGone), BootCommandView::WaitGone),
        BootStage::WarmGone => if ok {
            (boot_at(b, BootStage::WarmStart), BootCommandView::Load)
        } else {
            job_failed(b)
        },
        BootStage::WarmStart => if ok {
            (boot_at(b, BootStage::WarmVerify), BootCommandView::AskLoaded)
        } else {
            job_failed(b)
        },
        BootStage::WarmVerify => if ok {
            boot_over(b, true)
        } else {
            job_failed(b)
        },
        BootStage::FailedOut => (boot_at(b, BootStage::FailedGone), BootCommandView::WaitGone),
        BootStage::FailedGone => (boot_at(b, BootStage::Restoring), BootCommandView::Restore),
        BootStage::Restoring => boot_over(b, false),
        _ => (b, BootCommandView::Ignored),
    }
}

/// A job that was there could not be started. With a new description it is
/// taken out, so that it cannot run on with what it remembers of the old one,
/// and the old description is put back.
pub open spec fn job_failed(b: BootView) -> (BootView, BootCommandView) {
    if b.changed {
        (boot_at(b, BootStage::FailedOut), BootCommandView::Unload)
    } else {
        boot_over(b, false)
    }
}

/// A command on the description was carried out, or was not.
pub open spec fn file_next(b: BootView, ok: bool) -> (BootView, BootCommandView) {
    match b.stage {
        BootStage::Reading => boot_over(b, false),
        BootStage::Staging => if !ok {
            boot_over(b, false)
        } else if b.original is Some {
            (
                boot_at(b, BootStage::Setting),
                BootCommandView::Edit {
                    command: "Set :EnvironmentVariables:WDA_UDID "@ + b.udid,
                },
            )
        } else {
            (boot_at(b, BootStage::Linting), BootCommandView::Lint)
        },
        BootStage::Setting => if ok {
            (boot_at(b, BootStage::Linting), BootCommandView::Lint)
        } else {
            (
                boot_at(b, BootStage::Adding),
                BootCommandView::Edit {
                    command: "Add :EnvironmentVariables:WDA_UDID string "@ + b.udid,
                },
            )
        },
        BootStage::Adding => if ok {
            (boot_at(b, BootStage::Linting), BootCommandView::Lint)
        } else {
            discarding(b, false)
        },
        BootStage::Linting => if ok {
            (boot_at(b, BootStage::Protecting), BootCommandView::Protect)
        } else {
            discarding(b, false)
        },
        BootStage::Protecting => if ok {
            (boot_at(b, BootStage::Comparing), BootCommandView::ReadCopy)
        } else {
            discarding(b, false)
        },
        BootStage::Comparing => discarding(b, false),
        BootStage::Installing => if ok {
            asking(b)
        } else {
            discarding(b, true)
        },
        BootStage::Dropping => asking(b),
        BootStage::Discarding { restore } => if restore {
            (boot_at(b, BootStage::Restoring), BootCommandView::Restore)
        } else {
            boot_over(b, false)
        },
        _ => job_next(b, ok),
    }
}

/// The start after a result, and what to do next.
pub open spec fn boot_next(b: BootView, e: BootEventView) -> (BootView, BootCommandView) {
    match (b.stage, e) {
        (BootStage::Reading, BootEventView::Found(bytes)) => (
            BootView { original: Some(bytes), stage: BootStage::Staging, ..b },
            BootCommandView::StageOriginal,
        ),
        (BootStage::Reading, BootEventView::Absent) => (
            boot_at(b, BootStage::Staging),
            BootCommandView::StageFresh { text: b.fresh },
        ),
        (BootStage::Comparing, BootEventView::Copied(bytes)) => compared(b, bytes),
        (_, BootEventView::Done(ok)) => file_next(b, ok),
        _ => (b, BootCommandView::Ignored),
    }
}

pub open spec fn boot_start(udid: Seq<char>, fresh: Seq<char>) -> BootView {
    BootView {
        udid,
        fresh,
        original: None,
        changed: false,
        bootstrapped: false,
        stage: BootStage::Reading,
    }
}

fn same_bytes(a: &Option<Vec<u8>>, b: &Vec<u8>) -> (same: bool)
    ensures
        same == (bytes_view(*a) == Some(b@)),
{
    match a {
        Some(a) => ct_eq(a.as_slice(), b.as_slice()),
        None => false,
    }
}

impl Bootstrap {
    /// Begins to start the job for a phone. Without the script, or without a
    /// proper name of a phone, nothing is begun.
    pub fn write_and_bootstrap_wda_agent(
        script_installed: bool,
        udid: &str,
        fresh: String,
    ) -> (begun: Option<(Bootstrap, BootCommand)>)
        ensures
            begun is Some == (script_installed && udid_valid(udid@)),
            begun matches Some((boot, command)) ==> {
                &&& boot@ == boot_start(udid@, fresh@)
                &&& command@ == BootCommandView::Read
            },
    {
        if !script_installed || !valid_wda_udid(udid) {
            return None;
        }
        let boot = Bootstrap {
            udid: udid.to_string(),
            fresh,
            original: None,
            changed: false,
            bootstrapped: false,
            stage: BootStage::Reading,
        };
        Some((boot, BootCommand::Read))
    }

    /// The description that was there.
    pub fn original(&self) -> (bytes: Option<&Vec<u8>>)
        ensures
            match bytes {
                Some(bytes) => self@.original == Some(bytes@),
                None => self@.original is None,
            },
    {
        match &self.original {
            Some(bytes) => Some(bytes),
            None => None,
        }
    }

    fn at(self, stage: BootStage) -> (boot: Bootstrap)
        ensures
            boot@ == boot_at(self@, stage),
    {
        let mut boot = self;
        boot.stage = stage;
        boot
    }

    fn over(self, started: bool) -> (end: (Bootstrap, BootCommand))
        ensures
            (end.0@, end.1@) == boot_over(self@, started),
    {
        (self.at(BootStage::Over), BootCommand::Finish { started })
    }

    fn discard(self, restore: bool) -> (next: (Bootstrap, BootCommand))
        ensures
            (next.0@, next.1@) == discarding(self@, restore),
    {
        (self.at(BootStage::Discarding { restore }), BootCommand::DropCopy)
    }

    fn failed(self) -> (next: (Bootstrap, BootCommand))
        ensures
            (next.0@, next.1@) == job_failed(self@),
    {
        if self.changed {
            (self.at(BootStage::FailedOut), BootCommand::Unload)
        } else {
            self.over(false)
        }
    }

    fn compare(self, copy: &Vec<u8>) -> (next: (Bootstrap, BootCommand))
        ensures
            (next.0@, next.1@) == compared(self@, copy@),
    {
        let mut boot = self;
        if same_bytes(&boot.original, copy) {
            boot.changed = false;
            (boot.at(BootStage::Dropping), BootCommand::DropCopy)
        } else {
            boot.changed = true;
            (boot.at(BootStage::Installing), BootCommand::Install)
        }
    }

    fn job_done(self, ok: bool) -> (next: (Bootstrap, BootCommand))
        ensures
            (next.0@, next.1@) == job_next(self@, ok),
    {
        match self.stage {
            BootStage::Asking => if ok {
                (self.at(BootStage::WarmEnable), BootCommand::Enable)
            } else {
                (self.at(BootStage::ColdStart { again: false }), BootCommand::Load)
            },
            BootStage::ColdStart { again } => {
                let mut boot = self;
                boot.bootstrapped = ok;
                if ok || again {
                    (boot.at(BootStage::ColdCheck), BootCommand::AskLoaded)
                } else {
                    (boot.at(BootStage::ColdDoubt), BootCommand::AskLoaded)
                }
            },
            BootStage::ColdDoubt => if ok {
                (self.at(BootStage::ColdCheck), BootCommand::AskLoaded)
            } else {
                (self.at(BootStage::ColdEnable), BootCommand::Enable)
            },
            BootStage::ColdEnable => (
                self.at(BootStage::ColdStart { again: true }),
                BootCommand::Load,
            ),
            BootStage::ColdCheck => if ok {
                (self.at(BootStage::ColdKick), BootCommand::Kickstart)
            } else if !self.bootstrapped && self.changed {
                (self.at(BootStage::Restoring), BootCommand::Restore)
            } else {
                self.over(false)
            },
            BootStage::ColdKick => (self.at(BootStage::ColdVerify), BootCommand::AskLoaded),
            BootStage::ColdVerify => self.over(ok),
            BootStage::WarmEnable => if ok {
                if self.changed {
                    (self.at(BootStage::WarmOut), BootCommand::Unload)
                } else {
                    (self.at(BootStage::WarmKick), BootCommand::Kickstart)
                }
            } else {
                self.failed()
            },
            BootStage::WarmKick => if ok {
                (self.at(BootStage::WarmVerify), BootCommand::AskLoaded)
            } else {
                self.failed()
            },
            BootStage::WarmOut => (self.at(BootStage::WarmGone), BootCommand::WaitGone),
            BootStage::WarmGone => if ok {
                (self.at(BootStage::WarmStart), BootCommand::Load)
            } else {
                self.failed()
            },
            BootStage::WarmStart => if ok {
                (self.at(BootStage::WarmVerify), BootCommand::AskLoaded)
            } else {
                self.failed()
            },
            BootStage::WarmVerify => if ok {
                self.over(true)
            } else {
                self.failed()
            },
            BootStage::FailedOut => (self.at(BootStage::FailedGone), BootCommand::WaitGone),
            BootStage::FailedGone => (self.at(BootStage::Restoring), BootCommand::Restore),
            BootStage::Restoring => self.over(false),
            _ => (self, BootCommand::Ignored),
        }
    }

    fn file_done(self, ok: bool) -> (next: (Bootstrap, BootCommand))
        ensures
            (next.0@, next.1@) == file_next(self@, ok),
    {
        match self.stage {
            BootStage::Reading => self.over(false),
            BootStage::Staging => if !ok {
                self.over(false)
            } else if self.original.is_some() {
                let command = join2("Set :EnvironmentVariables:WDA_UDID ", self.udid.as_str());
                (self.at(BootStage::Setting), BootCommand::Edit { command })
            } else {
                (self.at(BootStage::Linting), BootCommand::Lint)
            },
            BootStage::Setting => if ok {
                (self.at(BootStage::Linting), BootCommand::Lint)
            } else {
                let command = join2(
                    "Add :EnvironmentVariables:WDA_UDID string ",
                    self.udid.as_str(),
                );
                (self.at(BootStage::Adding), BootCommand::Edit { command })
            },
            BootStage::Adding => if ok {
                (self.at(BootStage::Linting), BootCommand::Lint)
            } else {
                self.discard(false)
            },
            BootStage::Linting => if ok {
                (self.at(BootStage::Protecting), BootCommand::Protect)
            } else {
                self.discard(false)
            },
            BootStage::Protecting => if ok {
                (self.at(BootStage::Comparing), BootCommand::ReadCopy)
            } else {
                self.discard(false)
            },
            BootStage::Comparing => self.discard(false),
            BootStage::Installing => if ok {
                (self.at(BootStage::Asking), BootCommand::AskLoaded)
            } else {
                self.discard(true)
            },
            BootStage::Dropping => (self.at(BootStage::Asking), BootCommand::AskLoaded),
            BootStage::Discarding { restore } => if restore {
                (self.at(BootStage::Restoring), BootCommand::Restore)
            } else {
                self.over(false)
            },
            _ => self.job_done(ok),
        }
    }

    /// The start after a result, and what to do next.
    pub fn advance(self, event: BootEvent) -> (next: (Bootstrap, BootCommand))
        ensures
            (next.0@, next.1@) == boot_next(self@, event@),
    {
        match (self.stage, event) {
            (BootStage::Reading, BootEvent::Found(bytes)) => {
                let mut boot = self;
                boot.original = Some(bytes);
                (boot.at(BootStage::Staging), BootCommand::StageOriginal)
            },
            (BootStage::Reading, BootEvent::Absent) => {
                let text = self.fresh.clone();
                (self.at(BootStage::Staging), BootCommand::StageFresh { text })
            },
            (BootStage::Comparing, BootEvent::Copied(bytes)) => self.compare(&bytes),
            (_, BootEvent::Done(ok)) => self.file_done(ok),
            (_, _) => (self, BootCommand::Ignored),
        }
    }
}

/// The description is replaced only by a copy whose form was checked, that
/// nobody else can read, and that differs from it.
pub proof fn law_the_description_is_replaced_by_a_checked_copy(b: BootView, e: BootEventView)
    ensures
        boot_next(b, e).1 is Install ==> {
            &&& b.stage is Comparing
            &&& e matches BootEventView::Copied(copy) && b.original != Some(copy)
        },
        boot_next(b, e).0.stage is Comparing && !(b.stage is Comparing) ==> b.stage is Protecting
            && e == BootEventView::Done(true),
        boot_next(b, e).0.stage is Protecting && !(b.stage is Protecting) ==> b.stage is Linting
            && e == BootEventView::Done(true),
{
}

/// A start counts only where the job was seen at its end.
pub proof fn law_started_means_seen(b: BootView, e: BootEventView)
    requires
        boot_next(b, e).1 == (BootCommandView::Finish { started: true }),
    ensures
        e == BootEventView::Done(true),
        b.stage is ColdVerify || b.stage is WarmVerify,
{
}

/// Where a job that was there could not be started with a new description, the
/// old one is put back before the start is given up.
pub proof fn law_a_failed_change_is_undone(b: BootView, e: BootEventView)
    requires
        b.changed,
        b.stage is WarmEnable || b.stage is WarmOut || b.stage is WarmGone || b.stage is WarmStart
            || b.stage is WarmVerify || b.stage is FailedOut || b.stage is FailedGone,
    ensures
        boot_next(b, e).0.changed,
        boot_next(b, e).0.stage is Over ==> boot_next(b, e).1 == (BootCommandView::Finish {
            started: true,
        }),
        b.stage is FailedGone && e is Done ==> boot_next(b, e).1 is Restore,
{
}

/// A job that remembers another description is taken out before it is started;
/// only one whose description did not change is simply started again.
pub proof fn law_a_changed_job_is_reloaded(b: BootView, e: BootEventView)
    ensures
        boot_next(b, e).1 is Kickstart && b.stage is WarmEnable ==> !b.changed,
        boot_next(b, e).1 is Load && b.stage is WarmGone ==> e == BootEventView::Done(true),
{
}

/// Whether the runner was stopped: its job is gone and its own script stopped
/// it. Without the script nobody can tell whose runner it is, and it is left
/// alone.
pub fn stop_wda_runner(
    script_installed: bool,
    script_stopped: bool,
    job_gone: bool,
) -> (stopped: bool)
    ensures
        stopped == (job_gone && script_installed && script_stopped),
{
    job_gone && script_installed && script_stopped
}

/// What to do while waiting for the job to go.
#[derive(Clone, Copy, Debug, PartialEq, Eq, Structural)]
pub enum GoneStep {
    Gone,
    StillThere,
    /// Look again after this long.
    Sleep { ms: u64 },
}

/// The wait for the job to go: twenty looks, a quarter of a second apart, and a
/// last one. `looks` counts those before this one.
pub fn wait_launchd_job_gone(loaded: bool, looks: u32) -> (step: GoneStep)
    ensures
        step == (if !loaded {
            GoneStep::Gone
        } else if looks < 20 {
            GoneStep::Sleep { ms: 250 }
        } else {
            GoneStep::StillThere
        }),
{
    if !loaded {
        GoneStep::Gone
    } else if looks < 20 {
        GoneStep::Sleep { ms: 250 }
    } else {
        GoneStep::StillThere
    }
}

/// A text is escaped character by character: the five marks that mean something
/// by their names, every other character as it stands.
pub proof fn law_a_text_is_escaped_character_by_character(a: Seq<char>, b: Seq<char>, c: char)
    ensures
        xml_text(a + b) == xml_text(a) + xml_text(b),
        xml_text(seq!['&']) == "&amp;"@,
        xml_text(seq!['<']) == "&lt;"@,
        xml_text(seq!['>']) == "&gt;"@,
        xml_text(seq!['"']) == "&quot;"@,
        xml_text(seq!['\'']) == "&apos;"@,
        c != '&' && c != '<' && c != '>' && c != '"' && c != '\'' ==> xml_text(seq![c]) == seq![c],
    decreases b.len(),
{
    assert forall|x: char| #[trigger] xml_text(seq![x]) == xml_char(x) by {
        assert(seq![x].drop_last() =~= Seq::<char>::empty());
        assert(xml_text(Seq::<char>::empty()) =~= Seq::<char>::empty());
        assert(xml_text(seq![x]) =~= xml_char(x));
    }
    if b.len() == 0 {
        assert(a + b =~= a);
        assert(xml_text(a) + xml_text(b) =~= xml_text(a));
    } else {
        law_a_text_is_escaped_character_by_character(a, b.drop_last(), c);
        assert((a + b).drop_last() =~= a + b.drop_last());
        assert(xml_text(a + b) =~= xml_text(a) + xml_text(b));
    }
}

/// The runner is given the phone's id and the variables that are set, after what
/// keeps it alive and where its tools are; each by its name and its value.
pub proof fn law_the_runner_is_given_its_variables(
    udid: Seq<char>,
    given: Seq<(Seq<char>, Seq<char>)>,
    vars: Seq<(Seq<char>, Seq<char>)>,
    name: Seq<char>,
    value: Seq<char>,
)
    ensures
        runner_variables(udid, given).len() >= 3,
        runner_variables(udid, given)[0] == ("WDA_KEEPALIVE"@, "1"@),
        runner_variables(udid, given)[1] == ("WDA_UDID"@, udid),
        runner_variables(udid, given)[2] == (
            "PATH"@,
            "/opt/homebrew/bin:/usr/local/bin:/usr/sbin:/usr/bin:/bin"@,
        ),
        runner_variables(udid, given).skip(3) == set_variables(given),
        set_variables(Seq::empty()).len() == 0,
        value.len() > 0 ==> set_variables(given.push((name, value))) == set_variables(given).push(
            (name, value),
        ),
        value.len() == 0 ==> set_variables(given.push((name, value))) == set_variables(given),
        environment_text(Seq::empty()).len() == 0,
        environment_text(vars.push((name, value))) == environment_text(vars) + ("        <key>"@
            + name + "</key><string>"@ + xml_text(value) + "</string>\n"@),
{
    assert(given.push((name, value)).drop_last() =~= given);
    assert(vars.push((name, value)).drop_last() =~= vars);
    assert(runner_variables(udid, given).skip(3) =~= set_variables(given));
}

/// The description of the job: its label, its script, its variables and its log,
/// each in its place; it is kept alive, started at once, and not more than once in
/// five seconds.
pub proof fn law_the_description_has_each_thing_in_its_place(
    label: Seq<char>,
    script: Seq<char>,
    log: Seq<char>,
    vars: Seq<(Seq<char>, Seq<char>)>,
)
    ensures
        plist_text(label, script, log, vars) == r#"<?xml version="1.0" encoding="UTF-8"?>
<!DOCTYPE plist PUBLIC "-//Apple//DTD PLIST 1.0//EN" "http://www.apple.com/DTDs/PropertyList-1.0.dtd">
<plist version="1.0"><dict>
    <key>Label</key><string>"#@ + label + r#"</string>
    <key>ProgramArguments</key>
    <array><string>/bin/bash</string><string>"#@ + xml_text(script) + r#"</string></array>
    <key>EnvironmentVariables</key>
    <dict>
"#@ + environment_text(vars) + r#"    </dict>
    <key>KeepAlive</key><true/>
    <key>ThrottleInterval</key><integer>5</integer>
    <key>RunAtLoad</key><true/>
    <key>StandardOutPath</key><string>"#@ + xml_text(log) + r#"</string>
    <key>StandardErrorPath</key><string>"#@ + xml_text(log) + r#"</string>
</dict></plist>
"#@,
{
}

/// The description that is there is copied and given the phone's id, by setting it
/// or, where it has none, by adding it; where there is none, the fresh one is
/// written. The copy is checked, protected and compared before it counts.
pub proof fn law_a_description_is_changed_step_by_step(b: BootView, bytes: Seq<u8>, ok: bool)
    ensures
        b.stage is Reading ==> {
            &&& boot_next(b, BootEventView::Found(bytes)).1 is StageOriginal
            &&& boot_next(b, BootEventView::Found(bytes)).0.original == Some(bytes)
            &&& boot_next(b, BootEventView::Absent).1 == (BootCommandView::StageFresh {
                text: b.fresh,
            })
            &&& boot_next(b, BootEventView::Absent).0.original == b.original
            &&& boot_next(b, BootEventView::Done(ok)).1 == (BootCommandView::Finish {
                started: false,
            })
        },
        b.stage is Staging ==> {
            let next = boot_next(b, BootEventView::Done(ok));
            &&& ok && b.original is Some ==> next.1 == (BootCommandView::Edit {
                command: "Set :EnvironmentVariables:WDA_UDID "@ + b.udid,
            }) && next.0.stage is Setting
            &&& ok && b.original is None ==> next.1 is Lint && next.0.stage is Linting
            &&& !ok ==> next.1 == (BootCommandView::Finish { started: false })
        },
        b.stage is Setting ==> {
            let next = boot_next(b, BootEventView::Done(ok));
            &&& ok ==> next.1 is Lint && next.0.stage is Linting
            &&& !ok ==> next.1 == (BootCommandView::Edit {
                command: "Add :EnvironmentVariables:WDA_UDID string "@ + b.udid,
            }) && next.0.stage is Adding
        },
        b.stage is Adding ==> {
            let next = boot_next(b, BootEventView::Done(ok));
            &&& ok ==> next.1 is Lint && next.0.stage is Linting
            &&& !ok ==> next.1 is DropCopy && next.0.stage == (BootStage::Discarding {
                restore: false,
            })
        },
        b.stage is Linting ==> {
            let next = boot_next(b, BootEventView::Done(ok));
            &&& ok ==> next.1 is Protect && next.0.stage is Protecting
            &&& !ok ==> next.1 is DropCopy && next.0.stage == (BootStage::Discarding {
                restore: false,
            })
        },
        b.stage is Protecting ==> {
            let next = boot_next(b, BootEventView::Done(ok));
            &&& ok ==> next.1 is ReadCopy && next.0.stage is Comparing
            &&& !ok ==> next.1 is DropCopy && next.0.stage == (BootStage::Discarding {
                restore: false,
            })
        },
        b.stage is Comparing ==> {
            let next = boot_next(b, BootEventView::Copied(bytes));
            &&& b.original == Some(bytes) ==> next.1 is DropCopy && !next.0.changed && next.0.stage
                is Dropping
            &&& b.original != Some(bytes) ==> next.1 is Install && next.0.changed && next.0.stage
                is Installing
            &&& boot_next(b, BootEventView::Done(ok)).1 is DropCopy
        },
        b.stage is Installing ==> {
            let next = boot_next(b, BootEventView::Done(ok));
            &&& ok ==> next.1 is AskLoaded && next.0.stage is Asking
            &&& !ok ==> next.1 is DropCopy && next.0.stage == (BootStage::Discarding {
                restore: true,
            })
        },
        b.stage is Dropping ==> boot_next(b, BootEventView::Done(ok)).1 is AskLoaded,
        b.stage matches BootStage::Discarding { restore } ==> {
            let next = boot_next(b, BootEventView::Done(ok));
            &&& restore ==> next.1 is Restore && next.0.stage is Restoring
            &&& !restore ==> next.1 == (BootCommandView::Finish { started: false })
        },
{
}

/// A job that is not loaded is loaded, and enabled and loaded once more where that
/// did not help; it counts as started only where it is seen to be loaded after it
/// was kicked. Where a changed description could not be loaded at all, the one
/// from before is put back.
pub proof fn law_a_cold_job_is_loaded_and_kicked(b: BootView, ok: bool)
    ensures
        ({
            let next = boot_next(b, BootEventView::Done(ok));
            &&& b.stage is Asking && !ok ==> next.1 is Load && next.0.stage
                == (BootStage::ColdStart { again: false })
            &&& b.stage is Asking && ok ==> next.1 is Enable && next.0.stage is WarmEnable
            &&& b.stage matches BootStage::ColdStart { again } ==> next.1 is AskLoaded
                && next.0.bootstrapped == ok && (if ok || again {
                next.0.stage is ColdCheck
            } else {
                next.0.stage is ColdDoubt
            })
            &&& b.stage is ColdDoubt && ok ==> next.1 is AskLoaded && next.0.stage is ColdCheck
            &&& b.stage is ColdDoubt && !ok ==> next.1 is Enable && next.0.stage is ColdEnable
            &&& b.stage is ColdEnable ==> next.1 is Load && next.0.stage == (BootStage::ColdStart {
                again: true,
            })
            &&& b.stage is ColdCheck && ok ==> next.1 is Kickstart && next.0.stage is ColdKick
            &&& b.stage is ColdCheck && !ok && !b.bootstrapped && b.changed ==> next.1 is Restore
            &&& b.stage is ColdCheck && !ok && (b.bootstrapped || !b.changed) ==> next.1
                == (BootCommandView::Finish { started: false })
            &&& b.stage is ColdKick ==> next.1 is AskLoaded && next.0.stage is ColdVerify
            &&& b.stage is ColdVerify ==> next.1 == (BootCommandView::Finish { started: ok })
        }),
{
}

/// A job that is loaded is kicked where its description is the same, and unloaded
/// and loaded anew where it changed; what goes wrong on the way undoes the change.
pub proof fn law_a_warm_job_is_kicked_or_reloaded(b: BootView, ok: bool)
    ensures
        ({
            let next = boot_next(b, BootEventView::Done(ok));
            let undone = if b.changed {
                next.1 is Unload && next.0.stage is FailedOut
            } else {
                next.1 == (BootCommandView::Finish { started: false })
            };
            &&& b.stage is WarmEnable && ok && b.changed ==> next.1 is Unload && next.0.stage
                is WarmOut
            &&& b.stage is WarmEnable && ok && !b.changed ==> next.1 is Kickstart && next.0.stage
                is WarmKick
            &&& b.stage is WarmKick && ok ==> next.1 is AskLoaded && next.0.stage is WarmVerify
            &&& b.stage is WarmOut ==> next.1 is WaitGone && next.0.stage is WarmGone
            &&& b.stage is WarmGone && ok ==> next.1 is Load && next.0.stage is WarmStart
            &&& b.stage is WarmStart && ok ==> next.1 is AskLoaded && next.0.stage is WarmVerify
            &&& b.stage is WarmVerify && ok ==> next.1 == (BootCommandView::Finish { started: true })
            &&& !ok && (b.stage is WarmEnable || b.stage is WarmKick || b.stage is WarmGone
                || b.stage is WarmStart || b.stage is WarmVerify) ==> undone
            &&& b.stage is FailedOut ==> next.1 is WaitGone && next.0.stage is FailedGone
            &&& b.stage is FailedGone ==> next.1 is Restore && next.0.stage is Restoring
            &&& b.stage is Restoring ==> next.1 == (BootCommandView::Finish { started: false })
            &&& b.stage is Over ==> next.1 is Ignored && next.0 == b
        }),
{
}

/// A runner is stopped only where its script stopped it and its job is gone; the
/// job is waited for at most twenty times a quarter of a second.
pub proof fn law_a_runner_is_stopped_where_its_job_is_gone(
    installed: bool,
    stopped: bool,
    gone: bool,
    loaded: bool,
    looks: u32,
    said: bool,
    step: GoneStep,
)
    ensures
        call_ensures(stop_wda_runner, (installed, stopped, gone), said) ==> (said <==> installed
            && stopped && gone),
        call_ensures(wait_launchd_job_gone, (loaded, looks), step) ==> {
            &&& step is Gone <==> !loaded
            &&& step is StillThere <==> loaded && looks >= 20
            &&& step matches GoneStep::Sleep { ms } ==> loaded && looks < 20 && ms == 250
        },
{
}

} // verus!
