//! Taking the phone back for the agents, or handing it to a person.

use vstd::prelude::*;

use crate::device::{hex_and_dashes, is_hex_and_dashes};
use crate::json::{field_of, json_document, text_of, Json};
use crate::lifecycle::{
    next_round, owned, round_over, LifecycleView, WdaLifecycleTransition, WdaTransitionToken,
};
use crate::reply::{
    bool_text, json_reply, json_retry_reply, opt_str, plain_reply, Reply, ReplyView,
};
use crate::state::{let_go, nothing_known, set_human_handoff, AppState, AppView};
use crate::text::{join3, same_text};

verus! {

/// How the server is set up.
#[derive(Clone, Copy, Debug)]
pub struct ModeConfig<'a> {
    /// The backend drives the phone itself, not a mirror of it.
    pub direct: bool,
    /// This server starts and stops the runner.
    pub managed: bool,
    /// Setup has not chosen a phone yet.
    pub pending: bool,
    /// The phone that is set up.
    pub udid: Option<&'a str>,
    /// The script that builds and starts the runner is there.
    pub setup_installed: bool,
}

/// The mode that a request asks for; empty where it asks for none.
pub open spec fn mode_asked(body: Seq<char>) -> Seq<char> {
    match json_document(body) {
        Some(v) => match text_of(field_of(v, "mode"@)) {
            Some(mode) => mode,
            None => Seq::empty(),
        },
        None => Seq::empty(),
    }
}

/// The phone that a request names.
pub open spec fn udid_asked(body: Seq<char>) -> Option<Seq<char>> {
    match json_document(body) {
        Some(v) => match text_of(field_of(v, "udid"@)) {
            Some(udid) => if udid.len() > 0 {
                Some(udid)
            } else {
                None
            },
            None => None,
        },
        None => None,
    }
}

/// The refusal of a request by its form and the server's setup alone.
pub open spec fn form_refusal(
    config: ModeConfig,
    phase: WdaLifecycleTransition,
    mode: Seq<char>,
    udid: Option<Seq<char>>,
) -> Option<ReplyView> {
    if config.direct && mode == "mirror"@ {
        Some(
            json_reply(
                409,
                r#"{"ok":false,"error":"backend_is_direct","hint":"set PHONE_REMOTE_BACKEND=mirror and restart the daemon to use the legacy compatibility backend"}"#@,
            ),
        )
    } else if !config.direct && mode == "agent"@ {
        Some(
            json_reply(
                409,
                r#"{"ok":false,"error":"backend_is_mirror","hint":"set PHONE_REMOTE_BACKEND=direct and restart the daemon to use device-side WDA control"}"#@,
            ),
        )
    } else if mode == "agent"@ && phase == WdaLifecycleTransition::Releasing {
        Some(json_retry_reply(409, 5, r#"{"ok":false,"error":"device_release_in_progress"}"#@))
    } else if udid matches Some(udid) && !hex_and_dashes(udid) {
        Some(plain_reply(400, "invalid target UDID"@))
    } else if config.direct && mode == "agent"@ && config.pending {
        Some(
            json_reply(
                409,
                r#"{"ok":false,"error":"target_not_configured","hint":"run setup-wda.sh so PHONE_REMOTE_UDID is persisted before starting managed WDA"}"#@,
            ),
        )
    } else if config.direct && (udid matches Some(udid) && opt_str(config.udid) matches Some(
        configured,
    ) && configured != udid) {
        Some(json_reply(409, r#"{"ok":false,"error":"target_change_requires_restart"}"#@))
    } else {
        None
    }
}

/// The refusal of a request to take the phone back.
pub open spec fn agent_refusal(config: ModeConfig, phase: WdaLifecycleTransition) -> Option<
    ReplyView,
> {
    if !config.managed {
        Some(
            json_reply(
                409,
                r#"{"ok":false,"error":"wda_is_externally_managed","recovery_owner":"external","hint":"restart the configured WDA endpoint on its owning host; this daemon will not run local setup or launchctl commands"}"#@,
            ),
        )
    } else if !config.setup_installed {
        Some(
            plain_reply(
                409,
                "setup-wda.sh not installed — run scripts/setup-wda.sh once manually (it self-installs to ~/.iphone-use/) before using mode=agent"@,
            ),
        )
    } else if phase != WdaLifecycleTransition::Active {
        Some(
            json_retry_reply(
                503,
                5,
                r#"{"ok":false,"reconnecting":true,"error":"reconnect_in_progress"}"#@,
            ),
        )
    } else {
        None
    }
}

/// The refusal of a request to hand the phone to a person.
pub open spec fn human_refusal(config: ModeConfig, phase: WdaLifecycleTransition) -> Option<
    ReplyView,
> {
    if !config.direct || !config.managed {
        Some(
            json_reply(
                409,
                r#"{"ok":false,"error":"wda_is_externally_managed","hint":"human hand-off stops the daemon-managed local runner; an external or mirror backend has nothing to hand off"}"#@,
            ),
        )
    } else if phase != WdaLifecycleTransition::Active {
        Some(
            json_retry_reply(
                503,
                5,
                r#"{"ok":false,"error":"lifecycle_busy","hint":"a release or reconnect is in progress — retry in a few seconds"}"#@,
            ),
        )
    } else {
        None
    }
}

/// The refusal of a request, if there is one.
pub open spec fn mode_refusal(
    config: ModeConfig,
    phase: WdaLifecycleTransition,
    mode: Seq<char>,
    udid: Option<Seq<char>>,
) -> Option<ReplyView> {
    match form_refusal(config, phase, mode, udid) {
        Some(reply) => Some(reply),
        None => if mode == "mirror"@ {
            None
        } else if mode == "agent"@ {
            agent_refusal(config, phase)
        } else if mode == "human"@ {
            human_refusal(config, phase)
        } else {
            Some(
                plain_reply(
                    400,
                    r#"body must be {"mode":"mirror"}, {"mode":"agent"}, or {"mode":"human"}"#@,
                ),
            )
        },
    }
}

/// The phone to start: the one that is set up, else the one that was named.
pub open spec fn target(config: ModeConfig, udid: Option<Seq<char>>) -> Seq<char> {
    match (opt_str(config.udid), udid) {
        (Some(configured), _) => configured,
        (None, Some(asked)) => asked,
        (None, None) => Seq::empty(),
    }
}

/// What a request comes to.
#[derive(Debug)]
pub enum ModeStep {
    Refused(Reply),
    /// Open the mirror again; nothing is started or stopped.
    RecoverMirror,
    /// Start the runner on this phone.
    Bootstrap { token: WdaTransitionToken, udid: String },
    /// Stop the runner.
    HandOver { token: WdaTransitionToken },
}

/// The phone's state after a request was admitted.
pub open spec fn mode_begun(state: AppView, mode: Seq<char>, now: u64) -> AppView {
    if mode == "agent"@ {
        AppView {
            lifecycle: next_round(state.lifecycle, WdaLifecycleTransition::Reconnecting),
            handed: false,
            last_activity: now,
            ..state
        }
    } else if mode == "human"@ {
        AppView {
            lifecycle: next_round(state.lifecycle, WdaLifecycleTransition::Releasing),
            ..state
        }
    } else {
        state
    }
}

fn refuse_form(
    config: &ModeConfig,
    phase: WdaLifecycleTransition,
    mode: &str,
    udid: Option<&str>,
) -> (refusal: Option<Reply>)
    ensures
        match refusal {
            Some(reply) => form_refusal(*config, phase, mode@, opt_str(udid)) == Some(reply@),
            None => form_refusal(*config, phase, mode@, opt_str(udid)) is None,
        },
{
    if config.direct && same_text(mode, "mirror") {
        return Some(
            Reply::fixed(
                409,
                r#"{"ok":false,"error":"backend_is_direct","hint":"set PHONE_REMOTE_BACKEND=mirror and restart the daemon to use the legacy compatibility backend"}"#,
            ),
        );
    }
    let agent = same_text(mode, "agent");
    if !config.direct && agent {
        return Some(
            Reply::fixed(
                409,
                r#"{"ok":false,"error":"backend_is_mirror","hint":"set PHONE_REMOTE_BACKEND=direct and restart the daemon to use device-side WDA control"}"#,
            ),
        );
    }
    if agent && phase == WdaLifecycleTransition::Releasing {
        return Some(
            Reply::fixed_retry(409, 5, r#"{"ok":false,"error":"device_release_in_progress"}"#),
        );
    }
    if let Some(udid) = udid {
        if !is_hex_and_dashes(udid) {
            return Some(Reply::plain(400, "invalid target UDID"));
        }
    }
    if config.direct && agent && config.pending {
        return Some(
            Reply::fixed(
                409,
                r#"{"ok":false,"error":"target_not_configured","hint":"run setup-wda.sh so PHONE_REMOTE_UDID is persisted before starting managed WDA"}"#,
            ),
        );
    }
    if config.direct {
        if let (Some(configured), Some(asked)) = (config.udid, udid) {
            if !same_text(configured, asked) {
                return Some(
                    Reply::fixed(409, r#"{"ok":false,"error":"target_change_requires_restart"}"#),
                );
            }
        }
    }
    None
}

/// Decides a request for another mode. It never changes the backend, and never
/// the phone that is set up.
pub fn agent_mode(state: &mut AppState, config: &ModeConfig, body: &str, now: u64) -> (step:
    ModeStep)
    ensures
        match step {
            ModeStep::Refused(reply) => {
                &&& mode_refusal(
                    *config,
                    old(state)@.lifecycle.phase,
                    mode_asked(body@),
                    udid_asked(body@),
                ) == Some(reply@)
                &&& final(state)@ == old(state)@
            },
            _ => {
                &&& mode_refusal(
                    *config,
                    old(state)@.lifecycle.phase,
                    mode_asked(body@),
                    udid_asked(body@),
                ) is None
                &&& final(state)@ == mode_begun(old(state)@, mode_asked(body@), now)
            },
        },
        step is RecoverMirror ==> mode_asked(body@) == "mirror"@,
        step matches ModeStep::Bootstrap { token, udid } ==> {
            &&& mode_asked(body@) == "agent"@
            &&& udid@ == target(*config, udid_asked(body@))
            &&& owned(final(state)@.lifecycle, token)
        },
        step matches ModeStep::HandOver { token } ==> {
            &&& mode_asked(body@) == "human"@
            &&& owned(final(state)@.lifecycle, token)
        },
{
    let parsed = Json::parse(body);
    let mode = match &parsed {
        Some(v) => match v.text_field("mode") {
            Some(mode) => mode.to_string(),
            None => String::new(),
        },
        None => String::new(),
    };
    assert(mode@ =~= mode_asked(body@));
    let asked = match &parsed {
        Some(v) => match v.text_field("udid") {
            Some(udid) => if udid.is_empty() {
                None
            } else {
                Some(udid)
            },
            None => None,
        },
        None => None,
    };
    assert(opt_str(asked) == udid_asked(body@));
    let phase = state.lifecycle.current();
    if let Some(reply) = refuse_form(config, phase, mode.as_str(), asked) {
        return ModeStep::Refused(reply);
    }
    if same_text(mode.as_str(), "mirror") {
        proof {
            reveal_strlit("mirror");
            reveal_strlit("agent");
            reveal_strlit("human");
            assert("mirror"@.len() == 6 && "agent"@.len() == 5 && "human"@.len() == 5);
        }
        return ModeStep::RecoverMirror;
    }
    if same_text(mode.as_str(), "agent") {
        if !config.managed {
            return ModeStep::Refused(
                Reply::fixed(
                    409,
                    r#"{"ok":false,"error":"wda_is_externally_managed","recovery_owner":"external","hint":"restart the configured WDA endpoint on its owning host; this daemon will not run local setup or launchctl commands"}"#,
                ),
            );
        }
        if !config.setup_installed {
            return ModeStep::Refused(
                Reply::plain(
                    409,
                    "setup-wda.sh not installed — run scripts/setup-wda.sh once manually (it self-installs to ~/.iphone-use/) before using mode=agent",
                ),
            );
        }
        return match state.lifecycle.try_begin_reconnecting() {
            Some(token) => {
                set_human_handoff(&mut state.handoff, false);
                state.touch_activity(now);
                let udid = match (config.udid, asked) {
                    (Some(configured), _) => configured.to_string(),
                    (None, Some(asked)) => asked.to_string(),
                    (None, None) => String::new(),
                };
                assert(udid@ =~= target(*config, udid_asked(body@)));
                ModeStep::Bootstrap { token, udid }
            },
            None => ModeStep::Refused(
                Reply::fixed_retry(
                    503,
                    5,
                    r#"{"ok":false,"reconnecting":true,"error":"reconnect_in_progress"}"#,
                ),
            ),
        };
    }
    if same_text(mode.as_str(), "human") {
        if !config.direct || !config.managed {
            return ModeStep::Refused(
                Reply::fixed(
                    409,
                    r#"{"ok":false,"error":"wda_is_externally_managed","hint":"human hand-off stops the daemon-managed local runner; an external or mirror backend has nothing to hand off"}"#,
                ),
            );
        }
        return match state.lifecycle.try_begin_releasing() {
            Some(token) => ModeStep::HandOver { token },
            None => ModeStep::Refused(
                Reply::fixed_retry(
                    503,
                    5,
                    r#"{"ok":false,"error":"lifecycle_busy","hint":"a release or reconnect is in progress — retry in a few seconds"}"#,
                ),
            ),
        };
    }
    ModeStep::Refused(
        Reply::plain(
            400,
            r#"body must be {"mode":"mirror"}, {"mode":"agent"}, or {"mode":"human"}"#,
        ),
    )
}

/// The answer once the mirror is open again.
pub fn mirror_recovering() -> (reply: Reply)
    ensures
        reply@ == json_reply(
            200,
            r#"{"ok":true,"mode":"mirror","recovering":true,"switching":true,"stopped_via_script":false}"#@,
        ),
{
    Reply::fixed(
        200,
        r#"{"ok":true,"mode":"mirror","recovering":true,"switching":true,"stopped_via_script":false}"#,
    )
}

/// The state after the attempt to start the runner: begun, nothing is known of
/// it yet and the transition goes on until it is ready; refused, the transition
/// is over.
pub open spec fn bootstrap_next(state: AppView, round: LifecycleView, begun: bool) -> AppView {
    if begun {
        nothing_known(state)
    } else {
        AppView {
            lifecycle: if state.lifecycle == round {
                round_over(state.lifecycle)
            } else {
                state.lifecycle
            },
            ..state
        }
    }
}

/// Notes the attempt to start the runner.
pub fn bootstrap_noted(state: &mut AppState, token: WdaTransitionToken, begun: bool)
    requires
        token.round().phase == WdaLifecycleTransition::Reconnecting,
    ensures
        final(state)@ == bootstrap_next(old(state)@, token.round(), begun),
{
    if begun {
        state.note_started();
    } else {
        state.lifecycle.finish_reconnecting(token);
    }
}

/// The answer to a request to take the phone back.
pub open spec fn started_reply(begun: bool, log: Seq<char>) -> ReplyView {
    json_reply(
        if begun {
            200
        } else {
            502
        },
        r#"{"ok":"#@ + bool_text(begun) + r#","mode":"agent","starting":"#@ + bool_text(begun)
            + r#","reconnecting":"#@ + bool_text(begun) + r#","self_healing":true,"log":""#@ + log
            + r#"","hint":"if the phone is locked, unlock it once now — startup remains reconnecting until WDA can perform actions"}"#@,
    )
}

fn flag_text(flag: bool) -> (text: &'static str)
    ensures
        text@ == bool_text(flag),
{
    if flag {
        "true"
    } else {
        "false"
    }
}

pub fn started_response(begun: bool, log: &str) -> (reply: Reply)
    ensures
        reply@ == started_reply(begun, log@),
{
    let flag = flag_text(begun);
    let text = join3(r#"{"ok":"#, flag, r#","mode":"agent","starting":"#);
    let text = join3(text.as_str(), flag, r#","reconnecting":"#);
    let text = join3(text.as_str(), flag, r#","self_healing":true,"log":""#);
    let text = join3(
        text.as_str(),
        log,
        r#"","hint":"if the phone is locked, unlock it once now — startup remains reconnecting until WDA can perform actions"}"#,
    );
    let status: u16 = if begun {
        200
    } else {
        502
    };
    Reply::json(status, text)
}

/// The state after the attempt to hand the phone over. Only a runner that was
/// stopped leaves the phone to the person.
pub open spec fn handover_next(state: AppView, round: LifecycleView, stopped: bool) -> AppView {
    let after = if stopped {
        AppView { handed: true, ..let_go(state) }
    } else {
        state
    };
    AppView {
        lifecycle: if state.lifecycle == round {
            round_over(state.lifecycle)
        } else {
            state.lifecycle
        },
        ..after
    }
}

/// Notes the attempt to hand the phone over.
pub fn handover_noted(state: &mut AppState, token: WdaTransitionToken, stopped: bool)
    requires
        token.round().phase == WdaLifecycleTransition::Releasing,
    ensures
        final(state)@ == handover_next(old(state)@, token.round(), stopped),
{
    if stopped {
        state.note_released();
        set_human_handoff(&mut state.handoff, true);
    }
    state.lifecycle.finish_releasing(token);
}

/// The answer to a request to hand the phone over.
pub open spec fn handover_reply(stopped: bool, mirroring_opened: bool) -> ReplyView {
    json_reply(
        if stopped {
            200
        } else {
            502
        },
        r#"{"ok":"#@ + bool_text(stopped) + r#","mode":"human","released":"#@ + bool_text(stopped)
            + r#","mirroring_opened":"#@ + bool_text(mirroring_opened)
            + r#","hint":"the phone is yours: use iPhone Mirroring on this Mac (locally or over Screen Sharing); POST {\"mode\":\"agent\"} hands it back to the agent"}"#@,
    )
}

pub fn handover_response(stopped: bool, mirroring_opened: bool) -> (reply: Reply)
    ensures
        reply@ == handover_reply(stopped, mirroring_opened),
{
    let flag = flag_text(stopped);
    let text = join3(r#"{"ok":"#, flag, r#","mode":"human","released":"#);
    let text = join3(text.as_str(), flag, r#","mirroring_opened":"#);
    let text = join3(
        text.as_str(),
        flag_text(mirroring_opened),
        r#","hint":"the phone is yours: use iPhone Mirroring on this Mac (locally or over Screen Sharing); POST {\"mode\":\"agent\"} hands it back to the agent"}"#,
    );
    let status: u16 = if stopped {
        200
    } else {
        502
    };
    Reply::json(status, text)
}

/// The phone goes to a person only once its runner is stopped, and only a
/// request to take it back ends that.
pub proof fn law_the_phone_is_handed_over_and_taken_back(
    state: AppView,
    round: LifecycleView,
    mode: Seq<char>,
    now: u64,
)
    ensures
        handover_next(state, round, true).handed && handover_next(state, round, true).released,
        !handover_next(state, round, false).handed || state.handed,
        !mode_begun(state, "agent"@, now).handed,
        mode != "agent"@ ==> mode_begun(state, mode, now).handed == state.handed,
{
}

/// No request changes the phone that is set up: one that names another is
/// refused, and what is started is the one that is set up.
pub proof fn law_a_request_never_switches_the_phone(
    config: ModeConfig,
    phase: WdaLifecycleTransition,
    mode: Seq<char>,
    udid: Option<Seq<char>>,
)
    requires
        config.direct,
        opt_str(config.udid) is Some,
    ensures
        target(config, udid) == opt_str(config.udid)->0,
        udid is Some && udid != opt_str(config.udid) ==> mode_refusal(config, phase, mode, udid)
            is Some,
{
}

/// The lengths and some letters of words, which tell them apart.
proof fn lemma_mode_words()
    ensures
        "agent"@.len() == 5,
        "agent"@[0] == 'a',
        "human"@.len() == 5,
        "human"@[0] == 'h',
        "mirror"@.len() == 6,
{
    reveal_strlit("agent");
    reveal_strlit("human");
    reveal_strlit("mirror");
}

/// A request for a mode is followed exactly where the mode is one that this server
/// has, the phone is the configured one, and nothing is under way; a server of
/// one kind never turns into the other.
pub proof fn law_a_mode_is_followed_where_it_can_be(
    config: ModeConfig,
    phase: WdaLifecycleTransition,
    mode: Seq<char>,
    udid: Option<Seq<char>>,
)
    ensures
        ({
            let refusal = mode_refusal(config, phase, mode, udid);
            let fit = udid is None || hex_and_dashes(udid->0);
            let same = udid is None || opt_str(config.udid) is None || opt_str(config.udid) == udid;
            &&& mode == "agent"@ ==> (refusal is None <==> config.direct && fit && !config.pending
                && same && config.managed && config.setup_installed && phase is Active)
            &&& mode == "human"@ ==> (refusal is None <==> config.direct && fit && same
                && config.managed && phase is Active)
            &&& mode == "mirror"@ ==> (refusal is None <==> !config.direct && fit)
            &&& mode != "agent"@ && mode != "human"@ && mode != "mirror"@ ==> refusal is Some
            &&& mode == "mirror"@ && config.direct ==> refusal->0.status == 409
            &&& mode == "agent"@ && !config.direct ==> refusal->0.status == 409
            &&& mode == "agent"@ && config.direct && phase is Releasing ==> refusal->0.status == 409
                && refusal->0.retry_after == Some(5u64)
            &&& mode == "human"@ && !config.direct && fit ==> refusal->0.status == 409
            &&& !fit && mode == "human"@ ==> refusal == Some(
                plain_reply(400, "invalid target UDID"@),
            )
            &&& mode == "agent"@ && config.direct && phase !is Releasing && fit && config.pending
                ==> refusal->0.status == 409
            &&& mode == "human"@ && config.direct && fit && !same ==> refusal == Some(
                json_reply(409, r#"{"ok":false,"error":"target_change_requires_restart"}"#@),
            )
            &&& mode == "agent"@ && config.direct && fit && same && !config.pending
                && !config.managed && phase is Active ==> refusal->0.status == 409
                && refusal->0.media is Json
            &&& mode == "agent"@ && config.direct && fit && same && !config.pending
                && config.managed && !config.setup_installed && phase is Active
                ==> refusal->0.status == 409 && refusal->0.media is Plain
            &&& mode == "agent"@ && config.direct && fit && same && !config.pending
                && config.managed && config.setup_installed && phase is Reconnecting
                ==> refusal->0.status == 503 && refusal->0.retry_after == Some(5u64)
            &&& mode == "human"@ && config.direct && fit && same && config.managed && phase
                !is Active ==> refusal->0.status == 503 && refusal->0.retry_after == Some(5u64)
        }),
{
    lemma_mode_words();
}

/// What a request asks for is in its document: the mode by that name, and the
/// phone by its id where it gives one.
pub proof fn law_a_mode_is_what_its_document_says(body: Seq<char>, config: ModeConfig)
    ensures
        json_document(body) is None ==> mode_asked(body).len() == 0 && udid_asked(body) is None,
        json_document(body) matches Some(v) ==> (text_of(field_of(v, "mode"@)) matches Some(mode)
            ==> mode_asked(body) == mode),
        json_document(body) matches Some(v) ==> (text_of(field_of(v, "mode"@)) is None
            ==> mode_asked(body).len() == 0),
        udid_asked(body) matches Some(udid) ==> udid.len() > 0 && (json_document(body) matches Some(
            v,
        ) && text_of(field_of(v, "udid"@)) == Some(udid)),
        config.udid matches Some(configured) ==> target(config, udid_asked(body)) == configured@,
        config.udid is None && udid_asked(body) is Some ==> Some(target(config, udid_asked(body)))
            == udid_asked(body),
        config.udid is None && udid_asked(body) is None ==> target(config, udid_asked(body)).len()
            == 0,
{
}

/// Taking the phone back begins a reconnect and ends the hand-over; handing it
/// over begins a release. A start that succeeded leaves its round to the wait for
/// the runner; one that failed, and every hand-over, ends its own round.
pub proof fn law_a_mode_begins_and_ends_its_round(
    state: AppView,
    round: LifecycleView,
    done: bool,
    now: u64,
)
    ensures
        mode_begun(state, "agent"@, now).lifecycle == next_round(
            state.lifecycle,
            WdaLifecycleTransition::Reconnecting,
        ),
        !mode_begun(state, "agent"@, now).handed,
        mode_begun(state, "agent"@, now).last_activity == now,
        mode_begun(state, "agent"@, now).owner == state.owner,
        mode_begun(state, "human"@, now).lifecycle == next_round(
            state.lifecycle,
            WdaLifecycleTransition::Releasing,
        ),
        mode_begun(state, "human"@, now).handed == state.handed,
        mode_begun(state, "human"@, now).released == state.released,
        mode_begun(state, "mirror"@, now) == state,
        bootstrap_next(state, round, true) == nothing_known(state),
        state.lifecycle == round ==> bootstrap_next(state, round, false).lifecycle.phase is Active,
        state.lifecycle != round ==> bootstrap_next(state, round, false) == state,
        ({
            let after = handover_next(state, round, done);
            &&& done ==> after.handed && after.released && after.owner is None && !after.actionable
            &&& !done ==> after.handed == state.handed && after.released == state.released
                && after.owner == state.owner
            &&& state.lifecycle == round ==> after.lifecycle.phase is Active
            &&& state.lifecycle != round ==> after.lifecycle == state.lifecycle
        }),
{
    lemma_mode_words();
}

/// Whoever starts the runner or hands the phone over is told whether it was done.
pub proof fn law_a_mode_is_answered_as_it_went(log: Seq<char>, opened: bool)
    ensures
        started_reply(true, log).status == 200,
        started_reply(false, log).status == 502,
        handover_reply(true, opened).status == 200,
        handover_reply(false, opened).status == 502,
        started_reply(true, log).body == r#"{"ok":"#@ + "true"@ + r#","mode":"agent","starting":"#@
            + "true"@ + r#","reconnecting":"#@ + "true"@ + r#","self_healing":true,"log":""#@ + log
            + r#"","hint":"if the phone is locked, unlock it once now — startup remains reconnecting until WDA can perform actions"}"#@,
        started_reply(false, log).body == r#"{"ok":"#@ + "false"@ + r#","mode":"agent","starting":"#@
            + "false"@ + r#","reconnecting":"#@ + "false"@ + r#","self_healing":true,"log":""#@
            + log
            + r#"","hint":"if the phone is locked, unlock it once now — startup remains reconnecting until WDA can perform actions"}"#@,
        handover_reply(true, opened).body == r#"{"ok":"#@ + "true"@ + r#","mode":"human","released":"#@
            + "true"@ + r#","mirroring_opened":"#@ + bool_text(opened)
            + r#","hint":"the phone is yours: use iPhone Mirroring on this Mac (locally or over Screen Sharing); POST {\"mode\":\"agent\"} hands it back to the agent"}"#@,
{
}

} // verus!
