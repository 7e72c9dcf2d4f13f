//! What this server can do with its phone, and whether it can do it now. Asking
//! wakes nothing and takes nothing from anyone.

use vstd::prelude::*;

use crate::action::action_error;
use crate::control::{agent_plan, refused, type_of};
use crate::json::JsonView;
use crate::lifecycle::WdaLifecycleTransition;
use crate::locator::{perform_action_names, perform_verbs, strs};
use crate::owner::{
    admitted, claim_of, lease_live, owner_claim_from_headers, ClaimView, OwnerClaim, OwnerView,
    PhoneOwner, slot_view,
};
use crate::reply::{
    array_of, array_text, bool_text, json_reply, json_string, json_string_text, object_text,
    opt_bool_text, opt_str, opt_string_text, string_items, texts, ObjectText, Reply,
};
use crate::state::{human_handoff_active, AppState, AppView};
use crate::text::{decimal, same_text};

verus! {

/// The actions that an agent may send one at a time.
pub open spec fn single_step_actions() -> Seq<Seq<char>> {
    seq![
        "alert"@,
        "back"@,
        "drag"@,
        "home"@,
        "key"@,
        "keyboard"@,
        "launch_app"@,
        "longpress"@,
        "perform"@,
        "picker"@,
        "scroll"@,
        "set_value"@,
        "shortcut"@,
        "swipe"@,
        "tap"@,
        "tap_locator"@,
        "text"@,
    ]
}

/// The actions that a step of a batch may be. They are checked on their own, and
/// so advertised on their own.
pub open spec fn batch_actions() -> Seq<Seq<char>> {
    single_step_actions()
}

/// The actions that a mirrored phone can take.
pub open spec fn mirror_actions() -> Seq<Seq<char>> {
    seq![
        "down"@,
        "up"@,
        "tap"@,
        "longpress"@,
        "scroll"@,
        "shortcut"@,
        "text"@,
        "key"@,
    ]
}

pub fn capability_single_step_actions() -> (names: Vec<&'static str>)
    ensures
        strs(names@) == single_step_actions(),
{
    let names: Vec<&'static str> = vec![
        "alert",
        "back",
        "drag",
        "home",
        "key",
        "keyboard",
        "launch_app",
        "longpress",
        "perform",
        "picker",
        "scroll",
        "set_value",
        "shortcut",
        "swipe",
        "tap",
        "tap_locator",
        "text",
    ];
    assert(strs(names@) =~= single_step_actions());
    names
}

pub fn capability_batch_actions() -> (names: Vec<&'static str>)
    ensures
        strs(names@) == batch_actions(),
{
    capability_single_step_actions()
}

pub fn capability_mirror_actions() -> (names: Vec<&'static str>)
    ensures
        strs(names@) == mirror_actions(),
{
    let names: Vec<&'static str> = vec![
        "down",
        "up",
        "tap",
        "longpress",
        "scroll",
        "shortcut",
        "text",
        "key",
    ];
    assert(strs(names@) =~= mirror_actions());
    names
}

/// Nothing is done for an agent that is not advertised: every document that is
/// not refused for its kind has an advertised one, and so has every step that a
/// batch accepts.
pub proof fn law_what_is_done_is_advertised(v: JsonView, index: nat)
    ensures
        agent_plan(v) != refused() ==> single_step_actions().contains(type_of(v)),
        action_error(v, index) is None ==> batch_actions().contains(type_of(v)),
{
    let all = single_step_actions();
    assert(all[0] == "alert"@ && all[1] == "back"@ && all[2] == "drag"@ && all[3] == "home"@
        && all[4] == "key"@ && all[5] == "keyboard"@ && all[6] == "launch_app"@ && all[7]
        == "longpress"@ && all[8] == "perform"@ && all[9] == "picker"@ && all[10] == "scroll"@
        && all[11] == "set_value"@ && all[12] == "shortcut"@ && all[13] == "swipe"@ && all[14]
        == "tap"@ && all[15] == "tap_locator"@ && all[16] == "text"@);
}

/// How a caller stands to whoever has the phone.
#[derive(Clone, Copy, Debug, PartialEq, Eq, Structural)]
pub enum CapabilityOwnership {
    /// Nobody has it.
    Free,
    /// The caller has it.
    Same,
    /// Another has it, and this caller's takeover would get it.
    TakeoverPermitted,
    /// Another has it, and this caller would be refused.
    Refused,
    /// Whoever had it has let it lapse.
    Expired,
}

pub open spec fn ownership(
    slot: Option<OwnerView>,
    claim: Option<ClaimView>,
    now: u64,
    lease: u64,
) -> CapabilityOwnership {
    if slot is None {
        CapabilityOwnership::Free
    } else if !lease_live(slot, now, lease) {
        CapabilityOwnership::Expired
    } else {
        match claim {
            None => CapabilityOwnership::Refused,
            Some(claim) => if !admitted(slot, claim, now, lease) {
                CapabilityOwnership::Refused
            } else if claim matches ClaimView::Takeover(name) && name != slot->0.name {
                CapabilityOwnership::TakeoverPermitted
            } else {
                CapabilityOwnership::Same
            },
        }
    }
}

/// Tells how a caller stands to whoever has the phone, without touching the
/// lease.
pub fn capability_ownership(
    slot: &Option<PhoneOwner>,
    owner: Option<&str>,
    takeover: Option<&str>,
    now: u64,
    lease: u64,
) -> (standing: CapabilityOwnership)
    ensures
        standing == ownership(
            slot_view(*slot),
            claim_of(opt_str(owner), opt_str(takeover)),
            now,
            lease,
        ),
{
    let current = match slot {
        Some(current) => current,
        None => {
            return CapabilityOwnership::Free;
        },
    };
    if now.saturating_sub(current.last_seen) >= lease {
        return CapabilityOwnership::Expired;
    }
    match owner_claim_from_headers(owner, takeover) {
        Err(_) => CapabilityOwnership::Refused,
        Ok(OwnerClaim::Anonymous) => CapabilityOwnership::Refused,
        Ok(OwnerClaim::Named(name)) => if same_text(name.as_str(), current.name.as_str()) {
            CapabilityOwnership::Same
        } else {
            CapabilityOwnership::Refused
        },
        Ok(OwnerClaim::Takeover(name)) => if same_text(name.as_str(), current.name.as_str()) {
            CapabilityOwnership::Same
        } else {
            CapabilityOwnership::TakeoverPermitted
        },
    }
}

/// What is said of a caller's standing agrees with what would become of its
/// request.
pub proof fn law_standing_agrees_with_admission(
    slot: Option<OwnerView>,
    claim: ClaimView,
    now: u64,
    lease: u64,
)
    ensures
        (ownership(slot, Some(claim), now, lease) is Refused) == !admitted(slot, claim, now, lease),
        ownership(slot, Some(claim), now, lease) is Same ==> slot is Some && (claim
            == ClaimView::Named(slot->0.name) || claim == ClaimView::Takeover(slot->0.name)),
        ownership(slot, Some(claim), now, lease) is TakeoverPermitted ==> claim is Takeover,
{
}

pub open spec fn ownership_name(standing: CapabilityOwnership) -> Seq<char> {
    match standing {
        CapabilityOwnership::Free => "free"@,
        CapabilityOwnership::Same => "self"@,
        CapabilityOwnership::TakeoverPermitted => "takeover_permitted"@,
        CapabilityOwnership::Refused => "refused"@,
        CapabilityOwnership::Expired => "expired"@,
    }
}

fn name_of(standing: CapabilityOwnership) -> (name: &'static str)
    ensures
        name@ == ownership_name(standing),
{
    match standing {
        CapabilityOwnership::Free => "free",
        CapabilityOwnership::Same => "self",
        CapabilityOwnership::TakeoverPermitted => "takeover_permitted",
        CapabilityOwnership::Refused => "refused",
        CapabilityOwnership::Expired => "expired",
    }
}

/// Whether the phone can be driven now, where that is known, and what is in the
/// way. What a caller can do something about comes first.
pub open spec fn availability(
    state: AppView,
    direct: bool,
    standing: CapabilityOwnership,
) -> (Option<bool>, Option<Seq<char>>) {
    if !direct {
        (None, Some("backend_is_mirror"@))
    } else if state.released && state.handed {
        (Some(false), Some("human_handoff"@))
    } else if state.lifecycle.phase == WdaLifecycleTransition::Releasing {
        (Some(false), Some("releasing"@))
    } else if state.lifecycle.phase == WdaLifecycleTransition::Reconnecting {
        (Some(false), Some("reconnecting"@))
    } else if state.released {
        (Some(false), Some("released"@))
    } else if state.health.locked == Some(true) {
        (Some(false), Some("locked"@))
    } else if standing == CapabilityOwnership::Refused {
        (Some(false), Some("owned_by_other"@))
    } else if state.actionable {
        (Some(true), None)
    } else if state.health.up {
        (Some(false), Some("not_actionable"@))
    } else {
        (Some(false), Some("offline"@))
    }
}

fn available(state: &AppState, direct: bool, standing: CapabilityOwnership) -> (known: (
    Option<bool>,
    Option<&'static str>,
))
    ensures
        (known.0, opt_str(known.1)) == availability(state@, direct, standing),
{
    let locked = match state.health.locked {
        Some(locked) => locked,
        None => false,
    };
    if !direct {
        (None, Some("backend_is_mirror"))
    } else if state.released && human_handoff_active(&state.handoff) {
        (Some(false), Some("human_handoff"))
    } else if state.lifecycle.is_releasing() {
        (Some(false), Some("releasing"))
    } else if state.lifecycle.is_reconnecting() {
        (Some(false), Some("reconnecting"))
    } else if state.released {
        (Some(false), Some("released"))
    } else if locked {
        (Some(false), Some("locked"))
    } else if standing == CapabilityOwnership::Refused {
        (Some(false), Some("owned_by_other"))
    } else if state.actionable {
        (Some(true), None)
    } else if state.health.up {
        (Some(false), Some("not_actionable"))
    } else {
        (Some(false), Some("offline"))
    }
}

/// A phone that can be driven is neither released, nor locked, nor in
/// transition, nor another's.
pub proof fn law_available_means_drivable(
    state: AppView,
    direct: bool,
    standing: CapabilityOwnership,
)
    requires
        availability(state, direct, standing).0 == Some(true),
    ensures
        direct && state.actionable && !state.released && state.lifecycle.phase
            == WdaLifecycleTransition::Active && state.health.locked != Some(true) && standing
            != CapabilityOwnership::Refused,
{
}

pub open spec fn detail_fields(
    state: AppView,
    standing: CapabilityOwnership,
    claim: Option<ClaimView>,
) -> Seq<(Seq<char>, Seq<char>)> {
    seq![
        ("human_handoff"@, bool_text(state.released && state.handed)),
        (
            "needs_owner_identity"@,
            bool_text(
                standing == CapabilityOwnership::Refused && claim == Some(ClaimView::Anonymous),
            ),
        ),
        ("ownership"@, json_string_text(ownership_name(standing))),
        (
            "reconnecting"@,
            bool_text(state.lifecycle.phase == WdaLifecycleTransition::Reconnecting),
        ),
        ("released"@, bool_text(state.released)),
        ("releasing"@, bool_text(state.lifecycle.phase == WdaLifecycleTransition::Releasing)),
        ("wda_actionable"@, bool_text(state.actionable)),
        ("wda_locked"@, opt_bool_text(state.health.locked)),
        ("wda_up"@, bool_text(state.health.up)),
    ]
}

pub open spec fn availability_fields(
    state: AppView,
    direct: bool,
    standing: CapabilityOwnership,
    claim: Option<ClaimView>,
) -> Seq<(Seq<char>, Seq<char>)> {
    let known = availability(state, direct, standing);
    seq![
        ("blocked_by"@, opt_string_text(known.1)),
        ("detail"@, object_text(detail_fields(state, standing, claim))),
        ("evidence"@, json_string_text("cache"@)),
        ("ok"@, opt_bool_text(known.0)),
    ]
}

/// Whether the phone can be driven now, from what is known already.
pub fn capability_availability(
    state: &AppState,
    direct: bool,
    owner: Option<&str>,
    takeover: Option<&str>,
    now: u64,
    lease: u64,
) -> (text: String)
    ensures
        text@ == object_text(
            availability_fields(
                state@,
                direct,
                ownership(
                    state@.owner,
                    claim_of(opt_str(owner), opt_str(takeover)),
                    now,
                    lease,
                ),
                claim_of(opt_str(owner), opt_str(takeover)),
            ),
        ),
{
    let standing = capability_ownership(&state.owner, owner, takeover, now, lease);
    let anonymous = match owner_claim_from_headers(owner, takeover) {
        Ok(OwnerClaim::Anonymous) => true,
        _ => false,
    };
    let handoff = state.released && human_handoff_active(&state.handoff);
    let detail = ObjectText::new().flag("human_handoff", handoff).flag(
        "needs_owner_identity",
        standing == CapabilityOwnership::Refused && anonymous,
    ).text("ownership", name_of(standing)).flag(
        "reconnecting",
        state.lifecycle.is_reconnecting(),
    ).flag("released", state.released).flag("releasing", state.lifecycle.is_releasing()).flag(
        "wda_actionable",
        state.actionable,
    ).opt_flag("wda_locked", state.health.locked).flag("wda_up", state.health.up);
    let ghost claim = claim_of(opt_str(owner), opt_str(takeover));
    assert(detail.fields() =~= detail_fields(state@, standing, claim));
    let detail = detail.finish();
    let known = available(state, direct, standing);
    let body = ObjectText::new().opt_text("blocked_by", known.1).raw(
        "detail",
        detail.as_str(),
    ).text("evidence", "cache").opt_flag("ok", known.0);
    assert(body.fields() =~= availability_fields(state@, direct, standing, claim));
    body.finish()
}

/// How the server is set up, as far as its abilities go.
#[derive(Clone, Copy, Debug, PartialEq, Eq, Structural)]
pub struct CapabilityConfig {
    /// The backend drives the phone itself, not a mirror of it.
    pub direct: bool,
    /// This server starts and stops the runner.
    pub managed: bool,
    /// Setup has not chosen a phone yet.
    pub pending: bool,
}

/// The modes that would be accepted.
pub open spec fn accepted_modes(config: CapabilityConfig) -> Seq<Seq<char>> {
    if !config.direct {
        seq!["mirror"@]
    } else if config.managed {
        seq!["agent"@, "human"@]
    } else {
        Seq::empty()
    }
}

/// Who brings the phone back when it is lost.
pub open spec fn recovery_owner(config: CapabilityConfig) -> Seq<char> {
    if !config.direct {
        "mirror"@
    } else if config.managed {
        "daemon"@
    } else if config.pending {
        "unconfigured"@
    } else {
        "external"@
    }
}

pub fn recovery_owner_of(config: CapabilityConfig) -> (name: &'static str)
    ensures
        name@ == recovery_owner(config),
{
    if !config.direct {
        "mirror"
    } else if config.managed {
        "daemon"
    } else if config.pending {
        "unconfigured"
    } else {
        "external"
    }
}

pub open spec fn backend_name(direct: bool) -> Seq<char> {
    if direct {
        "direct"@
    } else {
        "mirror"@
    }
}

pub open spec fn observation_fields(direct: bool) -> Seq<(Seq<char>, Seq<char>)> {
    seq![
        ("return_delta"@, bool_text(direct)),
        (
            "settle_ms_max"@,
            decimal(
                if direct {
                    5000
                } else {
                    0
                },
            ),
        ),
    ]
}

/// What can be done at all, whether or not the phone is there.
pub open spec fn supported_fields(config: CapabilityConfig) -> Seq<(Seq<char>, Seq<char>)> {
    let none = Seq::<Seq<char>>::empty();
    let batch = if config.direct {
        batch_actions()
    } else {
        none
    };
    let perform = if config.direct {
        perform_verbs()
    } else {
        none
    };
    let single = if config.direct {
        single_step_actions()
    } else {
        mirror_actions()
    };
    seq![
        ("batch_actions"@, array_text(string_items(batch))),
        ("element_tree"@, bool_text(config.direct)),
        ("lifecycle_managed_here"@, bool_text(config.direct && config.managed)),
        ("modes"@, array_text(string_items(accepted_modes(config)))),
        ("observation"@, object_text(observation_fields(config.direct))),
        ("perform_actions"@, array_text(string_items(perform))),
        ("single_step_actions"@, array_text(string_items(single))),
    ]
}

fn name_array(names: &Vec<&'static str>) -> (text: String)
    ensures
        text@ == array_text(string_items(strs(names@))),
{
    let ghost all = string_items(strs(names@));
    let mut quoted: Vec<String> = Vec::new();
    let mut i: usize = 0;
    while i < names.len()
        invariant
            i <= names@.len(),
            all == string_items(strs(names@)),
            texts(quoted@) == all.take(i as int),
        decreases names@.len() - i,
    {
        let one = json_string(names[i]);
        let ghost before = texts(quoted@);
        quoted.push(one);
        assert(texts(quoted@) =~= before.push(one@));
        assert(all.take(i + 1) =~= all.take(i as int).push(json_string_text(names@[i as int]@)));
        i += 1;
    }
    assert(all.take(i as int) =~= all);
    array_of(&quoted)
}

fn supported_text(config: CapabilityConfig) -> (text: String)
    ensures
        text@ == object_text(supported_fields(config)),
{
    let none: Vec<&'static str> = Vec::new();
    assert(strs(none@) =~= Seq::<Seq<char>>::empty());
    let modes: Vec<&'static str> = if !config.direct {
        vec!["mirror"]
    } else if config.managed {
        vec!["agent", "human"]
    } else {
        Vec::new()
    };
    assert(strs(modes@) =~= accepted_modes(config));
    let modes = name_array(&modes);
    let (single, batch, perform) = if config.direct {
        (
            name_array(&capability_single_step_actions()),
            name_array(&capability_batch_actions()),
            name_array(&perform_action_names()),
        )
    } else {
        (name_array(&capability_mirror_actions()), name_array(&none), name_array(&none))
    };
    let longest: u64 = if config.direct {
        5000
    } else {
        0
    };
    let observation = ObjectText::new().flag("return_delta", config.direct).count(
        "settle_ms_max",
        longest,
    );
    assert(observation.fields() =~= observation_fields(config.direct));
    let observation = observation.finish();
    let body = ObjectText::new().raw("batch_actions", batch.as_str()).flag(
        "element_tree",
        config.direct,
    ).flag("lifecycle_managed_here", config.direct && config.managed).raw(
        "modes",
        modes.as_str(),
    ).raw("observation", observation.as_str()).raw("perform_actions", perform.as_str()).raw(
        "single_step_actions",
        single.as_str(),
    );
    assert(body.fields() =~= supported_fields(config));
    body.finish()
}

pub open spec fn capability_fields(config: CapabilityConfig, available: Seq<char>) -> Seq<
    (Seq<char>, Seq<char>),
> {
    seq![
        ("available"@, available),
        ("backend"@, json_string_text(backend_name(config.direct))),
        ("ok"@, bool_text(true)),
        ("recovery_owner"@, json_string_text(recovery_owner(config))),
        ("scope"@, json_string_text("ui_control"@)),
        ("supported"@, object_text(supported_fields(config))),
    ]
}

/// Answers what this server can do, and whether it can do it now.
pub fn agent_capabilities(
    state: &AppState,
    config: CapabilityConfig,
    owner: Option<&str>,
    takeover: Option<&str>,
    now: u64,
    lease: u64,
) -> (reply: Reply)
    ensures
        reply@ == json_reply(
            200,
            object_text(
                capability_fields(
                    config,
                    object_text(
                        availability_fields(
                            state@,
                            config.direct,
                            ownership(
                                state@.owner,
                                claim_of(opt_str(owner), opt_str(takeover)),
                                now,
                                lease,
                            ),
                            claim_of(opt_str(owner), opt_str(takeover)),
                        ),
                    ),
                ),
            ),
        ),
{
    let available = capability_availability(state, config.direct, owner, takeover, now, lease);
    let supported = supported_text(config);
    let backend = if config.direct {
        "direct"
    } else {
        "mirror"
    };
    let body = ObjectText::new().raw("available", available.as_str()).text("backend", backend).flag(
        "ok",
        true,
    ).text("recovery_owner", recovery_owner_of(config)).text("scope", "ui_control").raw(
        "supported",
        supported.as_str(),
    );
    assert(body.fields() =~= capability_fields(config, available@));
    Reply::json(200, body.finish())
}

/// Every mode that is advertised is one that can be asked for, and none is where
/// nobody could carry it out.
pub proof fn law_no_mode_is_promised_in_vain(config: CapabilityConfig)
    ensures
        config.direct && !config.managed ==> accepted_modes(config).len() == 0,
        config.direct ==> !accepted_modes(config).contains("mirror"@),
        !config.direct ==> !accepted_modes(config).contains("agent"@),
{
    reveal_strlit("mirror");
    reveal_strlit("agent");
    reveal_strlit("human");
    assert("mirror"@.len() == 6 && "agent"@.len() == 5 && "human"@.len() == 5);
}

/// The names of the actions that are advertised: those that one request or a
/// batch may ask of a phone that is driven directly, and those that the mirrored
/// phone takes.
pub proof fn law_the_advertised_actions_are_these(name: Seq<char>)
    ensures
        single_step_actions().contains(name) <==> name == "alert"@ || name == "back"@ || name
            == "drag"@ || name == "home"@ || name == "key"@ || name == "keyboard"@ || name
            == "launch_app"@ || name == "longpress"@ || name == "perform"@ || name == "picker"@
            || name == "scroll"@ || name == "set_value"@ || name == "shortcut"@ || name
            == "swipe"@ || name == "tap"@ || name == "tap_locator"@ || name == "text"@,
        batch_actions() == single_step_actions(),
        mirror_actions().contains(name) <==> name == "down"@ || name == "up"@ || name == "tap"@
            || name == "longpress"@ || name == "scroll"@ || name == "shortcut"@ || name == "text"@
            || name == "key"@,
{
    let a = single_step_actions();
    assert(a[0] == "alert"@);
    assert(a[1] == "back"@);
    assert(a[2] == "drag"@);
    assert(a[3] == "home"@);
    assert(a[4] == "key"@);
    assert(a[5] == "keyboard"@);
    assert(a[6] == "launch_app"@);
    assert(a[7] == "longpress"@);
    assert(a[8] == "perform"@);
    assert(a[9] == "picker"@);
    assert(a[10] == "scroll"@);
    assert(a[11] == "set_value"@);
    assert(a[12] == "shortcut"@);
    assert(a[13] == "swipe"@);
    assert(a[14] == "tap"@);
    assert(a[15] == "tap_locator"@);
    assert(a[16] == "text"@);
    let m = mirror_actions();
    assert(m[0] == "down"@);
    assert(m[1] == "up"@);
    assert(m[2] == "tap"@);
    assert(m[3] == "longpress"@);
    assert(m[4] == "scroll"@);
    assert(m[5] == "shortcut"@);
    assert(m[6] == "text"@);
    assert(m[7] == "key"@);
}

/// Where a caller stands: a phone without an owner is free, one whose lease has
/// lapsed may be had, and a live lease is its own session's, or can be taken over
/// by whoever asks to.
pub proof fn law_a_caller_stands_by_the_lease(
    owner: OwnerView,
    claim: ClaimView,
    now: u64,
    lease: u64,
)
    ensures
        ownership(None, Some(claim), now, lease) is Free,
        ownership(None, None, now, lease) is Free,
        !lease_live(Some(owner), now, lease) ==> ownership(Some(owner), Some(claim), now, lease)
            is Expired,
        lease_live(Some(owner), now, lease) ==> {
            let standing = ownership(Some(owner), Some(claim), now, lease);
            &&& claim is Anonymous ==> standing is Refused
            &&& claim matches ClaimView::Named(name) ==> (if name == owner.name {
                standing is Same
            } else {
                standing is Refused
            })
            &&& claim matches ClaimView::Takeover(name) ==> (if name == owner.name {
                standing is Same
            } else {
                standing is TakeoverPermitted
            })
            &&& ownership(Some(owner), None, now, lease) is Refused
        },
        ownership_name(CapabilityOwnership::Free) == "free"@,
        ownership_name(CapabilityOwnership::Same) == "self"@,
        ownership_name(CapabilityOwnership::TakeoverPermitted) == "takeover_permitted"@,
        ownership_name(CapabilityOwnership::Refused) == "refused"@,
        ownership_name(CapabilityOwnership::Expired) == "expired"@,
{
}

/// The phone can be driven now exactly where nothing is in the way, and what is in
/// the way is told: a person before a transition, a transition before the state
/// of the phone, the phone before its owner, the owner before the runner.
pub proof fn law_what_is_in_the_way_is_told(
    state: AppView,
    direct: bool,
    standing: CapabilityOwnership,
)
    ensures
        ({
            let (ok, why) = availability(state, direct, standing);
            let person = state.released && state.handed;
            let moving = state.lifecycle.phase !is Active;
            let locked = state.health.locked == Some(true);
            &&& !direct ==> ok is None && why == Some("backend_is_mirror"@)
            &&& direct ==> {
                &&& ok == Some(true) <==> !moving && !state.released && !locked && standing
                    !is Refused && state.actionable
                &&& ok == Some(true) <==> why is None
                &&& ok is Some
                &&& person ==> why == Some("human_handoff"@)
                &&& !person && state.lifecycle.phase is Releasing ==> why == Some("releasing"@)
                &&& !person && state.lifecycle.phase is Reconnecting ==> why == Some(
                    "reconnecting"@,
                )
                &&& !person && !moving && state.released ==> why == Some("released"@)
                &&& !moving && !state.released && locked ==> why == Some("locked"@)
                &&& !moving && !state.released && !locked && standing is Refused ==> why == Some(
                    "owned_by_other"@,
                )
                &&& !moving && !state.released && !locked && standing !is Refused
                    && !state.actionable && state.health.up ==> why == Some("not_actionable"@)
                &&& !moving && !state.released && !locked && standing !is Refused
                    && !state.actionable && !state.health.up ==> why == Some("offline"@)
            }
        }),
{
}

/// What is offered and who recovers the runner goes by how the phone is reached
/// and by whom its runner is kept.
pub proof fn law_what_is_offered_goes_by_the_configuration(config: CapabilityConfig, mode: Seq<char>)
    ensures
        !config.direct ==> (accepted_modes(config).contains(mode) <==> mode == "mirror"@),
        config.direct && config.managed ==> (accepted_modes(config).contains(mode) <==> mode
            == "agent"@ || mode == "human"@),
        config.direct && !config.managed ==> !accepted_modes(config).contains(mode),
        !config.direct ==> recovery_owner(config) == "mirror"@,
        config.direct && config.managed ==> recovery_owner(config) == "daemon"@,
        config.direct && !config.managed && config.pending ==> recovery_owner(config)
            == "unconfigured"@,
        config.direct && !config.managed && !config.pending ==> recovery_owner(config)
            == "external"@,
        backend_name(true) == "direct"@,
        backend_name(false) == "mirror"@,
        observation_fields(true) == seq![("return_delta"@, "true"@), ("settle_ms_max"@, decimal(5000))],
        observation_fields(false) == seq![("return_delta"@, "false"@), ("settle_ms_max"@, decimal(0))],
{
    let modes = accepted_modes(config);
    if !config.direct {
        assert(modes[0] == "mirror"@);
    } else if config.managed {
        assert(modes[0] == "agent"@);
        assert(modes[1] == "human"@);
    }
}

/// Beside the verdict stands what it was drawn from.
pub proof fn law_the_state_is_told_in_detail(
    state: AppView,
    standing: CapabilityOwnership,
    claim: Option<ClaimView>,
)
    ensures
        detail_fields(state, standing, claim).contains(("human_handoff"@, bool_text(state.released && state.handed))),
        detail_fields(state, standing, claim).contains(("needs_owner_identity"@, bool_text(standing is Refused && claim == Some(ClaimView::Anonymous)))),
        detail_fields(state, standing, claim).contains(("ownership"@, json_string_text(ownership_name(standing)))),
        detail_fields(state, standing, claim).contains(("reconnecting"@, bool_text(state.lifecycle.phase is Reconnecting))),
        detail_fields(state, standing, claim).contains(("released"@, bool_text(state.released))),
        detail_fields(state, standing, claim).contains(("releasing"@, bool_text(state.lifecycle.phase is Releasing))),
        detail_fields(state, standing, claim).contains(("wda_actionable"@, bool_text(state.actionable))),
        detail_fields(state, standing, claim).contains(("wda_locked"@, opt_bool_text(state.health.locked))),
        detail_fields(state, standing, claim).contains(("wda_up"@, bool_text(state.health.up))),
        detail_fields(state, standing, claim).len() == 9,
{
    let all = detail_fields(state, standing, claim);
    assert(all[0] == ("human_handoff"@, bool_text(state.released && state.handed)));
    assert(all[1] == ("needs_owner_identity"@, bool_text(standing is Refused && claim == Some(ClaimView::Anonymous))));
    assert(all[2] == ("ownership"@, json_string_text(ownership_name(standing))));
    assert(all[3] == ("reconnecting"@, bool_text(state.lifecycle.phase is Reconnecting)));
    assert(all[4] == ("released"@, bool_text(state.released)));
    assert(all[5] == ("releasing"@, bool_text(state.lifecycle.phase is Releasing)));
    assert(all[6] == ("wda_actionable"@, bool_text(state.actionable)));
    assert(all[7] == ("wda_locked"@, opt_bool_text(state.health.locked)));
    assert(all[8] == ("wda_up"@, bool_text(state.health.up)));
}


/// What is supported is told by what the phone is: every action, verb and mode
/// that it takes, and whether its screen can be read.
pub proof fn law_what_is_supported_is_told(config: CapabilityConfig)
    ensures
        ({
            let all = supported_fields(config);
            let none = array_text(Seq::<Seq<char>>::empty());
            &&& config.direct ==> {
                &&& all.contains(("batch_actions"@, array_text(string_items(batch_actions()))))
                &&& all.contains(("element_tree"@, "true"@))
                &&& all.contains(("perform_actions"@, array_text(string_items(perform_verbs()))))
                &&& all.contains(
                    ("single_step_actions"@, array_text(string_items(single_step_actions()))),
                )
            }
            &&& !config.direct ==> {
                &&& all.contains(("batch_actions"@, none))
                &&& all.contains(("element_tree"@, "false"@))
                &&& all.contains(("perform_actions"@, none))
                &&& all.contains(
                    ("single_step_actions"@, array_text(string_items(mirror_actions()))),
                )
            }
            &&& config.direct && config.managed ==> all.contains(
                ("lifecycle_managed_here"@, "true"@),
            )
            &&& !(config.direct && config.managed) ==> all.contains(
                ("lifecycle_managed_here"@, "false"@),
            )
            &&& all.contains(("modes"@, array_text(string_items(accepted_modes(config)))))
            &&& all.contains(("observation"@, object_text(observation_fields(config.direct))))
            &&& all.len() == 7
        }),
{
    let all = supported_fields(config);
    let empty = Seq::<Seq<char>>::empty();
    assert(string_items(empty) =~= empty);
    if config.direct {
        assert(all[0] == ("batch_actions"@, array_text(string_items(batch_actions()))));
        assert(all[5] == ("perform_actions"@, array_text(string_items(perform_verbs()))));
        assert(all[6] == ("single_step_actions"@, array_text(string_items(single_step_actions()))));
    } else {
        assert(all[0] == ("batch_actions"@, array_text(empty)));
        assert(all[5] == ("perform_actions"@, array_text(empty)));
        assert(all[6] == ("single_step_actions"@, array_text(string_items(mirror_actions()))));
    }
    assert(all[1] == ("element_tree"@, bool_text(config.direct)));
    assert(all[2] == ("lifecycle_managed_here"@, bool_text(config.direct && config.managed)));
    assert(all[3] == ("modes"@, array_text(string_items(accepted_modes(config)))));
    assert(all[4] == ("observation"@, object_text(observation_fields(config.direct))));
}

/// The answer names the phone's way, who recovers it, what is supported and what
/// is available, with the verdict and what is in the way.
pub proof fn law_capabilities_are_answered_whole(
    config: CapabilityConfig,
    available: Seq<char>,
    state: AppView,
    standing: CapabilityOwnership,
    claim: Option<ClaimView>,
)
    ensures
        capability_fields(config, available).contains(("available"@, available)),
        capability_fields(config, available).contains(
            ("backend"@, json_string_text(backend_name(config.direct))),
        ),
        capability_fields(config, available).contains(("ok"@, "true"@)),
        capability_fields(config, available).contains(
            ("recovery_owner"@, json_string_text(recovery_owner(config))),
        ),
        capability_fields(config, available).contains(("scope"@, json_string_text("ui_control"@))),
        capability_fields(config, available).contains(
            ("supported"@, object_text(supported_fields(config))),
        ),
        availability_fields(state, config.direct, standing, claim).contains(
            ("blocked_by"@, opt_string_text(availability(state, config.direct, standing).1)),
        ),
        availability_fields(state, config.direct, standing, claim).contains(
            ("ok"@, opt_bool_text(availability(state, config.direct, standing).0)),
        ),
        availability_fields(state, config.direct, standing, claim).contains(
            ("detail"@, object_text(detail_fields(state, standing, claim))),
        ),
        availability_fields(state, config.direct, standing, claim).contains(
            ("evidence"@, json_string_text("cache"@)),
        ),
{
    let c = capability_fields(config, available);
    assert(c[0] == ("available"@, available));
    assert(c[1] == ("backend"@, json_string_text(backend_name(config.direct))));
    assert(c[2] == ("ok"@, bool_text(true)));
    assert(c[3] == ("recovery_owner"@, json_string_text(recovery_owner(config))));
    assert(c[4] == ("scope"@, json_string_text("ui_control"@)));
    assert(c[5] == ("supported"@, object_text(supported_fields(config))));
    let a = availability_fields(state, config.direct, standing, claim);
    let known = availability(state, config.direct, standing);
    assert(a[0] == ("blocked_by"@, opt_string_text(known.1)));
    assert(a[1] == ("detail"@, object_text(detail_fields(state, standing, claim))));
    assert(a[2] == ("evidence"@, json_string_text("cache"@)));
    assert(a[3] == ("ok"@, opt_bool_text(known.0)));
}

} // verus!
