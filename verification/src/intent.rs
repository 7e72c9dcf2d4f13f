//! One curated request: checked, looked up, and sent at most once.

use vstd::prelude::*;

use crate::control::{target_not_configured_reply, target_not_configured_response};
use crate::intents::{
    entry_views, fault_of, fault_reply, intent_deep_link, intent_error_response, intent_name_valid,
    link_text, valid_intent_name, EntryView, FaultView, IntentEntry, IntentError,
    IntentsRegistryLoad, LoadView,
};
use crate::json::{bool_of, field_of, json_document, json_text, text_of, Json, JsonView};
use crate::lifecycle::WdaLifecycleTransition;
use crate::reply::{bool_text, json_reply, json_string_text, object_text, texts, ObjectText, Reply, ReplyView};
use crate::search::{size_of_text, text_size};
use crate::state::{AppState, AppView};
use crate::text::{join2, join3, same_text};

verus! {

/// A request as it was asked for.
#[derive(Debug)]
pub struct IntentCall {
    pub name: String,
    /// What it takes, as JSON text.
    pub args: String,
    /// A person has agreed to it.
    pub confirmed: bool,
}

/// The content of an [`IntentCall`].
pub struct CallView {
    pub name: Seq<char>,
    pub args: Seq<char>,
    pub confirmed: bool,
}

impl View for IntentCall {
    type V = CallView;

    open spec fn view(&self) -> CallView {
        CallView { name: self.name@, args: self.args@, confirmed: self.confirmed }
    }
}

/// What the request takes: an object, which may be missing.
pub open spec fn args_of(v: JsonView) -> Option<JsonView> {
    match field_of(v, "args"@) {
        None => Some(JsonView::Object(Seq::empty())),
        Some(JsonView::Object(fields)) => Some(JsonView::Object(fields)),
        Some(_) => None,
    }
}

pub open spec fn size_told(size: nat) -> u64 {
    if size <= u64::MAX {
        size as u64
    } else {
        u64::MAX
    }
}

/// The request in a body, or what is wrong with it.
pub open spec fn call_in(body: Seq<char>) -> Result<CallView, FaultView> {
    match json_document(body) {
        Some(JsonView::Object(fields)) => {
            let v = JsonView::Object(fields);
            match text_of(field_of(v, "name"@)) {
                Some(name) if intent_name_valid(name) => match args_of(v) {
                    None => Err(
                        FaultView::Invalid { detail: "\"args\" must be a JSON object"@ },
                    ),
                    Some(args) => if text_size(json_text(args)) > 2048 {
                        Err(FaultView::TooLarge { bytes: size_told(text_size(json_text(args))) })
                    } else {
                        Ok(
                            CallView {
                                name,
                                args: json_text(args),
                                confirmed: bool_of(field_of(v, "operator_confirmed"@)) == Some(
                                    true,
                                ),
                            },
                        )
                    },
                },
                _ => Err(
                    FaultView::Invalid {
                        detail: "\"name\" must be 1-64 chars of [A-Za-z0-9_-]"@,
                    },
                ),
            }
        },
        _ => Err(FaultView::Invalid { detail: "body must be a JSON object"@ }),
    }
}

/// Reads a request.
pub fn read_intent_call(body: &str) -> (call: Result<IntentCall, IntentError>)
    ensures
        match call {
            Ok(call) => call_in(body@) == Ok::<CallView, FaultView>(call@),
            Err(error) => call_in(body@) == Err::<CallView, FaultView>(fault_of(error)),
        },
{
    let v = match Json::parse(body) {
        Some(v) => v,
        None => {
            return Err(
                IntentError::InvalidRequest { detail: "body must be a JSON object".to_string() },
            );
        },
    };
    if !v.is_object() {
        return Err(
            IntentError::InvalidRequest { detail: "body must be a JSON object".to_string() },
        );
    }
    let name = match v.text_field("name") {
        Some(name) if valid_intent_name(name) => name.to_string(),
        _ => {
            return Err(
                IntentError::InvalidRequest {
                    detail: "\"name\" must be 1-64 chars of [A-Za-z0-9_-]".to_string(),
                },
            );
        },
    };
    let args = match v.get("args") {
        None => {
            let empty = Json::object();
            assert(empty@->Object_0 =~= Seq::empty());
            empty.render()
        },
        Some(value) => if value.is_object() {
            value.render()
        } else {
            return Err(
                IntentError::InvalidRequest { detail: "\"args\" must be a JSON object".to_string() },
            );
        },
    };
    let bytes: u64 = size_of_text(args.as_str());
    if bytes > 2048 {
        return Err(IntentError::ArgsTooLarge { bytes });
    }
    let confirmed = match v.bool_field("operator_confirmed") {
        Some(confirmed) => confirmed,
        None => false,
    };
    Ok(IntentCall { name, args, confirmed })
}

/// The first entry of a name.
pub open spec fn entry_named(entries: Seq<EntryView>, name: Seq<char>) -> Option<EntryView>
    decreases entries.len(),
{
    if entries.len() == 0 {
        None
    } else if entries[0].name == name {
        Some(entries[0])
    } else {
        entry_named(entries.drop_first(), name)
    }
}

pub open spec fn names_of(entries: Seq<EntryView>) -> Seq<Seq<char>> {
    entries.map_values(|entry: EntryView| entry.name)
}

/// What a request is sent with, and what its entry says of it.
pub struct ChoiceView {
    pub bridge: Seq<char>,
    pub side_effect: Seq<char>,
}

/// The entry of a request, or why it has none that may be used.
pub open spec fn choice(call: CallView, load: LoadView, path: Seq<char>) -> Result<
    ChoiceView,
    FaultView,
> {
    match load {
        LoadView::Missing => Err(
            FaultView::NotFound {
                name: call.name,
                known: Seq::empty(),
                registry: Some(
                    "no registry at "@ + path
                        + " — copy deploy/intents-registry.example.json there and curate it"@,
                ),
            },
        ),
        LoadView::Unreadable(reason) => Err(
            FaultView::NotFound {
                name: call.name,
                known: Seq::empty(),
                registry: Some("registry unreadable (fail closed): "@ + reason),
            },
        ),
        LoadView::Loaded(registry) => match entry_named(registry.intents, call.name) {
            None => Err(
                FaultView::NotFound {
                    name: call.name,
                    known: names_of(registry.intents),
                    registry: None,
                },
            ),
            Some(entry) => if entry.confirm == "operator"@ && !call.confirmed {
                Err(FaultView::NeedsConsent { name: call.name })
            } else {
                Ok(
                    ChoiceView { bridge: registry.bridge_name, side_effect: entry.side_effect },
                )
            },
        },
    }
}

fn find_entry<'a>(entries: &'a Vec<IntentEntry>, name: &str) -> (found: Option<&'a IntentEntry>)
    ensures
        match found {
            Some(entry) => entry_named(entry_views(entries@), name@) == Some(entry@),
            None => entry_named(entry_views(entries@), name@) is None,
        },
{
    let ghost all = entry_views(entries@);
    let mut i: usize = 0;
    assert(all.skip(0) =~= all);
    while i < entries.len()
        invariant
            i <= entries@.len(),
            all == entry_views(entries@),
            entry_named(all, name@) == entry_named(all.skip(i as int), name@),
        decreases entries@.len() - i,
    {
        assert(all.skip(i as int)[0] == entries@[i as int]@);
        assert(all.skip(i as int).drop_first() =~= all.skip(i + 1));
        if same_text(entries[i].name.as_str(), name) {
            return Some(&entries[i]);
        }
        i += 1;
    }
    None
}

fn entry_names(entries: &Vec<IntentEntry>) -> (names: Vec<String>)
    ensures
        texts(names@) == names_of(entry_views(entries@)),
{
    let ghost all = names_of(entry_views(entries@));
    let mut names: Vec<String> = Vec::new();
    let mut i: usize = 0;
    while i < entries.len()
        invariant
            i <= entries@.len(),
            all == names_of(entry_views(entries@)),
            texts(names@) == all.take(i as int),
        decreases entries@.len() - i,
    {
        let ghost before = texts(names@);
        names.push(entries[i].name.clone());
        assert(texts(names@) =~= before.push(entries@[i as int].name@));
        assert(all.take(i + 1) =~= all.take(i as int).push(all[i as int]));
        i += 1;
    }
    assert(all.take(i as int) =~= all);
    names
}

/// A request that may be sent.
#[derive(Debug)]
pub struct IntentDispatch {
    pub name: String,
    pub args: String,
    pub bridge: String,
    pub side_effect: String,
}

/// Looks a request up in the registry. Only what is curated there is sent, and
/// only with a person's consent where the entry asks for it.
pub fn choose_intent(call: IntentCall, load: &IntentsRegistryLoad, path: &str) -> (chosen: Result<
    IntentDispatch,
    IntentError,
>)
    ensures
        match chosen {
            Ok(dispatch) => {
                &&& choice(call@, load@, path@) == Ok::<ChoiceView, FaultView>(
                    ChoiceView { bridge: dispatch.bridge@, side_effect: dispatch.side_effect@ },
                )
                &&& dispatch.name@ == call@.name
                &&& dispatch.args@ == call@.args
            },
            Err(error) => choice(call@, load@, path@) == Err::<ChoiceView, FaultView>(
                fault_of(error),
            ),
        },
{
    match load {
        IntentsRegistryLoad::Missing => {
            let known: Vec<String> = Vec::new();
            assert(texts(known@) =~= Seq::empty());
            let hint = join3(
                "no registry at ",
                path,
                " — copy deploy/intents-registry.example.json there and curate it",
            );
            Err(IntentError::NotFound { name: call.name, known, registry_hint: Some(hint) })
        },
        IntentsRegistryLoad::Unreadable(reason) => {
            let known: Vec<String> = Vec::new();
            assert(texts(known@) =~= Seq::empty());
            let hint = join2("registry unreadable (fail closed): ", reason.as_str());
            Err(IntentError::NotFound { name: call.name, known, registry_hint: Some(hint) })
        },
        IntentsRegistryLoad::Loaded(registry) => {
            match find_entry(&registry.intents, call.name.as_str()) {
                None => Err(
                    IntentError::NotFound {
                        name: call.name,
                        known: entry_names(&registry.intents),
                        registry_hint: None,
                    },
                ),
                Some(entry) => {
                    if same_text(entry.confirm.as_str(), "operator") && !call.confirmed {
                        return Err(IntentError::OperatorConfirmationRequired { name: call.name });
                    }
                    Ok(
                        IntentDispatch {
                            name: call.name,
                            args: call.args,
                            bridge: registry.bridge_name.clone(),
                            side_effect: entry.side_effect.clone(),
                        },
                    )
                },
            }
        },
    }
}

/// Why the phone cannot take a request now.
pub enum IntentGateView {
    Open,
    /// No phone was chosen yet.
    NoTarget,
    Unavailable { reason: Seq<char> },
    Late,
}

/// Whether the phone can take a request now. Unlike other messages, a request
/// does not bring a released phone back.
pub open spec fn intent_gate_of(
    state: AppView,
    direct: bool,
    pending: bool,
    has_runner: bool,
    in_time: bool,
) -> IntentGateView {
    if state.lifecycle.phase == WdaLifecycleTransition::Releasing {
        IntentGateView::Unavailable {
            reason: "device_release_in_progress — retry in a few seconds"@,
        }
    } else if state.released {
        IntentGateView::Unavailable {
            reason:
                "phone was idle-released; POST /agent/mode {\"mode\":\"agent\"} to restart managed WDA, then retry"@,
        }
    } else if direct && pending {
        IntentGateView::NoTarget
    } else if state.lifecycle.phase == WdaLifecycleTransition::Reconnecting {
        IntentGateView::Unavailable {
            reason: "reconnect_in_progress — poll /agent/status until drivable, then retry"@,
        }
    } else if !has_runner {
        IntentGateView::Unavailable {
            reason: "WDA is not configured (PHONE_REMOTE_WDA_URL / setup)"@,
        }
    } else if !in_time {
        IntentGateView::Late
    } else {
        IntentGateView::Open
    }
}

/// Whether a request counts as activity even where it is then refused.
pub open spec fn intent_touches(state: AppView, direct: bool, pending: bool) -> bool {
    state.lifecycle.phase == WdaLifecycleTransition::Active && !state.released && !(direct
        && pending)
}

/// Why a request was turned away.
#[derive(Debug)]
pub enum IntentRefusal {
    NoTarget,
    Error(IntentError),
}

/// Lets a request through to the phone, or turns it away.
pub fn intent_gate(
    state: &mut AppState,
    direct: bool,
    pending: bool,
    has_runner: bool,
    now: u64,
    deadline: u64,
) -> (refusal: Option<IntentRefusal>)
    ensures
        match intent_gate_of(old(state)@, direct, pending, has_runner, now < deadline) {
            IntentGateView::Open => refusal is None,
            IntentGateView::NoTarget => refusal == Some(IntentRefusal::NoTarget),
            IntentGateView::Unavailable { reason } => {
                refusal matches Some(IntentRefusal::Error(error)) && fault_of(error)
                    == FaultView::Unavailable { reason }
            },
            IntentGateView::Late => {
                refusal matches Some(IntentRefusal::Error(error)) && fault_of(error)
                    == FaultView::NotSent
            },
        },
        final(state)@ == (if intent_touches(old(state)@, direct, pending) {
            AppView { last_activity: now, ..old(state)@ }
        } else {
            old(state)@
        }),
{
    if state.lifecycle.is_releasing() {
        return Some(
            IntentRefusal::Error(
                IntentError::BridgeUnavailable {
                    reason: "device_release_in_progress — retry in a few seconds".to_string(),
                },
            ),
        );
    }
    if state.released {
        return Some(
            IntentRefusal::Error(
                IntentError::BridgeUnavailable {
                    reason:
                        "phone was idle-released; POST /agent/mode {\"mode\":\"agent\"} to restart managed WDA, then retry".to_string(),
                },
            ),
        );
    }
    if direct && pending {
        return Some(IntentRefusal::NoTarget);
    }
    if state.lifecycle.is_reconnecting() {
        return Some(
            IntentRefusal::Error(
                IntentError::BridgeUnavailable {
                    reason:
                        "reconnect_in_progress — poll /agent/status until drivable, then retry".to_string(),
                },
            ),
        );
    }
    state.touch_activity(now);
    if !has_runner {
        return Some(
            IntentRefusal::Error(
                IntentError::BridgeUnavailable {
                    reason: "WDA is not configured (PHONE_REMOTE_WDA_URL / setup)".to_string(),
                },
            ),
        );
    }
    if now >= deadline {
        return Some(IntentRefusal::Error(IntentError::NotSent));
    }
    None
}

/// The answer to a request that was turned away.
pub fn refusal_response(refusal: &IntentRefusal) -> (reply: Reply)
    ensures
        reply@ == (match *refusal {
            IntentRefusal::NoTarget => target_not_configured_reply(),
            IntentRefusal::Error(error) => fault_reply(fault_of(error)),
        }),
{
    match refusal {
        IntentRefusal::NoTarget => target_not_configured_response(),
        IntentRefusal::Error(error) => intent_error_response(error),
    }
}

impl IntentDispatch {
    /// The address that carries the request, under the name of its call.
    pub fn link(&self, id: &str) -> (link: String)
        ensures
            link@ == link_text(self.bridge@, self.name@, id@, self.args@),
    {
        intent_deep_link(self.bridge.as_str(), self.name.as_str(), id, self.args.as_str())
    }
}

/// How the sending of a request ended.
#[derive(Debug)]
pub enum IntentEnd {
    Opened,
    /// It was sent, and the phone complained.
    Failed { detail: String },
    /// It was not sent after all.
    NotSent,
    /// Time ran out; `dispatched` where it had been sent.
    DeadlinePassed { dispatched: bool },
}

pub open spec fn opened_fields(name: Seq<char>, id: Seq<char>, side_effect: Seq<char>) -> Seq<
    (Seq<char>, Seq<char>),
> {
    seq![
        (
            "hint"@,
            json_string_text(
                "dispatch applied (deep link opened on-device); the bridge shortcut POSTs its result to /agent/inbox — peek GET /agent/inbox or POST /agent/inbox/drain and match on this id. The Shortcuts app foregrounds during the run."@,
            ),
        ),
        ("id"@, json_string_text(id)),
        ("intent"@, json_string_text(name)),
        ("ok"@, bool_text(true)),
        ("outcome"@, json_string_text("applied"@)),
        ("result_path"@, json_string_text("/agent/inbox"@)),
        ("side_effect"@, json_string_text(side_effect)),
    ]
}

/// What is wrong with a request that did not get through.
pub open spec fn end_fault(end: IntentEnd, id: Seq<char>) -> Option<FaultView> {
    match end {
        IntentEnd::Opened => None,
        IntentEnd::Failed { detail } => Some(FaultView::Failed { id, detail: detail@ }),
        IntentEnd::NotSent => Some(FaultView::NotSent),
        IntentEnd::DeadlinePassed { dispatched } => if dispatched {
            Some(FaultView::TimedOut { id })
        } else {
            Some(FaultView::NotSent)
        },
    }
}

/// The answer to a request whose sending has ended.
pub open spec fn intent_answer(dispatch: IntentDispatch, id: Seq<char>, end: IntentEnd) -> ReplyView {
    match end_fault(end, id) {
        None => json_reply(
            200,
            object_text(opened_fields(dispatch.name@, id, dispatch.side_effect@)),
        ),
        Some(fault) => fault_reply(fault),
    }
}

/// Answers a request whose sending has ended. The answer acknowledges the
/// sending alone; the result comes through the inbox.
pub fn agent_intent(dispatch: &IntentDispatch, id: &str, end: &IntentEnd) -> (reply: Reply)
    ensures
        reply@ == intent_answer(*dispatch, id@, *end),
{
    match end {
        IntentEnd::Opened => {
            let body = ObjectText::new().text(
                "hint",
                "dispatch applied (deep link opened on-device); the bridge shortcut POSTs its result to /agent/inbox — peek GET /agent/inbox or POST /agent/inbox/drain and match on this id. The Shortcuts app foregrounds during the run.",
            ).text("id", id).text("intent", dispatch.name.as_str()).flag("ok", true).text(
                "outcome",
                "applied",
            ).text("result_path", "/agent/inbox").text(
                "side_effect",
                dispatch.side_effect.as_str(),
            );
            assert(body.fields() =~= opened_fields(dispatch.name@, id@, dispatch.side_effect@));
            Reply::json(200, body.finish())
        },
        IntentEnd::Failed { detail } => intent_error_response(
            &IntentError::DispatchFailed { id: id.to_string(), detail: detail.clone() },
        ),
        IntentEnd::NotSent => intent_error_response(&IntentError::NotSent),
        IntentEnd::DeadlinePassed { dispatched } => if *dispatched {
            intent_error_response(&IntentError::DispatchTimeout { id: id.to_string() })
        } else {
            intent_error_response(&IntentError::NotSent)
        },
    }
}

proof fn lemma_named(entries: Seq<EntryView>, name: Seq<char>)
    requires
        entry_named(entries, name) is Some,
    ensures
        exists|i: int|
            0 <= i < entries.len() && #[trigger] entries[i] == entry_named(entries, name)->0,
        (entry_named(entries, name)->0).name == name,
    decreases entries.len(),
{
    if entries[0].name != name {
        lemma_named(entries.drop_first(), name);
        let rest = entries.drop_first();
        let i = choose|i: int|
            0 <= i < rest.len() && #[trigger] rest[i] == entry_named(rest, name)->0;
        assert(entries[i + 1] == rest[i]);
    } else {
        assert(entries[0] == entry_named(entries, name)->0);
    }
}

/// Only what is curated is sent: a request that may be sent has an entry under
/// its name, and where the entry asks for consent, it was given.
pub proof fn law_only_curated_requests_are_sent(call: CallView, load: LoadView, path: Seq<char>)
    requires
        choice(call, load, path) is Ok,
    ensures
        load matches LoadView::Loaded(registry) && exists|i: int|
            0 <= i < registry.intents.len() && (#[trigger] registry.intents[i]).name == call.name
                && (registry.intents[i].confirm == "operator"@ ==> call.confirmed),
{
    let registry = load->Loaded_0;
    lemma_named(registry.intents, call.name);
    let i = choose|i: int|
        0 <= i < registry.intents.len() && #[trigger] registry.intents[i] == entry_named(
            registry.intents,
            call.name,
        )->0;
    assert(registry.intents[i].name == call.name);
}

/// A request is one where it is an object with a fit name and arguments that are an
/// object and small enough; it counts as confirmed only where it says so by the
/// word.
pub proof fn law_a_request_is_read_as_it_stands(body: Seq<char>)
    ensures
        call_in(body) matches Ok(call) ==> {
            let v = json_document(body)->0;
            &&& json_document(body) is Some && v is Object
            &&& text_of(field_of(v, "name"@)) == Some(call.name)
            &&& intent_name_valid(call.name)
            &&& field_of(v, "args"@) matches Some(args) ==> args is Object && call.args == json_text(
                args,
            )
            &&& field_of(v, "args"@) is None ==> call.args == json_text(
                JsonView::Object(Seq::empty()),
            )
            &&& text_size(call.args) <= 2048
            &&& call.confirmed <==> bool_of(field_of(v, "operator_confirmed"@)) == Some(true)
        },
        json_document(body) is None || json_document(body)->0 !is Object ==> call_in(body) == Err::<
            CallView,
            FaultView,
        >(FaultView::Invalid { detail: "body must be a JSON object"@ }),
        json_document(body) matches Some(v) ==> (v is Object && (text_of(field_of(v, "name"@)) is None
            || !intent_name_valid(text_of(field_of(v, "name"@))->0)) ==> call_in(body) == Err::<
            CallView,
            FaultView,
        >(FaultView::Invalid { detail: "\"name\" must be 1-64 chars of [A-Za-z0-9_-]"@ })),
        call_in(body) matches Err(fault) ==> fault is Invalid || (fault matches FaultView::TooLarge {
            bytes,
        } && bytes > 2048),
{
}

/// The entry of a request is the first that has its very name.
pub proof fn law_an_entry_is_found_by_its_name(entries: Seq<EntryView>, name: Seq<char>)
    ensures
        entry_named(entries, name) matches Some(entry) ==> entry.name == name && exists|i: int|
            0 <= i < entries.len() && #[trigger] entries[i] == entry && forall|j: int|
                0 <= j < i ==> (#[trigger] entries[j]).name != name,
        entry_named(entries, name) is None ==> forall|j: int|
            0 <= j < entries.len() ==> (#[trigger] entries[j]).name != name,
        names_of(entries).len() == entries.len(),
        forall|j: int|
            0 <= j < entries.len() ==> #[trigger] names_of(entries)[j] == entries[j].name,
    decreases entries.len(),
{
    if entries.len() > 0 && entries[0].name != name {
        let rest = entries.drop_first();
        law_an_entry_is_found_by_its_name(rest, name);
        if entry_named(rest, name) is Some {
            let i = choose|i: int|
                0 <= i < rest.len() && #[trigger] rest[i] == entry_named(rest, name)->0 && forall|
                    j: int,
                |
                    0 <= j < i ==> (#[trigger] rest[j]).name != name;
            assert(entries[i + 1] == rest[i]);
            assert forall|j: int| 0 <= j < i + 1 implies (#[trigger] entries[j]).name != name by {
                if j > 0 {
                    assert(entries[j] == rest[j - 1]);
                }
            }
        } else {
            assert forall|j: int| 0 <= j < entries.len() implies (#[trigger] entries[j]).name
                != name by {
                if j > 0 {
                    assert(entries[j] == rest[j - 1]);
                }
            }
        }
    } else if entries.len() > 0 {
        assert(entries[0] == entry_named(entries, name)->0);
    }
}

/// A request is followed only where the registry is there, lists it, and does not
/// ask for a person who has not agreed; what is sent is the registry's bridge and
/// the entry's own effect.
pub proof fn law_a_request_is_followed_as_it_is_listed(
    call: CallView,
    registry: crate::intents::RegistryView,
    reason: Seq<char>,
    path: Seq<char>,
)
    ensures
        ({
            let got = choice(call, LoadView::Loaded(registry), path);
            let entry = entry_named(registry.intents, call.name);
            &&& entry is None ==> got == Err::<ChoiceView, FaultView>(
                FaultView::NotFound {
                    name: call.name,
                    known: names_of(registry.intents),
                    registry: None,
                },
            )
            &&& entry matches Some(e) ==> (e.confirm == "operator"@ && !call.confirmed ==> got == Err::<
                ChoiceView,
                FaultView,
            >(FaultView::NeedsConsent { name: call.name }))
            &&& entry matches Some(e) ==> (e.confirm != "operator"@ || call.confirmed ==> got == Ok::<
                ChoiceView,
                FaultView,
            >(ChoiceView { bridge: registry.bridge_name, side_effect: e.side_effect }))
        }),
        choice(call, LoadView::Missing, path) matches Err(FaultView::NotFound { name, known, .. })
            && name == call.name && known.len() == 0,
        choice(call, LoadView::Unreadable(reason), path) == Err::<ChoiceView, FaultView>(
            FaultView::NotFound {
                name: call.name,
                known: Seq::empty(),
                registry: Some("registry unreadable (fail closed): "@ + reason),
            },
        ),
{
}

/// A request is let through to a phone in use that has a runner, in time.
pub proof fn law_a_request_goes_to_a_phone_in_use(
    state: AppView,
    direct: bool,
    pending: bool,
    has_runner: bool,
    in_time: bool,
)
    ensures
        ({
            let gate = intent_gate_of(state, direct, pending, has_runner, in_time);
            let used = state.lifecycle.phase is Active && !state.released && !(direct && pending);
            &&& gate is Open <==> used && has_runner && in_time
            &&& gate is Late <==> used && has_runner && !in_time
            &&& gate is NoTarget <==> direct && pending && !state.released && state.lifecycle.phase
                !is Releasing
            &&& state.lifecycle.phase is Releasing ==> gate == (IntentGateView::Unavailable {
                reason: "device_release_in_progress — retry in a few seconds"@,
            })
            &&& state.lifecycle.phase !is Releasing && state.released ==> gate == (
            IntentGateView::Unavailable {
                reason:
                    "phone was idle-released; POST /agent/mode {\"mode\":\"agent\"} to restart managed WDA, then retry"@,
            })
            &&& state.lifecycle.phase is Reconnecting && !state.released && !(direct && pending)
                ==> gate == (IntentGateView::Unavailable {
                reason: "reconnect_in_progress — poll /agent/status until drivable, then retry"@,
            })
            &&& used && !has_runner ==> gate == (IntentGateView::Unavailable {
                reason: "WDA is not configured (PHONE_REMOTE_WDA_URL / setup)"@,
            })
            &&& intent_touches(state, direct, pending) <==> used
        }),
{
}

/// A request that was opened is answered as applied, with its own name, id and
/// effect; one that failed, was not sent or ran out of time is told so, and only
/// one that may have been sent as unknown.
pub proof fn law_a_request_is_answered_by_its_end(
    dispatch: IntentDispatch,
    id: Seq<char>,
    detail: String,
)
    ensures
        intent_answer(dispatch, id, IntentEnd::Opened).status == 200,
        ({
            let all = opened_fields(dispatch.name@, id, dispatch.side_effect@);
            &&& intent_answer(dispatch, id, IntentEnd::Opened).body == object_text(all)
            &&& all.contains(("id"@, json_string_text(id)))
            &&& all.contains(("intent"@, json_string_text(dispatch.name@)))
            &&& all.contains(("ok"@, "true"@))
            &&& all.contains(("outcome"@, json_string_text("applied"@)))
            &&& all.contains(("result_path"@, json_string_text("/agent/inbox"@)))
            &&& all.contains(("side_effect"@, json_string_text(dispatch.side_effect@)))
        }),
        intent_answer(dispatch, id, IntentEnd::Failed { detail }) == fault_reply(
            FaultView::Failed { id, detail: detail@ },
        ),
        intent_answer(dispatch, id, IntentEnd::NotSent) == fault_reply(FaultView::NotSent),
        intent_answer(dispatch, id, IntentEnd::DeadlinePassed { dispatched: false }) == fault_reply(
            FaultView::NotSent,
        ),
        intent_answer(dispatch, id, IntentEnd::DeadlinePassed { dispatched: true }) == fault_reply(
            FaultView::TimedOut { id },
        ),
{
    let all = opened_fields(dispatch.name@, id, dispatch.side_effect@);
    assert(all[1] == ("id"@, json_string_text(id)));
    assert(all[2] == ("intent"@, json_string_text(dispatch.name@)));
    assert(all[3] == ("ok"@, bool_text(true)));
    assert(all[4] == ("outcome"@, json_string_text("applied"@)));
    assert(all[5] == ("result_path"@, json_string_text("/agent/inbox"@)));
    assert(all[6] == ("side_effect"@, json_string_text(dispatch.side_effect@)));
}

} // verus!
