//! Locators of on-screen controls: matching them against the tree, and the
//! queries that find the live control again.

use vstd::prelude::*;

use crate::element::{same_opt_text, ElementRow};
use crate::json::{field_of, Json, JsonView};
use crate::reply::{opt_text, texts, json_string_text, object_text, ObjectText};
use crate::text::{chars_of, join2, join3, same_text};

verus! {

/// The characters of each string slice of a list.
pub open spec fn strs(items: Seq<&str>) -> Seq<Seq<char>> {
    items.map_values(|s: &str| s@)
}

/// Whether a string is one of a list.
pub fn listed(list: &Vec<&'static str>, s: &str) -> (found: bool)
    ensures
        found == strs(list@).contains(s@),
{
    let mut i: usize = 0;
    while i < list.len()
        invariant
            i <= list@.len(),
            forall|k: int| 0 <= k < i ==> strs(list@)[k] != s@,
        decreases list@.len() - i,
    {
        if same_text(list[i], s) {
            assert(strs(list@)[i as int] == s@);
            return true;
        }
        i += 1;
    }
    false
}

/// The verbs of `perform`, a closed set.
pub open spec fn perform_verbs() -> Seq<Seq<char>> {
    seq![
        "increment"@,
        "decrement"@,
        "adjust"@,
        "toggle"@,
        "menu"@,
        "double_tap"@,
        "two_finger_tap"@,
        "scroll_to_visible"@,
        "pinch"@,
        "rotate"@,
        "force_press"@,
    ]
}

/// The verbs of `perform`, in the order in which they are advertised.
pub fn perform_action_names() -> (names: Vec<&'static str>)
    ensures
        strs(names@) == perform_verbs(),
{
    let names: Vec<&'static str> = vec![
        "increment",
        "decrement",
        "adjust",
        "toggle",
        "menu",
        "double_tap",
        "two_finger_tap",
        "scroll_to_visible",
        "pinch",
        "rotate",
        "force_press",
    ];
    assert(strs(names@) =~= perform_verbs());
    names
}

/// The verbs that also work on a row without a semantic locator.
pub open spec fn frame_fallback_verbs() -> Seq<Seq<char>> {
    seq!["toggle"@, "increment"@, "decrement"@, "adjust"@, "scroll_to_visible"@]
}

/// The verbs whose targets are routinely unlabeled, so that the live control may
/// be found by its frame instead.
pub fn perform_verbs_with_frame_fallback() -> (names: Vec<&'static str>)
    ensures
        strs(names@) == frame_fallback_verbs(),
{
    let names: Vec<&'static str> = vec![
        "toggle",
        "increment",
        "decrement",
        "adjust",
        "scroll_to_visible",
    ];
    assert(strs(names@) =~= frame_fallback_verbs());
    names
}

/// Conditions on one control; what is `None` does not matter.
#[derive(Debug)]
pub struct AgentElementLocator {
    pub label: Option<String>,
    pub identifier: Option<String>,
    pub kind: Option<String>,
    pub value: Option<String>,
    pub focused: Option<bool>,
    pub enabled: Option<bool>,
    pub visible: Option<bool>,
}

/// The content of an [`AgentElementLocator`].
pub struct LocatorView {
    pub label: Option<Seq<char>>,
    pub identifier: Option<Seq<char>>,
    pub kind: Option<Seq<char>>,
    pub value: Option<Seq<char>>,
    pub focused: Option<bool>,
    pub enabled: Option<bool>,
    pub visible: Option<bool>,
}

impl View for AgentElementLocator {
    type V = LocatorView;

    open spec fn view(&self) -> LocatorView {
        LocatorView {
            label: opt_text(self.label),
            identifier: opt_text(self.identifier),
            kind: opt_text(self.kind),
            value: opt_text(self.value),
            focused: self.focused,
            enabled: self.enabled,
            visible: self.visible,
        }
    }
}

pub open spec fn has_condition(locator: LocatorView) -> bool {
    locator.label is Some || locator.identifier is Some || locator.kind is Some || locator.value is Some
        || locator.focused is Some || locator.enabled is Some || locator.visible is Some
}

/// Whether a locator says anything at all.
pub fn locator_has_condition(locator: &AgentElementLocator) -> (some: bool)
    ensures
        some == has_condition(locator@),
{
    locator.label.is_some() || locator.identifier.is_some() || locator.kind.is_some()
        || locator.value.is_some() || locator.focused.is_some() || locator.enabled.is_some()
        || locator.visible.is_some()
}

/// The fields of a locator document, in their positional order.
pub open spec fn locator_keys() -> Seq<Seq<char>> {
    seq![
        "label"@,
        "identifier"@,
        "kind"@,
        "value"@,
        "focused"@,
        "enabled"@,
        "visible"@,
    ]
}

/// Field `i`, named `key`, of a record that is written as an object or, by
/// position, as a list.
pub open spec fn record_part(json: JsonView, i: int, key: Seq<char>) -> Option<JsonView> {
    match json {
        JsonView::List(items) => if i < items.len() {
            Some(items[i])
        } else {
            None
        },
        _ => field_of(json, key),
    }
}

/// A missing or `null` field is no string, a JSON string is one; anything else
/// is refused (outer `None`).
pub open spec fn string_part(part: Option<JsonView>) -> Option<Option<Seq<char>>> {
    match part {
        None => Some(None),
        Some(JsonView::Null) => Some(None),
        Some(JsonView::Text(s)) => Some(Some(s)),
        _ => None,
    }
}

pub open spec fn bool_part(part: Option<JsonView>) -> Option<Option<bool>> {
    match part {
        None => Some(None),
        Some(JsonView::Null) => Some(None),
        Some(JsonView::Bool(b)) => Some(Some(b)),
        _ => None,
    }
}

/// No field has a name outside the list.
pub open spec fn known_fields(fields: Seq<(Seq<char>, JsonView)>, keys: Seq<Seq<char>>) -> bool {
    forall|i: int| 0 <= i < fields.len() ==> keys.contains((#[trigger] fields[i]).0)
}

/// An object with known field names only, or a list that is not too long.
pub open spec fn locator_shape(json: JsonView) -> bool {
    match json {
        JsonView::Object(fields) => known_fields(fields, locator_keys()),
        JsonView::List(items) => items.len() <= 7,
        _ => false,
    }
}

/// The locator that a document states, if every part of it is acceptable.
pub open spec fn locator_of(json: JsonView) -> Option<LocatorView> {
    let label = string_part(record_part(json, 0, "label"@));
    let identifier = string_part(record_part(json, 1, "identifier"@));
    let kind = string_part(record_part(json, 2, "kind"@));
    let value = string_part(record_part(json, 3, "value"@));
    let focused = bool_part(record_part(json, 4, "focused"@));
    let enabled = bool_part(record_part(json, 5, "enabled"@));
    let visible = bool_part(record_part(json, 6, "visible"@));
    if locator_shape(json) && label is Some && identifier is Some && kind is Some && value is Some
        && focused is Some && enabled is Some && visible is Some {
        Some(
            LocatorView {
                label: label->0,
                identifier: identifier->0,
                kind: kind->0,
                value: value->0,
                focused: focused->0,
                enabled: enabled->0,
                visible: visible->0,
            },
        )
    } else {
        None
    }
}

fn part_of<'a>(json: &'a Json, i: usize, key: &str) -> (part: Option<&'a Json>)
    ensures
        match part {
            Some(value) => record_part(json@, i as int, key@) == Some(value@),
            None => record_part(json@, i as int, key@) is None,
        },
{
    match json {
        Json::List(items) => {
            if i < items.len() {
                Some(&items[i])
            } else {
                None
            }
        },
        _ => json.get(key),
    }
}

fn read_string(json: &Json, i: usize, key: &str) -> (part: Option<Option<String>>)
    ensures
        match part {
            Some(s) => string_part(record_part(json@, i as int, key@)) == Some(opt_text(s)),
            None => string_part(record_part(json@, i as int, key@)) is None,
        },
{
    match part_of(json, i, key) {
        None => Some(None),
        Some(Json::Null) => Some(None),
        Some(Json::Text(s)) => Some(Some(s.clone())),
        _ => None,
    }
}

fn read_bool(json: &Json, i: usize, key: &str) -> (part: Option<Option<bool>>)
    ensures
        part == bool_part(record_part(json@, i as int, key@)),
{
    match part_of(json, i, key) {
        None => Some(None),
        Some(Json::Null) => Some(None),
        Some(Json::Bool(b)) => Some(Some(*b)),
        _ => None,
    }
}

/// Whether every field of an object has a name of the list.
pub fn only_known_fields(json: &Json, keys: &Vec<&'static str>) -> (known: bool)
    requires
        json@ is Object,
    ensures
        known == known_fields(json@->Object_0, strs(keys@)),
{
    let ghost all = json@->Object_0;
    match json {
        Json::Object(fields) => {
            let mut i: usize = 0;
            while i < fields.len()
                invariant
                    i <= fields@.len(),
                    *json == Json::Object(*fields),
                    json@ == JsonView::Object(all),
                    all.len() == fields@.len(),
                    forall|k: int| 0 <= k < i ==> strs(keys@).contains((#[trigger] all[k]).0),
                decreases fields@.len() - i,
            {
                assert(all[i as int] == (fields@[i as int].0@, fields@[i as int].1@));
                if !listed(keys, fields[i].0.as_str()) {
                    assert(!known_fields(all, strs(keys@)));
                    return false;
                }
                i += 1;
            }
            true
        },
        _ => false,
    }
}

fn locator_shaped(json: &Json) -> (shaped: bool)
    ensures
        shaped == locator_shape(json@),
{
    match json {
        Json::Object(_) => {
            let keys: Vec<&'static str> = vec![
                "label",
                "identifier",
                "kind",
                "value",
                "focused",
                "enabled",
                "visible",
            ];
            assert(strs(keys@) =~= locator_keys());
            only_known_fields(json, &keys)
        },
        Json::List(items) => items.len() <= 7,
        _ => false,
    }
}

/// Reads a locator document: known fields only, strings and booleans (or
/// `null`) where they belong.
pub fn parse_locator(json: &Json) -> (locator: Option<AgentElementLocator>)
    ensures
        match locator {
            Some(locator) => locator_of(json@) == Some(locator@),
            None => locator_of(json@) is None,
        },
{
    if !locator_shaped(json) {
        return None;
    }
    let label = read_string(json, 0, "label");
    let identifier = read_string(json, 1, "identifier");
    let kind = read_string(json, 2, "kind");
    let value = read_string(json, 3, "value");
    let focused = read_bool(json, 4, "focused");
    let enabled = read_bool(json, 5, "enabled");
    let visible = read_bool(json, 6, "visible");
    match (label, identifier, kind, value, focused, enabled, visible) {
        (
            Some(label),
            Some(identifier),
            Some(kind),
            Some(value),
            Some(focused),
            Some(enabled),
            Some(visible),
        ) => Some(
            AgentElementLocator { label, identifier, kind, value, focused, enabled, visible },
        ),
        _ => None,
    }
}

pub open spec fn state_or(state: Option<bool>, default: bool) -> bool {
    match state {
        Some(b) => b,
        None => default,
    }
}

/// Whether a row meets every condition of a locator. A row that does not say is
/// taken as not focused, enabled and visible.
pub open spec fn locator_matches(row: ElementRow, locator: LocatorView) -> bool {
    &&& locator.label matches Some(label) ==> row.label@ == label
    &&& locator.identifier is Some ==> opt_text(row.identifier) == locator.identifier
    &&& locator.kind matches Some(kind) ==> row.kind@ == kind
    &&& locator.value is Some ==> opt_text(row.value) == locator.value
    &&& locator.focused matches Some(focused) ==> state_or(row.focused, false) == focused
    &&& locator.enabled matches Some(enabled) ==> state_or(row.enabled, true) == enabled
    &&& locator.visible matches Some(visible) ==> state_or(row.visible, true) == visible
}

fn label_meets(wanted: &Option<String>, actual: &String) -> (meets: bool)
    ensures
        meets == match opt_text(*wanted) {
            Some(wanted) => actual@ == wanted,
            None => true,
        },
{
    match wanted {
        Some(wanted) => same_text(actual.as_str(), wanted.as_str()),
        None => true,
    }
}

fn state_meets(wanted: Option<bool>, actual: Option<bool>, default: bool) -> (meets: bool)
    ensures
        meets == match wanted {
            Some(wanted) => state_or(actual, default) == wanted,
            None => true,
        },
{
    match wanted {
        Some(wanted) => match actual {
            Some(actual) => actual == wanted,
            None => default == wanted,
        },
        None => true,
    }
}

pub fn agent_locator_matches(row: &ElementRow, locator: &AgentElementLocator) -> (matches: bool)
    ensures
        matches == locator_matches(*row, locator@),
{
    label_meets(&locator.label, &row.label) && (locator.identifier.is_none() || same_opt_text(
        &row.identifier,
        &locator.identifier,
    )) && label_meets(&locator.kind, &row.kind) && (locator.value.is_none() || same_opt_text(
        &row.value,
        &locator.value,
    )) && state_meets(locator.focused, row.focused, false) && state_meets(
        locator.enabled,
        row.enabled,
        true,
    ) && state_meets(locator.visible, row.visible, true)
}

/// Whether some row of a tree meets a locator.
pub open spec fn present(rows: Seq<ElementRow>, locator: LocatorView) -> bool {
    exists|i: int| 0 <= i < rows.len() && locator_matches(#[trigger] rows[i], locator)
}

pub fn any_row_matches(rows: &Vec<ElementRow>, locator: &AgentElementLocator) -> (any: bool)
    ensures
        any == present(rows@, locator@),
{
    let mut i: usize = 0;
    while i < rows.len()
        invariant
            i <= rows@.len(),
            forall|k: int| 0 <= k < i ==> !locator_matches(#[trigger] rows@[k], locator@),
        decreases rows@.len() - i,
    {
        if agent_locator_matches(&rows[i], locator) {
            return true;
        }
        i += 1;
    }
    false
}

/// The label of the first `Application` row.
pub open spec fn frontmost(rows: Seq<ElementRow>) -> Option<Seq<char>>
    decreases rows.len(),
{
    if rows.len() == 0 {
        None
    } else if rows[0].kind@ == "Application"@ {
        Some(rows[0].label@)
    } else {
        frontmost(rows.skip(1))
    }
}

/// The label of the frontmost app, as far as the tree tells.
pub fn active_application(rows: &Vec<ElementRow>) -> (label: Option<String>)
    ensures
        opt_text(label) == frontmost(rows@),
{
    let mut i: usize = 0;
    assert(rows@.skip(0) =~= rows@);
    while i < rows.len()
        invariant
            i <= rows@.len(),
            frontmost(rows@) == frontmost(rows@.skip(i as int)),
        decreases rows@.len() - i,
    {
        assert(rows@.skip(i as int)[0] == rows@[i as int]);
        if same_text(rows[i].kind.as_str(), "Application") {
            return Some(rows[i].label.clone());
        }
        assert(rows@.skip(i as int).skip(1) =~= rows@.skip(i + 1));
        i += 1;
    }
    None
}

/// The `{from, to}` text for an action that moved the phone to another app. An
/// app that either tree does not name is no change.
pub open spec fn app_change(before: Seq<ElementRow>, after: Seq<ElementRow>) -> Option<Seq<char>> {
    match (frontmost(before), frontmost(after)) {
        (Some(from), Some(to)) => if from != to {
            Some(
                object_text(seq![("from"@, json_string_text(from)), ("to"@, json_string_text(to))]),
            )
        } else {
            None
        },
        _ => None,
    }
}

pub fn app_changed_json(before: &Vec<ElementRow>, after: &Vec<ElementRow>) -> (change: Option<
    String,
>)
    ensures
        opt_text(change) == app_change(before@, after@),
{
    match (active_application(before), active_application(after)) {
        (Some(from), Some(to)) => {
            if same_text(from.as_str(), to.as_str()) {
                None
            } else {
                let change = ObjectText::new().text("from", from.as_str()).text("to", to.as_str());
                assert(change.fields() =~= seq![
                    ("from"@, json_string_text(from@)),
                    ("to"@, json_string_text(to@)),
                ]);
                Some(change.finish())
            }
        },
        _ => None,
    }
}

pub open spec fn container_kinds() -> Seq<Seq<char>> {
    seq!["Application"@, "Window"@, "Other"@, "Image"@]
}

/// A tree in which nothing can be acted on: no rows, or containers and
/// decoration only.
pub open spec fn sparse(rows: Seq<ElementRow>) -> bool {
    forall|i: int| 0 <= i < rows.len() ==> container_kinds().contains((#[trigger] rows[i]).kind@)
}

pub fn settle_tree_is_sparse(rows: &Vec<ElementRow>) -> (bare: bool)
    ensures
        bare == sparse(rows@),
{
    let kinds: Vec<&'static str> = vec!["Application", "Window", "Other", "Image"];
    assert(strs(kinds@) =~= container_kinds());
    let mut i: usize = 0;
    while i < rows.len()
        invariant
            i <= rows@.len(),
            strs(kinds@) == container_kinds(),
            forall|k: int| 0 <= k < i ==> container_kinds().contains((#[trigger] rows@[k]).kind@),
        decreases rows@.len() - i,
    {
        if !listed(&kinds, rows[i].kind.as_str()) {
            return false;
        }
        i += 1;
    }
    true
}

pub open spec fn nonempty(s: Seq<char>) -> Option<Seq<char>> {
    if s.len() == 0 {
        None
    } else {
        Some(s)
    }
}

pub open spec fn nonempty_opt(s: Option<Seq<char>>) -> Option<Seq<char>> {
    match s {
        Some(s) => nonempty(s),
        None => None,
    }
}

/// The locator that re-finds a row. A label needs its kind beside it, so that a
/// different control with the same text cannot take its place; an identifier
/// stands on its own.
pub open spec fn row_locator(row: ElementRow) -> Option<LocatorView> {
    let label = nonempty(row.label@);
    let kind = nonempty(row.kind@);
    let identifier = nonempty_opt(opt_text(row.identifier));
    if identifier is None && (label is None || kind is None) {
        None
    } else {
        Some(
            LocatorView {
                label,
                identifier,
                kind,
                value: opt_text(row.value),
                focused: row.focused,
                enabled: row.enabled,
                visible: row.visible,
            },
        )
    }
}

fn keep_nonempty(s: &String) -> (kept: Option<String>)
    ensures
        opt_text(kept) == nonempty(s@),
{
    if s.as_str().is_empty() {
        None
    } else {
        Some(s.clone())
    }
}

fn copy_opt(s: &Option<String>) -> (copy: Option<String>)
    ensures
        opt_text(copy) == opt_text(*s),
{
    match s {
        Some(s) => Some(s.clone()),
        None => None,
    }
}

pub fn snapshot_row_locator(row: &ElementRow) -> (locator: Option<AgentElementLocator>)
    ensures
        match locator {
            Some(locator) => row_locator(*row) == Some(locator@),
            None => row_locator(*row) is None,
        },
{
    let label = keep_nonempty(&row.label);
    let kind = keep_nonempty(&row.kind);
    let identifier = match &row.identifier {
        Some(identifier) => keep_nonempty(identifier),
        None => None,
    };
    if identifier.is_none() && (label.is_none() || kind.is_none()) {
        return None;
    }
    Some(
        AgentElementLocator {
            label,
            identifier,
            kind,
            value: copy_opt(&row.value),
            focused: row.focused,
            enabled: row.enabled,
            visible: row.visible,
        },
    )
}

/// One character of a predicate literal: a backslash before a backslash or a
/// single quote.
pub open spec fn predicate_char(c: char) -> Seq<char> {
    if c == '\\' {
        seq!['\\', '\\']
    } else if c == '\'' {
        seq!['\\', '\'']
    } else {
        seq![c]
    }
}

pub open spec fn predicate_chars(s: Seq<char>) -> Seq<char>
    decreases s.len(),
{
    if s.len() == 0 {
        Seq::empty()
    } else {
        predicate_chars(s.drop_last()) + predicate_char(s.last())
    }
}

/// A string literal of the predicate language, in single quotes.
pub open spec fn predicate_literal(s: Seq<char>) -> Seq<char> {
    seq!['\''] + predicate_chars(s) + seq!['\'']
}

pub fn wda_predicate_literal(value: &str) -> (literal: String)
    ensures
        literal@ == predicate_literal(value@),
{
    let chars = chars_of(value);
    let mut out = String::new();
    out.push('\'');
    let mut i: usize = 0;
    assert(chars@.take(0) =~= Seq::empty());
    while i < chars.len()
        invariant
            i <= chars@.len(),
            out@ == seq!['\''] + predicate_chars(chars@.take(i as int)),
        decreases chars@.len() - i,
    {
        let c = chars[i];
        let ghost before = out@;
        if c == '\\' || c == '\'' {
            out.push('\\');
        }
        out.push(c);
        proof {
            let next = chars@.take(i + 1);
            assert(next.drop_last() =~= chars@.take(i as int));
            assert(next.last() == c);
            assert(out@ =~= before + predicate_char(c));
            assert(out@ =~= seq!['\''] + predicate_chars(next));
        }
        i += 1;
    }
    assert(chars@.take(i as int) =~= chars@);
    out.push('\'');
    assert(out@ =~= predicate_literal(value@));
    out
}

/// Undoes the escaping of a literal's inside.
pub open spec fn predicate_unescape(s: Seq<char>) -> Seq<char>
    decreases s.len(),
{
    if s.len() == 0 {
        Seq::empty()
    } else if s.len() >= 2 && s[0] == '\\' {
        seq![s[1]] + predicate_unescape(s.skip(2))
    } else {
        seq![s[0]] + predicate_unescape(s.skip(1))
    }
}

proof fn lemma_predicate_chars_front(s: Seq<char>)
    requires
        s.len() > 0,
    ensures
        predicate_chars(s) == predicate_char(s[0]) + predicate_chars(s.skip(1)),
    decreases s.len(),
{
    if s.len() == 1 {
        assert(s.drop_last() =~= Seq::empty());
        assert(s.skip(1) =~= Seq::empty());
        assert(predicate_chars(s) =~= predicate_char(s[0]) + predicate_chars(s.skip(1)));
    } else {
        lemma_predicate_chars_front(s.drop_last());
        assert(s.drop_last().skip(1) =~= s.skip(1).drop_last());
        assert(s.skip(1).last() == s.last());
        assert(predicate_chars(s) =~= predicate_char(s[0]) + predicate_chars(s.skip(1)));
    }
}

/// A predicate literal reads back as the value that it was made of, so no value
/// can end its literal early or stand for another value.
pub proof fn law_predicate_literal_reads_back(value: Seq<char>)
    ensures
        predicate_unescape(
            predicate_literal(value).subrange(1, predicate_literal(value).len() - 1),
        ) == value,
    decreases value.len(),
{
    assert(predicate_literal(value).subrange(1, predicate_literal(value).len() - 1)
        =~= predicate_chars(value));
    lemma_unescape(value);
}

proof fn lemma_unescape(s: Seq<char>)
    ensures
        predicate_unescape(predicate_chars(s)) == s,
    decreases s.len(),
{
    if s.len() == 0 {
    } else {
        lemma_predicate_chars_front(s);
        lemma_unescape(s.skip(1));
        let all = predicate_chars(s);
        let rest = predicate_chars(s.skip(1));
        if s[0] == '\\' || s[0] == '\'' {
            assert(all.skip(2) =~= rest);
        } else {
            assert(all.skip(1) =~= rest);
        }
        assert(s =~= seq![s[0]] + s.skip(1));
    }
}

pub open spec fn opt_clause(wanted: Option<Seq<char>>, before: Seq<char>) -> Seq<Seq<char>> {
    match wanted {
        Some(wanted) => seq![before + predicate_literal(wanted)],
        None => Seq::empty(),
    }
}

pub open spec fn flag_clause(wanted: Option<bool>, before: Seq<char>) -> Seq<Seq<char>> {
    match wanted {
        Some(wanted) => seq![
            before + (if wanted {
                "1"@
            } else {
                "0"@
            }),
        ],
        None => Seq::empty(),
    }
}

/// The clauses of the live query for a locator. The identifier has none: the
/// query language does not expose it.
pub open spec fn query_clauses(locator: LocatorView) -> Seq<Seq<char>> {
    (match locator.kind {
        Some(kind) => seq!["type == "@ + predicate_literal("XCUIElementType"@ + kind)],
        None => Seq::empty(),
    }) + (match locator.label {
        Some(label) => seq![
            "(label == "@ + predicate_literal(label) + " OR name == "@ + predicate_literal(label)
                + ")"@,
        ],
        None => Seq::empty(),
    }) + opt_clause(locator.value, "value == "@) + flag_clause(locator.focused, "focused == "@)
        + flag_clause(locator.enabled, "enabled == "@) + flag_clause(
        locator.visible,
        "visible == "@,
    )
}

/// Clauses joined by ` AND `.
pub open spec fn conjunction(clauses: Seq<Seq<char>>) -> Seq<char>
    decreases clauses.len(),
{
    if clauses.len() == 0 {
        Seq::empty()
    } else if clauses.len() == 1 {
        clauses[0]
    } else {
        conjunction(clauses.drop_last()) + " AND "@ + clauses.last()
    }
}

/// The live lookup for a locator: a predicate where any condition has a clause,
/// else the accessibility identifier, else none.
pub open spec fn wda_query(locator: LocatorView) -> Option<(Seq<char>, Seq<char>)> {
    if query_clauses(locator).len() == 0 {
        match locator.identifier {
            Some(identifier) => Some(("accessibility id"@, identifier)),
            None => None,
        }
    } else {
        Some(("predicate string"@, conjunction(query_clauses(locator))))
    }
}

fn put_clause(clauses: &mut Vec<String>, clause: String)
    ensures
        texts(final(clauses)@) == texts(old(clauses)@).push(clause@),
{
    clauses.push(clause);
    assert(texts(clauses@) =~= texts(old(clauses)@).push(clause@));
}

fn put_flag(clauses: &mut Vec<String>, wanted: Option<bool>, before: &str)
    ensures
        texts(final(clauses)@) == texts(old(clauses)@) + flag_clause(wanted, before@),
{
    match wanted {
        Some(true) => put_clause(clauses, join2(before, "1")),
        Some(false) => put_clause(clauses, join2(before, "0")),
        None => {},
    }
    assert(texts(clauses@) =~= texts(old(clauses)@) + flag_clause(wanted, before@));
}

fn join_clauses(clauses: &Vec<String>) -> (joined: String)
    ensures
        joined@ == conjunction(texts(clauses@)),
{
    let mut out = String::new();
    let mut i: usize = 0;
    assert(texts(clauses@).take(0) =~= Seq::empty());
    while i < clauses.len()
        invariant
            i <= clauses@.len(),
            out@ == conjunction(texts(clauses@).take(i as int)),
        decreases clauses@.len() - i,
    {
        let ghost before = out@;
        if i > 0 {
            out.append(" AND ");
        }
        out.append(clauses[i].as_str());
        proof {
            let now = texts(clauses@).take(i as int);
            let next = texts(clauses@).take(i + 1);
            assert(next.drop_last() =~= now);
            assert(next.last() == clauses@[i as int]@);
            if i > 0 {
                assert(out@ =~= conjunction(now) + " AND "@ + next.last());
            } else {
                assert(now =~= Seq::empty());
                assert(out@ =~= next[0]);
            }
        }
        i += 1;
    }
    assert(texts(clauses@).take(i as int) =~= texts(clauses@));
    out
}

pub fn locator_wda_query(locator: &AgentElementLocator) -> (query: Option<(&'static str, String)>)
    ensures
        match query {
            Some((using, value)) => wda_query(locator@) == Some((using@, value@)),
            None => wda_query(locator@) is None,
        },
{
    let mut clauses: Vec<String> = Vec::new();
    assert(texts(clauses@) =~= Seq::empty());
    if let Some(kind) = &locator.kind {
        let class = join2("XCUIElementType", kind.as_str());
        let literal = wda_predicate_literal(class.as_str());
        put_clause(&mut clauses, join2("type == ", literal.as_str()));
    }
    if let Some(label) = &locator.label {
        let literal = wda_predicate_literal(label.as_str());
        let mut clause = join3("(label == ", literal.as_str(), " OR name == ");
        clause.append(literal.as_str());
        clause.append(")");
        put_clause(&mut clauses, clause);
    }
    if let Some(value) = &locator.value {
        let literal = wda_predicate_literal(value.as_str());
        put_clause(&mut clauses, join2("value == ", literal.as_str()));
    }
    put_flag(&mut clauses, locator.focused, "focused == ");
    put_flag(&mut clauses, locator.enabled, "enabled == ");
    put_flag(&mut clauses, locator.visible, "visible == ");
    assert(texts(clauses@) =~= query_clauses(locator@));
    if clauses.len() == 0 {
        match &locator.identifier {
            Some(identifier) => Some(("accessibility id", identifier.clone())),
            None => None,
        }
    } else {
        Some(("predicate string", join_clauses(&clauses)))
    }
}

pub open spec fn advertises(row: ElementRow, verb: Seq<char>) -> bool {
    row.actions matches Some(actions) && texts(actions@).contains(verb)
}

/// Which rows can carry a verb: the value-shaped verbs need a control that has a
/// value, gestures go anywhere.
pub open spec fn verb_permitted(verb: Seq<char>, row: ElementRow) -> bool {
    if verb == "increment"@ || verb == "decrement"@ {
        row.kind@ == "PickerWheel"@ || row.kind@ == "Stepper"@ || row.kind@ == "Slider"@
    } else if verb == "adjust"@ {
        row.kind@ == "PickerWheel"@ || row.kind@ == "Slider"@
    } else if verb == "toggle"@ {
        row.kind@ == "Switch"@ || advertises(row, "toggle"@)
    } else {
        true
    }
}

fn row_advertises(row: &ElementRow, verb: &str) -> (found: bool)
    ensures
        found == advertises(*row, verb@),
{
    match &row.actions {
        Some(actions) => {
            let mut i: usize = 0;
            while i < actions.len()
                invariant
                    i <= actions@.len(),
                    row.actions == Some(*actions),
                    forall|k: int| 0 <= k < i ==> texts(actions@)[k] != verb@,
                decreases actions@.len() - i,
            {
                if same_text(actions[i].as_str(), verb) {
                    assert(texts(actions@)[i as int] == verb@);
                    return true;
                }
                i += 1;
            }
            false
        },
        None => false,
    }
}

pub fn perform_action_kind_permitted(action: &str, row: &ElementRow) -> (permitted: bool)
    ensures
        permitted == verb_permitted(action@, *row),
{
    let kind = row.kind.as_str();
    if same_text(action, "increment") || same_text(action, "decrement") {
        same_text(kind, "PickerWheel") || same_text(kind, "Stepper") || same_text(kind, "Slider")
    } else if same_text(action, "adjust") {
        same_text(kind, "PickerWheel") || same_text(kind, "Slider")
    } else if same_text(action, "toggle") {
        same_text(kind, "Switch") || row_advertises(row, "toggle")
    } else {
        true
    }
}

/// The lengths and some letters of words, which tell them apart.
proof fn lemma_action_words()
    ensures
        "adjust"@.len() == 6,
        "adjust"@[0] == 'a',
        "toggle"@.len() == 6,
        "toggle"@[0] == 't',
        "increment"@.len() == 9,
        "increment"@[0] == 'i',
        "decrement"@.len() == 9,
        "decrement"@[0] == 'd',
{
    reveal_strlit("adjust");
    reveal_strlit("toggle");
    reveal_strlit("increment");
    reveal_strlit("decrement");
}

/// Every condition that a locator states decides: a row that meets the locator
/// agrees with each of them, and a row that agrees with all of them meets it. A
/// row that does not say is taken as not focused, enabled and visible.
pub proof fn law_every_stated_condition_decides(row: ElementRow, locator: LocatorView)
    ensures
        locator_matches(row, locator) ==> {
            &&& locator.label matches Some(label) ==> row.label@ == label
            &&& locator.kind matches Some(kind) ==> row.kind@ == kind
            &&& locator.identifier matches Some(identifier) ==> (row.identifier matches Some(own)
                && own@ == identifier)
            &&& locator.value matches Some(value) ==> (row.value matches Some(own) && own@ == value)
            &&& locator.focused == Some(true) ==> row.focused == Some(true)
            &&& locator.focused == Some(false) ==> row.focused != Some(true)
            &&& locator.enabled == Some(true) ==> row.enabled != Some(false)
            &&& locator.enabled == Some(false) ==> row.enabled == Some(false)
            &&& locator.visible == Some(true) ==> row.visible != Some(false)
            &&& locator.visible == Some(false) ==> row.visible == Some(false)
        },
        (locator.label is None || locator.label == Some(row.label@)) && (locator.kind is None
            || locator.kind == Some(row.kind@)) && (locator.identifier is None || (row.identifier
            is Some && locator.identifier == Some((row.identifier->0)@))) && (locator.value is None
            || (row.value is Some && locator.value == Some((row.value->0)@))) && (locator.focused
            is None || locator.focused == Some(row.focused == Some(true))) && (locator.enabled
            is None || locator.enabled == Some(row.enabled != Some(false))) && (locator.visible
            is None || locator.visible == Some(row.visible != Some(false))) ==> locator_matches(
            row,
            locator,
        ),
{
}

/// A locator has a condition exactly where one of its parts is there; one
/// without any meets every row.
pub proof fn law_a_locator_without_conditions_says_nothing(locator: LocatorView, row: ElementRow)
    ensures
        !has_condition(locator) <==> locator == (LocatorView {
            label: None,
            identifier: None,
            kind: None,
            value: None,
            focused: None,
            enabled: None,
            visible: None,
        }),
        !has_condition(locator) ==> locator_matches(row, locator),
{
}

/// A locator is there in a tree exactly where some row of it meets it.
pub proof fn law_present_means_some_row(rows: Seq<ElementRow>, locator: LocatorView, i: int)
    ensures
        0 <= i < rows.len() && locator_matches(rows[i], locator) ==> present(rows, locator),
        rows.len() == 0 ==> !present(rows, locator),
        present(rows, locator) && (locator.label matches Some(label)) ==> exists|k: int|
            0 <= k < rows.len() && (#[trigger] rows[k]).label@ == locator.label->0,
{
    if present(rows, locator) {
        let k = choose|k: int| 0 <= k < rows.len() && locator_matches(#[trigger] rows[k], locator);
        assert(locator.label matches Some(label) ==> rows[k].label@ == label);
    }
}

/// A locator document says field by field what its locator asks for; a field of
/// another name, or of another kind of value, makes it no locator at all.
pub proof fn law_a_locator_says_what_its_document_says(fields: Seq<(Seq<char>, JsonView)>, i: int)
    ensures
        ({
            let json = JsonView::Object(fields);
            &&& locator_of(json) matches Some(l) ==> {
                &&& l.label matches Some(s) ==> field_of(json, "label"@) == Some(JsonView::Text(s))
                &&& l.identifier matches Some(s) ==> field_of(json, "identifier"@) == Some(
                    JsonView::Text(s),
                )
                &&& l.kind matches Some(s) ==> field_of(json, "kind"@) == Some(JsonView::Text(s))
                &&& l.value matches Some(s) ==> field_of(json, "value"@) == Some(JsonView::Text(s))
                &&& l.focused matches Some(b) ==> field_of(json, "focused"@) == Some(
                    JsonView::Bool(b),
                )
                &&& l.enabled matches Some(b) ==> field_of(json, "enabled"@) == Some(
                    JsonView::Bool(b),
                )
                &&& l.visible matches Some(b) ==> field_of(json, "visible"@) == Some(
                    JsonView::Bool(b),
                )
                &&& field_of(json, "label"@) matches Some(JsonView::Text(s)) ==> l.label == Some(s)
                &&& field_of(json, "identifier"@) matches Some(JsonView::Text(s)) ==> l.identifier
                    == Some(s)
                &&& field_of(json, "kind"@) matches Some(JsonView::Text(s)) ==> l.kind == Some(s)
                &&& field_of(json, "value"@) matches Some(JsonView::Text(s)) ==> l.value == Some(s)
                &&& field_of(json, "focused"@) matches Some(JsonView::Bool(b)) ==> l.focused == Some(
                    b,
                )
                &&& field_of(json, "enabled"@) matches Some(JsonView::Bool(b)) ==> l.enabled == Some(
                    b,
                )
                &&& field_of(json, "visible"@) matches Some(JsonView::Bool(b)) ==> l.visible == Some(
                    b,
                )
            }
            &&& 0 <= i < fields.len() && fields[i].0 != "label"@ && fields[i].0 != "identifier"@
                && fields[i].0 != "kind"@ && fields[i].0 != "value"@ && fields[i].0 != "focused"@
                && fields[i].0 != "enabled"@ && fields[i].0 != "visible"@ ==> locator_of(json)
                is None
            &&& (field_of(json, "label"@) matches Some(JsonView::Bool(_))) ==> locator_of(json)
                is None
            &&& (field_of(json, "value"@) matches Some(JsonView::Number(_))) ==> locator_of(json)
                is None
            &&& (field_of(json, "enabled"@) matches Some(JsonView::Text(_))) ==> locator_of(json)
                is None
        }),
        locator_of(JsonView::Object(Seq::empty())) == Some(
            LocatorView {
                label: None,
                identifier: None,
                kind: None,
                value: None,
                focused: None,
                enabled: None,
                visible: None,
            },
        ),
{
    let keys = locator_keys();
    if 0 <= i < fields.len() {
        assert(known_fields(fields, keys) ==> keys.contains(fields[i].0));
    }
}

/// The app in front is named by the first row that is one, and by no other.
pub proof fn law_the_app_in_front_is_the_first_one(rows: Seq<ElementRow>)
    ensures
        frontmost(rows) matches Some(label) ==> exists|i: int|
            {
                &&& 0 <= i < rows.len()
                &&& (#[trigger] rows[i]).kind@ == "Application"@
                &&& rows[i].label@ == label
                &&& forall|j: int| 0 <= j < i ==> (#[trigger] rows[j]).kind@ != "Application"@
            },
        frontmost(rows) is None ==> forall|i: int|
            0 <= i < rows.len() ==> (#[trigger] rows[i]).kind@ != "Application"@,
    decreases rows.len(),
{
    if rows.len() > 0 && rows[0].kind@ != "Application"@ {
        let rest = rows.skip(1);
        law_the_app_in_front_is_the_first_one(rest);
        if frontmost(rest) is Some {
            let i = choose|i: int|
                {
                    &&& 0 <= i < rest.len()
                    &&& (#[trigger] rest[i]).kind@ == "Application"@
                    &&& rest[i].label@ == frontmost(rest)->0
                    &&& forall|j: int| 0 <= j < i ==> (#[trigger] rest[j]).kind@ != "Application"@
                };
            assert(rows[i + 1] == rest[i]);
            assert forall|j: int| 0 <= j < i + 1 implies (#[trigger] rows[j]).kind@
                != "Application"@ by {
                if j > 0 {
                    assert(rows[j] == rest[j - 1]);
                }
            }
        } else {
            assert forall|i: int| 0 <= i < rows.len() implies (#[trigger] rows[i]).kind@
                != "Application"@ by {
                if i > 0 {
                    assert(rows[i] == rest[i - 1]);
                }
            }
        }
    } else if rows.len() > 0 {
        assert(rows[0].kind@ == "Application"@);
    }
}

/// A change of app is told only where both trees name an app and the names
/// differ, and it goes from the one before to the one after.
pub proof fn law_an_app_change_goes_from_before_to_after(
    before: Seq<ElementRow>,
    after: Seq<ElementRow>,
)
    ensures
        app_change(before, after) is Some <==> (frontmost(before) is Some && frontmost(after)
            is Some && frontmost(before) != frontmost(after)),
        app_change(before, after) matches Some(text) ==> text == object_text(
            seq![
                ("from"@, json_string_text(frontmost(before)->0)),
                ("to"@, json_string_text(frontmost(after)->0)),
            ],
        ),
        app_change(before, before) is None,
{
}

/// A tree is sparse exactly where every row of it is an app, a window, a picture
/// or nothing in particular.
pub proof fn law_sparse_means_nothing_to_act_on(rows: Seq<ElementRow>, i: int)
    ensures
        0 <= i < rows.len() && rows[i].kind@ != "Application"@ && rows[i].kind@ != "Window"@
            && rows[i].kind@ != "Other"@ && rows[i].kind@ != "Image"@ ==> !sparse(rows),
        (forall|k: int|
            0 <= k < rows.len() ==> {
                let kind = (#[trigger] rows[k]).kind@;
                kind == "Application"@ || kind == "Window"@ || kind == "Other"@ || kind == "Image"@
            }) ==> sparse(rows),
{
    let kinds = container_kinds();
    assert(kinds[0] == "Application"@ && kinds[1] == "Window"@ && kinds[2] == "Other"@ && kinds[3]
        == "Image"@);
}

/// The locator that is made of a row finds that row: the row meets it. It is made
/// only where the row says enough, by an identifier or by a label with its kind,
/// and it asks for all that the row says.
pub proof fn law_a_row_meets_its_own_locator(row: ElementRow)
    ensures
        row_locator(row) matches Some(l) ==> {
            &&& locator_matches(row, l)
            &&& l.identifier is Some || (l.label is Some && l.kind is Some)
            &&& row.label@.len() > 0 ==> l.label == Some(row.label@)
            &&& row.kind@.len() > 0 ==> l.kind == Some(row.kind@)
            &&& row.value matches Some(value) ==> l.value == Some(value@)
            &&& row.identifier matches Some(own) ==> own@.len() > 0 ==> l.identifier == Some(own@)
            &&& row.enabled is Some ==> l.enabled == row.enabled
            &&& row.visible is Some ==> l.visible == row.visible
            &&& row.focused is Some ==> l.focused == row.focused
        },
        row_locator(row) is None <==> (row.identifier is None || (row.identifier->0)@.len() == 0)
            && (row.label@.len() == 0 || row.kind@.len() == 0),
{
}

proof fn lemma_conjunction_holds(clauses: Seq<Seq<char>>, i: int) -> (at: int)
    requires
        0 <= i < clauses.len(),
    ensures
        0 <= at <= at + clauses[i].len() <= conjunction(clauses).len(),
        conjunction(clauses).subrange(at, at + clauses[i].len()) == clauses[i],
    decreases clauses.len(),
{
    let all = conjunction(clauses);
    if clauses.len() == 1 {
        assert(all.subrange(0, clauses[0].len() as int) =~= clauses[0]);
        0
    } else {
        let before = conjunction(clauses.drop_last());
        if i == clauses.len() - 1 {
            let at = (before + " AND "@).len() as int;
            assert(all.subrange(at, at + clauses[i].len()) =~= clauses[i]);
            at
        } else {
            let at = lemma_conjunction_holds(clauses.drop_last(), i);
            assert(clauses.drop_last()[i] == clauses[i]);
            assert(all.subrange(at, at + clauses[i].len()) =~= before.subrange(
                at,
                at + clauses[i].len(),
            ));
            at
        }
    }
}

/// Whether a text has another one in it.
pub open spec fn has_part(text: Seq<char>, part: Seq<char>) -> bool {
    exists|at: int|
        0 <= at <= at + part.len() <= text.len() && #[trigger] text.subrange(at, at + part.len())
            == part
}

/// The lookup of a live element asks for every condition of its locator that the
/// runner can be asked for: the kind by its full name, the label as label or
/// name, the value, and the three states. Without any of these it goes by the
/// identifier alone, and without that there is none.
pub proof fn law_a_lookup_asks_for_every_condition(l: LocatorView)
    ensures
        l.kind is None && l.label is None && l.value is None && l.focused is None && l.enabled
            is None && l.visible is None ==> {
            &&& l.identifier matches Some(identifier) ==> wda_query(l) == Some(
                ("accessibility id"@, identifier),
            )
            &&& l.identifier is None ==> wda_query(l) is None
        },
        l.kind is Some || l.label is Some || l.value is Some || l.focused is Some || l.enabled
            is Some || l.visible is Some ==> {
            &&& wda_query(l) matches Some((using, text))
            &&& using == "predicate string"@
            &&& l.kind matches Some(kind) ==> has_part(
                text,
                "type == "@ + predicate_literal("XCUIElementType"@ + kind),
            )
            &&& l.label matches Some(label) ==> has_part(
                text,
                "(label == "@ + predicate_literal(label) + " OR name == "@ + predicate_literal(
                    label,
                ) + ")"@,
            )
            &&& l.value matches Some(value) ==> has_part(
                text,
                "value == "@ + predicate_literal(value),
            )
            &&& l.focused == Some(true) ==> has_part(text, "focused == "@ + "1"@)
            &&& l.focused == Some(false) ==> has_part(text, "focused == "@ + "0"@)
            &&& l.enabled == Some(true) ==> has_part(text, "enabled == "@ + "1"@)
            &&& l.enabled == Some(false) ==> has_part(text, "enabled == "@ + "0"@)
            &&& l.visible == Some(true) ==> has_part(text, "visible == "@ + "1"@)
            &&& l.visible == Some(false) ==> has_part(text, "visible == "@ + "0"@)
        },
{
    let all = query_clauses(l);
    let k: int = if l.kind is Some {
        1
    } else {
        0
    };
    let n: int = k + if l.label is Some {
        1int
    } else {
        0
    };
    let v: int = n + if l.value is Some {
        1int
    } else {
        0
    };
    let f: int = v + if l.focused is Some {
        1int
    } else {
        0
    };
    let e: int = f + if l.enabled is Some {
        1int
    } else {
        0
    };
    if let Some(kind) = l.kind {
        assert(all[0] == "type == "@ + predicate_literal("XCUIElementType"@ + kind));
        let at = lemma_conjunction_holds(all, 0);
    }
    if let Some(label) = l.label {
        assert(all[k] == "(label == "@ + predicate_literal(label) + " OR name == "@
            + predicate_literal(label) + ")"@);
        let at = lemma_conjunction_holds(all, k);
    }
    if let Some(value) = l.value {
        assert(all[n] == "value == "@ + predicate_literal(value));
        let at = lemma_conjunction_holds(all, n);
    }
    if l.focused is Some {
        assert(all[v] == "focused == "@ + (if l.focused == Some(true) {
            "1"@
        } else {
            "0"@
        }));
        let at = lemma_conjunction_holds(all, v);
    }
    if l.enabled is Some {
        assert(all[f] == "enabled == "@ + (if l.enabled == Some(true) {
            "1"@
        } else {
            "0"@
        }));
        let at = lemma_conjunction_holds(all, f);
    }
    if l.visible is Some {
        assert(all[e] == "visible == "@ + (if l.visible == Some(true) {
            "1"@
        } else {
            "0"@
        }));
        let at = lemma_conjunction_holds(all, e);
    }
}

/// A value can be stepped on a wheel, a stepper and a slider, set on a wheel and
/// a slider, and switched on a switch or on a row that says it can be; gestures
/// go anywhere.
pub proof fn law_a_verb_needs_a_row_that_carries_it(verb: Seq<char>, row: ElementRow)
    ensures
        verb == "increment"@ || verb == "decrement"@ ==> (verb_permitted(verb, row) <==> row.kind@
            == "PickerWheel"@ || row.kind@ == "Stepper"@ || row.kind@ == "Slider"@),
        verb == "adjust"@ ==> (verb_permitted(verb, row) <==> row.kind@ == "PickerWheel"@
            || row.kind@ == "Slider"@),
        verb == "toggle"@ && row.kind@ == "Switch"@ ==> verb_permitted(verb, row),
        verb == "toggle"@ && row.kind@ != "Switch"@ && row.actions is None ==> !verb_permitted(
            verb,
            row,
        ),
        verb == "toggle"@ && verb_permitted(verb, row) && row.kind@ != "Switch"@ ==> exists|i: int|
            0 <= i < (row.actions->0)@.len() && (#[trigger] (row.actions->0)@[i])@ == "toggle"@,
        verb != "increment"@ && verb != "decrement"@ && verb != "adjust"@ && verb != "toggle"@
            ==> verb_permitted(verb, row),
{
    lemma_action_words();
    if verb == "toggle"@ && verb_permitted(verb, row) && row.kind@ != "Switch"@ {
        let actions = row.actions->0;
        let i = choose|i: int| 0 <= i < texts(actions@).len() && texts(actions@)[i] == "toggle"@;
        assert(actions@[i]@ == "toggle"@);
    }
}

} // verus!
