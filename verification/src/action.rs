//! The shape of one batched action: which documents are accepted, and with what
//! words the others are refused.

use vstd::prelude::*;

use crate::apps::{bundle_named, stock_apps, system_app_bundle};
use crate::json::{
    bool_of, field_of, finite_unit, number_of, number_positive, number_unit, number_within,
    number_zero, text_of, unsigned_of, Json, JsonView, Limit,
};
use crate::locator::{
    has_condition, listed, locator_has_condition, locator_of, parse_locator, perform_action_names,
    perform_verbs, strs,
};
use crate::reply::opt_str;
use crate::text::{
    append_decimal, ascii_alnum, chars_of, debug_of, debug_text, decimal, is_ascii_alnum,
    same_text, trimmed,
};

verus! {

pub open spec fn given(a: JsonView, key: Seq<char>) -> bool {
    field_of(a, key) is Some
}

/// The field is a string of `low` to `high` characters.
pub open spec fn text_within(a: JsonView, key: Seq<char>, low: nat, high: nat) -> bool {
    text_of(field_of(a, key)) matches Some(s) && low <= s.len() <= high
}

/// The field is missing, or an integer of `low` to `high`.
pub open spec fn unsigned_or_missing(a: JsonView, key: Seq<char>, low: u64, high: u64) -> bool {
    given(a, key) ==> (unsigned_of(field_of(a, key)) matches Some(n) && low <= n <= high)
}

/// The field is a number from 0 to 1.
pub open spec fn unit_field(a: JsonView, key: Seq<char>) -> bool {
    number_unit(number_of(field_of(a, key)))
}

/// The action names a row of a snapshot: an index, and a token of 1 to 200
/// characters.
pub open spec fn snapshot_bound(a: JsonView) -> bool {
    unsigned_of(field_of(a, "element"@)) is Some && text_within(a, "snapshot"@, 1, 200)
}

pub open spec fn limit_thousand() -> Limit {
    Limit { whole: 1000, bits: 0x408F_4000_0000_0000 }
}

pub open spec fn limit_ten() -> Limit {
    Limit { whole: 10, bits: 0x4024_0000_0000_0000 }
}

pub open spec fn limit_five() -> Limit {
    Limit { whole: 5, bits: 0x4014_0000_0000_0000 }
}

/// One full turn in radians.
pub open spec fn limit_turn() -> Limit {
    Limit { whole: 6, bits: 0x4019_21FB_5444_2D18 }
}

/// A scroll distance: missing (which is zero), or a number within 1000.
pub open spec fn delta_field(a: JsonView, key: Seq<char>) -> bool {
    given(a, key) ==> (number_of(field_of(a, key)) matches Some(n) && number_within(
        n,
        limit_thousand(),
    ))
}

pub open spec fn delta_zero(a: JsonView, key: Seq<char>) -> bool {
    given(a, key) ==> (number_of(field_of(a, key)) matches Some(n) && number_zero(n))
}

/// Both scroll distances are usable and they are not both zero.
pub open spec fn deltas_valid(a: JsonView) -> bool {
    &&& delta_field(a, "dx"@)
    &&& delta_field(a, "dy"@)
    &&& !(delta_zero(a, "dx"@) && delta_zero(a, "dy"@))
}

pub open spec fn tap_fault(a: JsonView) -> Option<Seq<char>> {
    let by_label = given(a, "label"@);
    let by_element = given(a, "element"@);
    let by_point = given(a, "x"@) || given(a, "y"@);
    if (by_label && by_element) || (by_label && by_point) || (by_element && by_point) || !(by_label
        || by_element || by_point) {
        Some("tap must use exactly one target mode: label, element+snapshot, or x+y"@)
    } else if by_label && !text_within(a, "label"@, 1, 500) {
        Some("tap label must contain 1 to 500 characters"@)
    } else if by_element && !snapshot_bound(a) {
        Some("indexed tap needs a non-negative element and snapshot"@)
    } else if by_point && !(unit_field(a, "x"@) && unit_field(a, "y"@)) {
        Some("tap coordinates must be finite values from 0 to 1"@)
    } else {
        None
    }
}

pub open spec fn tap_locator_fault(a: JsonView) -> Option<Seq<char>> {
    let locator = match field_of(a, "locator"@) {
        Some(json) => locator_of(json),
        None => None,
    };
    if locator matches Some(locator) && has_condition(locator) {
        None
    } else {
        Some("tap_locator needs one non-empty strict locator with supported fields"@)
    }
}

pub open spec fn longpress_fault(a: JsonView) -> Option<Seq<char>> {
    if unit_field(a, "x"@) && unit_field(a, "y"@) && unsigned_or_missing(
        a,
        "duration_ms"@,
        0,
        10_000,
    ) {
        None
    } else {
        Some("longpress needs x/y from 0 to 1 and duration_ms at most 10000"@)
    }
}

pub open spec fn unit_or_missing(a: JsonView, key: Seq<char>) -> bool {
    given(a, key) ==> unit_field(a, key)
}

pub open spec fn scroll_fault(a: JsonView) -> Option<Seq<char>> {
    if given(a, "element"@) {
        if given(a, "x"@) || given(a, "y"@) {
            Some("element scroll does not take x/y coordinates"@)
        } else if !snapshot_bound(a) {
            Some("element scroll needs a non-negative element and snapshot"@)
        } else if !deltas_valid(a) {
            Some("scroll geometry is invalid"@)
        } else {
            None
        }
    } else if unit_or_missing(a, "x"@) && unit_or_missing(a, "y"@) && deltas_valid(a) {
        None
    } else {
        Some("scroll geometry is invalid"@)
    }
}

pub open spec fn set_value_fault(a: JsonView) -> Option<Seq<char>> {
    if snapshot_bound(a) && text_within(a, "value"@, 0, 1_000) {
        None
    } else {
        Some("set_value needs element, snapshot, and a string value up to 1000 characters"@)
    }
}

pub open spec fn text_fault(a: JsonView) -> Option<Seq<char>> {
    if text_within(a, "text"@, 0, 1_000) && (given(a, "clear"@) ==> bool_of(
        field_of(a, "clear"@),
    ) is Some) {
        None
    } else {
        Some("text needs a string up to 1000 characters and optional bool clear"@)
    }
}

pub open spec fn key_names() -> Seq<Seq<char>> {
    seq![
        "return"@,
        "enter"@,
        "escape"@,
        "space"@,
        "tab"@,
        "delete"@,
        "backspace"@,
        "up"@,
        "down"@,
        "left"@,
        "right"@,
        "dismiss"@,
        "hide"@,
    ]
}

pub open spec fn key_fault(a: JsonView) -> Option<Seq<char>> {
    if text_of(field_of(a, "name"@)) matches Some(name) && key_names().contains(name) {
        None
    } else {
        Some("key name is unsupported"@)
    }
}

pub open spec fn shortcut_fault(a: JsonView) -> Option<Seq<char>> {
    if text_of(field_of(a, "name"@)) matches Some(name) && (name == "home"@ || name
        == "spotlight"@) {
        None
    } else {
        Some("shortcut must be home or spotlight"@)
    }
}

pub open spec fn swipe_fault(a: JsonView) -> Option<Seq<char>> {
    if unit_field(a, "x1"@) && unit_field(a, "y1"@) && unit_field(a, "x2"@) && unit_field(
        a,
        "y2"@,
    ) && unsigned_or_missing(a, "duration_ms"@, 0, 10_000) && unsigned_or_missing(
        a,
        "hold_ms"@,
        0,
        10_000,
    ) {
        None
    } else {
        Some("swipe/drag geometry or timing is invalid"@)
    }
}

pub open spec fn bundle_char(c: char) -> bool {
    ascii_alnum(c) || c == '.' || c == '-'
}

/// A bundle identifier: 1 to 200 letters, digits, dots and hyphens.
pub open spec fn bundle_valid(s: Seq<char>) -> bool {
    1 <= s.len() <= 200 && forall|i: int| 0 <= i < s.len() ==> bundle_char(#[trigger] s[i])
}

pub open spec fn launch_app_fault(a: JsonView) -> Option<Seq<char>> {
    let valid_bundle = text_of(field_of(a, "bundle"@)) matches Some(bundle) && bundle_valid(bundle);
    let valid_name = text_of(field_of(a, "name"@)) matches Some(name) && bundle_named(
        stock_apps(),
        trimmed(name),
    ) is Some;
    if given(a, "bundle"@) != given(a, "name"@) && (given(a, "bundle"@) ==> valid_bundle) && (given(
        a,
        "name"@,
    ) ==> valid_name) {
        None
    } else {
        Some("launch_app needs exactly one valid bundle or supported system-app name"@)
    }
}

pub open spec fn picker_fault(a: JsonView) -> Option<Seq<char>> {
    if text_within(a, "value"@, 1, 500) && unsigned_or_missing(a, "column"@, 0, 20) {
        None
    } else {
        Some("picker needs a value up to 500 characters and column 0 to 20"@)
    }
}

/// The value belongs to `adjust` and to nothing else.
pub open spec fn perform_value_fault(a: JsonView, verb: Seq<char>) -> Option<Seq<char>> {
    if verb == "adjust"@ {
        if !given(a, "value"@) {
            Some("perform adjust requires a value"@)
        } else if !text_within(a, "value"@, 1, 500) {
            Some(
                "perform adjust value must be a JSON string of 1 to 500 characters: a picker option's text, or a slider position such as \"0.5\""@,
            )
        } else {
            None
        }
    } else if given(a, "value"@) {
        Some("perform value is only accepted with action adjust"@)
    } else {
        None
    }
}

pub open spec fn perform_duration_fault(a: JsonView, verb: Seq<char>) -> Option<Seq<char>> {
    if !given(a, "duration_ms"@) {
        None
    } else if verb != "menu"@ && verb != "force_press"@ {
        Some("perform duration_ms is only accepted with menu or force_press"@)
    } else if !unsigned_or_missing(a, "duration_ms"@, 1, 10_000) {
        Some("perform duration_ms must be 1 to 10000"@)
    } else {
        None
    }
}

/// The field is a number above 0 and within the limit.
pub open spec fn positive_within(a: JsonView, key: Seq<char>, limit: Limit) -> bool {
    number_of(field_of(a, key)) matches Some(n) && number_positive(n) && number_within(n, limit)
}

/// The field is a number other than 0 and within the limit.
pub open spec fn nonzero_within(a: JsonView, key: Seq<char>, limit: Limit) -> bool {
    number_of(field_of(a, key)) matches Some(n) && !number_zero(n) && number_within(n, limit)
}

pub open spec fn perform_scale_fault(a: JsonView, verb: Seq<char>) -> Option<Seq<char>> {
    if given(a, "scale"@) {
        if verb != "pinch"@ {
            Some("perform scale is only accepted with pinch"@)
        } else if !positive_within(a, "scale"@, limit_ten()) {
            Some("perform pinch scale must be above 0 and at most 10"@)
        } else {
            None
        }
    } else if verb == "pinch"@ {
        Some("perform pinch requires a scale"@)
    } else {
        None
    }
}

pub open spec fn perform_rotation_fault(a: JsonView, verb: Seq<char>) -> Option<Seq<char>> {
    if given(a, "rotation"@) {
        if verb != "rotate"@ {
            Some("perform rotation is only accepted with rotate"@)
        } else if !nonzero_within(a, "rotation"@, limit_turn()) {
            Some("perform rotate rotation must be non-zero within 2*pi radians"@)
        } else {
            None
        }
    } else if verb == "rotate"@ {
        Some("perform rotate requires a rotation"@)
    } else {
        None
    }
}

pub open spec fn perform_velocity_fault(a: JsonView, verb: Seq<char>) -> Option<Seq<char>> {
    if !given(a, "velocity"@) {
        None
    } else if verb != "pinch"@ && verb != "rotate"@ {
        Some("perform velocity is only accepted with pinch or rotate"@)
    } else if !nonzero_within(a, "velocity"@, limit_ten()) {
        Some("perform velocity must be non-zero within 10"@)
    } else {
        None
    }
}

pub open spec fn perform_pressure_fault(a: JsonView, verb: Seq<char>) -> Option<Seq<char>> {
    if !given(a, "pressure"@) {
        None
    } else if verb != "force_press"@ {
        Some("perform pressure is only accepted with force_press"@)
    } else if !positive_within(a, "pressure"@, limit_five()) {
        Some("perform pressure must be above 0 and at most 5"@)
    } else {
        None
    }
}

/// The first fault of two.
pub open spec fn fault_or(first: Option<Seq<char>>, second: Option<Seq<char>>) -> Option<
    Seq<char>,
> {
    if first is Some {
        first
    } else {
        second
    }
}

pub open spec fn perform_fault(a: JsonView) -> Option<Seq<char>> {
    if !snapshot_bound(a) {
        Some("perform needs a non-negative element and snapshot"@)
    } else {
        match text_of(field_of(a, "action"@)) {
            Some(verb) if perform_verbs().contains(verb) => fault_or(
                perform_value_fault(a, verb),
                fault_or(
                    perform_duration_fault(a, verb),
                    fault_or(
                        perform_scale_fault(a, verb),
                        fault_or(
                            perform_rotation_fault(a, verb),
                            fault_or(
                                perform_velocity_fault(a, verb),
                                perform_pressure_fault(a, verb),
                            ),
                        ),
                    ),
                ),
            ),
            _ => Some("perform action name is unsupported"@),
        }
    }
}

pub open spec fn alert_fault(a: JsonView) -> Option<Seq<char>> {
    let by_button = given(a, "button"@) && !given(a, "action"@) && text_within(a, "button"@, 1, 200);
    let by_verb = given(a, "action"@) && !given(a, "button"@) && (text_of(field_of(a, "action"@))
        matches Some(verb) && (verb == "accept"@ || verb == "dismiss"@));
    if by_button || by_verb {
        None
    } else {
        Some("alert needs exactly one of button (1-200 chars) or action accept|dismiss"@)
    }
}

/// What is wrong with an action of the given type, in words.
pub open spec fn action_fault(a: JsonView, typ: Seq<char>) -> Option<Seq<char>> {
    if typ == "tap"@ {
        tap_fault(a)
    } else if typ == "tap_locator"@ {
        tap_locator_fault(a)
    } else if typ == "longpress"@ {
        longpress_fault(a)
    } else if typ == "scroll"@ {
        scroll_fault(a)
    } else if typ == "set_value"@ {
        set_value_fault(a)
    } else if typ == "text"@ {
        text_fault(a)
    } else if typ == "key"@ {
        key_fault(a)
    } else if typ == "keyboard"@ || typ == "home"@ || typ == "back"@ {
        None
    } else if typ == "shortcut"@ {
        shortcut_fault(a)
    } else if typ == "swipe"@ || typ == "drag"@ {
        swipe_fault(a)
    } else if typ == "launch_app"@ {
        launch_app_fault(a)
    } else if typ == "picker"@ {
        picker_fault(a)
    } else if typ == "perform"@ {
        perform_fault(a)
    } else if typ == "alert"@ {
        alert_fault(a)
    } else {
        Some("has unsupported type "@ + debug_text(typ))
    }
}

/// `steps[` index `]` and what follows.
pub open spec fn step_error(index: nat, rest: Seq<char>) -> Seq<char> {
    "steps["@ + decimal(index) + "]"@ + rest
}

/// Why the action of step `index` is refused; `None` where it is accepted.
pub open spec fn action_error(a: JsonView, index: nat) -> Option<Seq<char>> {
    match text_of(field_of(a, "type"@)) {
        Some(typ) if typ.len() > 0 => if typ == "uninstall"@ {
            Some(step_error(index, " cannot batch destructive uninstall actions"@))
        } else {
            match action_fault(a, typ) {
                Some(fault) => Some(step_error(index, ".action "@ + fault)),
                None => None,
            }
        },
        _ => Some(step_error(index, ".action.type must be a non-empty string"@)),
    }
}

fn text_in(a: &Json, key: &str, low: usize, high: usize) -> (inside: bool)
    ensures
        inside == text_within(a@, key@, low as nat, high as nat),
{
    match a.text_field(key) {
        Some(s) => {
            let n: usize = s.unicode_len();
            low <= n && n <= high
        },
        None => false,
    }
}

fn unsigned_in(a: &Json, key: &str, low: u64, high: u64) -> (inside: bool)
    ensures
        inside == unsigned_or_missing(a@, key@, low, high),
{
    if a.has(key) {
        match a.unsigned_field(key) {
            Some(n) => low <= n && n <= high,
            None => false,
        }
    } else {
        true
    }
}

fn unit_in(a: &Json, key: &str) -> (unit: bool)
    ensures
        unit == unit_field(a@, key@),
{
    finite_unit(a.number_field(key))
}

fn bound_to_snapshot(a: &Json) -> (bound: bool)
    ensures
        bound == snapshot_bound(a@),
{
    a.unsigned_field("element").is_some() && text_in(a, "snapshot", 1, 200)
}

fn delta_in(a: &Json, key: &str) -> (inside: bool)
    ensures
        inside == delta_field(a@, key@),
{
    if a.has(key) {
        match a.number_field(key) {
            Some(n) => n.within(Limit { whole: 1000, bits: 0x408F_4000_0000_0000 }),
            None => false,
        }
    } else {
        true
    }
}

fn delta_is_zero(a: &Json, key: &str) -> (zero: bool)
    ensures
        zero == delta_zero(a@, key@),
{
    if a.has(key) {
        match a.number_field(key) {
            Some(n) => n.is_zero(),
            None => false,
        }
    } else {
        true
    }
}

fn deltas_usable(a: &Json) -> (usable: bool)
    ensures
        usable == deltas_valid(a@),
{
    delta_in(a, "dx") && delta_in(a, "dy") && !(delta_is_zero(a, "dx") && delta_is_zero(a, "dy"))
}

fn check_tap(a: &Json) -> (fault: Option<&'static str>)
    ensures
        opt_str(fault) == tap_fault(a@),
{
    let by_label = a.has("label");
    let by_element = a.has("element");
    let by_point = a.has("x") || a.has("y");
    if (by_label && by_element) || (by_label && by_point) || (by_element && by_point) || !(by_label
        || by_element || by_point) {
        return Some("tap must use exactly one target mode: label, element+snapshot, or x+y");
    }
    if by_label {
        if !text_in(a, "label", 1, 500) {
            return Some("tap label must contain 1 to 500 characters");
        }
    } else if by_element {
        if !bound_to_snapshot(a) {
            return Some("indexed tap needs a non-negative element and snapshot");
        }
    } else if !(unit_in(a, "x") && unit_in(a, "y")) {
        return Some("tap coordinates must be finite values from 0 to 1");
    }
    None
}

fn check_tap_locator(a: &Json) -> (fault: Option<&'static str>)
    ensures
        opt_str(fault) == tap_locator_fault(a@),
{
    let locator = match a.get("locator") {
        Some(json) => parse_locator(json),
        None => None,
    };
    match locator {
        Some(locator) if locator_has_condition(&locator) => None,
        _ => Some("tap_locator needs one non-empty strict locator with supported fields"),
    }
}

fn check_longpress(a: &Json) -> (fault: Option<&'static str>)
    ensures
        opt_str(fault) == longpress_fault(a@),
{
    if unit_in(a, "x") && unit_in(a, "y") && unsigned_in(a, "duration_ms", 0, 10_000) {
        None
    } else {
        Some("longpress needs x/y from 0 to 1 and duration_ms at most 10000")
    }
}

fn check_scroll(a: &Json) -> (fault: Option<&'static str>)
    ensures
        opt_str(fault) == scroll_fault(a@),
{
    if a.has("element") {
        if a.has("x") || a.has("y") {
            return Some("element scroll does not take x/y coordinates");
        }
        if !bound_to_snapshot(a) {
            return Some("element scroll needs a non-negative element and snapshot");
        }
        if !deltas_usable(a) {
            return Some("scroll geometry is invalid");
        }
        None
    } else if (!a.has("x") || unit_in(a, "x")) && (!a.has("y") || unit_in(a, "y")) && deltas_usable(
        a,
    ) {
        None
    } else {
        Some("scroll geometry is invalid")
    }
}

fn check_set_value(a: &Json) -> (fault: Option<&'static str>)
    ensures
        opt_str(fault) == set_value_fault(a@),
{
    if bound_to_snapshot(a) && text_in(a, "value", 0, 1_000) {
        None
    } else {
        Some("set_value needs element, snapshot, and a string value up to 1000 characters")
    }
}

fn check_text(a: &Json) -> (fault: Option<&'static str>)
    ensures
        opt_str(fault) == text_fault(a@),
{
    if text_in(a, "text", 0, 1_000) && (!a.has("clear") || a.bool_field("clear").is_some()) {
        None
    } else {
        Some("text needs a string up to 1000 characters and optional bool clear")
    }
}

fn check_key(a: &Json) -> (fault: Option<&'static str>)
    ensures
        opt_str(fault) == key_fault(a@),
{
    let names: Vec<&'static str> = vec![
        "return",
        "enter",
        "escape",
        "space",
        "tab",
        "delete",
        "backspace",
        "up",
        "down",
        "left",
        "right",
        "dismiss",
        "hide",
    ];
    assert(strs(names@) =~= key_names());
    match a.text_field("name") {
        Some(name) if listed(&names, name) => None,
        _ => Some("key name is unsupported"),
    }
}

fn check_shortcut(a: &Json) -> (fault: Option<&'static str>)
    ensures
        opt_str(fault) == shortcut_fault(a@),
{
    match a.text_field("name") {
        Some(name) if same_text(name, "home") || same_text(name, "spotlight") => None,
        _ => Some("shortcut must be home or spotlight"),
    }
}

fn check_swipe(a: &Json) -> (fault: Option<&'static str>)
    ensures
        opt_str(fault) == swipe_fault(a@),
{
    if unit_in(a, "x1") && unit_in(a, "y1") && unit_in(a, "x2") && unit_in(a, "y2") && unsigned_in(
        a,
        "duration_ms",
        0,
        10_000,
    ) && unsigned_in(a, "hold_ms", 0, 10_000) {
        None
    } else {
        Some("swipe/drag geometry or timing is invalid")
    }
}

/// Whether a string is a bundle identifier.
pub fn valid_bundle(s: &str) -> (valid: bool)
    ensures
        valid == bundle_valid(s@),
{
    let chars = chars_of(s);
    if chars.len() == 0 || chars.len() > 200 {
        return false;
    }
    let mut i: usize = 0;
    while i < chars.len()
        invariant
            i <= chars@.len(),
            chars@ == s@,
            forall|k: int| 0 <= k < i ==> bundle_char(#[trigger] s@[k]),
        decreases chars@.len() - i,
    {
        let c = chars[i];
        if !(is_ascii_alnum(c) || c == '.' || c == '-') {
            assert(!bundle_char(s@[i as int]));
            return false;
        }
        i += 1;
    }
    true
}

fn check_launch_app(a: &Json) -> (fault: Option<&'static str>)
    ensures
        opt_str(fault) == launch_app_fault(a@),
{
    let has_bundle = a.has("bundle");
    let has_name = a.has("name");
    let bundle_ok = match a.text_field("bundle") {
        Some(bundle) => valid_bundle(bundle),
        None => false,
    };
    let name_ok = match a.text_field("name") {
        Some(name) => system_app_bundle(name).is_some(),
        None => false,
    };
    if has_bundle != has_name && (!has_bundle || bundle_ok) && (!has_name || name_ok) {
        None
    } else {
        Some("launch_app needs exactly one valid bundle or supported system-app name")
    }
}

fn check_picker(a: &Json) -> (fault: Option<&'static str>)
    ensures
        opt_str(fault) == picker_fault(a@),
{
    if text_in(a, "value", 1, 500) && unsigned_in(a, "column", 0, 20) {
        None
    } else {
        Some("picker needs a value up to 500 characters and column 0 to 20")
    }
}

fn positive_in(a: &Json, key: &str, limit: Limit) -> (inside: bool)
    ensures
        inside == positive_within(a@, key@, limit),
{
    match a.number_field(key) {
        Some(n) => n.is_positive() && n.within(limit),
        None => false,
    }
}

fn nonzero_in(a: &Json, key: &str, limit: Limit) -> (inside: bool)
    ensures
        inside == nonzero_within(a@, key@, limit),
{
    match a.number_field(key) {
        Some(n) => !n.is_zero() && n.within(limit),
        None => false,
    }
}

fn check_perform_value(a: &Json, verb: &str) -> (fault: Option<&'static str>)
    ensures
        opt_str(fault) == perform_value_fault(a@, verb@),
{
    if same_text(verb, "adjust") {
        if !a.has("value") {
            Some("perform adjust requires a value")
        } else if !text_in(a, "value", 1, 500) {
            Some(
                "perform adjust value must be a JSON string of 1 to 500 characters: a picker option's text, or a slider position such as \"0.5\"",
            )
        } else {
            None
        }
    } else if a.has("value") {
        Some("perform value is only accepted with action adjust")
    } else {
        None
    }
}

fn check_perform_duration(a: &Json, verb: &str) -> (fault: Option<&'static str>)
    ensures
        opt_str(fault) == perform_duration_fault(a@, verb@),
{
    if !a.has("duration_ms") {
        None
    } else if !same_text(verb, "menu") && !same_text(verb, "force_press") {
        Some("perform duration_ms is only accepted with menu or force_press")
    } else if !unsigned_in(a, "duration_ms", 1, 10_000) {
        Some("perform duration_ms must be 1 to 10000")
    } else {
        None
    }
}

fn check_perform_scale(a: &Json, verb: &str) -> (fault: Option<&'static str>)
    ensures
        opt_str(fault) == perform_scale_fault(a@, verb@),
{
    if a.has("scale") {
        if !same_text(verb, "pinch") {
            Some("perform scale is only accepted with pinch")
        } else if !positive_in(a, "scale", Limit { whole: 10, bits: 0x4024_0000_0000_0000 }) {
            Some("perform pinch scale must be above 0 and at most 10")
        } else {
            None
        }
    } else if same_text(verb, "pinch") {
        Some("perform pinch requires a scale")
    } else {
        None
    }
}

fn check_perform_rotation(a: &Json, verb: &str) -> (fault: Option<&'static str>)
    ensures
        opt_str(fault) == perform_rotation_fault(a@, verb@),
{
    if a.has("rotation") {
        if !same_text(verb, "rotate") {
            Some("perform rotation is only accepted with rotate")
        } else if !nonzero_in(a, "rotation", Limit { whole: 6, bits: 0x4019_21FB_5444_2D18 }) {
            Some("perform rotate rotation must be non-zero within 2*pi radians")
        } else {
            None
        }
    } else if same_text(verb, "rotate") {
        Some("perform rotate requires a rotation")
    } else {
        None
    }
}

fn check_perform_velocity(a: &Json, verb: &str) -> (fault: Option<&'static str>)
    ensures
        opt_str(fault) == perform_velocity_fault(a@, verb@),
{
    if !a.has("velocity") {
        None
    } else if !same_text(verb, "pinch") && !same_text(verb, "rotate") {
        Some("perform velocity is only accepted with pinch or rotate")
    } else if !nonzero_in(a, "velocity", Limit { whole: 10, bits: 0x4024_0000_0000_0000 }) {
        Some("perform velocity must be non-zero within 10")
    } else {
        None
    }
}

fn check_perform_pressure(a: &Json, verb: &str) -> (fault: Option<&'static str>)
    ensures
        opt_str(fault) == perform_pressure_fault(a@, verb@),
{
    if !a.has("pressure") {
        None
    } else if !same_text(verb, "force_press") {
        Some("perform pressure is only accepted with force_press")
    } else if !positive_in(a, "pressure", Limit { whole: 5, bits: 0x4014_0000_0000_0000 }) {
        Some("perform pressure must be above 0 and at most 5")
    } else {
        None
    }
}

fn check_perform(a: &Json) -> (fault: Option<&'static str>)
    ensures
        opt_str(fault) == perform_fault(a@),
{
    if !bound_to_snapshot(a) {
        return Some("perform needs a non-negative element and snapshot");
    }
    let verbs = perform_action_names();
    let verb = match a.text_field("action") {
        Some(verb) if listed(&verbs, verb) => verb,
        _ => {
            return Some("perform action name is unsupported");
        },
    };
    let fault = check_perform_value(a, verb);
    if fault.is_some() {
        return fault;
    }
    let fault = check_perform_duration(a, verb);
    if fault.is_some() {
        return fault;
    }
    let fault = check_perform_scale(a, verb);
    if fault.is_some() {
        return fault;
    }
    let fault = check_perform_rotation(a, verb);
    if fault.is_some() {
        return fault;
    }
    let fault = check_perform_velocity(a, verb);
    if fault.is_some() {
        return fault;
    }
    check_perform_pressure(a, verb)
}

fn check_alert(a: &Json) -> (fault: Option<&'static str>)
    ensures
        opt_str(fault) == alert_fault(a@),
{
    let valid = match (a.has("button"), a.has("action")) {
        (true, false) => text_in(a, "button", 1, 200),
        (false, true) => match a.text_field("action") {
            Some(verb) => same_text(verb, "accept") || same_text(verb, "dismiss"),
            None => false,
        },
        _ => false,
    };
    if valid {
        None
    } else {
        Some("alert needs exactly one of button (1-200 chars) or action accept|dismiss")
    }
}

/// What is wrong with an action of a known type; the outer `None` is for a type
/// that is not known.
fn check_known(a: &Json, typ: &str) -> (fault: Option<Option<&'static str>>)
    ensures
        match fault {
            Some(fault) => opt_str(fault) == action_fault(a@, typ@),
            None => action_fault(a@, typ@) == Some("has unsupported type "@ + debug_text(typ@)),
        },
{
    if same_text(typ, "tap") {
        Some(check_tap(a))
    } else if same_text(typ, "tap_locator") {
        Some(check_tap_locator(a))
    } else if same_text(typ, "longpress") {
        Some(check_longpress(a))
    } else if same_text(typ, "scroll") {
        Some(check_scroll(a))
    } else if same_text(typ, "set_value") {
        Some(check_set_value(a))
    } else if same_text(typ, "text") {
        Some(check_text(a))
    } else if same_text(typ, "key") {
        Some(check_key(a))
    } else if same_text(typ, "keyboard") || same_text(typ, "home") || same_text(typ, "back") {
        Some(None)
    } else if same_text(typ, "shortcut") {
        Some(check_shortcut(a))
    } else if same_text(typ, "swipe") || same_text(typ, "drag") {
        Some(check_swipe(a))
    } else if same_text(typ, "launch_app") {
        Some(check_launch_app(a))
    } else if same_text(typ, "picker") {
        Some(check_picker(a))
    } else if same_text(typ, "perform") {
        Some(check_perform(a))
    } else if same_text(typ, "alert") {
        Some(check_alert(a))
    } else {
        None
    }
}

/// `steps[` index `]` and what follows.
pub fn step_error_text(index: usize, rest: &str) -> (text: String)
    ensures
        text@ == step_error(index as nat, rest@),
{
    let mut text = "steps[".to_owned();
    append_decimal(&mut text, index as u64);
    text.append("]");
    text.append(rest);
    text
}

/// Accepts or refuses the action of step `index` before anything is sent.
pub fn validate_agent_action_value(action: &Json, index: usize) -> (checked: Result<(), String>)
    ensures
        match checked {
            Ok(()) => action_error(action@, index as nat) is None,
            Err(error) => action_error(action@, index as nat) == Some(error@),
        },
{
    let typ = match action.text_field("type") {
        Some(typ) if !typ.is_empty() => typ,
        _ => {
            return Err(step_error_text(index, ".action.type must be a non-empty string"));
        },
    };
    if same_text(typ, "uninstall") {
        return Err(step_error_text(index, " cannot batch destructive uninstall actions"));
    }
    let mut rest = ".action ".to_owned();
    match check_known(action, typ) {
        Some(None) => {
            return Ok(());
        },
        Some(Some(fault)) => {
            rest.append(fault);
        },
        None => {
            let quoted = debug_of(typ);
            rest.append("has unsupported type ");
            rest.append(quoted.as_str());
            assert(rest@ =~= ".action "@ + ("has unsupported type "@ + debug_text(typ@)));
        },
    }
    Err(step_error_text(index, rest.as_str()))
}

/// The lengths and some letters of words, which tell them apart.
proof fn lemma_type_words()
    ensures
        "tap"@.len() == 3,
        "tap"@[0] == 't',
        "key"@.len() == 3,
        "key"@[0] == 'k',
        "text"@.len() == 4,
        "text"@[0] == 't',
        "home"@.len() == 4,
        "home"@[0] == 'h',
        "back"@.len() == 4,
        "back"@[0] == 'b',
        "drag"@.len() == 4,
        "drag"@[0] == 'd',
        "swipe"@.len() == 5,
        "swipe"@[0] == 's',
        "alert"@.len() == 5,
        "alert"@[0] == 'a',
        "scroll"@.len() == 6,
        "scroll"@[0] == 's',
        "picker"@.len() == 6,
        "picker"@[0] == 'p',
        "perform"@.len() == 7,
        "keyboard"@.len() == 8,
        "keyboard"@[0] == 'k',
        "shortcut"@.len() == 8,
        "shortcut"@[0] == 's',
        "longpress"@.len() == 9,
        "longpress"@[0] == 'l',
        "set_value"@.len() == 9,
        "set_value"@[0] == 's',
        "uninstall"@.len() == 9,
        "uninstall"@[0] == 'u',
        "launch_app"@.len() == 10,
        "tap_locator"@.len() == 11,
{
    reveal_strlit("tap");
    reveal_strlit("key");
    reveal_strlit("text");
    reveal_strlit("home");
    reveal_strlit("back");
    reveal_strlit("drag");
    reveal_strlit("swipe");
    reveal_strlit("alert");
    reveal_strlit("scroll");
    reveal_strlit("picker");
    reveal_strlit("perform");
    reveal_strlit("keyboard");
    reveal_strlit("shortcut");
    reveal_strlit("longpress");
    reveal_strlit("set_value");
    reveal_strlit("uninstall");
    reveal_strlit("launch_app");
    reveal_strlit("tap_locator");
}
proof fn lemma_verb_words()
    ensures
        "menu"@.len() == 4,
        "pinch"@.len() == 5,
        "adjust"@.len() == 6,
        "adjust"@[0] == 'a',
        "toggle"@.len() == 6,
        "toggle"@[0] == 't',
        "rotate"@.len() == 6,
        "rotate"@[0] == 'r',
        "increment"@.len() == 9,
        "increment"@[0] == 'i',
        "decrement"@.len() == 9,
        "decrement"@[0] == 'd',
        "double_tap"@.len() == 10,
        "force_press"@.len() == 11,
        "two_finger_tap"@.len() == 14,
        "scroll_to_visible"@.len() == 17,
{
    reveal_strlit("menu");
    reveal_strlit("pinch");
    reveal_strlit("adjust");
    reveal_strlit("toggle");
    reveal_strlit("rotate");
    reveal_strlit("increment");
    reveal_strlit("decrement");
    reveal_strlit("double_tap");
    reveal_strlit("force_press");
    reveal_strlit("two_finger_tap");
    reveal_strlit("scroll_to_visible");
}

/// Whether a batch accepts an action.
pub open spec fn accepted(a: JsonView) -> bool {
    action_error(a, 0) is None
}

/// The place of an action in its batch is told with its fault and decides
/// nothing else.
pub proof fn law_the_place_of_an_action_does_not_decide(a: JsonView, i: nat, j: nat)
    ensures
        action_error(a, i) is None <==> action_error(a, j) is None,
{
}

/// Nothing without a type is accepted, nothing of an unknown type, and never an
/// uninstall.
pub proof fn law_only_known_actions_are_accepted(a: JsonView)
    ensures
        accepted(a) ==> {
            &&& field_of(a, "type"@) matches Some(JsonView::Text(typ))
            &&& typ == "tap"@ || typ == "tap_locator"@ || typ == "longpress"@ || typ == "scroll"@
                || typ == "set_value"@ || typ == "text"@ || typ == "key"@ || typ == "keyboard"@
                || typ == "home"@ || typ == "back"@ || typ == "shortcut"@ || typ == "swipe"@ || typ
                == "drag"@ || typ == "launch_app"@ || typ == "picker"@ || typ == "perform"@ || typ
                == "alert"@
        },
        field_of(a, "type"@) == Some(JsonView::Text("uninstall"@)) ==> !accepted(a),
        field_of(a, "type"@) == Some(JsonView::Text("home"@)) || field_of(a, "type"@) == Some(
            JsonView::Text("back"@),
        ) || field_of(a, "type"@) == Some(JsonView::Text("keyboard"@)) ==> accepted(a),
{
    lemma_type_words();
}

/// A tap has exactly one target: a label, a row of a snapshot, or a point on the
/// screen. A label has 1 to 500 characters.
pub proof fn law_a_tap_has_exactly_one_target(a: JsonView)
    requires
        field_of(a, "type"@) == Some(JsonView::Text("tap"@)),
    ensures
        ({
            let label = field_of(a, "label"@);
            let element = field_of(a, "element"@);
            let point = field_of(a, "x"@) is Some || field_of(a, "y"@) is Some;
            accepted(a) <==> {
                ||| label matches Some(JsonView::Text(s)) && 1 <= s.len() <= 500 && element is None
                    && !point
                ||| label is None && !point && (element matches Some(
                    JsonView::Number(crate::json::NumberView::Unsigned(_)),
                )) && (field_of(a, "snapshot"@) matches Some(JsonView::Text(s)) && 1 <= s.len()
                    <= 200)
                ||| label is None && element is None && (field_of(a, "x"@) matches Some(
                    JsonView::Number(n),
                ) && number_unit(Some(n))) && (field_of(a, "y"@) matches Some(JsonView::Number(n))
                    && number_unit(Some(n)))
            }
        }),
{
    lemma_type_words();
}

/// A swipe, a drag and a long press stay on the screen and last ten seconds at
/// most.
pub proof fn law_a_gesture_stays_on_the_screen(a: JsonView)
    ensures
        field_of(a, "type"@) == Some(JsonView::Text("swipe"@)) || field_of(a, "type"@) == Some(
            JsonView::Text("drag"@),
        ) ==> (accepted(a) <==> {
            &&& number_unit(number_of(field_of(a, "x1"@)))
            &&& number_unit(number_of(field_of(a, "y1"@)))
            &&& number_unit(number_of(field_of(a, "x2"@)))
            &&& number_unit(number_of(field_of(a, "y2"@)))
            &&& field_of(a, "duration_ms"@) is None || (unsigned_of(field_of(a, "duration_ms"@))
                matches Some(ms) && ms <= 10_000)
            &&& field_of(a, "hold_ms"@) is None || (unsigned_of(field_of(a, "hold_ms"@)) matches
                Some(ms) && ms <= 10_000)
        }),
        field_of(a, "type"@) == Some(JsonView::Text("longpress"@)) ==> (accepted(a) <==> {
            &&& number_unit(number_of(field_of(a, "x"@)))
            &&& number_unit(number_of(field_of(a, "y"@)))
            &&& field_of(a, "duration_ms"@) is None || (unsigned_of(field_of(a, "duration_ms"@))
                matches Some(ms) && ms <= 10_000)
        }),
{
    lemma_type_words();
}

/// A scroll goes somewhere: at least one of its distances is there and not zero,
/// both are numbers of a thousand at most, and with a row it has no point.
pub proof fn law_a_scroll_goes_somewhere(a: JsonView)
    requires
        field_of(a, "type"@) == Some(JsonView::Text("scroll"@)),
        accepted(a),
    ensures
        (number_of(field_of(a, "dx"@)) matches Some(n) && !number_zero(n)) || (number_of(
            field_of(a, "dy"@),
        ) matches Some(n) && !number_zero(n)),
        field_of(a, "dx"@) is Some ==> (number_of(field_of(a, "dx"@)) matches Some(n)
            && number_within(n, limit_thousand())),
        field_of(a, "dy"@) is Some ==> (number_of(field_of(a, "dy"@)) matches Some(n)
            && number_within(n, limit_thousand())),
        field_of(a, "element"@) is Some ==> field_of(a, "x"@) is None && field_of(a, "y"@) is None
            && (field_of(a, "snapshot"@) matches Some(JsonView::Text(s)) && 1 <= s.len() <= 200)
            && unsigned_of(field_of(a, "element"@)) is Some,
        field_of(a, "element"@) is None && field_of(a, "x"@) is Some ==> number_unit(
            number_of(field_of(a, "x"@)),
        ),
        field_of(a, "element"@) is None && field_of(a, "y"@) is Some ==> number_unit(
            number_of(field_of(a, "y"@)),
        ),
{
    lemma_type_words();
}

/// Text, values and names keep to their lengths, and keys to the names that
/// there are.
pub proof fn law_texts_keep_to_their_lengths(a: JsonView)
    ensures
        field_of(a, "type"@) == Some(JsonView::Text("text"@)) ==> (accepted(a) <==> (field_of(
            a,
            "text"@,
        ) matches Some(JsonView::Text(s)) && s.len() <= 1000) && (field_of(a, "clear"@) is None || (
        field_of(a, "clear"@) matches Some(JsonView::Bool(_))))),
        field_of(a, "type"@) == Some(JsonView::Text("set_value"@)) ==> (accepted(a) <==> (field_of(
            a,
            "value"@,
        ) matches Some(JsonView::Text(s)) && s.len() <= 1000) && unsigned_of(
            field_of(a, "element"@),
        ) is Some && (field_of(a, "snapshot"@) matches Some(JsonView::Text(s)) && 1 <= s.len()
            <= 200)),
        field_of(a, "type"@) == Some(JsonView::Text("picker"@)) ==> (accepted(a) <==> (field_of(
            a,
            "value"@,
        ) matches Some(JsonView::Text(s)) && 1 <= s.len() <= 500) && (field_of(a, "column"@) is None
            || (unsigned_of(field_of(a, "column"@)) matches Some(n) && n <= 20))),
        field_of(a, "type"@) == Some(JsonView::Text("key"@)) ==> (accepted(a) <==> (field_of(
            a,
            "name"@,
        ) matches Some(JsonView::Text(s)) && (s == "return"@ || s == "enter"@ || s == "escape"@ || s
            == "space"@ || s == "tab"@ || s == "delete"@ || s == "backspace"@ || s == "up"@ || s
            == "down"@ || s == "left"@ || s == "right"@ || s == "dismiss"@ || s == "hide"@))),
        field_of(a, "type"@) == Some(JsonView::Text("shortcut"@)) ==> (accepted(a) <==> field_of(
            a,
            "name"@,
        ) == Some(JsonView::Text("home"@)) || field_of(a, "name"@) == Some(
            JsonView::Text("spotlight"@),
        )),
        field_of(a, "type"@) == Some(JsonView::Text("alert"@)) ==> (accepted(a) <==> {
            ||| field_of(a, "action"@) is None && (field_of(a, "button"@) matches Some(
                JsonView::Text(s),
            ) && 1 <= s.len() <= 200)
            ||| field_of(a, "button"@) is None && (field_of(a, "action"@) == Some(
                JsonView::Text("accept"@),
            ) || field_of(a, "action"@) == Some(JsonView::Text("dismiss"@)))
        }),
{
    lemma_type_words();
    let k = key_names();
    assert(k[0] == "return"@ && k[1] == "enter"@ && k[2] == "escape"@ && k[3] == "space"@ && k[4]
        == "tab"@ && k[5] == "delete"@ && k[6] == "backspace"@ && k[7] == "up"@ && k[8] == "down"@
        && k[9] == "left"@ && k[10] == "right"@ && k[11] == "dismiss"@ && k[12] == "hide"@);
}

/// An app to open is named once: by a bundle of letters, digits, dots and dashes,
/// or by a name that is known.
pub proof fn law_an_app_is_named_once(a: JsonView)
    requires
        field_of(a, "type"@) == Some(JsonView::Text("launch_app"@)),
    ensures
        accepted(a) ==> field_of(a, "bundle"@) is Some != field_of(a, "name"@) is Some,
        accepted(a) && field_of(a, "bundle"@) is Some ==> (field_of(a, "bundle"@) matches Some(
            JsonView::Text(s),
        ) && 1 <= s.len() <= 200 && forall|i: int|
            0 <= i < s.len() ==> ascii_alnum(#[trigger] s[i]) || s[i] == '.' || s[i] == '-'),
        accepted(a) && field_of(a, "name"@) is Some ==> (field_of(a, "name"@) matches Some(
            JsonView::Text(s),
        ) && bundle_named(stock_apps(), trimmed(s)) is Some),
        field_of(a, "name"@) is None && (field_of(a, "bundle"@) matches Some(JsonView::Text(s)) && 1
            <= s.len() <= 200 && forall|i: int|
            0 <= i < s.len() ==> ascii_alnum(#[trigger] s[i]) || s[i] == '.' || s[i] == '-')
            ==> accepted(a),
{
    lemma_type_words();
    if let Some(JsonView::Text(s)) = field_of(a, "bundle"@) {
        if 1 <= s.len() <= 200 {
            assert((forall|i: int| 0 <= i < s.len() ==> bundle_char(#[trigger] s[i])) <==> (forall|
                i: int,
            |
                0 <= i < s.len() ==> ascii_alnum(#[trigger] s[i]) || s[i] == '.' || s[i] == '-')) by {
                if forall|i: int|
                    0 <= i < s.len() ==> ascii_alnum(#[trigger] s[i]) || s[i] == '.' || s[i]
                        == '-' {
                    assert forall|i: int| 0 <= i < s.len() implies bundle_char(
                        #[trigger] s[i],
                    ) by {}
                }
                if forall|i: int| 0 <= i < s.len() ==> bundle_char(#[trigger] s[i]) {
                    assert forall|i: int| 0 <= i < s.len() implies ascii_alnum(#[trigger] s[i])
                        || s[i] == '.' || s[i] == '-' by {
                        assert(bundle_char(s[i]));
                    }
                }
            }
        }
    }
}

/// An action on a row has a verb that there is, and with it exactly the numbers
/// that belong to the verb: a value for an adjustment and nothing else, a scale
/// for a pinch, a rotation for a rotation, a pressure only for a hard press.
pub proof fn law_a_perform_has_what_its_verb_needs(a: JsonView)
    requires
        field_of(a, "type"@) == Some(JsonView::Text("perform"@)),
        accepted(a),
    ensures
        unsigned_of(field_of(a, "element"@)) is Some,
        field_of(a, "snapshot"@) matches Some(JsonView::Text(s)) && 1 <= s.len() <= 200,
        text_of(field_of(a, "action"@)) matches Some(verb) && {
            &&& perform_verbs().contains(verb)
            &&& field_of(a, "value"@) is Some <==> verb == "adjust"@
            &&& verb == "adjust"@ ==> (field_of(a, "value"@) matches Some(JsonView::Text(s)) && 1
                <= s.len() <= 500)
            &&& field_of(a, "scale"@) is Some <==> verb == "pinch"@
            &&& verb == "pinch"@ ==> (number_of(field_of(a, "scale"@)) matches Some(n)
                && number_positive(n) && number_within(n, limit_ten()))
            &&& field_of(a, "rotation"@) is Some <==> verb == "rotate"@
            &&& verb == "rotate"@ ==> (number_of(field_of(a, "rotation"@)) matches Some(n)
                && !number_zero(n) && number_within(n, limit_turn()))
            &&& field_of(a, "pressure"@) is Some ==> verb == "force_press"@ && (number_of(
                field_of(a, "pressure"@),
            ) matches Some(n) && number_positive(n) && number_within(n, limit_five()))
            &&& field_of(a, "velocity"@) is Some ==> (verb == "pinch"@ || verb == "rotate"@) && (
            number_of(field_of(a, "velocity"@)) matches Some(n) && !number_zero(n) && number_within(
                n,
                limit_ten(),
            ))
            &&& field_of(a, "duration_ms"@) is Some ==> (verb == "menu"@ || verb == "force_press"@)
                && (unsigned_of(field_of(a, "duration_ms"@)) matches Some(ms) && 1 <= ms <= 10_000)
        },
{
    lemma_type_words();
    lemma_verb_words();
}

/// The limits are what they are called: a thousand, ten, five and one whole turn.
pub proof fn law_the_limits_are_what_they_are_called(n: u64)
    ensures
        number_within(crate::json::NumberView::Unsigned(n), limit_thousand()) <==> n <= 1000,
        number_within(crate::json::NumberView::Unsigned(n), limit_ten()) <==> n <= 10,
        number_within(crate::json::NumberView::Unsigned(n), limit_five()) <==> n <= 5,
        number_within(crate::json::NumberView::Unsigned(n), limit_turn()) <==> n <= 6,
        number_within(crate::json::NumberView::Float(n), limit_thousand()) && n
            < 0x8000_0000_0000_0000 <==> n <= 0x408F_4000_0000_0000,
        number_within(crate::json::NumberView::Float(n), limit_ten()) && n < 0x8000_0000_0000_0000
            <==> n <= 0x4024_0000_0000_0000,
        number_within(crate::json::NumberView::Float(n), limit_five()) && n < 0x8000_0000_0000_0000
            <==> n <= 0x4014_0000_0000_0000,
        number_within(crate::json::NumberView::Float(n), limit_turn()) && n < 0x8000_0000_0000_0000
            <==> n <= 0x4019_21FB_5444_2D18,
{
}

/// What a batch accepts can be planned: no accepted action is turned away when
/// its turn comes, and an accepted action on a row starts its errand.
pub proof fn law_what_is_accepted_can_be_planned(a: JsonView)
    requires
        accepted(a),
        unsigned_of(field_of(a, "element"@)) matches Some(n) ==> n <= usize::MAX,
    ensures
        crate::control::agent_plan(a) !is Refuse,
        crate::control::agent_plan(a) matches crate::control::PlanView::Element(job)
            ==> crate::errand::errand_start(a, job) is Some,
{
    lemma_type_words();
    lemma_verb_words();
    reveal_strlit("");
}

} // verus!
