//! Curated requests to the phone that need no screen: which there are, what is
//! sent for one, and the answers.

use vstd::prelude::*;

use crate::json::{
    field_of, json_read, json_text, text_of, unsigned_of, Json, JsonView,
};
use crate::percent::{encoded, percent_encode_component};
use crate::reply::{
    array_of, array_text, bool_text, json_reply, json_string_text, object_text, opt_text,
    small_hex, string_array, string_items, texts, ObjectText, Reply, ReplyView,
};
use crate::run::opt_field;
use crate::setup::first_chars;
use crate::text::{
    ascii_alnum, chars_of, decimal, decimal_text, is_ascii_alnum, join2, join3, same_text,
};

verus! {

pub open spec fn intent_char(c: char) -> bool {
    ascii_alnum(c) || c == '_' || c == '-'
}

/// A usable name of a request.
pub open spec fn intent_name_valid(name: Seq<char>) -> bool {
    1 <= name.len() <= 64 && forall|i: int| 0 <= i < name.len() ==> intent_char(#[trigger] name[i])
}

pub fn valid_intent_name(name: &str) -> (valid: bool)
    ensures
        valid == intent_name_valid(name@),
{
    let chars = chars_of(name);
    if chars.len() == 0 || chars.len() > 64 {
        return false;
    }
    let mut i: usize = 0;
    while i < chars.len()
        invariant
            i <= chars@.len(),
            chars@ == name@,
            forall|k: int| 0 <= k < i ==> intent_char(#[trigger] name@[k]),
        decreases chars@.len() - i,
    {
        let c = chars[i];
        if !(is_ascii_alnum(c) || c == '_' || c == '-') {
            assert(!intent_char(name@[i as int]));
            return false;
        }
        i += 1;
    }
    true
}

pub open spec fn control_char(c: char) -> bool {
    (c as u32) < 0x20 || (0x7f <= (c as u32) && (c as u32) < 0xa0)
}

/// A usable name of the shortcut that carries the requests out.
pub open spec fn bridge_name_valid(name: Seq<char>) -> bool {
    1 <= name.len() <= 100 && forall|i: int|
        0 <= i < name.len() ==> !control_char(#[trigger] name[i])
}

pub fn valid_bridge_shortcut_name(name: &str) -> (valid: bool)
    ensures
        valid == bridge_name_valid(name@),
{
    let chars = chars_of(name);
    if chars.len() == 0 || chars.len() > 100 {
        return false;
    }
    let mut i: usize = 0;
    while i < chars.len()
        invariant
            i <= chars@.len(),
            chars@ == name@,
            forall|k: int| 0 <= k < i ==> !control_char(#[trigger] name@[k]),
        decreases chars@.len() - i,
    {
        let n: u32 = chars[i] as u32;
        if n < 0x20 || (0x7f <= n && n < 0xa0) {
            assert(control_char(name@[i as int]));
            return false;
        }
        i += 1;
    }
    true
}

/// One curated request.
#[derive(Debug)]
pub struct IntentEntry {
    pub name: String,
    pub summary: String,
    /// `none`, `read` or `write`.
    pub side_effect: String,
    /// What it takes, as JSON text.
    pub args_schema: String,
    /// What it gives back, as JSON text.
    pub returns_schema: String,
    pub min_bridge_version: u64,
    pub permission: Option<String>,
    pub status: String,
    /// `none`, or `operator` where a person must have agreed to each call.
    pub confirm: String,
}

/// The content of an [`IntentEntry`].
pub struct EntryView {
    pub name: Seq<char>,
    pub summary: Seq<char>,
    pub side_effect: Seq<char>,
    pub args_schema: Seq<char>,
    pub returns_schema: Seq<char>,
    pub min_bridge_version: u64,
    pub permission: Option<Seq<char>>,
    pub status: Seq<char>,
    pub confirm: Seq<char>,
}

impl View for IntentEntry {
    type V = EntryView;

    open spec fn view(&self) -> EntryView {
        EntryView {
            name: self.name@,
            summary: self.summary@,
            side_effect: self.side_effect@,
            args_schema: self.args_schema@,
            returns_schema: self.returns_schema@,
            min_bridge_version: self.min_bridge_version,
            permission: opt_text(self.permission),
            status: self.status@,
            confirm: self.confirm@,
        }
    }
}

pub open spec fn entry_views(entries: Seq<IntentEntry>) -> Seq<EntryView> {
    entries.map_values(|entry: IntentEntry| entry@)
}

/// The curated requests, and the shortcut that carries them out.
#[derive(Debug)]
pub struct IntentsRegistry {
    pub bridge_name: String,
    pub bridge_required_version: u64,
    pub intents: Vec<IntentEntry>,
}

/// The content of an [`IntentsRegistry`].
pub struct RegistryView {
    pub bridge_name: Seq<char>,
    pub bridge_required_version: u64,
    pub intents: Seq<EntryView>,
}

impl View for IntentsRegistry {
    type V = RegistryView;

    open spec fn view(&self) -> RegistryView {
        RegistryView {
            bridge_name: self.bridge_name@,
            bridge_required_version: self.bridge_required_version,
            intents: entry_views(self.intents@),
        }
    }
}

/// What became of reading the registry.
#[derive(Debug)]
pub enum IntentsRegistryLoad {
    /// There is none, which is no fault.
    Missing,
    Unreadable(String),
    Loaded(IntentsRegistry),
}

/// The content of an [`IntentsRegistryLoad`].
pub enum LoadView {
    Missing,
    Unreadable(Seq<char>),
    Loaded(RegistryView),
}

impl View for IntentsRegistryLoad {
    type V = LoadView;

    open spec fn view(&self) -> LoadView {
        match *self {
            IntentsRegistryLoad::Missing => LoadView::Missing,
            IntentsRegistryLoad::Unreadable(reason) => LoadView::Unreadable(reason@),
            IntentsRegistryLoad::Loaded(registry) => LoadView::Loaded(registry@),
        }
    }
}

/// A schema in an entry, as text; one that is missing is empty, and one of
/// another kind spoils the entry.
pub open spec fn schema_of(raw: JsonView, key: Seq<char>) -> Option<Seq<char>> {
    match field_of(raw, key) {
        None => Some(json_text(JsonView::Object(Seq::empty()))),
        Some(JsonView::Object(fields)) => Some(json_text(JsonView::Object(fields))),
        Some(_) => None,
    }
}

/// A text in an entry, cut to a length. It may be missing, but not of another
/// kind.
pub open spec fn clamped_of(raw: JsonView, key: Seq<char>, most: int) -> Option<
    Option<Seq<char>>,
> {
    match field_of(raw, key) {
        None => Some(None),
        Some(JsonView::Text(s)) => Some(Some(first_chars(s, most))),
        Some(_) => None,
    }
}

pub open spec fn confirm_of(raw: JsonView) -> Option<Seq<char>> {
    match field_of(raw, "confirm"@) {
        None => Some("none"@),
        Some(JsonView::Text(s)) => if s == "none"@ || s == "operator"@ {
            Some(s)
        } else {
            None
        },
        Some(_) => None,
    }
}

pub open spec fn version_of(raw: JsonView) -> Option<u64> {
    match field_of(raw, "min_bridge_version"@) {
        None => Some(1u64),
        Some(value) => match unsigned_of(Some(value)) {
            Some(version) => if version <= 1000000 {
                Some(version)
            } else {
                None
            },
            None => None,
        },
    }
}

pub open spec fn side_effect_known(s: Seq<char>) -> bool {
    s == "none"@ || s == "read"@ || s == "write"@
}

/// Whether an entry is well formed. One that is not is left out rather than
/// bent into shape.
pub open spec fn entry_formed(raw: JsonView) -> bool {
    &&& raw is Object
    &&& text_of(field_of(raw, "name"@)) matches Some(name) && intent_name_valid(name)
    &&& text_of(field_of(raw, "side_effect"@)) matches Some(effect) && side_effect_known(effect)
    &&& schema_of(raw, "args_schema"@) is Some
    &&& schema_of(raw, "returns_schema"@) is Some
    &&& confirm_of(raw) is Some
    &&& version_of(raw) is Some
    &&& clamped_of(raw, "summary"@, 200) is Some
    &&& clamped_of(raw, "permission"@, 100) is Some
    &&& clamped_of(raw, "status"@, 32) is Some
}

pub open spec fn or_else(text: Option<Seq<char>>, other: Seq<char>) -> Seq<char> {
    match text {
        Some(text) => text,
        None => other,
    }
}

pub open spec fn entry_of(raw: JsonView) -> Option<EntryView> {
    if entry_formed(raw) {
        Some(
            EntryView {
                name: text_of(field_of(raw, "name"@))->0,
                summary: or_else(clamped_of(raw, "summary"@, 200)->0, Seq::empty()),
                side_effect: text_of(field_of(raw, "side_effect"@))->0,
                args_schema: schema_of(raw, "args_schema"@)->0,
                returns_schema: schema_of(raw, "returns_schema"@)->0,
                min_bridge_version: version_of(raw)->0,
                permission: clamped_of(raw, "permission"@, 100)->0,
                status: or_else(clamped_of(raw, "status"@, 32)->0, "experiment"@),
                confirm: confirm_of(raw)->0,
            },
        )
    } else {
        None
    }
}

fn read_schema(raw: &Json, key: &str) -> (schema: Option<String>)
    ensures
        opt_text(schema) == schema_of(raw@, key@),
{
    match raw.get(key) {
        None => {
            let empty = Json::object();
            assert(empty@->Object_0 =~= Seq::empty());
            Some(empty.render())
        },
        Some(value) => if value.is_object() {
            Some(value.render())
        } else {
            None
        },
    }
}

fn cut(s: &str, most: usize) -> (short: String)
    ensures
        short@ == first_chars(s@, most as int),
{
    if s.unicode_len() <= most {
        s.to_string()
    } else {
        let short = s.substring_char(0, most).to_string();
        assert(short@ =~= s@.take(most as int));
        short
    }
}

pub open spec fn opt_opt_text(text: Option<Option<String>>) -> Option<Option<Seq<char>>> {
    match text {
        Some(text) => Some(opt_text(text)),
        None => None,
    }
}

fn read_clamped(raw: &Json, key: &str, most: usize) -> (text: Option<Option<String>>)
    ensures
        opt_opt_text(text) == clamped_of(raw@, key@, most as int),
{
    match raw.get(key) {
        None => Some(None),
        Some(Json::Text(s)) => Some(Some(cut(s.as_str(), most))),
        Some(_) => None,
    }
}

fn read_confirm(raw: &Json) -> (confirm: Option<String>)
    ensures
        opt_text(confirm) == confirm_of(raw@),
{
    match raw.get("confirm") {
        None => Some("none".to_string()),
        Some(Json::Text(s)) => if same_text(s.as_str(), "none") || same_text(
            s.as_str(),
            "operator",
        ) {
            Some(s.clone())
        } else {
            None
        },
        Some(_) => None,
    }
}

fn read_version(raw: &Json) -> (version: Option<u64>)
    ensures
        version == version_of(raw@),
{
    match raw.get("min_bridge_version") {
        None => Some(1),
        Some(value) => match value.as_u64() {
            Some(version) => if version <= 1000000 {
                Some(version)
            } else {
                None
            },
            None => None,
        },
    }
}

/// Reads one entry of the registry; `None` where it is not well formed.
pub fn parse_intent_entry(raw: &Json) -> (entry: Option<IntentEntry>)
    ensures
        match entry {
            Some(entry) => entry_of(raw@) == Some(entry@),
            None => entry_of(raw@) is None,
        },
{
    if !raw.is_object() {
        return None;
    }
    let name = match raw.text_field("name") {
        Some(name) => name,
        None => {
            return None;
        },
    };
    if !valid_intent_name(name) {
        return None;
    }
    let side_effect = match raw.text_field("side_effect") {
        Some(side_effect) => side_effect,
        None => {
            return None;
        },
    };
    if !(same_text(side_effect, "none") || same_text(side_effect, "read") || same_text(
        side_effect,
        "write",
    )) {
        return None;
    }
    let args_schema = read_schema(raw, "args_schema");
    let returns_schema = read_schema(raw, "returns_schema");
    let confirm = read_confirm(raw);
    let version = read_version(raw);
    let summary = read_clamped(raw, "summary", 200);
    let permission = read_clamped(raw, "permission", 100);
    let status = read_clamped(raw, "status", 32);
    match (args_schema, returns_schema, confirm, version) {
        (
            Some(args_schema),
            Some(returns_schema),
            Some(confirm),
            Some(min_bridge_version),
        ) => match (summary, permission, status) {
            (Some(summary), Some(permission), Some(status)) => {
                let summary = match summary {
                    Some(summary) => summary,
                    None => String::new(),
                };
                let status = match status {
                    Some(status) => status,
                    None => "experiment".to_string(),
                };
                let entry = IntentEntry {
                    name: name.to_string(),
                    summary,
                    side_effect: side_effect.to_string(),
                    args_schema,
                    returns_schema,
                    min_bridge_version,
                    permission,
                    status,
                    confirm,
                };
                assert(entry.summary@ =~= or_else(
                    clamped_of(raw@, "summary"@, 200)->0,
                    Seq::empty(),
                ));
                Some(entry)
            },
            _ => None,
        },
        _ => None,
    }
}

/// Whether a name is taken.
pub open spec fn name_taken(entries: Seq<EntryView>, name: Seq<char>) -> bool {
    exists|i: int| 0 <= i < entries.len() && (#[trigger] entries[i]).name == name
}

/// The well-formed entries of a list, each name once: the first counts.
pub open spec fn gathered(list: Seq<JsonView>) -> Seq<EntryView>
    decreases list.len(),
{
    if list.len() == 0 {
        Seq::empty()
    } else {
        let before = gathered(list.drop_last());
        match entry_of(list.last()) {
            Some(entry) if !name_taken(before, entry.name) => before.push(entry),
            _ => before,
        }
    }
}

pub open spec fn listed_entries(v: JsonView) -> Seq<EntryView> {
    match field_of(v, "intents"@) {
        Some(JsonView::List(list)) => gathered(list),
        _ => Seq::empty(),
    }
}

pub open spec fn bridge_of(v: JsonView) -> Option<JsonView> {
    field_of(v, "bridge"@)
}

pub open spec fn bridge_name_of(v: JsonView) -> Seq<char> {
    match bridge_of(v) {
        Some(bridge) => or_else(text_of(field_of(bridge, "name"@)), Seq::empty()),
        None => Seq::empty(),
    }
}

pub open spec fn bridge_version_of(v: JsonView) -> u64 {
    match bridge_of(v) {
        Some(bridge) => match unsigned_of(field_of(bridge, "required_version"@)) {
            Some(version) => if version < 1000000 {
                version
            } else {
                1000000
            },
            None => 1,
        },
        None => 1,
    }
}

/// The registry in a document.
pub open spec fn registry_of(v: JsonView) -> LoadView {
    if !bridge_name_valid(bridge_name_of(v)) {
        LoadView::Unreadable(
            "bridge.name missing or invalid (non-empty, ≤100 chars, no control chars)"@,
        )
    } else {
        LoadView::Loaded(
            RegistryView {
                bridge_name: bridge_name_of(v),
                bridge_required_version: bridge_version_of(v),
                intents: listed_entries(v),
            },
        )
    }
}

fn taken(entries: &Vec<IntentEntry>, name: &str) -> (taken: bool)
    ensures
        taken == name_taken(entry_views(entries@), name@),
{
    let ghost all = entry_views(entries@);
    let mut i: usize = 0;
    while i < entries.len()
        invariant
            i <= entries@.len(),
            all == entry_views(entries@),
            forall|k: int| 0 <= k < i ==> (#[trigger] all[k]).name != name@,
        decreases entries@.len() - i,
    {
        assert(all[i as int].name == entries@[i as int].name@);
        if same_text(entries[i].name.as_str(), name) {
            return true;
        }
        i += 1;
    }
    false
}

pub open spec fn json_views(items: Seq<Json>) -> Seq<JsonView> {
    items.map_values(|item: Json| item@)
}

fn gather(list: &Vec<Json>) -> (entries: Vec<IntentEntry>)
    ensures
        entry_views(entries@) == gathered(json_views(list@)),
{
    let ghost all = json_views(list@);
    let mut entries: Vec<IntentEntry> = Vec::new();
    let mut i: usize = 0;
    assert(entry_views(entries@) =~= gathered(all.take(0)));
    while i < list.len()
        invariant
            i <= list@.len(),
            all == json_views(list@),
            entry_views(entries@) == gathered(all.take(i as int)),
        decreases list@.len() - i,
    {
        assert(all.take(i + 1).drop_last() =~= all.take(i as int));
        assert(all[i as int] == list@[i as int]@);
        if let Some(entry) = parse_intent_entry(&list[i]) {
            if !taken(&entries, entry.name.as_str()) {
                let ghost before = entry_views(entries@);
                entries.push(entry);
                assert(entry_views(entries@) =~= before.push(entry@));
            }
        }
        i += 1;
    }
    assert(all.take(i as int) =~= all);
    entries
}

/// Reads the registry from a document.
pub fn parse_intents_registry(v: &Json) -> (load: IntentsRegistryLoad)
    ensures
        load@ == registry_of(v@),
{
    let bridge = v.get("bridge");
    let name = match bridge {
        Some(bridge) => match bridge.text_field("name") {
            Some(name) => name.to_string(),
            None => String::new(),
        },
        None => String::new(),
    };
    assert(name@ =~= bridge_name_of(v@));
    if !valid_bridge_shortcut_name(name.as_str()) {
        return IntentsRegistryLoad::Unreadable(
            "bridge.name missing or invalid (non-empty, ≤100 chars, no control chars)".to_string(),
        );
    }
    let version: u64 = match bridge {
        Some(bridge) => match bridge.unsigned_field("required_version") {
            Some(version) => if version < 1000000 {
                version
            } else {
                1000000
            },
            None => 1,
        },
        None => 1,
    };
    let intents: Vec<IntentEntry> = match v.get("intents") {
        Some(Json::List(list)) => {
            let entries = gather(list);
            assert(json_views(list@) =~= Json::List(*list)@->List_0);
            entries
        },
        _ => {
            let none: Vec<IntentEntry> = Vec::new();
            assert(entry_views(none@) =~= Seq::empty());
            none
        },
    };
    IntentsRegistryLoad::Loaded(
        IntentsRegistry { bridge_name: name, bridge_required_version: version, intents },
    )
}

/// No name occurs twice in the registry, and every one is usable; so is every
/// entry's side effect and its need for consent.
pub proof fn law_registry_names_are_distinct(list: Seq<JsonView>)
    ensures
        forall|i: int, j: int|
            0 <= i < j < gathered(list).len() ==> (#[trigger] gathered(list)[i]).name != (
            #[trigger] gathered(list)[j]).name,
        forall|i: int|
            0 <= i < gathered(list).len() ==> intent_name_valid((#[trigger] gathered(list)[i]).name)
                && side_effect_known(gathered(list)[i].side_effect) && (gathered(list)[i].confirm
                == "none"@ || gathered(list)[i].confirm == "operator"@),
    decreases list.len(),
{
    if list.len() > 0 {
        law_registry_names_are_distinct(list.drop_last());
        let before = gathered(list.drop_last());
        let all = gathered(list);
        if all.len() > before.len() {
            assert forall|i: int, j: int| 0 <= i < j < all.len() implies (#[trigger] all[i]).name
                != (#[trigger] all[j]).name by {
                if j < before.len() {
                    assert(before[i].name != before[j].name);
                } else {
                    assert(before[i].name != all[j].name);
                }
            }
            assert forall|i: int| 0 <= i < all.len() implies intent_name_valid(
                (#[trigger] all[i]).name,
            ) && side_effect_known(all[i].side_effect) && (all[i].confirm == "none"@
                || all[i].confirm == "operator"@) by {
                if i < before.len() {
                    assert(all[i] == before[i]);
                }
            }
        }
    }
}

/// What was found where the registry belongs.
#[derive(Debug)]
pub enum RegistryFile {
    Missing,
    /// Its size could not be told.
    StatFailed(String),
    /// It is too large to be read.
    Large { bytes: u64 },
    ReadFailed(String),
    Text(String),
}

/// Whether a registry of this size is read at all.
pub fn registry_size_allowed(bytes: u64) -> (allowed: bool)
    ensures
        allowed == (bytes <= 262144),
{
    bytes <= 262144
}

/// What becomes of what was found.
pub open spec fn registry_in(file: RegistryFile) -> LoadView {
    match file {
        RegistryFile::Missing => LoadView::Missing,
        RegistryFile::StatFailed(error) => LoadView::Unreadable("stat failed: "@ + error@),
        RegistryFile::Large { bytes } => LoadView::Unreadable(
            "registry file is "@ + decimal(bytes as nat) + " bytes (max 262144)"@,
        ),
        RegistryFile::ReadFailed(error) => LoadView::Unreadable("read failed: "@ + error@),
        RegistryFile::Text(text) => match json_read(text@) {
            Ok(v) => registry_of(v),
            Err(error) => LoadView::Unreadable("not valid JSON: "@ + error),
        },
    }
}

/// Reads the registry. Whatever is wrong with it, no request is taken from it.
pub fn load_intents_registry(file: &RegistryFile) -> (load: IntentsRegistryLoad)
    ensures
        load@ == registry_in(*file),
{
    match file {
        RegistryFile::Missing => IntentsRegistryLoad::Missing,
        RegistryFile::StatFailed(error) => IntentsRegistryLoad::Unreadable(
            join2("stat failed: ", error.as_str()),
        ),
        RegistryFile::Large { bytes } => {
            let number = decimal_text(*bytes);
            IntentsRegistryLoad::Unreadable(
                join3("registry file is ", number.as_str(), " bytes (max 262144)"),
            )
        },
        RegistryFile::ReadFailed(error) => IntentsRegistryLoad::Unreadable(
            join2("read failed: ", error.as_str()),
        ),
        RegistryFile::Text(text) => match Json::read(text.as_str()) {
            Ok(v) => parse_intents_registry(&v),
            Err(error) => IntentsRegistryLoad::Unreadable(
                join2("not valid JSON: ", error.as_str()),
            ),
        },
    }
}

pub open spec fn entry_fields(entry: EntryView) -> Seq<(Seq<char>, Seq<char>)> {
    seq![
        ("args_schema"@, entry.args_schema),
        ("confirm"@, json_string_text(entry.confirm)),
        ("min_bridge_version"@, decimal(entry.min_bridge_version as nat)),
        ("name"@, json_string_text(entry.name)),
    ] + opt_field(
        "permission"@,
        match entry.permission {
            Some(permission) => Some(json_string_text(permission)),
            None => None,
        },
    ) + seq![
        ("returns_schema"@, entry.returns_schema),
        ("side_effect"@, json_string_text(entry.side_effect)),
        ("status"@, json_string_text(entry.status)),
        ("summary"@, json_string_text(entry.summary)),
    ]
}

pub open spec fn entry_texts(entries: Seq<EntryView>) -> Seq<Seq<char>> {
    entries.map_values(|entry: EntryView| object_text(entry_fields(entry)))
}

fn entry_text(entry: &IntentEntry) -> (text: String)
    ensures
        text@ == object_text(entry_fields(entry@)),
{
    let body = ObjectText::new().raw("args_schema", entry.args_schema.as_str()).text(
        "confirm",
        entry.confirm.as_str(),
    ).count("min_bridge_version", entry.min_bridge_version).text("name", entry.name.as_str());
    let body = match &entry.permission {
        Some(permission) => body.text("permission", permission.as_str()),
        None => body,
    };
    let body = body.raw("returns_schema", entry.returns_schema.as_str()).text(
        "side_effect",
        entry.side_effect.as_str(),
    ).text("status", entry.status.as_str()).text("summary", entry.summary.as_str());
    assert(body.fields() =~= entry_fields(entry@));
    body.finish()
}

fn entries_text(entries: &Vec<IntentEntry>) -> (text: String)
    ensures
        text@ == array_text(entry_texts(entry_views(entries@))),
{
    let ghost all = entry_texts(entry_views(entries@));
    let mut out: Vec<String> = Vec::new();
    let mut i: usize = 0;
    while i < entries.len()
        invariant
            i <= entries@.len(),
            all == entry_texts(entry_views(entries@)),
            texts(out@) == all.take(i as int),
        decreases entries@.len() - i,
    {
        let one = entry_text(&entries[i]);
        let ghost before = texts(out@);
        out.push(one);
        assert(texts(out@) =~= before.push(one@));
        assert(all.take(i + 1) =~= all.take(i as int).push(all[i as int]));
        i += 1;
    }
    assert(all.take(i as int) =~= all);
    array_of(&out)
}

pub open spec fn bridge_fields(registry: RegistryView) -> Seq<(Seq<char>, Seq<char>)> {
    seq![
        ("installed"@, json_string_text("unknown"@)),
        ("name"@, json_string_text(registry.bridge_name)),
        ("required_version"@, decimal(registry.bridge_required_version as nat)),
    ]
}

/// The fields of the answer to a question for the curated requests; `path` is
/// where the registry belongs.
pub open spec fn intents_fields(load: LoadView, path: Seq<char>) -> Seq<(Seq<char>, Seq<char>)> {
    match load {
        LoadView::Missing => seq![
            ("bridge"@, "null"@),
            (
                "hint"@,
                json_string_text(
                    "no registry at "@ + path
                        + " — copy deploy/intents-registry.example.json there, curate it, and install the bridge shortcut on the phone"@,
                ),
            ),
            ("intents"@, "[]"@),
            ("ok"@, bool_text(true)),
            ("result_path"@, json_string_text("/agent/inbox"@)),
        ],
        LoadView::Unreadable(reason) => seq![
            ("bridge"@, "null"@),
            ("intents"@, "[]"@),
            ("ok"@, bool_text(true)),
            ("result_path"@, json_string_text("/agent/inbox"@)),
            ("warning"@, json_string_text("registry unreadable, fail closed: "@ + reason)),
        ],
        LoadView::Loaded(registry) => seq![
            ("bridge"@, object_text(bridge_fields(registry))),
            (
                "hint"@,
                json_string_text(
                    "POST /agent/intent {\"name\":...,\"args\":{...}} dispatches a verb; the bridge shortcut POSTs its result to /agent/inbox (match on the response id)"@,
                ),
            ),
            ("intents"@, array_text(entry_texts(registry.intents))),
            ("ok"@, bool_text(true)),
            ("result_path"@, json_string_text("/agent/inbox"@)),
        ],
    }
}

/// Answers which curated requests there are. That there are none yet is no
/// fault.
pub fn agent_intents(load: &IntentsRegistryLoad, path: &str) -> (reply: Reply)
    ensures
        reply@ == json_reply(200, object_text(intents_fields(load@, path@))),
{
    let body = match load {
        IntentsRegistryLoad::Missing => {
            let hint = join3(
                "no registry at ",
                path,
                " — copy deploy/intents-registry.example.json there, curate it, and install the bridge shortcut on the phone",
            );
            ObjectText::new().raw("bridge", "null").text("hint", hint.as_str()).raw(
                "intents",
                "[]",
            ).flag("ok", true).text("result_path", "/agent/inbox")
        },
        IntentsRegistryLoad::Unreadable(reason) => {
            let warning = join2("registry unreadable, fail closed: ", reason.as_str());
            ObjectText::new().raw("bridge", "null").raw("intents", "[]").flag("ok", true).text(
                "result_path",
                "/agent/inbox",
            ).text("warning", warning.as_str())
        },
        IntentsRegistryLoad::Loaded(registry) => {
            let bridge = ObjectText::new().text("installed", "unknown").text(
                "name",
                registry.bridge_name.as_str(),
            ).count("required_version", registry.bridge_required_version);
            assert(bridge.fields() =~= bridge_fields(registry@));
            let bridge = bridge.finish();
            let list = entries_text(&registry.intents);
            ObjectText::new().raw("bridge", bridge.as_str()).text(
                "hint",
                "POST /agent/intent {\"name\":...,\"args\":{...}} dispatches a verb; the bridge shortcut POSTs its result to /agent/inbox (match on the response id)",
            ).raw("intents", list.as_str()).flag("ok", true).text("result_path", "/agent/inbox")
        },
    };
    assert(body.fields() =~= intents_fields(load@, path@));
    Reply::json(200, body.finish())
}

/// What is handed to the shortcut.
pub open spec fn payload_text(verb: Seq<char>, id: Seq<char>, args: Seq<char>) -> Seq<char> {
    object_text(
        seq![("args"@, args), ("id"@, json_string_text(id)), ("verb"@, json_string_text(verb))],
    )
}

/// The address that runs the shortcut.
pub open spec fn link_text(
    bridge: Seq<char>,
    verb: Seq<char>,
    id: Seq<char>,
    args: Seq<char>,
) -> Seq<char> {
    "shortcuts://run-shortcut?name="@ + encoded(bridge) + "&input=text&text="@ + encoded(
        payload_text(verb, id, args),
    )
}

/// The address that runs the shortcut for one request; `args` is JSON text.
pub fn intent_deep_link(bridge: &str, verb: &str, id: &str, args: &str) -> (link: String)
    ensures
        link@ == link_text(bridge@, verb@, id@, args@),
{
    let payload = ObjectText::new().raw("args", args).text("id", id).text("verb", verb);
    assert(payload.fields() =~= seq![
        ("args"@, args@),
        ("id"@, json_string_text(id@)),
        ("verb"@, json_string_text(verb@)),
    ]);
    let payload = payload.finish();
    let name = percent_encode_component(bridge);
    let text = percent_encode_component(payload.as_str());
    let head = join3("shortcuts://run-shortcut?name=", name.as_str(), "&input=text&text=");
    join2(head.as_str(), text.as_str())
}

pub open spec fn hex_bytes(bytes: Seq<u8>) -> Seq<char>
    decreases bytes.len(),
{
    if bytes.len() == 0 {
        Seq::empty()
    } else {
        hex_bytes(bytes.drop_last()) + seq![
            small_hex(bytes.last() as int / 16),
            small_hex(bytes.last() as int % 16),
        ]
    }
}

fn hex_digit_of(d: u8) -> (c: char)
    requires
        d < 16,
    ensures
        c == small_hex(d as int),
{
    match d {
        0 => '0',
        1 => '1',
        2 => '2',
        3 => '3',
        4 => '4',
        5 => '5',
        6 => '6',
        7 => '7',
        8 => '8',
        9 => '9',
        10 => 'a',
        11 => 'b',
        12 => 'c',
        13 => 'd',
        14 => 'e',
        _ => 'f',
    }
}

/// The bytes of a number, the highest first.
pub open spec fn number_bytes(n: u64) -> Seq<u8> {
    seq![
        (n / 0x100_0000_0000_0000) as u8,
        (n / 0x1_0000_0000_0000 % 256) as u8,
        (n / 0x100_0000_0000 % 256) as u8,
        (n / 0x1_0000_0000 % 256) as u8,
        (n / 0x100_0000 % 256) as u8,
        (n / 0x1_0000 % 256) as u8,
        (n / 0x100 % 256) as u8,
        (n % 256) as u8,
    ]
}

/// The name of one call: random bytes, or the time where none can be had.
pub open spec fn call_id(random: Option<Seq<u8>>, now: u64) -> Seq<char> {
    "intent-"@ + hex_bytes(
        match random {
            Some(bytes) => bytes,
            None => number_bytes(now),
        },
    )
}

/// Writes the name of one call; `now` is in Unix seconds.
pub fn correlation_id(random: &Option<Vec<u8>>, now: u64) -> (id: String)
    ensures
        id@ == call_id(
            match *random {
                Some(bytes) => Some(bytes@),
                None => None,
            },
            now,
        ),
{
    let mut bytes: Vec<u8> = Vec::new();
    match random {
        Some(given) => {
            bytes = given.clone();
            assert(bytes@ =~= given@);
        },
        None => {
            bytes.push((now / 0x100_0000_0000_0000) as u8);
            bytes.push((now / 0x1_0000_0000_0000 % 256) as u8);
            bytes.push((now / 0x100_0000_0000 % 256) as u8);
            bytes.push((now / 0x1_0000_0000 % 256) as u8);
            bytes.push((now / 0x100_0000 % 256) as u8);
            bytes.push((now / 0x1_0000 % 256) as u8);
            bytes.push((now / 0x100 % 256) as u8);
            bytes.push((now % 256) as u8);
            assert(bytes@ =~= number_bytes(now));
        },
    }
    let mut digits = String::new();
    let mut i: usize = 0;
    assert(digits@ =~= hex_bytes(bytes@.take(0)));
    while i < bytes.len()
        invariant
            i <= bytes@.len(),
            digits@ == hex_bytes(bytes@.take(i as int)),
        decreases bytes@.len() - i,
    {
        assert(bytes@.take(i + 1).drop_last() =~= bytes@.take(i as int));
        let ghost before = digits@;
        digits.push(hex_digit_of(bytes[i] / 16));
        digits.push(hex_digit_of(bytes[i] % 16));
        assert(digits@ =~= before + seq![
            small_hex(bytes@[i as int] as int / 16),
            small_hex(bytes@[i as int] as int % 16),
        ]);
        i += 1;
    }
    assert(bytes@.take(i as int) =~= bytes@);
    join2("intent-", digits.as_str())
}

/// `getrandom::fill`: eight random bytes from the system, or nothing where it
/// reports an error. Nothing is claimed of their values.
#[verifier::external_body]
fn random_bytes() -> (bytes: Option<Vec<u8>>)
    ensures
        bytes matches Some(bytes) ==> bytes@.len() == 8,
{
    let mut bytes = [0u8; 8];
    match getrandom::fill(&mut bytes) {
        Ok(()) => Some(bytes.to_vec()),
        Err(_) => None,
    }
}

pub open spec fn small_hex_char(c: char) -> bool {
    ('0' <= c && c <= '9') || ('a' <= c && c <= 'f')
}

proof fn lemma_hex_bytes(bytes: Seq<u8>)
    ensures
        hex_bytes(bytes).len() == 2 * bytes.len(),
        forall|i: int|
            0 <= i < hex_bytes(bytes).len() ==> small_hex_char(#[trigger] hex_bytes(bytes)[i]),
    decreases bytes.len(),
{
    if bytes.len() > 0 {
        lemma_hex_bytes(bytes.drop_last());
        let head = hex_bytes(bytes.drop_last());
        let b = bytes.last() as int;
        assert forall|i: int| 0 <= i < hex_bytes(bytes).len() implies small_hex_char(
            #[trigger] hex_bytes(bytes)[i],
        ) by {
            if i < head.len() {
                assert(hex_bytes(bytes)[i] == head[i]);
            }
        }
    }
}

/// A new name for one call. What it is depends on chance; its form does not.
pub fn new_intent_correlation_id(now: u64) -> (id: String)
    ensures
        exists|random: Option<Seq<u8>>|
            (random matches Some(bytes) ==> bytes.len() == 8) && id@ == #[trigger] call_id(
                random,
                now,
            ),
{
    let random = random_bytes();
    let id = correlation_id(&random, now);
    assert(id@ == call_id(
        match random {
            Some(bytes) => Some(bytes@),
            None => None,
        },
        now,
    ));
    id
}

/// Every name of a call has the same form: a prefix that tells it from other
/// senders' names, and sixteen digits.
pub proof fn law_call_ids_have_one_form(random: Option<Seq<u8>>, now: u64)
    requires
        random matches Some(bytes) ==> bytes.len() == 8,
    ensures
        call_id(random, now).len() == 23,
        call_id(random, now).take(7) == "intent-"@,
        forall|i: int|
            7 <= i < 23 ==> small_hex_char(#[trigger] call_id(random, now)[i]),
{
    reveal_strlit("intent-");
    let bytes = match random {
        Some(bytes) => bytes,
        None => number_bytes(now),
    };
    lemma_hex_bytes(bytes);
    assert("intent-"@.len() == 7);
    assert(call_id(random, now).take(7) =~= "intent-"@);
    assert forall|i: int| 7 <= i < 23 implies small_hex_char(
        #[trigger] call_id(random, now)[i],
    ) by {
        assert(call_id(random, now)[i] == hex_bytes(bytes)[i - 7]);
    }
}

/// What can go wrong with a request.
#[derive(Debug)]
pub enum IntentError {
    InvalidRequest { detail: String },
    ArgsTooLarge { bytes: u64 },
    /// It is not in the registry, or there is no registry.
    NotFound { name: String, known: Vec<String>, registry_hint: Option<String> },
    /// A person has to agree first.
    OperatorConfirmationRequired { name: String },
    /// The phone cannot be reached.
    BridgeUnavailable { reason: String },
    /// Time ran out, or the phone was given up, before anything was sent.
    NotSent,
    /// It was sent, and the phone complained; what it did is not known.
    DispatchFailed { id: String, detail: String },
    /// It was sent, and time ran out.
    DispatchTimeout { id: String },
}

/// What is wrong with a request, in the words of its answer.
pub enum FaultView {
    Invalid { detail: Seq<char> },
    TooLarge { bytes: u64 },
    NotFound { name: Seq<char>, known: Seq<Seq<char>>, registry: Option<Seq<char>> },
    NeedsConsent { name: Seq<char> },
    Unavailable { reason: Seq<char> },
    NotSent,
    Failed { id: Seq<char>, detail: Seq<char> },
    TimedOut { id: Seq<char> },
}

/// The content of an [`IntentError`].
pub open spec fn fault_of(error: IntentError) -> FaultView {
    match error {
        IntentError::InvalidRequest { detail } => FaultView::Invalid { detail: detail@ },
        IntentError::ArgsTooLarge { bytes } => FaultView::TooLarge { bytes },
        IntentError::NotFound { name, known, registry_hint } => FaultView::NotFound {
            name: name@,
            known: texts(known@),
            registry: opt_text(registry_hint),
        },
        IntentError::OperatorConfirmationRequired { name } => FaultView::NeedsConsent {
            name: name@,
        },
        IntentError::BridgeUnavailable { reason } => FaultView::Unavailable { reason: reason@ },
        IntentError::NotSent => FaultView::NotSent,
        IntentError::DispatchFailed { id, detail } => FaultView::Failed {
            id: id@,
            detail: detail@,
        },
        IntentError::DispatchTimeout { id } => FaultView::TimedOut { id: id@ },
    }
}

/// Whether anything was sent.
pub open spec fn was_sent(fault: FaultView) -> bool {
    fault is Failed || fault is TimedOut
}

pub open spec fn fault_status(fault: FaultView) -> u16 {
    match fault {
        FaultView::Invalid { .. } => 400,
        FaultView::TooLarge { .. } => 400,
        FaultView::NotFound { .. } => 404,
        FaultView::NeedsConsent { .. } => 403,
        FaultView::Unavailable { .. } => 503,
        FaultView::NotSent => 408,
        FaultView::Failed { .. } => 502,
        FaultView::TimedOut { .. } => 504,
    }
}

/// What every answer says of the outcome: where nothing was sent it is safe to
/// try again, else it is not.
pub open spec fn outcome_text(sent: bool) -> Seq<char> {
    json_string_text(
        if sent {
            "unknown"@
        } else {
            "not_sent"@
        },
    )
}

pub open spec fn invalid_request_fields(detail: Seq<char>) -> Seq<(Seq<char>, Seq<char>)> {
    seq![
        ("detail"@, json_string_text(detail)),
        ("error"@, json_string_text("intent_invalid_request"@)),
        (
            "hint"@,
            json_string_text(
                "body must be {\"name\":\"<registered intent>\",\"args\":{...}}"@,
            ),
        ),
        ("ok"@, bool_text(false)),
        ("outcome"@, outcome_text(false)),
        ("retry_safe"@, bool_text(true)),
    ]
}

pub open spec fn too_large_fields(bytes: u64) -> Seq<(Seq<char>, Seq<char>)> {
    seq![
        ("args_bytes"@, decimal(bytes as nat)),
        ("error"@, json_string_text("intent_args_too_large"@)),
        (
            "hint"@,
            json_string_text(
                "args ride URL-encoded in the deep link — keep them small and pass large blobs by reference (an id the shortcut fetches from the daemon)"@,
            ),
        ),
        ("max_bytes"@, decimal(2048)),
        ("ok"@, bool_text(false)),
        ("outcome"@, outcome_text(false)),
        ("retry_safe"@, bool_text(true)),
    ]
}

pub open spec fn not_found_fields(
    name: Seq<char>,
    known: Seq<Seq<char>>,
    registry: Option<Seq<char>>,
) -> Seq<(Seq<char>, Seq<char>)> {
    seq![
        ("error"@, json_string_text("intent_not_found"@)),
        (
            "hint"@,
            json_string_text(
                "GET /agent/intents lists the curated registry; adding a verb is a reviewed registry + bridge-shortcut change, never runtime discovery"@,
            ),
        ),
        ("intent"@, json_string_text(name)),
        ("known"@, array_text(string_items(known))),
        ("ok"@, bool_text(false)),
        ("outcome"@, outcome_text(false)),
    ] + opt_field(
        "registry"@,
        match registry {
            Some(hint) => Some(json_string_text(hint)),
            None => None,
        },
    ) + seq![("retry_safe"@, bool_text(true))]
}

pub open spec fn consent_fields(name: Seq<char>) -> Seq<(Seq<char>, Seq<char>)> {
    seq![
        ("error"@, json_string_text("intent_requires_operator_confirmation"@)),
        (
            "hint"@,
            json_string_text(
                "this verb is registered confirm:\"operator\" — resend with \"operator_confirmed\":true only after a human explicitly approved this exact call"@,
            ),
        ),
        ("intent"@, json_string_text(name)),
        ("ok"@, bool_text(false)),
        ("outcome"@, outcome_text(false)),
        ("retry_safe"@, bool_text(true)),
    ]
}

pub open spec fn unavailable_fields(reason: Seq<char>) -> Seq<(Seq<char>, Seq<char>)> {
    seq![
        ("error"@, json_string_text("intent_bridge_unavailable"@)),
        ("fallback"@, json_string_text("devicectl"@)),
        (
            "hint"@,
            json_string_text(
                "nothing was dispatched; the deep link can be delivered manually via `xcrun devicectl device process launch --payload-url <shortcuts-url> com.apple.shortcuts` — the daemon never auto-dispatches that fallback (at-most-once)"@,
            ),
        ),
        ("ok"@, bool_text(false)),
        ("outcome"@, outcome_text(false)),
        ("reason"@, json_string_text(reason)),
        ("retry_safe"@, bool_text(true)),
    ]
}

pub open spec fn not_sent_fields() -> Seq<(Seq<char>, Seq<char>)> {
    seq![
        ("error"@, json_string_text("not_sent"@)),
        ("fallback"@, json_string_text("devicectl"@)),
        ("ok"@, bool_text(false)),
        ("outcome"@, outcome_text(false)),
        ("retry_safe"@, bool_text(true)),
    ]
}

pub open spec fn dispatch_failed_fields(id: Seq<char>, detail: Seq<char>) -> Seq<
    (Seq<char>, Seq<char>),
> {
    seq![
        ("detail"@, json_string_text(detail)),
        ("error"@, json_string_text("intent_dispatch_failed"@)),
        (
            "hint"@,
            json_string_text(
                "the deep link may have fired — check /agent/inbox for this id and observe device state before ever re-sending a side-effecting verb"@,
            ),
        ),
        ("id"@, json_string_text(id)),
        ("ok"@, bool_text(false)),
        ("outcome"@, outcome_text(true)),
        ("result_path"@, json_string_text("/agent/inbox"@)),
        ("retry_safe"@, bool_text(false)),
    ]
}

pub open spec fn dispatch_timeout_fields(id: Seq<char>) -> Seq<(Seq<char>, Seq<char>)> {
    seq![
        ("error"@, json_string_text("intent_timeout"@)),
        (
            "hint"@,
            json_string_text(
                "dispatched but unconfirmed — check /agent/inbox for this id and observe device state before ever re-sending a side-effecting verb"@,
            ),
        ),
        ("id"@, json_string_text(id)),
        ("ok"@, bool_text(false)),
        ("outcome"@, outcome_text(true)),
        ("result_path"@, json_string_text("/agent/inbox"@)),
        ("retry_safe"@, bool_text(false)),
    ]
}

/// The fields of the answer to a request that went wrong.
pub open spec fn fault_fields(fault: FaultView) -> Seq<(Seq<char>, Seq<char>)> {
    match fault {
        FaultView::Invalid { detail } => invalid_request_fields(detail),
        FaultView::TooLarge { bytes } => too_large_fields(bytes),
        FaultView::NotFound { name, known, registry } => not_found_fields(name, known, registry),
        FaultView::NeedsConsent { name } => consent_fields(name),
        FaultView::Unavailable { reason } => unavailable_fields(reason),
        FaultView::NotSent => not_sent_fields(),
        FaultView::Failed { id, detail } => dispatch_failed_fields(id, detail),
        FaultView::TimedOut { id } => dispatch_timeout_fields(id),
    }
}

fn not_found_body(name: &str, known: &Vec<String>, registry: &Option<String>) -> (body: ObjectText)
    ensures
        body.fields() == not_found_fields(name@, texts(known@), opt_text(*registry)),
{
    let list = string_array(known);
    let body = ObjectText::new().text("error", "intent_not_found").text(
        "hint",
        "GET /agent/intents lists the curated registry; adding a verb is a reviewed registry + bridge-shortcut change, never runtime discovery",
    ).text("intent", name).raw("known", list.as_str()).flag("ok", false).text(
        "outcome",
        "not_sent",
    );
    let body = match registry {
        Some(hint) => body.text("registry", hint.as_str()),
        None => body,
    };
    let body = body.flag("retry_safe", true);
    assert(body.fields() =~= not_found_fields(name@, texts(known@), opt_text(*registry)));
    body
}

fn dispatch_failed_body(id: &str, detail: &str) -> (body: ObjectText)
    ensures
        body.fields() == dispatch_failed_fields(id@, detail@),
{
    let body = ObjectText::new().text("detail", detail).text(
        "error",
        "intent_dispatch_failed",
    ).text(
        "hint",
        "the deep link may have fired — check /agent/inbox for this id and observe device state before ever re-sending a side-effecting verb",
    ).text("id", id).flag("ok", false).text("outcome", "unknown").text(
        "result_path",
        "/agent/inbox",
    ).flag("retry_safe", false);
    assert(body.fields() =~= dispatch_failed_fields(id@, detail@));
    body
}

fn dispatch_timeout_body(id: &str) -> (body: ObjectText)
    ensures
        body.fields() == dispatch_timeout_fields(id@),
{
    let body = ObjectText::new().text("error", "intent_timeout").text(
        "hint",
        "dispatched but unconfirmed — check /agent/inbox for this id and observe device state before ever re-sending a side-effecting verb",
    ).text("id", id).flag("ok", false).text("outcome", "unknown").text(
        "result_path",
        "/agent/inbox",
    ).flag("retry_safe", false);
    assert(body.fields() =~= dispatch_timeout_fields(id@));
    body
}

fn unsent_body(error: &IntentError) -> (body: ObjectText)
    requires
        !was_sent(fault_of(*error)),
    ensures
        body.fields() == fault_fields(fault_of(*error)),
{
    match error {
        IntentError::InvalidRequest { detail } => {
            let body = ObjectText::new().text("detail", detail.as_str()).text(
                "error",
                "intent_invalid_request",
            ).text(
                "hint",
                "body must be {\"name\":\"<registered intent>\",\"args\":{...}}",
            ).flag("ok", false).text("outcome", "not_sent").flag("retry_safe", true);
            assert(body.fields() =~= invalid_request_fields(detail@));
            body
        },
        IntentError::ArgsTooLarge { bytes } => {
            let body = ObjectText::new().count("args_bytes", *bytes).text(
                "error",
                "intent_args_too_large",
            ).text(
                "hint",
                "args ride URL-encoded in the deep link — keep them small and pass large blobs by reference (an id the shortcut fetches from the daemon)",
            ).count("max_bytes", 2048).flag("ok", false).text("outcome", "not_sent").flag(
                "retry_safe",
                true,
            );
            assert(body.fields() =~= too_large_fields(*bytes));
            body
        },
        IntentError::OperatorConfirmationRequired { name } => {
            let body = ObjectText::new().text(
                "error",
                "intent_requires_operator_confirmation",
            ).text(
                "hint",
                "this verb is registered confirm:\"operator\" — resend with \"operator_confirmed\":true only after a human explicitly approved this exact call",
            ).text("intent", name.as_str()).flag("ok", false).text("outcome", "not_sent").flag(
                "retry_safe",
                true,
            );
            assert(body.fields() =~= consent_fields(name@));
            body
        },
        IntentError::BridgeUnavailable { reason } => {
            let body = ObjectText::new().text("error", "intent_bridge_unavailable").text(
                "fallback",
                "devicectl",
            ).text(
                "hint",
                "nothing was dispatched; the deep link can be delivered manually via `xcrun devicectl device process launch --payload-url <shortcuts-url> com.apple.shortcuts` — the daemon never auto-dispatches that fallback (at-most-once)",
            ).flag("ok", false).text("outcome", "not_sent").text("reason", reason.as_str()).flag(
                "retry_safe",
                true,
            );
            assert(body.fields() =~= unavailable_fields(reason@));
            body
        },
        IntentError::NotFound { name, known, registry_hint } => not_found_body(
            name.as_str(),
            known,
            registry_hint,
        ),
        _ => {
            let body = ObjectText::new().text("error", "not_sent").text(
                "fallback",
                "devicectl",
            ).flag("ok", false).text("outcome", "not_sent").flag("retry_safe", true);
            assert(body.fields() =~= not_sent_fields());
            body
        },
    }
}

/// The status and the body of the answer to a request that went wrong.
pub fn intent_error_parts(error: &IntentError) -> (parts: (u16, String))
    ensures
        parts.0 == fault_status(fault_of(*error)),
        parts.1@ == object_text(fault_fields(fault_of(*error))),
{
    let status: u16 = match error {
        IntentError::InvalidRequest { .. } => 400,
        IntentError::ArgsTooLarge { .. } => 400,
        IntentError::NotFound { .. } => 404,
        IntentError::OperatorConfirmationRequired { .. } => 403,
        IntentError::BridgeUnavailable { .. } => 503,
        IntentError::NotSent => 408,
        IntentError::DispatchFailed { .. } => 502,
        IntentError::DispatchTimeout { .. } => 504,
    };
    let body = match error {
        IntentError::DispatchFailed { id, detail } => dispatch_failed_body(
            id.as_str(),
            detail.as_str(),
        ),
        IntentError::DispatchTimeout { id } => dispatch_timeout_body(id.as_str()),
        _ => unsent_body(error),
    };
    (status, body.finish())
}

/// The answer to a request that went wrong.
pub open spec fn fault_reply(fault: FaultView) -> ReplyView {
    json_reply(fault_status(fault), object_text(fault_fields(fault)))
}

pub fn intent_error_response(error: &IntentError) -> (reply: Reply)
    ensures
        reply@ == fault_reply(fault_of(*error)),
{
    let (status, body) = intent_error_parts(error);
    Reply::json(status, body)
}

/// A request that was sent is never called safe to try again, and one that was
/// not sent always is; each answer says which it was.
pub proof fn law_a_sent_request_is_never_retry_safe(fault: FaultView)
    ensures
        fault_fields(fault).contains(("retry_safe"@, bool_text(!was_sent(fault)))),
        fault_fields(fault).contains(("outcome"@, outcome_text(was_sent(fault)))),
{
    let f = fault_fields(fault);
    match fault {
        FaultView::Invalid { .. } => {
            assert(f[5] == ("retry_safe"@, bool_text(true)));
            assert(f[4] == ("outcome"@, outcome_text(false)));
        },
        FaultView::TooLarge { .. } => {
            assert(f[6] == ("retry_safe"@, bool_text(true)));
            assert(f[5] == ("outcome"@, outcome_text(false)));
        },
        FaultView::NotFound { .. } => {
            assert(f.last() == ("retry_safe"@, bool_text(true)));
            assert(f[5] == ("outcome"@, outcome_text(false)));
        },
        FaultView::NeedsConsent { .. } => {
            assert(f[5] == ("retry_safe"@, bool_text(true)));
            assert(f[4] == ("outcome"@, outcome_text(false)));
        },
        FaultView::Unavailable { .. } => {
            assert(f[6] == ("retry_safe"@, bool_text(true)));
            assert(f[4] == ("outcome"@, outcome_text(false)));
        },
        FaultView::NotSent => {
            assert(f[4] == ("retry_safe"@, bool_text(true)));
            assert(f[3] == ("outcome"@, outcome_text(false)));
        },
        FaultView::Failed { .. } => {
            assert(f[7] == ("retry_safe"@, bool_text(false)));
            assert(f[5] == ("outcome"@, outcome_text(true)));
        },
        FaultView::TimedOut { .. } => {
            assert(f[6] == ("retry_safe"@, bool_text(false)));
            assert(f[4] == ("outcome"@, outcome_text(true)));
        },
    }
}

/// A name of a request has one to sixty-four letters, digits, underscores and
/// dashes; that of the bridge one to a hundred characters, none of them a control
/// character.
pub proof fn law_names_of_requests_are_plain(name: Seq<char>, i: int)
    ensures
        intent_name_valid(name) ==> 1 <= name.len() <= 64,
        intent_name_valid(name) && 0 <= i < name.len() ==> ('0' <= name[i] && name[i] <= '9') || (
        'a' <= name[i] && name[i] <= 'z') || ('A' <= name[i] && name[i] <= 'Z') || name[i] == '_'
            || name[i] == '-',
        1 <= name.len() <= 64 && (forall|k: int|
            0 <= k < name.len() ==> ('0' <= #[trigger] name[k] && name[k] <= '9') || ('a' <= name[k]
                && name[k] <= 'z') || ('A' <= name[k] && name[k] <= 'Z') || name[k] == '_'
                || name[k] == '-') ==> intent_name_valid(name),
        bridge_name_valid(name) ==> 1 <= name.len() <= 100,
        bridge_name_valid(name) && 0 <= i < name.len() ==> name[i] as u32 >= 32 && !(127
            <= name[i] as u32 && (name[i] as u32) < 160),
{
    if 1 <= name.len() <= 64 && (forall|k: int|
        0 <= k < name.len() ==> ('0' <= #[trigger] name[k] && name[k] <= '9') || ('a' <= name[k]
            && name[k] <= 'z') || ('A' <= name[k] && name[k] <= 'Z') || name[k] == '_' || name[k]
            == '-') {
        assert forall|k: int| 0 <= k < name.len() implies intent_char(#[trigger] name[k]) by {
            assert(('0' <= name[k] && name[k] <= '9') || ('a' <= name[k] && name[k] <= 'z') || ('A'
                <= name[k] && name[k] <= 'Z') || name[k] == '_' || name[k] == '-');
        }
    }
    if bridge_name_valid(name) && 0 <= i < name.len() {
        assert(!control_char(name[i]));
    }
}

/// An entry says what its document says, each under its own name; what is left out
/// has its default, and long texts are cut.
pub proof fn law_an_entry_says_what_its_document_says(raw: JsonView)
    ensures
        entry_of(raw) matches Some(e) ==> {
            &&& raw is Object
            &&& text_of(field_of(raw, "name"@)) == Some(e.name) && intent_name_valid(e.name)
            &&& text_of(field_of(raw, "side_effect"@)) == Some(e.side_effect)
            &&& e.side_effect == "none"@ || e.side_effect == "read"@ || e.side_effect == "write"@
            &&& field_of(raw, "args_schema"@) matches Some(s) ==> s is Object && e.args_schema
                == json_text(s)
            &&& field_of(raw, "returns_schema"@) matches Some(s) ==> s is Object && e.returns_schema
                == json_text(s)
            &&& field_of(raw, "args_schema"@) is None ==> e.args_schema == json_text(
                JsonView::Object(Seq::empty()),
            )
            &&& field_of(raw, "returns_schema"@) is None ==> e.returns_schema == json_text(
                JsonView::Object(Seq::empty()),
            )
            &&& field_of(raw, "confirm"@) is None ==> e.confirm == "none"@
            &&& field_of(raw, "confirm"@) is Some ==> text_of(field_of(raw, "confirm"@)) == Some(
                e.confirm,
            ) && (e.confirm == "none"@ || e.confirm == "operator"@)
            &&& field_of(raw, "min_bridge_version"@) is None ==> e.min_bridge_version == 1
            &&& field_of(raw, "min_bridge_version"@) is Some ==> unsigned_of(
                field_of(raw, "min_bridge_version"@),
            ) == Some(e.min_bridge_version) && e.min_bridge_version <= 1000000
            &&& field_of(raw, "summary"@) is None ==> e.summary.len() == 0
            &&& text_of(field_of(raw, "summary"@)) matches Some(t) ==> (t.len() <= 200 ==> e.summary
                == t) && (t.len() > 200 ==> e.summary == t.take(200))
            &&& field_of(raw, "permission"@) is None ==> e.permission is None
            &&& text_of(field_of(raw, "permission"@)) matches Some(t) ==> (t.len() <= 100
                ==> e.permission == Some(t)) && (t.len() > 100 ==> e.permission == Some(t.take(100)))
            &&& field_of(raw, "status"@) is None ==> e.status == "experiment"@
            &&& text_of(field_of(raw, "status"@)) matches Some(t) ==> (t.len() <= 32 ==> e.status
                == t) && (t.len() > 32 ==> e.status == t.take(32))
        },
        raw !is Object ==> entry_of(raw) is None,
{
}

/// The entries of a list are gathered in its order: each that can be read and
/// whose name came before none.
pub proof fn law_entries_are_gathered_in_order(list: Seq<JsonView>, raw: JsonView)
    ensures
        gathered(Seq::empty()).len() == 0,
        entry_of(raw) is None ==> gathered(list.push(raw)) == gathered(list),
        entry_of(raw) matches Some(e) ==> (name_taken(gathered(list), e.name) ==> gathered(
            list.push(raw),
        ) == gathered(list)),
        entry_of(raw) matches Some(e) ==> (!name_taken(gathered(list), e.name) ==> gathered(
            list.push(raw),
        ) == gathered(list).push(e)),
{
    assert(list.push(raw).drop_last() =~= list);
}

/// A registry is taken only with a bridge that has a fit name, and says what its
/// document says; a file that is missing, too large, unreadable or no document is
/// told as that.
pub proof fn law_a_registry_is_read_as_it_stands(
    v: JsonView,
    text: String,
    error: String,
    bytes: u64,
)
    ensures
        registry_of(v) matches LoadView::Loaded(r) ==> {
            &&& field_of(v, "bridge"@) is Some
            &&& text_of(field_of(field_of(v, "bridge"@)->0, "name"@)) == Some(r.bridge_name)
            &&& bridge_name_valid(r.bridge_name)
            &&& unsigned_of(field_of(field_of(v, "bridge"@)->0, "required_version"@)) matches Some(
                n,
            ) ==> (n <= 1000000 ==> r.bridge_required_version == n) && (n > 1000000
                ==> r.bridge_required_version == 1000000)
            &&& unsigned_of(field_of(field_of(v, "bridge"@)->0, "required_version"@)) is None
                ==> r.bridge_required_version == 1
            &&& field_of(v, "intents"@) matches Some(JsonView::List(list)) ==> r.intents == gathered(
                list,
            )
            &&& !(field_of(v, "intents"@) matches Some(l) && l is List) ==> r.intents.len() == 0
        },
        registry_of(v) !is Loaded ==> registry_of(v) is Unreadable,
        registry_in(RegistryFile::Missing) is Missing,
        registry_in(RegistryFile::StatFailed(error)) == LoadView::Unreadable(
            "stat failed: "@ + error@,
        ),
        registry_in(RegistryFile::ReadFailed(error)) == LoadView::Unreadable(
            "read failed: "@ + error@,
        ),
        registry_in(RegistryFile::Large { bytes }) is Unreadable,
        json_read(text@) matches Ok(doc) ==> registry_in(RegistryFile::Text(text)) == registry_of(
            doc,
        ),
        json_read(text@) matches Err(e) ==> registry_in(RegistryFile::Text(text))
            == LoadView::Unreadable("not valid JSON: "@ + e),
{
}

/// An entry is told with each thing that it says under its own name.
pub proof fn law_an_entry_is_told_whole(e: EntryView, registry: RegistryView)
    ensures
        entry_fields(e).contains(("args_schema"@, e.args_schema)),
        entry_fields(e).contains(("confirm"@, json_string_text(e.confirm))),
        entry_fields(e).contains(("min_bridge_version"@, decimal(e.min_bridge_version as nat))),
        entry_fields(e).contains(("name"@, json_string_text(e.name))),
        e.permission matches Some(p) ==> entry_fields(e).contains(
            ("permission"@, json_string_text(p)),
        ),
        entry_fields(e).contains(("returns_schema"@, e.returns_schema)),
        entry_fields(e).contains(("side_effect"@, json_string_text(e.side_effect))),
        entry_fields(e).contains(("status"@, json_string_text(e.status))),
        entry_fields(e).contains(("summary"@, json_string_text(e.summary))),
        bridge_fields(registry).contains(("installed"@, json_string_text("unknown"@))),
        bridge_fields(registry).contains(("name"@, json_string_text(registry.bridge_name))),
        bridge_fields(registry).contains(
            ("required_version"@, decimal(registry.bridge_required_version as nat)),
        ),
{
    let all = entry_fields(e);
    let p: int = if e.permission is Some {
        1
    } else {
        0
    };
    assert(all[0] == ("args_schema"@, e.args_schema));
    assert(all[1] == ("confirm"@, json_string_text(e.confirm)));
    assert(all[2] == ("min_bridge_version"@, decimal(e.min_bridge_version as nat)));
    assert(all[3] == ("name"@, json_string_text(e.name)));
    if let Some(text) = e.permission {
        assert(all[4] == ("permission"@, json_string_text(text)));
    }
    assert(all[4 + p] == ("returns_schema"@, e.returns_schema));
    assert(all[5 + p] == ("side_effect"@, json_string_text(e.side_effect)));
    assert(all[6 + p] == ("status"@, json_string_text(e.status)));
    assert(all[7 + p] == ("summary"@, json_string_text(e.summary)));
    let b = bridge_fields(registry);
    assert(b[0] == ("installed"@, json_string_text("unknown"@)));
    assert(b[1] == ("name"@, json_string_text(registry.bridge_name)));
    assert(b[2] == ("required_version"@, decimal(registry.bridge_required_version as nat)));
}

/// The list of requests tells the bridge and the entries of the registry, and none
/// where there is no registry that can be read.
pub proof fn law_the_list_tells_the_registry(
    registry: RegistryView,
    reason: Seq<char>,
    path: Seq<char>,
)
    ensures
        ({
            let all = intents_fields(LoadView::Loaded(registry), path);
            &&& all.contains(("bridge"@, object_text(bridge_fields(registry))))
            &&& all.contains(("intents"@, array_text(entry_texts(registry.intents))))
            &&& all.contains(("ok"@, "true"@))
            &&& all.contains(("result_path"@, json_string_text("/agent/inbox"@)))
        }),
        ({
            let all = intents_fields(LoadView::Missing, path);
            &&& all.contains(("bridge"@, "null"@))
            &&& all.contains(("intents"@, "[]"@))
            &&& all.contains(("ok"@, "true"@))
        }),
        ({
            let all = intents_fields(LoadView::Unreadable(reason), path);
            &&& all.contains(("bridge"@, "null"@))
            &&& all.contains(("intents"@, "[]"@))
            &&& all.contains(("ok"@, "true"@))
            &&& all.contains(
                ("warning"@, json_string_text("registry unreadable, fail closed: "@ + reason)),
            )
        }),
        entry_texts(registry.intents).len() == registry.intents.len(),
{
    let l = intents_fields(LoadView::Loaded(registry), path);
    assert(l[0] == ("bridge"@, object_text(bridge_fields(registry))));
    assert(l[2] == ("intents"@, array_text(entry_texts(registry.intents))));
    assert(l[3] == ("ok"@, bool_text(true)));
    assert(l[4] == ("result_path"@, json_string_text("/agent/inbox"@)));
    let m = intents_fields(LoadView::Missing, path);
    assert(m[0] == ("bridge"@, "null"@));
    assert(m[2] == ("intents"@, "[]"@));
    assert(m[3] == ("ok"@, bool_text(true)));
    let u = intents_fields(LoadView::Unreadable(reason), path);
    assert(u[0] == ("bridge"@, "null"@));
    assert(u[1] == ("intents"@, "[]"@));
    assert(u[2] == ("ok"@, bool_text(true)));
    assert(u[4] == ("warning"@, json_string_text("registry unreadable, fail closed: "@ + reason)));
}

/// The link runs the bridge by its name and hands it the verb, the id and the
/// arguments, each under its own name.
pub proof fn law_a_link_carries_the_request(
    bridge: Seq<char>,
    verb: Seq<char>,
    id: Seq<char>,
    args: Seq<char>,
)
    ensures
        link_text(bridge, verb, id, args) == "shortcuts://run-shortcut?name="@ + encoded(bridge)
            + "&input=text&text="@ + encoded(
            object_text(
                seq![
                    ("args"@, args),
                    ("id"@, json_string_text(id)),
                    ("verb"@, json_string_text(verb)),
                ],
            ),
        ),
{
}

/// An id is made of the random bytes where there are some, and else of the time;
/// each byte as two digits, so that two ids are the same only where their bytes
/// are.
pub proof fn law_an_id_is_made_of_its_bytes(a: Seq<u8>, byte: u8, now: u64)
    ensures
        call_id(Some(a), now) == "intent-"@ + hex_bytes(a),
        call_id(None, now) == "intent-"@ + hex_bytes(number_bytes(now)),
        hex_bytes(Seq::empty()).len() == 0,
        hex_bytes(a.push(byte)) == hex_bytes(a) + seq![
            small_hex(byte as int / 16),
            small_hex(byte as int % 16),
        ],
        number_bytes(now).len() == 8,
        number_bytes(now)[0] == now / 72057594037927936,
        number_bytes(now)[1] == now / 281474976710656 % 256,
        number_bytes(now)[2] == now / 1099511627776 % 256,
        number_bytes(now)[3] == now / 4294967296 % 256,
        number_bytes(now)[4] == now / 16777216 % 256,
        number_bytes(now)[5] == now / 65536 % 256,
        number_bytes(now)[6] == now / 256 % 256,
        number_bytes(now)[7] == now % 256,
{
    assert(a.push(byte).drop_last() =~= a);
}

/// Each fault of a request has its own status.
pub proof fn law_a_fault_has_its_own_status(
    detail: Seq<char>,
    bytes: u64,
    name: Seq<char>,
    known: Seq<Seq<char>>,
    registry: Option<Seq<char>>,
    id: Seq<char>,
)
    ensures
        fault_reply(FaultView::Invalid { detail }).status == 400,
        fault_reply(FaultView::TooLarge { bytes }).status == 400,
        fault_reply(FaultView::NotFound { name, known, registry }).status == 404,
        fault_reply(FaultView::NeedsConsent { name }).status == 403,
        fault_reply(FaultView::Unavailable { reason: detail }).status == 503,
        fault_reply(FaultView::NotSent).status == 408,
        fault_reply(FaultView::Failed { id, detail }).status == 502,
        fault_reply(FaultView::TimedOut { id }).status == 504,
        fault_reply(FaultView::NotSent).body == object_text(fault_fields(FaultView::NotSent)),
{
}

/// Each fault is told by its own word, with what it is about, whether anything was
/// sent, and whether it may be sent again.
pub proof fn law_a_fault_is_told_by_its_own_word(
    detail: Seq<char>,
    bytes: u64,
    name: Seq<char>,
    reason: Seq<char>,
    known: Seq<Seq<char>>,
    registry: Option<Seq<char>>,
    id: Seq<char>,
)
    ensures
        ({
            let all = fault_fields(FaultView::Invalid { detail });
            &&& all.contains(("detail"@, json_string_text(detail)))
            &&& all.contains(("error"@, json_string_text("intent_invalid_request"@)))
            &&& all.contains(("ok"@, "false"@))
            &&& all.contains(("outcome"@, json_string_text("not_sent"@)))
            &&& all.contains(("retry_safe"@, "true"@))
            &&& all.len() == 6
        }),
        ({
            let all = fault_fields(FaultView::TooLarge { bytes });
            &&& all.contains(("args_bytes"@, decimal(bytes as nat)))
            &&& all.contains(("error"@, json_string_text("intent_args_too_large"@)))
            &&& all.contains(("max_bytes"@, decimal(2048)))
            &&& all.contains(("ok"@, "false"@))
            &&& all.contains(("outcome"@, json_string_text("not_sent"@)))
            &&& all.contains(("retry_safe"@, "true"@))
            &&& all.len() == 7
        }),
        ({
            let all = fault_fields(FaultView::NeedsConsent { name });
            &&& all.contains(("error"@, json_string_text("intent_requires_operator_confirmation"@)))
            &&& all.contains(("intent"@, json_string_text(name)))
            &&& all.contains(("ok"@, "false"@))
            &&& all.contains(("outcome"@, json_string_text("not_sent"@)))
            &&& all.contains(("retry_safe"@, "true"@))
            &&& all.len() == 6
        }),
        ({
            let all = fault_fields(FaultView::Unavailable { reason });
            &&& all.contains(("error"@, json_string_text("intent_bridge_unavailable"@)))
            &&& all.contains(("fallback"@, json_string_text("devicectl"@)))
            &&& all.contains(("ok"@, "false"@))
            &&& all.contains(("outcome"@, json_string_text("not_sent"@)))
            &&& all.contains(("reason"@, json_string_text(reason)))
            &&& all.contains(("retry_safe"@, "true"@))
            &&& all.len() == 7
        }),
        ({
            let all = fault_fields(FaultView::NotSent);
            &&& all.contains(("error"@, json_string_text("not_sent"@)))
            &&& all.contains(("fallback"@, json_string_text("devicectl"@)))
            &&& all.contains(("ok"@, "false"@))
            &&& all.contains(("outcome"@, json_string_text("not_sent"@)))
            &&& all.contains(("retry_safe"@, "true"@))
            &&& all.len() == 5
        }),
        ({
            let all = fault_fields(FaultView::Failed { id, detail });
            &&& all.contains(("detail"@, json_string_text(detail)))
            &&& all.contains(("error"@, json_string_text("intent_dispatch_failed"@)))
            &&& all.contains(("id"@, json_string_text(id)))
            &&& all.contains(("ok"@, "false"@))
            &&& all.contains(("outcome"@, json_string_text("unknown"@)))
            &&& all.contains(("result_path"@, json_string_text("/agent/inbox"@)))
            &&& all.contains(("retry_safe"@, "false"@))
            &&& all.len() == 8
        }),
        ({
            let all = fault_fields(FaultView::TimedOut { id });
            &&& all.contains(("error"@, json_string_text("intent_timeout"@)))
            &&& all.contains(("id"@, json_string_text(id)))
            &&& all.contains(("ok"@, "false"@))
            &&& all.contains(("outcome"@, json_string_text("unknown"@)))
            &&& all.contains(("result_path"@, json_string_text("/agent/inbox"@)))
            &&& all.contains(("retry_safe"@, "false"@))
            &&& all.len() == 7
        }),
        ({
            let all = fault_fields(FaultView::NotFound { name, known, registry });
            &&& all.contains(("error"@, json_string_text("intent_not_found"@)))
            &&& all.contains(("intent"@, json_string_text(name)))
            &&& all.contains(("known"@, array_text(string_items(known))))
            &&& all.contains(("ok"@, "false"@))
            &&& all.contains(("outcome"@, json_string_text("not_sent"@)))
            &&& all.contains(("retry_safe"@, "true"@))
            &&& registry matches Some(hint) ==> all.contains(("registry"@, json_string_text(hint)))
        }),
{
    let all = fault_fields(FaultView::Invalid { detail });
    assert(all[0] == ("detail"@, json_string_text(detail)));
    assert(all[1] == ("error"@, json_string_text("intent_invalid_request"@)));
    assert(all[3] == ("ok"@, bool_text(false)));
    assert(all[4] == ("outcome"@, json_string_text("not_sent"@)));
    assert(all[5] == ("retry_safe"@, bool_text(true)));
    let all = fault_fields(FaultView::TooLarge { bytes });
    assert(all[0] == ("args_bytes"@, decimal(bytes as nat)));
    assert(all[1] == ("error"@, json_string_text("intent_args_too_large"@)));
    assert(all[3] == ("max_bytes"@, decimal(2048)));
    assert(all[4] == ("ok"@, bool_text(false)));
    assert(all[5] == ("outcome"@, json_string_text("not_sent"@)));
    assert(all[6] == ("retry_safe"@, bool_text(true)));
    let all = fault_fields(FaultView::NeedsConsent { name });
    assert(all[0] == ("error"@, json_string_text("intent_requires_operator_confirmation"@)));
    assert(all[2] == ("intent"@, json_string_text(name)));
    assert(all[3] == ("ok"@, bool_text(false)));
    assert(all[4] == ("outcome"@, json_string_text("not_sent"@)));
    assert(all[5] == ("retry_safe"@, bool_text(true)));
    let all = fault_fields(FaultView::Unavailable { reason });
    assert(all[0] == ("error"@, json_string_text("intent_bridge_unavailable"@)));
    assert(all[1] == ("fallback"@, json_string_text("devicectl"@)));
    assert(all[3] == ("ok"@, bool_text(false)));
    assert(all[4] == ("outcome"@, json_string_text("not_sent"@)));
    assert(all[5] == ("reason"@, json_string_text(reason)));
    assert(all[6] == ("retry_safe"@, bool_text(true)));
    let all = fault_fields(FaultView::NotSent);
    assert(all[0] == ("error"@, json_string_text("not_sent"@)));
    assert(all[1] == ("fallback"@, json_string_text("devicectl"@)));
    assert(all[2] == ("ok"@, bool_text(false)));
    assert(all[3] == ("outcome"@, json_string_text("not_sent"@)));
    assert(all[4] == ("retry_safe"@, bool_text(true)));
    let all = fault_fields(FaultView::Failed { id, detail });
    assert(all[0] == ("detail"@, json_string_text(detail)));
    assert(all[1] == ("error"@, json_string_text("intent_dispatch_failed"@)));
    assert(all[3] == ("id"@, json_string_text(id)));
    assert(all[4] == ("ok"@, bool_text(false)));
    assert(all[5] == ("outcome"@, json_string_text("unknown"@)));
    assert(all[6] == ("result_path"@, json_string_text("/agent/inbox"@)));
    assert(all[7] == ("retry_safe"@, bool_text(false)));
    let all = fault_fields(FaultView::TimedOut { id });
    assert(all[0] == ("error"@, json_string_text("intent_timeout"@)));
    assert(all[2] == ("id"@, json_string_text(id)));
    assert(all[3] == ("ok"@, bool_text(false)));
    assert(all[4] == ("outcome"@, json_string_text("unknown"@)));
    assert(all[5] == ("result_path"@, json_string_text("/agent/inbox"@)));
    assert(all[6] == ("retry_safe"@, bool_text(false)));
    let all = fault_fields(FaultView::NotFound { name, known, registry });
    let r: int = if registry is Some {
        1
    } else {
        0
    };
    assert(all[0] == ("error"@, json_string_text("intent_not_found"@)));
    assert(all[2] == ("intent"@, json_string_text(name)));
    assert(all[3] == ("known"@, array_text(string_items(known))));
    assert(all[4] == ("ok"@, bool_text(false)));
    assert(all[5] == ("outcome"@, outcome_text(false)));
    if let Some(hint) = registry {
        assert(all[6] == ("registry"@, json_string_text(hint)));
    }
    assert(all[6 + r] == ("retry_safe"@, bool_text(true)));
}

} // verus!
