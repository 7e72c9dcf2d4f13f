//! JSON documents as plain data, and the two calls into `serde_json` that read
//! and write their text.

use vstd::prelude::*;

use crate::text::same_text;

verus! {

/// The number type of `serde_json`, carried through as it came.
#[verifier::external_type_specification]
#[verifier::external_body]
pub struct ExSerdeNumber(serde_json::Number);

/// The document type of `serde_json`, handed from its reader to the copy into a
/// [`Json`] and back to its writer.
#[verifier::external_type_specification]
#[verifier::external_body]
pub struct ExSerdeValue(serde_json::Value);

/// A double that was read from a JSON text: its IEEE-754 bits, and the number
/// as `serde_json` keeps it. Only reading a document makes one, so the two
/// always stand for the same double.
#[derive(Debug)]
pub struct Double {
    bits: u64,
    exact: serde_json::Number,
}

impl View for Double {
    type V = u64;

    closed spec fn view(&self) -> u64 {
        self.bits
    }
}

impl Double {
    /// The IEEE-754 bits of the double.
    pub fn bits(&self) -> (bits: u64)
        ensures
            bits == self@,
    {
        self.bits
    }
}

/// A JSON number.
#[derive(Debug)]
pub enum JsonNumber {
    Unsigned(u64),
    Negative(i64),
    Float(Double),
}

/// The value of a [`JsonNumber`]; a double is given by its bits.
#[derive(Clone, Copy, Debug, PartialEq, Eq, Structural)]
pub enum NumberView {
    Unsigned(u64),
    Negative(i64),
    Float(u64),
}

impl View for JsonNumber {
    type V = NumberView;

    open spec fn view(&self) -> NumberView {
        match *self {
            JsonNumber::Unsigned(u) => NumberView::Unsigned(u),
            JsonNumber::Negative(i) => NumberView::Negative(i),
            JsonNumber::Float(d) => NumberView::Float(d@),
        }
    }
}

/// A JSON document. Object keys keep the order in which they were put in.
#[derive(Debug)]
pub enum Json {
    Null,
    Bool(bool),
    Number(JsonNumber),
    Text(String),
    List(Vec<Json>),
    Object(Vec<(String, Json)>),
}

/// The mathematical content of a [`Json`] document.
pub enum JsonView {
    Null,
    Bool(bool),
    Number(NumberView),
    Text(Seq<char>),
    List(Seq<JsonView>),
    Object(Seq<(Seq<char>, JsonView)>),
}

pub open spec fn json_view(json: Json) -> JsonView
    decreases json,
{
    match json {
        Json::Null => JsonView::Null,
        Json::Bool(b) => JsonView::Bool(b),
        Json::Number(n) => JsonView::Number(n@),
        Json::Text(s) => JsonView::Text(s@),
        Json::List(items) => JsonView::List(
            Seq::new(
                items@.len(),
                |i: int|
                    if 0 <= i < items@.len() {
                        json_view(items@[i])
                    } else {
                        JsonView::Null
                    },
            ),
        ),
        Json::Object(fields) => JsonView::Object(
            Seq::new(
                fields@.len(),
                |i: int|
                    if 0 <= i < fields@.len() {
                        (fields@[i].0@, json_view(fields@[i].1))
                    } else {
                        (Seq::empty(), JsonView::Null)
                    },
            ),
        ),
    }
}

impl View for Json {
    type V = JsonView;

    open spec fn view(&self) -> JsonView {
        json_view(*self)
    }
}

/// The value of the first field named `key`.
pub open spec fn lookup(fields: Seq<(Seq<char>, JsonView)>, key: Seq<char>) -> Option<JsonView>
    decreases fields.len(),
{
    if fields.len() == 0 {
        None
    } else if fields[0].0 == key {
        Some(fields[0].1)
    } else {
        lookup(fields.skip(1), key)
    }
}

pub open spec fn field_of(json: JsonView, key: Seq<char>) -> Option<JsonView> {
    match json {
        JsonView::Object(fields) => lookup(fields, key),
        _ => None,
    }
}

/// The text held by a value that is a JSON string.
pub open spec fn text_of(json: Option<JsonView>) -> Option<Seq<char>> {
    match json {
        Some(JsonView::Text(s)) => Some(s),
        _ => None,
    }
}

/// The integer held by a value that is a non-negative JSON integer.
pub open spec fn unsigned_of(json: Option<JsonView>) -> Option<u64> {
    match json {
        Some(JsonView::Number(NumberView::Unsigned(n))) => Some(n),
        _ => None,
    }
}

/// The number held by a value that is a JSON number of any kind.
pub open spec fn number_of(json: Option<JsonView>) -> Option<NumberView> {
    match json {
        Some(JsonView::Number(n)) => Some(n),
        _ => None,
    }
}

pub open spec fn bool_of(json: Option<JsonView>) -> Option<bool> {
    match json {
        Some(JsonView::Bool(b)) => Some(b),
        _ => None,
    }
}

/// `fields` with the field `key` set to `value`: replaced where the key is
/// there already, put at the end where it is not.
pub open spec fn put(
    fields: Seq<(Seq<char>, JsonView)>,
    key: Seq<char>,
    value: JsonView,
) -> Seq<(Seq<char>, JsonView)>
    decreases fields.len(),
{
    if fields.len() == 0 {
        seq![(key, value)]
    } else if fields[0].0 == key {
        seq![(key, value)] + fields.skip(1)
    } else {
        seq![fields[0]] + put(fields.skip(1), key, value)
    }
}

/// An object after `put`; anything that is no object is left alone.
pub open spec fn put_field(json: JsonView, key: Seq<char>, value: JsonView) -> JsonView {
    match json {
        JsonView::Object(fields) => JsonView::Object(put(fields, key, value)),
        other => other,
    }
}

pub open spec fn float_negative(bits: u64) -> bool {
    bits >= 0x8000_0000_0000_0000
}

/// The bits of a double without its sign. Of two finite doubles the one with
/// the larger magnitude has the larger number here.
pub open spec fn float_magnitude(bits: u64) -> int {
    if float_negative(bits) {
        bits - 0x8000_0000_0000_0000
    } else {
        bits as int
    }
}

pub open spec fn float_finite(bits: u64) -> bool {
    float_magnitude(bits) < 0x7FF0_0000_0000_0000
}

pub open spec fn number_zero(n: NumberView) -> bool {
    match n {
        NumberView::Unsigned(u) => u == 0,
        NumberView::Negative(i) => i == 0,
        NumberView::Float(bits) => float_magnitude(bits) == 0,
    }
}

/// Finite and greater than zero.
pub open spec fn number_positive(n: NumberView) -> bool {
    match n {
        NumberView::Unsigned(u) => u > 0,
        NumberView::Negative(i) => i > 0,
        NumberView::Float(bits) => float_finite(bits) && !float_negative(bits) && float_magnitude(bits)
            > 0,
    }
}

/// A bound on a number's absolute value: `whole` is the bound rounded down,
/// `bits` the bound as a double.
pub struct Limit {
    pub whole: u32,
    pub bits: u64,
}

/// Finite, and of an absolute value that does not exceed the limit.
pub open spec fn number_within(n: NumberView, limit: Limit) -> bool {
    match n {
        NumberView::Unsigned(u) => u <= limit.whole,
        NumberView::Negative(i) => -limit.whole <= i <= limit.whole,
        NumberView::Float(bits) => float_finite(bits) && float_magnitude(bits) <= limit.bits,
    }
}

pub open spec fn limit_one() -> Limit {
    Limit { whole: 1, bits: 0x3FF0_0000_0000_0000 }
}

/// Finite and from 0 to 1.
pub open spec fn number_unit(n: Option<NumberView>) -> bool {
    match n {
        Some(n) => number_within(n, limit_one()) && (number_zero(n) || number_positive(n)),
        None => false,
    }
}

/// Finite and at least one.
pub open spec fn number_at_least_one(n: NumberView) -> bool {
    match n {
        NumberView::Unsigned(u) => u >= 1,
        NumberView::Negative(i) => i >= 1,
        NumberView::Float(bits) => float_finite(bits) && !float_negative(bits) && float_magnitude(
            bits,
        ) >= 0x3FF0_0000_0000_0000,
    }
}

impl JsonNumber {
    /// The number as a plain value.
    pub fn value(&self) -> (value: NumberView)
        ensures
            value == self@,
    {
        match self {
            JsonNumber::Unsigned(u) => NumberView::Unsigned(*u),
            JsonNumber::Negative(i) => NumberView::Negative(*i),
            JsonNumber::Float(d) => NumberView::Float(d.bits()),
        }
    }

    pub fn is_at_least_one(&self) -> (at_least: bool)
        ensures
            at_least == number_at_least_one(self@),
    {
        match self {
            JsonNumber::Unsigned(u) => *u >= 1,
            JsonNumber::Negative(i) => *i >= 1,
            JsonNumber::Float(d) => 0x3FF0_0000_0000_0000 <= d.bits() && d.bits()
                < 0x7FF0_0000_0000_0000,
        }
    }

    pub fn is_zero(&self) -> (zero: bool)
        ensures
            zero == number_zero(self@),
    {
        match self {
            JsonNumber::Unsigned(u) => *u == 0,
            JsonNumber::Negative(i) => *i == 0,
            JsonNumber::Float(d) => d.bits() == 0 || d.bits() == 0x8000_0000_0000_0000,
        }
    }

    pub fn is_positive(&self) -> (positive: bool)
        ensures
            positive == number_positive(self@),
    {
        match self {
            JsonNumber::Unsigned(u) => *u > 0,
            JsonNumber::Negative(i) => *i > 0,
            JsonNumber::Float(d) => 0 < d.bits() && d.bits() < 0x7FF0_0000_0000_0000,
        }
    }

    pub fn within(&self, limit: Limit) -> (inside: bool)
        ensures
            inside == number_within(self@, limit),
    {
        match self {
            JsonNumber::Unsigned(u) => *u <= limit.whole as u64,
            JsonNumber::Negative(i) => -(limit.whole as i64) <= *i && *i <= limit.whole as i64,
            JsonNumber::Float(d) => {
                let bits: u64 = d.bits();
                let magnitude: u64 = if bits >= 0x8000_0000_0000_0000 {
                    bits - 0x8000_0000_0000_0000
                } else {
                    bits
                };
                magnitude < 0x7FF0_0000_0000_0000 && magnitude <= limit.bits
            },
        }
    }
}

/// The content of an optional number.
pub open spec fn opt_number(value: Option<&JsonNumber>) -> Option<NumberView> {
    match value {
        Some(n) => Some(n@),
        None => None,
    }
}

/// Whether a coordinate is there, finite and from 0 to 1.
pub fn finite_unit(value: Option<&JsonNumber>) -> (unit: bool)
    ensures
        unit == number_unit(opt_number(value)),
{
    match value {
        Some(n) => n.within(Limit { whole: 1, bits: 0x3FF0_0000_0000_0000 }) && (n.is_zero()
            || n.is_positive()),
        None => false,
    }
}

/// What `serde_json` reads a text as: a document, or what it says of a text that
/// is none.
pub uninterp spec fn json_read(text: Seq<char>) -> Result<JsonView, Seq<char>>;

/// The document that a text holds; `None` for a text that holds none.
pub open spec fn json_document(text: Seq<char>) -> Option<JsonView> {
    match json_read(text) {
        Ok(document) => Some(document),
        Err(_) => None,
    }
}

/// The compact text that `serde_json` writes for a document.
pub uninterp spec fn json_text(document: JsonView) -> Seq<char>;

/// Copies a number of `serde_json` by `Number::as_u64`, `as_i64` and its double
/// into a [`JsonNumber`] of the same kind. Nothing is claimed of it here; what a
/// whole reading gives is stated at `parse_json`.
#[verifier::external_body]
fn number_of_value(exact: serde_json::Number) -> JsonNumber {
    match (exact.as_u64(), exact.as_i64(), exact.as_f64()) {
        (Some(u), _, _) => JsonNumber::Unsigned(u),
        (_, Some(i), _) => JsonNumber::Negative(i),
        (_, _, f) => JsonNumber::Float(Double { bits: f.unwrap_or_default().to_bits(), exact }),
    }
}

/// Copies a `serde_json::Value` into a [`Json`], value for value.
#[verifier::external_body]
fn json_of_value(value: serde_json::Value) -> Json {
    match value {
        serde_json::Value::Null => Json::Null,
        serde_json::Value::Bool(b) => Json::Bool(b),
        serde_json::Value::Number(number) => Json::Number(number_of_value(number)),
        serde_json::Value::String(s) => Json::Text(s),
        serde_json::Value::Array(a) => Json::List(a.into_iter().map(json_of_value).collect()),
        serde_json::Value::Object(o) => {
            Json::Object(o.into_iter().map(|(k, v)| (k, json_of_value(v))).collect())
        },
    }
}

/// Copies a [`Json`] into a `serde_json::Value`, value for value.
#[verifier::external_body]
fn value_of_json(json: &Json) -> serde_json::Value {
    match json {
        Json::Null => serde_json::Value::Null,
        Json::Bool(b) => (*b).into(),
        Json::Number(JsonNumber::Unsigned(u)) => (*u).into(),
        Json::Number(JsonNumber::Negative(i)) => (*i).into(),
        Json::Number(JsonNumber::Float(d)) => d.exact.clone().into(),
        Json::Text(s) => s.as_str().into(),
        Json::List(a) => a.iter().map(value_of_json).collect(),
        Json::Object(o) => o.iter().map(|(k, v)| (k.clone(), value_of_json(v))).collect(),
    }
}

/// `serde_json::from_str`: the document that a text holds, or the text of the
/// error with which `serde_json` refuses it. Both depend on the text alone, and
/// are named [`json_read`].
#[verifier::external_body]
pub(crate) fn parse_json(text: &str) -> (document: Result<Json, String>)
    ensures
        match document {
            Ok(json) => json_read(text@) == Ok::<JsonView, Seq<char>>(json@),
            Err(error) => json_read(text@) == Err::<JsonView, Seq<char>>(error@),
        },
{
    match serde_json::from_str::<serde_json::Value>(text) {
        Ok(value) => Ok(json_of_value(value)),
        Err(error) => Err(error.to_string()),
    }
}

/// `serde_json::Value`'s `to_string`: the compact text of a document. It
/// depends on the document alone and is named [`json_text`].
#[verifier::external_body]
pub(crate) fn render_json(json: &Json) -> (text: String)
    ensures
        text@ == json_text(json@),
{
    value_of_json(json).to_string()
}

impl Json {
    /// The document that a text holds, or `None` where it holds none.
    pub fn parse(text: &str) -> (document: Option<Json>)
        ensures
            match document {
                Some(json) => json_document(text@) == Some(json@),
                None => json_document(text@) is None,
            },
    {
        match parse_json(text) {
            Ok(document) => Some(document),
            Err(_) => None,
        }
    }

    /// The document that a text holds, or why it holds none.
    pub fn read(text: &str) -> (document: Result<Json, String>)
        ensures
            match document {
                Ok(json) => json_read(text@) == Ok::<JsonView, Seq<char>>(json@),
                Err(error) => json_read(text@) == Err::<JsonView, Seq<char>>(error@),
            },
    {
        parse_json(text)
    }

    /// The compact text of the document.
    pub fn render(&self) -> (text: String)
        ensures
            text@ == json_text(self@),
    {
        render_json(self)
    }

    pub fn as_str(&self) -> (text: Option<&str>)
        ensures
            match text {
                Some(s) => text_of(Some(self@)) == Some(s@),
                None => text_of(Some(self@)) is None,
            },
    {
        match self {
            Json::Text(s) => Some(s.as_str()),
            _ => None,
        }
    }

    pub fn as_u64(&self) -> (n: Option<u64>)
        ensures
            n == unsigned_of(Some(self@)),
    {
        match self {
            Json::Number(JsonNumber::Unsigned(u)) => Some(*u),
            _ => None,
        }
    }

    pub fn as_number(&self) -> (n: Option<&JsonNumber>)
        ensures
            opt_number(n) == number_of(Some(self@)),
    {
        match self {
            Json::Number(n) => Some(n),
            _ => None,
        }
    }

    pub fn as_bool(&self) -> (b: Option<bool>)
        ensures
            b == bool_of(Some(self@)),
    {
        match self {
            Json::Bool(b) => Some(*b),
            _ => None,
        }
    }

    /// A JSON string.
    pub fn text(s: &str) -> (json: Json)
        ensures
            json@ == JsonView::Text(s@),
    {
        Json::Text(s.to_owned())
    }

    /// An object without fields.
    pub fn object() -> (json: Json)
        ensures
            json@ == JsonView::Object(Seq::empty()),
    {
        let json = Json::Object(Vec::new());
        assert(json@->Object_0 =~= Seq::empty());
        json
    }

    /// An object with one more field at its end; anything that is no object is
    /// returned as it is.
    pub fn with(self, key: &str, value: Json) -> (json: Json)
        ensures
            json@ == match self@ {
                JsonView::Object(fields) => JsonView::Object(fields.push((key@, value@))),
                other => other,
            },
    {
        match self {
            Json::Object(fields) => {
                let mut fields = fields;
                let ghost before = Json::Object(fields)@->Object_0;
                fields.push((key.to_owned(), value));
                let json = Json::Object(fields);
                assert(json@->Object_0 =~= before.push((key@, value@)));
                json
            },
            other => other,
        }
    }

    /// The value of the field `key`, if this is an object that has one.
    pub fn get(&self, key: &str) -> (found: Option<&Json>)
        ensures
            match found {
                Some(value) => field_of(self@, key@) == Some(value@),
                None => field_of(self@, key@) is None,
            },
    {
        match self {
            Json::Object(fields) => {
                let mut i: usize = 0;
                let ghost all = self@->Object_0;
                assert(all.skip(0) =~= all);
                while i < fields.len()
                    invariant
                        i <= fields@.len(),
                        self@ == JsonView::Object(all),
                        *self == Json::Object(*fields),
                        all.len() == fields@.len(),
                        lookup(all, key@) == lookup(all.skip(i as int), key@),
                    decreases fields@.len() - i,
                {
                    assert(all[i as int] == (fields@[i as int].0@, fields@[i as int].1@));
                    if same_text(fields[i].0.as_str(), key) {
                        return Some(&fields[i].1);
                    }
                    assert(all.skip(i as int).skip(1) =~= all.skip(i + 1));
                    i += 1;
                }
                None
            },
            _ => None,
        }
    }
}

impl Json {
    /// Whether the object has the field `key`.
    pub fn has(&self, key: &str) -> (found: bool)
        ensures
            found == (field_of(self@, key@) is Some),
    {
        self.get(key).is_some()
    }

    /// The string in the field `key`.
    pub fn text_field(&self, key: &str) -> (text: Option<&str>)
        ensures
            match text {
                Some(s) => text_of(field_of(self@, key@)) == Some(s@),
                None => text_of(field_of(self@, key@)) is None,
            },
    {
        match self.get(key) {
            Some(value) => value.as_str(),
            None => None,
        }
    }

    /// The non-negative integer in the field `key`.
    pub fn unsigned_field(&self, key: &str) -> (n: Option<u64>)
        ensures
            n == unsigned_of(field_of(self@, key@)),
    {
        match self.get(key) {
            Some(value) => value.as_u64(),
            None => None,
        }
    }

    /// The number in the field `key`.
    pub fn number_field(&self, key: &str) -> (n: Option<&JsonNumber>)
        ensures
            opt_number(n) == number_of(field_of(self@, key@)),
    {
        match self.get(key) {
            Some(value) => value.as_number(),
            None => None,
        }
    }

    /// The boolean in the field `key`.
    pub fn bool_field(&self, key: &str) -> (b: Option<bool>)
        ensures
            b == bool_of(field_of(self@, key@)),
    {
        match self.get(key) {
            Some(value) => value.as_bool(),
            None => None,
        }
    }

    /// Whether this is an object.
    pub fn is_object(&self) -> (object: bool)
        ensures
            object == (self@ is Object),
    {
        match self {
            Json::Object(_) => true,
            _ => false,
        }
    }
}

/// Where a key first stands in an object's fields, `put` replaces it there; where
/// it stands nowhere, `put` appends.
proof fn lemma_put_at(
    fields: Seq<(Seq<char>, JsonView)>,
    key: Seq<char>,
    value: JsonView,
    i: int,
)
    requires
        0 <= i <= fields.len(),
        forall|k: int| 0 <= k < i ==> (#[trigger] fields[k]).0 != key,
        i < fields.len() ==> fields[i].0 == key,
    ensures
        put(fields, key, value) == (if i < fields.len() {
            fields.update(i, (key, value))
        } else {
            fields.push((key, value))
        }),
    decreases fields.len(),
{
    if fields.len() == 0 {
        assert(put(fields, key, value) =~= fields.push((key, value)));
    } else if fields[0].0 == key {
        assert(i == 0);
        assert(put(fields, key, value) =~= fields.update(0, (key, value)));
    } else {
        assert(i > 0);
        let rest = fields.skip(1);
        assert forall|k: int| 0 <= k < i - 1 implies (#[trigger] rest[k]).0 != key by {
            assert(fields[k + 1].0 != key);
        }
        lemma_put_at(rest, key, value, i - 1);
        if i < fields.len() {
            assert(put(fields, key, value) =~= fields.update(i, (key, value)));
        } else {
            assert(put(fields, key, value) =~= fields.push((key, value)));
        }
    }
}

impl Json {
    /// The object with the field `key` set; anything that is no object is
    /// returned as it is.
    pub fn set(self, key: &str, value: Json) -> (json: Json)
        ensures
            json@ == put_field(self@, key@, value@),
    {
        let ghost before = self@;
        match self {
            Json::Object(fields) => {
                let ghost all = before->Object_0;
                let mut fields = fields;
                let mut i: usize = 0;
                while i < fields.len() && !same_text(fields[i].0.as_str(), key)
                    invariant
                        i <= fields@.len(),
                        all == json_view(Json::Object(fields))->Object_0,
                        all.len() == fields@.len(),
                        forall|k: int| 0 <= k < i ==> (#[trigger] all[k]).0 != key@,
                    decreases fields@.len() - i,
                {
                    assert(all[i as int] == (fields@[i as int].0@, fields@[i as int].1@));
                    i += 1;
                }
                proof {
                    if i < fields@.len() {
                        assert(all[i as int] == (fields@[i as int].0@, fields@[i as int].1@));
                    }
                    lemma_put_at(all, key@, value@, i as int);
                }
                let ghost old_fields = fields@;
                if i < fields.len() {
                    fields.set(i, (key.to_owned(), value));
                    let json = Json::Object(fields);
                    assert(json@->Object_0 =~= all.update(i as int, (key@, value@)));
                    json
                } else {
                    fields.push((key.to_owned(), value));
                    let json = Json::Object(fields);
                    assert(json@->Object_0 =~= all.push((key@, value@)));
                    json
                }
            },
            other => other,
        }
    }
}

/// A field of an object is the value of the first pair of that name; there is
/// none exactly where no pair has the name.
pub proof fn law_a_field_is_found_by_its_name(
    fields: Seq<(Seq<char>, JsonView)>,
    key: Seq<char>,
)
    ensures
        field_of(JsonView::Object(fields), key) matches Some(value) ==> exists|i: int|
            {
                &&& 0 <= i < fields.len()
                &&& #[trigger] fields[i] == (key, value)
                &&& forall|j: int| 0 <= j < i ==> (#[trigger] fields[j]).0 != key
            },
        field_of(JsonView::Object(fields), key) is None ==> forall|i: int|
            0 <= i < fields.len() ==> (#[trigger] fields[i]).0 != key,
    decreases fields.len(),
{
    if fields.len() > 0 {
        if fields[0].0 == key {
            assert(fields[0] == (key, fields[0].1));
        } else {
            let rest = fields.skip(1);
            law_a_field_is_found_by_its_name(rest, key);
            assert forall|j: int| 0 < j < fields.len() implies #[trigger] fields[j] == rest[j
                - 1] by {}
            if lookup(rest, key) is Some {
                let value = lookup(rest, key)->0;
                let i = choose|i: int|
                    {
                        &&& 0 <= i < rest.len()
                        &&& #[trigger] rest[i] == (key, value)
                        &&& forall|j: int| 0 <= j < i ==> (#[trigger] rest[j]).0 != key
                    };
                assert(fields[i + 1] == (key, value));
                assert forall|j: int| 0 <= j < i + 1 implies (#[trigger] fields[j]).0 != key by {
                    if j > 0 {
                        assert(fields[j] == rest[j - 1]);
                    }
                }
            }
        }
    }
}

/// What is put into an object is found there, and everything else is found as
/// before.
pub proof fn law_what_is_put_in_is_found(
    fields: Seq<(Seq<char>, JsonView)>,
    key: Seq<char>,
    value: JsonView,
    other: Seq<char>,
)
    ensures
        field_of(put_field(JsonView::Object(fields), key, value), key) == Some(value),
        other != key ==> field_of(put_field(JsonView::Object(fields), key, value), other)
            == field_of(JsonView::Object(fields), other),
    decreases fields.len(),
{
    let after = put(fields, key, value);
    if fields.len() == 0 {
        assert(after.skip(1) =~= Seq::empty());
        assert(lookup(after.skip(1), other) is None);
    } else {
        if fields[0].0 == key {
            assert(after.skip(1) =~= fields.skip(1));
        } else {
            assert(after.skip(1) =~= put(fields.skip(1), key, value));
            assert(after[0] == fields[0]);
            law_what_is_put_in_is_found(fields.skip(1), key, value, other);
        }
    }
}

/// A value is read only as what it is: a string as text, an integer without a
/// sign as one, a number as a number, a truth value as one, and nothing as
/// anything else.
pub proof fn law_a_value_is_read_as_what_it_is(json: JsonView)
    ensures
        text_of(Some(json)) matches Some(s) ==> json == JsonView::Text(s),
        json matches JsonView::Text(s) ==> text_of(Some(json)) == Some(s),
        unsigned_of(Some(json)) matches Some(n) ==> json == JsonView::Number(
            NumberView::Unsigned(n),
        ),
        json matches JsonView::Number(NumberView::Unsigned(n)) ==> unsigned_of(Some(json)) == Some(
            n,
        ),
        number_of(Some(json)) matches Some(n) ==> json == JsonView::Number(n),
        json matches JsonView::Number(n) ==> number_of(Some(json)) == Some(n),
        bool_of(Some(json)) matches Some(b) ==> json == JsonView::Bool(b),
        json matches JsonView::Bool(b) ==> bool_of(Some(json)) == Some(b),
        text_of(None) is None,
        unsigned_of(None) is None,
        number_of(None) is None,
        bool_of(None) is None,
{
}

/// A number lies from 0 to 1 exactly where it is zero, one, or a double between
/// them; no negative one does, and nothing that is no number.
pub proof fn law_a_unit_number_lies_from_zero_to_one(n: NumberView)
    ensures
        n matches NumberView::Unsigned(u) ==> (number_unit(Some(n)) <==> u <= 1),
        n matches NumberView::Negative(i) ==> (number_unit(Some(n)) <==> 0 <= i <= 1),
        n matches NumberView::Float(bits) ==> {
            &&& bits <= 0x3FF0_0000_0000_0000 ==> number_unit(Some(n))
            &&& 0x3FF0_0000_0000_0000 < bits < 0x8000_0000_0000_0000 ==> !number_unit(Some(n))
            &&& bits == 0x8000_0000_0000_0000 ==> number_unit(Some(n))
            &&& bits > 0x8000_0000_0000_0000 ==> !number_unit(Some(n))
        },
        !number_unit(None),
{
}

/// Zero, positive and neither: a number is one of the three, and no number that
/// is not finite is positive, within a limit, or at least one.
pub proof fn law_numbers_are_told_by_their_sign(n: NumberView, limit: Limit)
    ensures
        !(number_zero(n) && number_positive(n)),
        n matches NumberView::Unsigned(u) ==> (number_zero(n) <==> u == 0) && (number_positive(n)
            <==> u > 0) && (number_at_least_one(n) <==> u >= 1) && (number_within(n, limit) <==> u
            <= limit.whole),
        n matches NumberView::Negative(i) ==> i < 0 ==> !number_zero(n) && !number_positive(n)
            && !number_at_least_one(n) && (number_within(n, limit) <==> -i <= limit.whole),
        n matches NumberView::Float(bits) ==> {
            &&& number_zero(n) <==> bits == 0 || bits == 0x8000_0000_0000_0000
            &&& number_positive(n) <==> 0 < bits < 0x7FF0_0000_0000_0000
            &&& number_at_least_one(n) <==> 0x3FF0_0000_0000_0000 <= bits < 0x7FF0_0000_0000_0000
            &&& number_within(n, limit) && bits < 0x8000_0000_0000_0000 ==> bits <= limit.bits
                && bits < 0x7FF0_0000_0000_0000
            &&& bits <= limit.bits && bits < 0x7FF0_0000_0000_0000 ==> number_within(n, limit)
        },
{
}

} // verus!
