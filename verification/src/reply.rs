//! HTTP replies as plain data: status, headers and body text.

use vstd::prelude::*;

use crate::text::{decimal, decimal_text};

verus! {

/// The kind of body that a reply carries.
#[derive(Clone, Copy, Debug, PartialEq, Eq, Structural)]
pub enum Media {
    /// No body and no content type.
    Nothing,
    Json,
    Html,
    Plain,
}

/// A finished HTTP reply.
#[derive(Debug)]
pub struct Reply {
    pub status: u16,
    pub media: Media,
    /// Seconds for the `Retry-After` header.
    pub retry_after: Option<u64>,
    /// Target of a redirect.
    pub location: Option<String>,
    /// Value of the `Set-Cookie` header.
    pub cookie: Option<String>,
    pub body: String,
}

/// The content of a [`Reply`].
pub struct ReplyView {
    pub status: u16,
    pub media: Media,
    pub retry_after: Option<u64>,
    pub location: Option<Seq<char>>,
    pub cookie: Option<Seq<char>>,
    pub body: Seq<char>,
}

/// The characters of an optional string.
pub open spec fn opt_text(s: Option<String>) -> Option<Seq<char>> {
    match s {
        Some(s) => Some(s@),
        None => None,
    }
}

/// The characters of an optional string slice.
pub open spec fn opt_str(s: Option<&str>) -> Option<Seq<char>> {
    match s {
        Some(s) => Some(s@),
        None => None,
    }
}

impl View for Reply {
    type V = ReplyView;

    open spec fn view(&self) -> ReplyView {
        ReplyView {
            status: self.status,
            media: self.media,
            retry_after: self.retry_after,
            location: opt_text(self.location),
            cookie: opt_text(self.cookie),
            body: self.body@,
        }
    }
}

/// A JSON reply without further headers.
pub open spec fn json_reply(status: u16, body: Seq<char>) -> ReplyView {
    ReplyView {
        status,
        media: Media::Json,
        retry_after: None,
        location: None,
        cookie: None,
        body,
    }
}

/// A JSON reply that asks the client to come back after some seconds.
pub open spec fn json_retry_reply(status: u16, retry_after: u64, body: Seq<char>) -> ReplyView {
    ReplyView {
        status,
        media: Media::Json,
        retry_after: Some(retry_after),
        location: None,
        cookie: None,
        body,
    }
}

/// A plain-text reply.
pub open spec fn plain_reply(status: u16, body: Seq<char>) -> ReplyView {
    ReplyView {
        status,
        media: Media::Plain,
        retry_after: None,
        location: None,
        cookie: None,
        body,
    }
}

pub open spec fn html_reply(status: u16, body: Seq<char>) -> ReplyView {
    ReplyView {
        status,
        media: Media::Html,
        retry_after: None,
        location: None,
        cookie: None,
        body,
    }
}

/// A `303 See Other` to another page.
pub open spec fn redirect_reply(to: Seq<char>, cookie: Option<Seq<char>>) -> ReplyView {
    ReplyView {
        status: 303,
        media: Media::Nothing,
        retry_after: None,
        location: Some(to),
        cookie,
        body: Seq::empty(),
    }
}

impl Reply {
    pub fn json(status: u16, body: String) -> (reply: Reply)
        ensures
            reply@ == json_reply(status, body@),
    {
        Reply {
            status,
            media: Media::Json,
            retry_after: None,
            location: None,
            cookie: None,
            body,
        }
    }

    /// A JSON reply with a fixed body.
    pub fn fixed(status: u16, body: &str) -> (reply: Reply)
        ensures
            reply@ == json_reply(status, body@),
    {
        Reply::json(status, body.to_owned())
    }

    /// A JSON reply with a fixed body and a `Retry-After` header.
    pub fn fixed_retry(status: u16, retry_after: u64, body: &str) -> (reply: Reply)
        ensures
            reply@ == json_retry_reply(status, retry_after, body@),
    {
        Reply {
            status,
            media: Media::Json,
            retry_after: Some(retry_after),
            location: None,
            cookie: None,
            body: body.to_owned(),
        }
    }

    pub fn plain(status: u16, body: &str) -> (reply: Reply)
        ensures
            reply@ == plain_reply(status, body@),
    {
        Reply {
            status,
            media: Media::Plain,
            retry_after: None,
            location: None,
            cookie: None,
            body: body.to_owned(),
        }
    }

    pub fn html(status: u16, body: String) -> (reply: Reply)
        ensures
            reply@ == html_reply(status, body@),
    {
        Reply {
            status,
            media: Media::Html,
            retry_after: None,
            location: None,
            cookie: None,
            body,
        }
    }

    pub fn redirect(to: &str, cookie: Option<String>) -> (reply: Reply)
        ensures
            reply@ == redirect_reply(to@, opt_text(cookie)),
    {
        Reply {
            status: 303,
            media: Media::Nothing,
            retry_after: None,
            location: Some(to.to_owned()),
            cookie,
            body: String::new(),
        }
    }
}

/// The headers that every reply carries, whatever it says.
pub open spec fn security_headers() -> Seq<(Seq<char>, Seq<char>)> {
    seq![
        ("cache-control"@, "no-store"@),
        ("x-frame-options"@, "DENY"@),
        ("referrer-policy"@, "no-referrer"@),
    ]
}

pub open spec fn media_headers(media: Media) -> Seq<(Seq<char>, Seq<char>)> {
    match media {
        Media::Nothing => Seq::empty(),
        Media::Json => seq![("content-type"@, "application/json"@)],
        Media::Html => seq![("content-type"@, "text/html; charset=utf-8"@)],
        Media::Plain => seq![("content-type"@, "text/plain; charset=utf-8"@)],
    }
}

pub open spec fn opt_header(name: Seq<char>, value: Option<Seq<char>>) -> Seq<
    (Seq<char>, Seq<char>),
> {
    match value {
        Some(value) => seq![(name, value)],
        None => Seq::empty(),
    }
}

/// All the headers of a reply, the security headers last.
pub open spec fn reply_headers(reply: ReplyView) -> Seq<(Seq<char>, Seq<char>)> {
    media_headers(reply.media) + opt_header(
        "retry-after"@,
        match reply.retry_after {
            Some(secs) => Some(decimal(secs as nat)),
            None => None,
        },
    ) + opt_header("location"@, reply.location) + opt_header("set-cookie"@, reply.cookie)
        + security_headers()
}

/// The characters of a list of headers.
pub open spec fn header_view(headers: Seq<(String, String)>) -> Seq<(Seq<char>, Seq<char>)> {
    headers.map_values(|h: (String, String)| (h.0@, h.1@))
}

fn put_header(headers: &mut Vec<(String, String)>, name: &str, value: &str)
    ensures
        header_view(final(headers)@) == header_view(old(headers)@).push((name@, value@)),
{
    headers.push((name.to_owned(), value.to_owned()));
    assert(header_view(headers@) =~= header_view(old(headers)@).push((name@, value@)));
}

/// The headers to send with a reply. Whatever the reply is, the three security
/// headers are among them.
pub fn with_security_headers(reply: &Reply) -> (headers: Vec<(String, String)>)
    ensures
        header_view(headers@) == reply_headers(reply@),
{
    let mut headers: Vec<(String, String)> = Vec::new();
    assert(header_view(headers@) =~= Seq::empty());
    match reply.media {
        Media::Nothing => {},
        Media::Json => put_header(&mut headers, "content-type", "application/json"),
        Media::Html => put_header(&mut headers, "content-type", "text/html; charset=utf-8"),
        Media::Plain => put_header(&mut headers, "content-type", "text/plain; charset=utf-8"),
    }
    assert(header_view(headers@) =~= media_headers(reply@.media));
    if let Some(secs) = reply.retry_after {
        let value = decimal_text(secs);
        put_header(&mut headers, "retry-after", value.as_str());
    }
    if let Some(to) = &reply.location {
        put_header(&mut headers, "location", to.as_str());
    }
    if let Some(cookie) = &reply.cookie {
        put_header(&mut headers, "set-cookie", cookie.as_str());
    }
    put_header(&mut headers, "cache-control", "no-store");
    put_header(&mut headers, "x-frame-options", "DENY");
    put_header(&mut headers, "referrer-policy", "no-referrer");
    assert(header_view(headers@) =~= reply_headers(reply@));
    headers
}

/// The headers to send with a body of another kind, such as a picture.
pub fn binary_headers(content_type: &str) -> (headers: Vec<(String, String)>)
    ensures
        header_view(headers@) == seq![("content-type"@, content_type@)] + security_headers(),
{
    let mut headers: Vec<(String, String)> = Vec::new();
    put_header(&mut headers, "content-type", content_type);
    put_header(&mut headers, "cache-control", "no-store");
    put_header(&mut headers, "x-frame-options", "DENY");
    put_header(&mut headers, "referrer-policy", "no-referrer");
    assert(header_view(headers@) =~= seq![("content-type"@, content_type@)] + security_headers());
    headers
}

/// A hexadecimal digit, with small letters.
pub open spec fn small_hex(n: int) -> char {
    if n < 10 {
        ('0' as int + n) as char
    } else {
        ('a' as int + n - 10) as char
    }
}

/// How a character stands in the JSON text of a string.
pub open spec fn json_escape(c: char) -> Seq<char> {
    if c == '"' || c == '\\' {
        seq!['\\', c]
    } else if c as int == 8 {
        seq!['\\', 'b']
    } else if c as int == 9 {
        seq!['\\', 't']
    } else if c as int == 10 {
        seq!['\\', 'n']
    } else if c as int == 12 {
        seq!['\\', 'f']
    } else if c as int == 13 {
        seq!['\\', 'r']
    } else if (c as int) < 32 {
        seq!['\\', 'u', '0', '0', small_hex(c as int / 16), small_hex(c as int % 16)]
    } else {
        seq![c]
    }
}

/// The characters of a string, each as it stands in JSON text.
pub open spec fn json_escaped(s: Seq<char>) -> Seq<char>
    decreases s.len(),
{
    if s.len() == 0 {
        Seq::empty()
    } else {
        json_escaped(s.drop_last()) + json_escape(s.last())
    }
}

/// The JSON text of a string: quoted and escaped.
pub open spec fn json_string_text(s: Seq<char>) -> Seq<char> {
    seq!['"'] + json_escaped(s) + seq!['"']
}

/// `serde_json::to_string` of a string: the text is quoted; the quote, the
/// backslash and what lies below the space are escaped, by a letter where JSON
/// has one and by four hexadecimal digits where it has none; all else stands as
/// it is.
#[verifier::external_body]
pub(crate) fn json_string(s: &str) -> (text: String)
    ensures
        text@ == json_string_text(s@),
{
    serde_json::to_string(s).unwrap_or_default()
}

/// The fields of an object text, each a name and the JSON text of its value,
/// joined by commas.
pub open spec fn fields_text(fields: Seq<(Seq<char>, Seq<char>)>) -> Seq<char>
    decreases fields.len(),
{
    if fields.len() == 0 {
        Seq::empty()
    } else {
        let last = fields.last();
        let item = seq!['"'] + last.0 + seq!['"', ':'] + last.1;
        if fields.len() == 1 {
            item
        } else {
            fields_text(fields.drop_last()).push(',') + item
        }
    }
}

/// The text of a JSON object with these fields, in this order.
pub open spec fn object_text(fields: Seq<(Seq<char>, Seq<char>)>) -> Seq<char> {
    seq!['{'] + fields_text(fields) + seq!['}']
}

pub open spec fn bool_text(b: bool) -> Seq<char> {
    if b {
        "true"@
    } else {
        "false"@
    }
}

/// The JSON text of an optional string: `null` where there is none.
pub open spec fn opt_string_text(s: Option<Seq<char>>) -> Seq<char> {
    match s {
        Some(s) => json_string_text(s),
        None => "null"@,
    }
}

pub open spec fn opt_bool_text(b: Option<bool>) -> Seq<char> {
    match b {
        Some(b) => bool_text(b),
        None => "null"@,
    }
}

/// An object text under construction.
pub struct ObjectText {
    out: String,
    empty: bool,
    fields: Ghost<Seq<(Seq<char>, Seq<char>)>>,
}

impl ObjectText {
    /// The fields so far, each a name and the JSON text of its value.
    pub closed spec fn fields(&self) -> Seq<(Seq<char>, Seq<char>)> {
        self.fields@
    }

    #[verifier::type_invariant]
    spec fn inv(&self) -> bool {
        &&& self.out@ == seq!['{'] + fields_text(self.fields@)
        &&& self.empty == (self.fields@.len() == 0)
    }

    pub fn new() -> (object: ObjectText)
        ensures
            object.fields() == Seq::<(Seq<char>, Seq<char>)>::empty(),
    {
        let mut out = String::new();
        out.push('{');
        assert(out@ =~= seq!['{'] + fields_text(Seq::empty()));
        ObjectText { out, empty: true, fields: Ghost(Seq::empty()) }
    }

    /// One more field, whose value is given as JSON text.
    pub fn raw(self, name: &str, value: &str) -> (object: ObjectText)
        ensures
            object.fields() == self.fields().push((name@, value@)),
    {
        proof {
            use_type_invariant(&self);
        }
        let ghost before = self.fields@;
        let ghost after = before.push((name@, value@));
        let first = self.empty;
        let mut out = self.out;
        if !first {
            out.push(',');
        }
        out.push('"');
        out.append(name);
        out.push('"');
        out.push(':');
        out.append(value);
        proof {
            assert(after.drop_last() =~= before);
            assert(after.last() == (name@, value@));
            assert(out@ =~= seq!['{'] + fields_text(after));
        }
        ObjectText { out, empty: false, fields: Ghost(after) }
    }

    /// One more field with a string value.
    pub fn text(self, name: &str, value: &str) -> (object: ObjectText)
        ensures
            object.fields() == self.fields().push((name@, json_string_text(value@))),
    {
        let quoted = json_string(value);
        self.raw(name, quoted.as_str())
    }

    /// One more field with a string value, or `null`.
    pub fn opt_text(self, name: &str, value: Option<&str>) -> (object: ObjectText)
        ensures
            object.fields() == self.fields().push((name@, opt_string_text(opt_str(value)))),
    {
        match value {
            Some(value) => self.text(name, value),
            None => self.raw(name, "null"),
        }
    }

    pub fn flag(self, name: &str, value: bool) -> (object: ObjectText)
        ensures
            object.fields() == self.fields().push((name@, bool_text(value))),
    {
        if value {
            self.raw(name, "true")
        } else {
            self.raw(name, "false")
        }
    }

    pub fn opt_flag(self, name: &str, value: Option<bool>) -> (object: ObjectText)
        ensures
            object.fields() == self.fields().push((name@, opt_bool_text(value))),
    {
        match value {
            Some(value) => self.flag(name, value),
            None => self.raw(name, "null"),
        }
    }

    pub fn count(self, name: &str, value: u64) -> (object: ObjectText)
        ensures
            object.fields() == self.fields().push((name@, decimal(value as nat))),
    {
        let digits = decimal_text(value);
        self.raw(name, digits.as_str())
    }

    /// The finished text.
    pub fn finish(self) -> (text: String)
        ensures
            text@ == object_text(self.fields()),
    {
        proof {
            use_type_invariant(&self);
        }
        let ghost fields = self.fields@;
        let mut out = self.out;
        out.push('}');
        assert(out@ =~= object_text(fields));
        out
    }
}

/// The items of an array text, joined by commas.
pub open spec fn items_text(items: Seq<Seq<char>>) -> Seq<char>
    decreases items.len(),
{
    if items.len() == 0 {
        Seq::empty()
    } else if items.len() == 1 {
        items[0]
    } else {
        items_text(items.drop_last()).push(',') + items.last()
    }
}

/// The text of a JSON array of these items, each given as JSON text.
pub open spec fn array_text(items: Seq<Seq<char>>) -> Seq<char> {
    seq!['['] + items_text(items) + seq![']']
}

/// The characters of each string of a list.
pub open spec fn texts(items: Seq<String>) -> Seq<Seq<char>> {
    items.map_values(|s: String| s@)
}

/// A JSON array of items that are given as JSON text.
pub fn array_of(items: &Vec<String>) -> (text: String)
    ensures
        text@ == array_text(texts(items@)),
{
    let mut out = String::new();
    out.push('[');
    let mut i: usize = 0;
    assert(texts(items@).take(0) =~= Seq::empty());
    while i < items.len()
        invariant
            i <= items@.len(),
            out@ == seq!['['] + items_text(texts(items@).take(i as int)),
        decreases items@.len() - i,
    {
        let ghost before = texts(items@).take(i as int);
        let ghost after = texts(items@).take(i + 1);
        assert(after.drop_last() =~= before);
        assert(after.last() == items@[i as int]@);
        let ghost head = out@;
        if i > 0 {
            out.push(',');
        }
        out.append(items[i].as_str());
        proof {
            if i > 0 {
                assert(out@ =~= seq!['['] + (items_text(before).push(',') + after.last()));
            } else {
                assert(before =~= Seq::empty());
                assert(items_text(after) == after[0]);
                assert(out@ =~= seq!['['] + items_text(after));
            }
        }
        i += 1;
    }
    assert(texts(items@).take(i as int) =~= texts(items@));
    out.push(']');
    assert(out@ =~= array_text(texts(items@)));
    out
}

/// The JSON texts of some strings.
pub open spec fn string_items(items: Seq<Seq<char>>) -> Seq<Seq<char>> {
    items.map_values(|s: Seq<char>| json_string_text(s))
}

/// A JSON array of strings.
pub fn string_array(items: &Vec<String>) -> (text: String)
    ensures
        text@ == array_text(string_items(texts(items@))),
{
    let mut quoted: Vec<String> = Vec::new();
    let mut i: usize = 0;
    while i < items.len()
        invariant
            i <= items@.len(),
            texts(quoted@) == string_items(texts(items@)).take(i as int),
        decreases items@.len() - i,
    {
        let one = json_string(items[i].as_str());
        let ghost before = quoted@;
        quoted.push(one);
        assert(texts(quoted@) =~= texts(before).push(one@));
        assert(string_items(texts(items@)).take(i + 1) =~= string_items(texts(items@)).take(
            i as int,
        ).push(json_string_text(items@[i as int]@)));
        i += 1;
    }
    assert(string_items(texts(items@)).take(i as int) =~= string_items(texts(items@)));
    array_of(&quoted)
}

/// The decimal texts of some numbers.
pub open spec fn index_items(items: Seq<usize>) -> Seq<Seq<char>> {
    items.map_values(|n: usize| decimal(n as nat))
}

/// A JSON array of indexes.
pub fn index_array(items: &Vec<usize>) -> (text: String)
    ensures
        text@ == array_text(index_items(items@)),
{
    let mut digits: Vec<String> = Vec::new();
    let mut i: usize = 0;
    while i < items.len()
        invariant
            i <= items@.len(),
            texts(digits@) == index_items(items@).take(i as int),
        decreases items@.len() - i,
    {
        let one = decimal_text(items[i] as u64);
        let ghost before = digits@;
        digits.push(one);
        assert(texts(digits@) =~= texts(before).push(one@));
        assert(index_items(items@).take(i + 1) =~= index_items(items@).take(i as int).push(
            decimal(items@[i as int] as nat),
        ));
        i += 1;
    }
    assert(index_items(items@).take(i as int) =~= index_items(items@));
    array_of(&digits)
}

/// A reply is what it is made of: its status and its body as they were given,
/// with the kind of body that it is called by, and no header that was not asked
/// for.
pub proof fn law_a_reply_carries_what_it_is_given(
    status: u16,
    secs: u64,
    body: Seq<char>,
    cookie: Option<Seq<char>>,
)
    ensures
        ({
            let r = json_reply(status, body);
            r.status == status && r.body == body && r.media is Json && r.retry_after is None
                && r.location is None && r.cookie is None
        }),
        ({
            let r = json_retry_reply(status, secs, body);
            r.status == status && r.body == body && r.media is Json && r.retry_after == Some(secs)
                && r.location is None && r.cookie is None
        }),
        ({
            let r = plain_reply(status, body);
            r.status == status && r.body == body && r.media is Plain && r.retry_after is None
                && r.location is None && r.cookie is None
        }),
        ({
            let r = html_reply(status, body);
            r.status == status && r.body == body && r.media is Html && r.retry_after is None
                && r.location is None && r.cookie is None
        }),
        ({
            let r = redirect_reply(body, cookie);
            r.status == 303 && r.body.len() == 0 && r.media is Nothing && r.retry_after is None
                && r.location == Some(body) && r.cookie == cookie
        }),
{
}

/// Every reply, whatever it is, says that it is not to be kept, framed or told
/// of; and beside that it has a header for each thing that it carries, and no
/// more.
pub proof fn law_every_reply_has_its_headers(reply: ReplyView)
    ensures
        reply_headers(reply).contains(("cache-control"@, "no-store"@)),
        reply_headers(reply).contains(("x-frame-options"@, "DENY"@)),
        reply_headers(reply).contains(("referrer-policy"@, "no-referrer"@)),
        reply.media is Json ==> reply_headers(reply).contains(
            ("content-type"@, "application/json"@),
        ),
        reply.media is Html ==> reply_headers(reply).contains(
            ("content-type"@, "text/html; charset=utf-8"@),
        ),
        reply.media is Plain ==> reply_headers(reply).contains(
            ("content-type"@, "text/plain; charset=utf-8"@),
        ),
        reply.retry_after matches Some(secs) ==> reply_headers(reply).contains(
            ("retry-after"@, decimal(secs as nat)),
        ),
        reply.location matches Some(to) ==> reply_headers(reply).contains(("location"@, to)),
        reply.cookie matches Some(cookie) ==> reply_headers(reply).contains(
            ("set-cookie"@, cookie),
        ),
        reply_headers(reply).len() == 3 + (if reply.media is Nothing {
            0int
        } else {
            1
        }) + (if reply.retry_after is Some {
            1int
        } else {
            0
        }) + (if reply.location is Some {
            1int
        } else {
            0
        }) + (if reply.cookie is Some {
            1int
        } else {
            0
        }),
{
    let all = reply_headers(reply);
    let a: int = if reply.media is Nothing {
        0
    } else {
        1
    };
    let b: int = if reply.retry_after is Some {
        1
    } else {
        0
    };
    let c: int = if reply.location is Some {
        1
    } else {
        0
    };
    let d: int = if reply.cookie is Some {
        1
    } else {
        0
    };
    assert(all[a + b + c + d] == ("cache-control"@, "no-store"@));
    assert(all[a + b + c + d + 1] == ("x-frame-options"@, "DENY"@));
    assert(all[a + b + c + d + 2] == ("referrer-policy"@, "no-referrer"@));
    if reply.media !is Nothing {
        assert(all[0] == media_headers(reply.media)[0]);
    }
    if let Some(secs) = reply.retry_after {
        assert(all[a] == ("retry-after"@, decimal(secs as nat)));
    }
    if let Some(to) = reply.location {
        assert(all[a + b] == ("location"@, to));
    }
    if let Some(cookie) = reply.cookie {
        assert(all[a + b + c] == ("set-cookie"@, cookie));
    }
}

/// A text is written character by character: quotes, backslashes and control
/// characters each in their own way, every other character as it stands.
pub proof fn law_a_string_is_written_character_by_character(a: Seq<char>, b: Seq<char>, c: char)
    ensures
        json_escaped(a + b) == json_escaped(a) + json_escaped(b),
        json_escaped(Seq::<char>::empty()).len() == 0,
        json_escaped(seq!['"']) == seq!['\\', '"'],
        json_escaped(seq!['\\']) == seq!['\\', '\\'],
        json_escaped(seq!['\n']) == seq!['\\', 'n'],
        json_escaped(seq!['\r']) == seq!['\\', 'r'],
        json_escaped(seq!['\t']) == seq!['\\', 't'],
        c as int == 8 ==> json_escaped(seq![c]) == seq!['\\', 'b'],
        c as int == 12 ==> json_escaped(seq![c]) == seq!['\\', 'f'],
        c as int >= 32 && c != '"' && c != '\\' ==> json_escaped(seq![c]) == seq![c],
        0 <= c as int <= 7 ==> json_escaped(seq![c]) == seq![
            '\\',
            'u',
            '0',
            '0',
            '0',
            ('0' as int + c as int) as char,
        ],
        c as int == 11 ==> json_escaped(seq![c]) == seq!['\\', 'u', '0', '0', '0', 'b'],
        c as int == 14 ==> json_escaped(seq![c]) == seq!['\\', 'u', '0', '0', '0', 'e'],
        c as int == 15 ==> json_escaped(seq![c]) == seq!['\\', 'u', '0', '0', '0', 'f'],
        16 <= c as int <= 25 ==> json_escaped(seq![c]) == seq![
            '\\',
            'u',
            '0',
            '0',
            '1',
            ('0' as int + c as int - 16) as char,
        ],
        26 <= c as int <= 31 ==> json_escaped(seq![c]) == seq![
            '\\',
            'u',
            '0',
            '0',
            '1',
            ('a' as int + c as int - 26) as char,
        ],
        json_string_text(a) == seq!['"'] + json_escaped(a) + seq!['"'],
    decreases b.len(),
{
    assert forall|x: char| #[trigger] json_escaped(seq![x]) == json_escape(x) by {
        assert(seq![x].drop_last() =~= Seq::<char>::empty());
        assert(json_escaped(Seq::<char>::empty()) =~= Seq::<char>::empty());
        assert(json_escaped(seq![x]) =~= json_escape(x));
    }
    assert(json_escape('\n') == seq!['\\', 'n']);
    assert(json_escape('\r') == seq!['\\', 'r']);
    assert(json_escape('\t') == seq!['\\', 't']);
    if b.len() == 0 {
        assert(a + b =~= a);
        assert(json_escaped(a) + json_escaped(b) =~= json_escaped(a));
    } else {
        law_a_string_is_written_character_by_character(a, b.drop_last(), c);
        assert((a + b).drop_last() =~= a + b.drop_last());
        assert(json_escaped(a + b) =~= json_escaped(a) + json_escaped(b));
    }
}

/// An object is written as its fields in their order, each its quoted name, a
/// colon and its value, with commas between them and braces around them.
pub proof fn law_an_object_is_written_field_by_field(
    a: Seq<(Seq<char>, Seq<char>)>,
    b: Seq<(Seq<char>, Seq<char>)>,
    name: Seq<char>,
    value: Seq<char>,
)
    ensures
        object_text(a) == seq!['{'] + fields_text(a) + seq!['}'],
        fields_text(Seq::empty()).len() == 0,
        fields_text(seq![(name, value)]) == seq!['"'] + name + seq!['"', ':'] + value,
        a.len() > 0 && b.len() > 0 ==> fields_text(a + b) == fields_text(a) + seq![','] + fields_text(
            b,
        ),
        bool_text(true) == "true"@,
        bool_text(false) == "false"@,
        opt_string_text(None) == "null"@,
        opt_string_text(Some(name)) == json_string_text(name),
        opt_bool_text(None) == "null"@,
        opt_bool_text(Some(true)) == "true"@,
        opt_bool_text(Some(false)) == "false"@,
    decreases b.len(),
{
    if a.len() > 0 && b.len() > 0 {
        let last = b.last();
        let item = seq!['"'] + last.0 + seq!['"', ':'] + last.1;
        assert((a + b).last() == last);
        assert((a + b).drop_last() =~= a + b.drop_last());
        if b.len() == 1 {
            assert(a + b.drop_last() =~= a);
            assert(fields_text(a + b) =~= fields_text(a) + seq![','] + item);
        } else {
            law_an_object_is_written_field_by_field(a, b.drop_last(), name, value);
            assert(fields_text(a + b) =~= fields_text(a) + seq![','] + fields_text(b));
        }
    }
}

/// A list is written as its items in their order, with commas between them and
/// brackets around them.
pub proof fn law_a_list_is_written_item_by_item(
    a: Seq<Seq<char>>,
    b: Seq<Seq<char>>,
    item: Seq<char>,
    n: usize,
)
    ensures
        array_text(a) == seq!['['] + items_text(a) + seq![']'],
        items_text(Seq::empty()).len() == 0,
        items_text(seq![item]) == item,
        a.len() > 0 && b.len() > 0 ==> items_text(a + b) == items_text(a) + seq![','] + items_text(
            b,
        ),
        string_items(a).len() == a.len(),
        forall|i: int|
            0 <= i < a.len() ==> #[trigger] string_items(a)[i] == json_string_text(a[i]),
        index_items(seq![n]) == seq![decimal(n as nat)],
    decreases b.len(),
{
    assert(index_items(seq![n]) =~= seq![decimal(n as nat)]);
    if a.len() > 0 && b.len() > 0 {
        assert((a + b).last() == b.last());
        assert((a + b).drop_last() =~= a + b.drop_last());
        if b.len() == 1 {
            assert(a + b.drop_last() =~= a);
            assert(items_text(a + b) =~= items_text(a) + seq![','] + items_text(b));
        } else {
            law_a_list_is_written_item_by_item(a, b.drop_last(), item, n);
            assert(items_text(a + b) =~= items_text(a) + seq![','] + items_text(b));
        }
    }
}

} // verus!
