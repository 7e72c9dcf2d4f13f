//! Text as part of an address.

use vstd::prelude::*;

use crate::text::{ascii_alnum, chars_of, is_ascii_alnum};

verus! {

/// The characters that stand for themselves in an address.
pub open spec fn unreserved(c: char) -> bool {
    ascii_alnum(c) || c == '-' || c == '.' || c == '_' || c == '~'
}

/// The bytes of a character in UTF-8.
pub open spec fn utf8(c: char) -> Seq<int> {
    let n = c as int;
    if n < 0x80 {
        seq![n]
    } else if n < 0x800 {
        seq![0xc0 + n / 64, 0x80 + n % 64]
    } else if n < 0x10000 {
        seq![0xe0 + n / 4096, 0x80 + n / 64 % 64, 0x80 + n % 64]
    } else {
        seq![0xf0 + n / 262144, 0x80 + n / 4096 % 64, 0x80 + n / 64 % 64, 0x80 + n % 64]
    }
}

/// A hexadecimal digit, with capital letters.
pub open spec fn upper_hex(d: int) -> char {
    if d < 10 {
        (d + '0' as int) as char
    } else {
        (d - 10 + 'A' as int) as char
    }
}

/// A byte as it stands in an address.
pub open spec fn percent(byte: int) -> Seq<char> {
    seq!['%', upper_hex(byte / 16), upper_hex(byte % 16)]
}

pub open spec fn percents(bytes: Seq<int>) -> Seq<char>
    decreases bytes.len(),
{
    if bytes.len() == 0 {
        Seq::empty()
    } else {
        percent(bytes[0]) + percents(bytes.drop_first())
    }
}

/// A character as it stands in an address.
pub open spec fn encoded_char(c: char) -> Seq<char> {
    if unreserved(c) {
        seq![c]
    } else {
        percents(utf8(c))
    }
}

/// A text as it stands in an address.
pub open spec fn encoded(s: Seq<char>) -> Seq<char>
    decreases s.len(),
{
    if s.len() == 0 {
        Seq::empty()
    } else {
        encoded(s.drop_last()) + encoded_char(s.last())
    }
}

fn hex_char(d: u32) -> (c: char)
    requires
        d < 16,
    ensures
        c == upper_hex(d as int),
{
    match d {
        0 => '0',
        1 => '1',
        2 => '2',
        3 => '3',
        4 => '4',
        5 => '5',
        6 => '6',
        7 => '7',
        8 => '8',
        9 => '9',
        10 => 'A',
        11 => 'B',
        12 => 'C',
        13 => 'D',
        14 => 'E',
        _ => 'F',
    }
}

fn push_percent(out: &mut String, byte: u32)
    requires
        byte < 256,
    ensures
        final(out)@ == old(out)@ + percent(byte as int),
{
    out.push('%');
    out.push(hex_char(byte / 16));
    out.push(hex_char(byte % 16));
    assert(out@ =~= old(out)@ + percent(byte as int));
}

proof fn lemma_percents_four(bytes: Seq<int>)
    requires
        1 <= bytes.len() <= 4,
    ensures
        bytes.len() == 1 ==> percents(bytes) == percent(bytes[0]),
        bytes.len() == 2 ==> percents(bytes) == percent(bytes[0]) + percent(bytes[1]),
        bytes.len() == 3 ==> percents(bytes) == percent(bytes[0]) + percent(bytes[1]) + percent(
            bytes[2],
        ),
        bytes.len() == 4 ==> percents(bytes) == percent(bytes[0]) + percent(bytes[1]) + percent(
            bytes[2],
        ) + percent(bytes[3]),
{
    reveal_with_fuel(percents, 5);
    let a = bytes.drop_first();
    let b = a.drop_first();
    let c = b.drop_first();
    if bytes.len() == 1 {
        assert(percents(bytes) =~= percent(bytes[0]));
    } else if bytes.len() == 2 {
        assert(a[0] == bytes[1]);
        assert(percents(bytes) =~= percent(bytes[0]) + percent(bytes[1]));
    } else if bytes.len() == 3 {
        assert(a[0] == bytes[1] && b[0] == bytes[2]);
        assert(percents(bytes) =~= percent(bytes[0]) + percent(bytes[1]) + percent(bytes[2]));
    } else {
        assert(a[0] == bytes[1] && b[0] == bytes[2] && c[0] == bytes[3]);
        assert(percents(bytes) =~= percent(bytes[0]) + percent(bytes[1]) + percent(bytes[2])
            + percent(bytes[3]));
    }
}

fn push_encoded(out: &mut String, c: char)
    ensures
        final(out)@ == old(out)@ + encoded_char(c),
{
    let ghost before = out@;
    if is_ascii_alnum(c) || c == '-' || c == '.' || c == '_' || c == '~' {
        out.push(c);
        assert(out@ =~= before + seq![c]);
        return;
    }
    let n: u32 = c as u32;
    proof {
        lemma_percents_four(utf8(c));
    }
    if n < 0x80 {
        push_percent(out, n);
    } else if n < 0x800 {
        push_percent(out, 0xc0 + n / 64);
        push_percent(out, 0x80 + n % 64);
        assert(out@ =~= before + encoded_char(c));
    } else if n < 0x10000 {
        push_percent(out, 0xe0 + n / 4096);
        push_percent(out, 0x80 + n / 64 % 64);
        push_percent(out, 0x80 + n % 64);
        assert(out@ =~= before + encoded_char(c));
    } else {
        assert(n <= 0x10ffff);
        push_percent(out, 0xf0 + n / 262144);
        push_percent(out, 0x80 + n / 4096 % 64);
        push_percent(out, 0x80 + n / 64 % 64);
        push_percent(out, 0x80 + n % 64);
        assert(out@ =~= before + encoded_char(c));
    }
}

/// Writes a text as one part of an address: what could be mistaken for the
/// address itself is written by its bytes.
pub fn percent_encode_component(input: &str) -> (out: String)
    ensures
        out@ == encoded(input@),
{
    let chars = chars_of(input);
    let mut out = String::new();
    let mut i: usize = 0;
    assert(out@ =~= encoded(input@.take(0)));
    while i < chars.len()
        invariant
            i <= chars@.len(),
            chars@ == input@,
            out@ == encoded(input@.take(i as int)),
        decreases chars@.len() - i,
    {
        assert(input@.take(i + 1).drop_last() =~= input@.take(i as int));
        push_encoded(&mut out, chars[i]);
        i += 1;
    }
    assert(input@.take(i as int) =~= input@);
    out
}

proof fn lemma_upper_hex(a: int, b: int)
    requires
        0 <= a < 16,
        0 <= b < 16,
    ensures
        unreserved(upper_hex(a)),
        upper_hex(a) == upper_hex(b) ==> a == b,
{
}

/// Characters that occur in an encoded text.
pub open spec fn address_char(c: char) -> bool {
    unreserved(c) || c == '%'
}

proof fn lemma_utf8_bytes(c: char)
    ensures
        1 <= utf8(c).len() <= 4,
        forall|i: int| 0 <= i < utf8(c).len() ==> 0 <= #[trigger] utf8(c)[i] < 256,
{
    let n = c as int;
    assert(n <= 0x10ffff);
}

proof fn lemma_percents_safe(bytes: Seq<int>)
    requires
        forall|i: int| 0 <= i < bytes.len() ==> 0 <= #[trigger] bytes[i] < 256,
    ensures
        percents(bytes).len() == 3 * bytes.len(),
        forall|i: int| 0 <= i < percents(bytes).len() ==> address_char(#[trigger] percents(bytes)[i]),
    decreases bytes.len(),
{
    if bytes.len() > 0 {
        let rest = bytes.drop_first();
        assert forall|i: int| 0 <= i < rest.len() implies 0 <= #[trigger] rest[i] < 256 by {
            assert(rest[i] == bytes[i + 1]);
        }
        lemma_percents_safe(rest);
        let b = bytes[0];
        lemma_upper_hex(b / 16, b % 16);
        lemma_upper_hex(b % 16, b / 16);
        assert forall|i: int| 0 <= i < percents(bytes).len() implies address_char(
            #[trigger] percents(bytes)[i],
        ) by {
            if i >= 3 {
                assert(percents(bytes)[i] == percents(rest)[i - 3]);
            } else {
                assert(percents(bytes)[i] == percent(b)[i]);
            }
        }
    }
}

/// An encoded text holds nothing that means anything to an address: letters,
/// digits, four marks and the percent sign.
pub proof fn law_encoded_text_is_plain(s: Seq<char>)
    ensures
        forall|i: int| 0 <= i < encoded(s).len() ==> address_char(#[trigger] encoded(s)[i]),
    decreases s.len(),
{
    if s.len() > 0 {
        law_encoded_text_is_plain(s.drop_last());
        let c = s.last();
        lemma_utf8_bytes(c);
        lemma_percents_safe(utf8(c));
        let head = encoded(s.drop_last());
        assert forall|i: int| 0 <= i < encoded(s).len() implies address_char(
            #[trigger] encoded(s)[i],
        ) by {
            if i < head.len() {
                assert(encoded(s)[i] == head[i]);
            } else {
                assert(encoded(s)[i] == encoded_char(c)[i - head.len()]);
            }
        }
    }
}

proof fn lemma_percent_code(a: int, b: int, x: Seq<char>, y: Seq<char>)
    requires
        0 <= a < 256,
        0 <= b < 256,
        percent(a) + x == percent(b) + y,
    ensures
        a == b,
        x == y,
{
    let left = percent(a) + x;
    let right = percent(b) + y;
    assert(left[1] == percent(a)[1] && right[1] == percent(b)[1]);
    assert(left[2] == percent(a)[2] && right[2] == percent(b)[2]);
    lemma_upper_hex(a / 16, b / 16);
    lemma_upper_hex(a % 16, b % 16);
    assert(left.skip(3) =~= x);
    assert(right.skip(3) =~= y);
}

/// Equal codes of equally many bytes come from equal bytes.
proof fn lemma_percents_code(a: Seq<int>, b: Seq<int>, x: Seq<char>, y: Seq<char>)
    requires
        a.len() == b.len(),
        forall|i: int| 0 <= i < a.len() ==> 0 <= #[trigger] a[i] < 256,
        forall|i: int| 0 <= i < b.len() ==> 0 <= #[trigger] b[i] < 256,
        percents(a) + x == percents(b) + y,
    ensures
        a == b,
        x == y,
    decreases a.len(),
{
    if a.len() == 0 {
        assert(percents(a) + x =~= x);
        assert(percents(b) + y =~= y);
        assert(a =~= b);
    } else {
        let p = a.drop_first();
        let q = b.drop_first();
        assert(percents(a) + x =~= percent(a[0]) + (percents(p) + x));
        assert(percents(b) + y =~= percent(b[0]) + (percents(q) + y));
        lemma_percent_code(a[0], b[0], percents(p) + x, percents(q) + y);
        assert forall|i: int| 0 <= i < p.len() implies 0 <= #[trigger] p[i] < 256 by {
            assert(p[i] == a[i + 1]);
        }
        assert forall|i: int| 0 <= i < q.len() implies 0 <= #[trigger] q[i] < 256 by {
            assert(q[i] == b[i + 1]);
        }
        lemma_percents_code(p, q, x, y);
        assert(a =~= seq![a[0]] + p);
        assert(b =~= seq![b[0]] + q);
    }
}

/// How many bytes a character takes, by its first byte.
spec fn length_by_first(b: int) -> int {
    if b < 0x80 {
        1
    } else if b < 0xe0 {
        2
    } else if b < 0xf0 {
        3
    } else {
        4
    }
}

proof fn lemma_utf8_length(c: char)
    ensures
        utf8(c).len() == length_by_first(utf8(c)[0]),
{
    let n = c as int;
    assert(n <= 0x10ffff);
    if n < 0x80 {
    } else if n < 0x800 {
        assert(n / 64 < 32);
    } else if n < 0x10000 {
        assert(n / 4096 < 16);
    } else {
        assert(n / 262144 >= 0);
    }
}

proof fn lemma_utf8_code(a: char, b: char)
    requires
        utf8(a) == utf8(b),
    ensures
        a == b,
{
    let m = a as int;
    let n = b as int;
    lemma_utf8_length(a);
    lemma_utf8_length(b);
    assert(utf8(a)[0] == utf8(b)[0]);
    if m < 0x80 {
        assert(m == n);
    } else if m < 0x800 {
        assert(utf8(a)[1] == utf8(b)[1]);
        assert(m / 64 == n / 64 && m % 64 == n % 64);
        assert(m == m / 64 * 64 + m % 64);
        assert(n == n / 64 * 64 + n % 64);
    } else if m < 0x10000 {
        assert(utf8(a)[1] == utf8(b)[1] && utf8(a)[2] == utf8(b)[2]);
        assert(m / 4096 == n / 4096 && m / 64 % 64 == n / 64 % 64 && m % 64 == n % 64);
        assert(m / 64 == m / 4096 * 64 + m / 64 % 64);
        assert(n / 64 == n / 4096 * 64 + n / 64 % 64);
        assert(m == m / 64 * 64 + m % 64);
        assert(n == n / 64 * 64 + n % 64);
    } else {
        assert(utf8(a)[1] == utf8(b)[1] && utf8(a)[2] == utf8(b)[2] && utf8(a)[3] == utf8(b)[3]);
        assert(m / 262144 == n / 262144 && m / 4096 % 64 == n / 4096 % 64 && m / 64 % 64 == n / 64
            % 64 && m % 64 == n % 64);
        assert(m / 4096 == m / 262144 * 64 + m / 4096 % 64);
        assert(n / 4096 == n / 262144 * 64 + n / 4096 % 64);
        assert(m / 64 == m / 4096 * 64 + m / 64 % 64);
        assert(n / 64 == n / 4096 * 64 + n / 64 % 64);
        assert(m == m / 64 * 64 + m % 64);
        assert(n == n / 64 * 64 + n % 64);
    }
}

proof fn lemma_encoded_code(a: char, b: char, x: Seq<char>, y: Seq<char>)
    requires
        encoded_char(a) + x == encoded_char(b) + y,
    ensures
        a == b,
        x == y,
{
    lemma_utf8_bytes(a);
    lemma_utf8_bytes(b);
    lemma_percents_safe(utf8(a));
    lemma_percents_safe(utf8(b));
    let left = encoded_char(a) + x;
    let right = encoded_char(b) + y;
    if unreserved(a) {
        assert(left[0] == a);
        if unreserved(b) {
            assert(right[0] == b);
            assert(left.skip(1) =~= x);
            assert(right.skip(1) =~= y);
        } else {
            assert(percents(utf8(b))[0] == '%');
            assert(right[0] == '%');
            assert(false);
        }
    } else {
        assert(percents(utf8(a))[0] == '%');
        assert(left[0] == '%');
        if unreserved(b) {
            assert(right[0] == b);
            assert(false);
        } else {
            let p = utf8(a);
            let q = utf8(b);
            assert(percents(p) + x =~= percent(p[0]) + (percents(p.drop_first()) + x));
            assert(percents(q) + y =~= percent(q[0]) + (percents(q.drop_first()) + y));
            lemma_percent_code(
                p[0],
                q[0],
                percents(p.drop_first()) + x,
                percents(q.drop_first()) + y,
            );
            lemma_utf8_length(a);
            lemma_utf8_length(b);
            lemma_percents_code(p, q, x, y);
            lemma_utf8_code(a, b);
        }
    }
}

proof fn lemma_encoded_cons(c: char, s: Seq<char>)
    ensures
        encoded(seq![c] + s) == encoded_char(c) + encoded(s),
    decreases s.len(),
{
    if s.len() == 0 {
        assert(seq![c] + s =~= seq![c]);
        assert(seq![c].drop_last() =~= Seq::<char>::empty());
        assert(seq![c].last() == c);
        assert(encoded(seq![c]) == encoded(Seq::<char>::empty()) + encoded_char(c));
        assert(encoded(Seq::<char>::empty()) + encoded_char(c) =~= encoded_char(c));
        assert(encoded_char(c) + encoded(s) =~= encoded_char(c));
    } else {
        assert((seq![c] + s).drop_last() =~= seq![c] + s.drop_last());
        lemma_encoded_cons(c, s.drop_last());
        assert(encoded_char(c) + (encoded(s.drop_last()) + encoded_char(s.last())) =~= (
        encoded_char(c) + encoded(s.drop_last())) + encoded_char(s.last()));
    }
}

proof fn lemma_encoded_char_some(c: char)
    ensures
        encoded_char(c).len() > 0,
{
    lemma_utf8_bytes(c);
    lemma_percents_safe(utf8(c));
}

/// An encoded text tells which text it was.
pub proof fn law_encoded_text_reads_back(a: Seq<char>, b: Seq<char>)
    requires
        encoded(a) == encoded(b),
    ensures
        a == b,
    decreases a.len(),
{
    if a.len() > 0 {
        lemma_encoded_char_some(a[0]);
        assert(a =~= seq![a[0]] + a.drop_first());
        lemma_encoded_cons(a[0], a.drop_first());
    }
    if b.len() > 0 {
        lemma_encoded_char_some(b[0]);
        assert(b =~= seq![b[0]] + b.drop_first());
        lemma_encoded_cons(b[0], b.drop_first());
    }
    if a.len() == 0 {
        if b.len() > 0 {
            assert(encoded(b).len() > 0);
        }
        assert(a =~= b);
    } else if b.len() == 0 {
        assert(encoded(a).len() > 0);
    } else {
        lemma_encoded_code(a[0], b[0], encoded(a.drop_first()), encoded(b.drop_first()));
        law_encoded_text_reads_back(a.drop_first(), b.drop_first());
    }
}

proof fn lemma_encoded_one(c: char)
    ensures
        encoded(seq![c]) == encoded_char(c),
{
    assert(seq![c].drop_last() =~= Seq::<char>::empty());
    assert(encoded(Seq::<char>::empty()) =~= Seq::<char>::empty());
    assert(encoded(seq![c]) =~= encoded_char(c));
}

/// A text is encoded character by character: letters, digits and four marks as
/// they stand, every other one as a percent sign and two capital digits for each
/// of its bytes.
pub proof fn law_a_text_is_encoded_character_by_character(a: Seq<char>, b: Seq<char>, c: char)
    ensures
        encoded(a + b) == encoded(a) + encoded(b),
        ('0' <= c && c <= '9') || ('a' <= c && c <= 'z') || ('A' <= c && c <= 'Z') || c == '-' || c
            == '.' || c == '_' || c == '~' ==> encoded(seq![c]) == seq![c],
        (c as int) < 128 && !unreserved(c) ==> encoded(seq![c]).len() == 3 && encoded(seq![c])[0]
            == '%',
        (c as int) < 128 && !unreserved(c) ==> encoded(seq![c])[1] as int == '0' as int + c as int
            / 16,
        (c as int) < 128 && !unreserved(c) && (c as int) % 16 < 10 ==> encoded(seq![c])[2] as int
            == '0' as int + c as int % 16,
        (c as int) < 128 && !unreserved(c) && (c as int) % 16 >= 10 ==> encoded(seq![c])[2] as int
            == 'A' as int + c as int % 16 - 10,
        c as int >= 128 ==> encoded(seq![c]) == percents(utf8(c)),
    decreases b.len(),
{
    lemma_encoded_one(c);
    if (c as int) < 128 && !unreserved(c) {
        assert(utf8(c).drop_first() =~= Seq::<int>::empty());
        assert(percents(Seq::<int>::empty()) =~= Seq::<char>::empty());
        assert(percents(utf8(c)) =~= percent(c as int));
    }
    if b.len() == 0 {
        assert(a + b =~= a);
        assert(encoded(a) + encoded(b) =~= encoded(a));
    } else {
        law_a_text_is_encoded_character_by_character(a, b.drop_last(), c);
        assert((a + b).drop_last() =~= a + b.drop_last());
        assert(encoded(a + b) =~= encoded(a) + encoded(b));
    }
}

/// The bytes of a character give back its number, six bits from each byte but the
/// first; and each byte is written as a percent sign and its two digits.
pub proof fn law_the_bytes_of_a_character_give_it_back(c: char, byte: int, more: Seq<int>)
    requires
        0 <= byte < 256,
    ensures
        ({
            let b = utf8(c);
            let n = c as int;
            &&& n < 128 ==> b == seq![n]
            &&& 128 <= n < 2048 ==> b.len() == 2 && 192 <= b[0] < 224 && 128 <= b[1] < 192 && (b[0]
                - 192) * 64 + (b[1] - 128) == n
            &&& 2048 <= n < 65536 ==> b.len() == 3 && 224 <= b[0] < 240 && 128 <= b[1] < 192 && 128
                <= b[2] < 192 && (b[0] - 224) * 4096 + (b[1] - 128) * 64 + (b[2] - 128) == n
            &&& 65536 <= n ==> b.len() == 4 && 240 <= b[0] < 248 && 128 <= b[1] < 192 && 128 <= b[2]
                < 192 && 128 <= b[3] < 192 && (b[0] - 240) * 262144 + (b[1] - 128) * 4096 + (b[2]
                - 128) * 64 + (b[3] - 128) == n
        }),
        percents(seq![byte] + more) == percent(byte) + percents(more),
        percent(byte).len() == 3,
        percent(byte)[0] == '%',
        byte / 16 < 10 ==> percent(byte)[1] as int == '0' as int + byte / 16,
        byte / 16 >= 10 ==> percent(byte)[1] as int == 'A' as int + byte / 16 - 10,
        byte % 16 < 10 ==> percent(byte)[2] as int == '0' as int + byte % 16,
        byte % 16 >= 10 ==> percent(byte)[2] as int == 'A' as int + byte % 16 - 10,
{
    assert((seq![byte] + more).drop_first() =~= more);
}

} // verus!
