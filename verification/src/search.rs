//! Finding one text in another, and measuring text in bytes.

use vstd::prelude::*;

use crate::text::chars_of;

verus! {

/// Whether a text stands at a place of another.
pub open spec fn stands_at(s: Seq<char>, what: Seq<char>, at: int) -> bool {
    0 <= at && at + what.len() <= s.len() && s.subrange(at, at + what.len()) == what
}

/// Whether a text occurs in another.
pub open spec fn occurs(s: Seq<char>, what: Seq<char>) -> bool {
    exists|at: int| #[trigger] stands_at(s, what, at)
}

fn matches_at(s: &Vec<char>, what: &Vec<char>, at: usize) -> (matches: bool)
    requires
        at + what@.len() <= s@.len(),
    ensures
        matches == stands_at(s@, what@, at as int),
{
    let mut i: usize = 0;
    let ghost here = s@.subrange(at as int, at + what@.len());
    let n: usize = s.len();
    let m: usize = what.len();
    while i < m
        invariant
            i <= m,
            m == what@.len(),
            n == s@.len(),
            at + m <= n,
            here == s@.subrange(at as int, at + what@.len()),
            forall|k: int| 0 <= k < i ==> #[trigger] here[k] == what@[k],
        decreases m - i,
    {
        if s[at + i] != what[i] {
            assert(here[i as int] != what@[i as int]);
            return false;
        }
        i += 1;
    }
    assert(here =~= what@);
    true
}

/// The last place before `n` at which a text stands in another.
pub open spec fn last_place(s: Seq<char>, what: Seq<char>, n: nat) -> Option<int>
    decreases n,
{
    if n == 0 {
        None
    } else if stands_at(s, what, n - 1) {
        Some(n - 1)
    } else {
        last_place(s, what, (n - 1) as nat)
    }
}

/// What follows the last occurrence of a text in another; the whole of it where
/// there is none.
pub open spec fn after_last(s: Seq<char>, what: Seq<char>) -> Seq<char> {
    match last_place(s, what, s.len() + 1) {
        Some(at) => s.skip(at + what.len()),
        None => s,
    }
}

proof fn lemma_no_place_above(s: Seq<char>, what: Seq<char>, n: nat, m: nat)
    requires
        n <= m,
        forall|at: int| n <= at < m ==> !#[trigger] stands_at(s, what, at),
    ensures
        last_place(s, what, m) == last_place(s, what, n),
    decreases m,
{
    if m > n {
        assert(!stands_at(s, what, m - 1));
        lemma_no_place_above(s, what, n, (m - 1) as nat);
    }
}

/// Whether a text occurs in another.
pub fn contains(s: &str, what: &str) -> (found: bool)
    ensures
        found == occurs(s@, what@),
{
    let text = chars_of(s);
    let part = chars_of(what);
    let n: usize = text.len();
    let m: usize = part.len();
    if m > n {
        assert forall|at: int| !#[trigger] stands_at(s@, what@, at) by {}
        return false;
    }
    let mut at: usize = 0;
    while at <= n - m
        invariant
            m <= n,
            n == text@.len(),
            m == part@.len(),
            at <= n - m + 1,
            text@ == s@,
            part@ == what@,
            forall|k: int| 0 <= k < at ==> !#[trigger] stands_at(s@, what@, k),
        decreases n - m + 1 - at,
    {
        if matches_at(&text, &part, at) {
            assert(stands_at(s@, what@, at as int));
            return true;
        }
        if at == n - m {
            assert forall|k: int| !#[trigger] stands_at(s@, what@, k) by {}
            return false;
        }
        at += 1;
    }
    assert forall|k: int| !#[trigger] stands_at(s@, what@, k) by {}
    false
}

/// What follows the last occurrence of a text in another.
pub fn rest_after_last(s: &str, what: &str) -> (rest: String)
    ensures
        rest@ == after_last(s@, what@),
{
    let text = chars_of(s);
    let part = chars_of(what);
    let n: usize = text.len();
    let m: usize = part.len();
    if m > n {
        proof {
            lemma_no_place_above(s@, what@, 0, (s@.len() + 1) as nat);
        }
        return s.to_string();
    }
    let mut at: usize = n - m;
    proof {
        lemma_no_place_above(s@, what@, (n - m + 1) as nat, (s@.len() + 1) as nat);
    }
    loop
        invariant
            m <= n,
            n == text@.len(),
            m == part@.len(),
            at <= n - m,
            text@ == s@,
            part@ == what@,
            last_place(s@, what@, (s@.len() + 1) as nat) == last_place(s@, what@, (at + 1) as nat),
        decreases at,
    {
        if matches_at(&text, &part, at) {
            let k: usize = s.unicode_len();
            let rest = s.substring_char(at + m, k).to_string();
            assert(rest@ =~= s@.skip(at + m));
            return rest;
        }
        if at == 0 {
            assert(last_place(s@, what@, 0) is None);
            return s.to_string();
        }
        at -= 1;
    }
}

/// How many bytes a character takes.
pub open spec fn char_size(c: char) -> nat {
    if (c as u32) < 0x80 {
        1
    } else if (c as u32) < 0x800 {
        2
    } else if (c as u32) < 0x10000 {
        3
    } else {
        4
    }
}

/// How many bytes a text takes.
pub open spec fn text_size(s: Seq<char>) -> nat
    decreases s.len(),
{
    if s.len() == 0 {
        0
    } else {
        char_size(s[0]) + text_size(s.drop_first())
    }
}

/// The longest end of a text that takes at most so many bytes.
pub open spec fn end_within(s: Seq<char>, most: nat) -> Seq<char>
    decreases s.len(),
{
    if s.len() == 0 || text_size(s) <= most {
        s
    } else {
        end_within(s.drop_first(), most)
    }
}

fn size_of_char(c: char) -> (size: usize)
    ensures
        size == char_size(c),
{
    let n: u32 = c as u32;
    if n < 0x80 {
        1
    } else if n < 0x800 {
        2
    } else if n < 0x10000 {
        3
    } else {
        4
    }
}

proof fn lemma_end_within(s: Seq<char>, most: nat, from: int)
    requires
        0 <= from <= s.len(),
        text_size(s.skip(from)) <= most,
        forall|k: int| 0 <= k < from ==> text_size(#[trigger] s.skip(k)) > most,
    ensures
        end_within(s, most) == s.skip(from),
    decreases s.len(),
{
    assert(s.skip(0) =~= s);
    if from > 0 {
        assert(text_size(s.skip(0)) > most);
        let rest = s.drop_first();
        assert(rest.skip(from - 1) =~= s.skip(from));
        assert forall|k: int| 0 <= k < from - 1 implies text_size(#[trigger] rest.skip(k)) > most by {
            assert(rest.skip(k) =~= s.skip(k + 1));
        }
        lemma_end_within(rest, most, from - 1);
    }
}

proof fn lemma_size_shrinks(s: Seq<char>, a: int, b: int)
    requires
        0 <= a <= b <= s.len(),
    ensures
        text_size(s.skip(b)) <= text_size(s.skip(a)),
    decreases b - a,
{
    if a < b {
        assert(s.skip(a).drop_first() =~= s.skip(a + 1));
        lemma_size_shrinks(s, a + 1, b);
    }
}

/// The longest end of a text that takes at most so many bytes. No character is
/// cut in two.
pub fn last_bytes(s: &str, most: usize) -> (end: String)
    ensures
        end@ == end_within(s@, most as nat),
{
    let text = chars_of(s);
    let n: usize = text.len();
    let mut from: usize = n;
    let mut left: usize = most;
    assert(text_size(s@.skip(n as int)) == 0);
    while from > 0 && size_of_char(text[from - 1]) <= left
        invariant
            from <= n,
            n == text@.len(),
            text@ == s@,
            left <= most,
            text_size(s@.skip(from as int)) == most - left,
        decreases from,
    {
        let size: usize = size_of_char(text[from - 1]);
        assert(s@.skip(from - 1).drop_first() =~= s@.skip(from as int));
        left = left - size;
        from = from - 1;
    }
    proof {
        if from > 0 {
            assert(s@.skip(from - 1).drop_first() =~= s@.skip(from as int));
            assert(text_size(s@.skip(from - 1)) > most);
            assert forall|k: int| 0 <= k < from implies text_size(#[trigger] s@.skip(k)) > most by {
                lemma_size_shrinks(s@, k, from - 1);
            }
        }
        lemma_end_within(s@, most as nat, from as int);
    }
    let k: usize = s.unicode_len();
    let end = s.substring_char(from, k).to_string();
    assert(end@ =~= s@.skip(from as int));
    end
}

/// How many bytes a text takes; the largest number where that is larger.
pub fn size_of_text(s: &str) -> (size: u64)
    ensures
        size == (if text_size(s@) <= u64::MAX {
            text_size(s@)
        } else {
            u64::MAX as nat
        }),
{
    let text = chars_of(s);
    let mut from: usize = text.len();
    let mut size: u64 = 0;
    assert(text_size(s@.skip(from as int)) == 0);
    while from > 0
        invariant
            from <= text@.len(),
            text@ == s@,
            size == (if text_size(s@.skip(from as int)) <= u64::MAX {
                text_size(s@.skip(from as int))
            } else {
                u64::MAX as nat
            }),
        decreases from,
    {
        assert(s@.skip(from - 1).drop_first() =~= s@.skip(from as int));
        size = size.saturating_add(size_of_char(text[from - 1]) as u64);
        from = from - 1;
    }
    assert(s@.skip(0) =~= s@);
    size
}

/// The end of a text within a limit is within it, and is the text itself where
/// that is.
pub proof fn law_an_end_stays_within_its_limit(s: Seq<char>, most: nat)
    ensures
        text_size(end_within(s, most)) <= most,
        text_size(s) <= most ==> end_within(s, most) == s,
        exists|from: int| 0 <= from <= s.len() && end_within(s, most) == #[trigger] s.skip(from),
    decreases s.len(),
{
    if s.len() == 0 || text_size(s) <= most {
        assert(s.skip(0) =~= s);
    } else {
        let rest = s.drop_first();
        law_an_end_stays_within_its_limit(rest, most);
        let from = choose|from: int|
            0 <= from <= rest.len() && end_within(rest, most) == #[trigger] rest.skip(from);
        assert(rest.skip(from) =~= s.skip(from + 1));
    }
}

/// What follows the last place of a text is all of it that comes after, and it
/// does not have the text in it again; a text that does not have it is left
/// whole.
pub proof fn law_the_rest_is_after_the_last_place(s: Seq<char>, what: Seq<char>)
    ensures
        !occurs(s, what) ==> after_last(s, what) == s,
        occurs(s, what) ==> exists|at: int|
            {
                &&& #[trigger] stands_at(s, what, at)
                &&& after_last(s, what) == s.skip(at + what.len())
                &&& forall|later: int| later > at ==> !#[trigger] stands_at(s, what, later)
            },
{
    lemma_last_place_is_last(s, what, s.len() + 1);
    match last_place(s, what, s.len() + 1) {
        Some(at) => {
            assert forall|later: int| later > at implies !#[trigger] stands_at(
                s,
                what,
                later,
            ) by {}
        },
        None => {
            assert forall|at: int| !#[trigger] stands_at(s, what, at) by {}
        },
    }
}

proof fn lemma_last_place_is_last(s: Seq<char>, what: Seq<char>, n: nat)
    ensures
        last_place(s, what, n) matches Some(at) ==> 0 <= at < n && stands_at(s, what, at) && (
        forall|later: int| at < later < n ==> !#[trigger] stands_at(s, what, later)),
        last_place(s, what, n) is None ==> forall|at: int|
            0 <= at < n ==> !#[trigger] stands_at(s, what, at),
    decreases n,
{
    if n > 0 && !stands_at(s, what, n - 1) {
        lemma_last_place_is_last(s, what, (n - 1) as nat);
    }
}

/// A text that is short enough is kept whole; of a longer one the end is kept,
/// and as much of it as the limit allows.
pub proof fn law_an_end_is_as_long_as_it_may_be(s: Seq<char>, most: nat)
    ensures
        text_size(s) <= most ==> end_within(s, most) == s,
        exists|k: int|
            {
                &&& 0 <= k <= s.len()
                &&& end_within(s, most) == #[trigger] s.skip(k)
                &&& k > 0 ==> text_size(s.skip(k - 1)) > most
            },
    decreases s.len(),
{
    if s.len() == 0 || text_size(s) <= most {
        assert(s.skip(0) =~= s);
    } else {
        let rest = s.drop_first();
        law_an_end_is_as_long_as_it_may_be(rest, most);
        let k = choose|k: int|
            {
                &&& 0 <= k <= rest.len()
                &&& end_within(rest, most) == #[trigger] rest.skip(k)
                &&& k > 0 ==> text_size(rest.skip(k - 1)) > most
            };
        assert(rest.skip(k) =~= s.skip(k + 1));
        assert(s.skip(k + 1 - 1) =~= if k == 0 {
            s
        } else {
            rest.skip(k - 1)
        });
        assert(end_within(s, most) == s.skip(k + 1));
    }
}

} // verus!
