//! Cutting text into lines, words and pieces.

use vstd::prelude::*;

use crate::reply::texts;
use crate::text::{is_white_space, white_space};

verus! {

/// The pieces of a text between the separators: one more than there are
/// separators.
pub open spec fn split_on(s: Seq<char>, separator: char) -> Seq<Seq<char>>
    decreases s.len(),
{
    if s.len() == 0 {
        seq![Seq::empty()]
    } else {
        let pieces = split_on(s.drop_last(), separator);
        if s.last() == separator {
            pieces.push(Seq::empty())
        } else {
            pieces.drop_last().push(pieces.last().push(s.last()))
        }
    }
}

/// Splits a text at each separator.
pub fn split(s: &str, separator: char) -> (pieces: Vec<String>)
    ensures
        texts(pieces@) == split_on(s@, separator),
        pieces@.len() > 0,
{
    let mut pieces: Vec<String> = Vec::new();
    let mut current = String::new();
    let mut chars = s.chars();
    let ghost mut i: int = 0;
    assert(s@.take(0) =~= Seq::<char>::empty());
    assert(texts(pieces@).push(current@) =~= split_on(s@.take(0), separator));
    assert(s@.skip(0) =~= s@);
    loop
        invariant
            0 <= i <= s@.len(),
            vstd::std_specs::iter::IteratorSpec::remaining(&chars) == s@.skip(i),
            texts(pieces@).push(current@) == split_on(s@.take(i), separator),
        decreases s@.len() - i,
    {
        match chars.next() {
            Some(c) => {
                assert(s@.skip(i).drop_first() =~= s@.skip(i + 1));
                assert(s@.take(i + 1).drop_last() =~= s@.take(i));
                let ghost before = texts(pieces@).push(current@);
                if c == separator {
                    pieces.push(current);
                    current = String::new();
                    assert(texts(pieces@) =~= before);
                    assert(texts(pieces@).push(current@) =~= before.push(Seq::empty()));
                } else {
                    assert(before.drop_last() =~= texts(pieces@));
                    current.push(c);
                }
                proof {
                    i = i + 1;
                }
            },
            None => {
                assert(s@.take(i) =~= s@);
                let ghost before = texts(pieces@).push(current@);
                pieces.push(current);
                assert(texts(pieces@) =~= before);
                return pieces;
            },
        }
    }
}

/// A line without the carriage return before its line feed.
pub open spec fn without_return(line: Seq<char>) -> Seq<char> {
    if line.len() > 0 && line.last() == '\r' {
        line.drop_last()
    } else {
        line
    }
}

/// The lines of a text: what stands before each line feed, and what follows the
/// last one if anything does.
pub open spec fn lines_of(s: Seq<char>) -> Seq<Seq<char>> {
    let pieces = split_on(s, '\n');
    let ended = pieces.drop_last().map_values(|line: Seq<char>| without_return(line));
    if pieces.last().len() == 0 {
        ended
    } else {
        ended.push(pieces.last())
    }
}

fn strip_return(line: String) -> (stripped: String)
    ensures
        stripped@ == without_return(line@),
{
    let n: usize = line.as_str().unicode_len();
    if n > 0 && line.as_str().get_char(n - 1) == '\r' {
        let stripped = line.as_str().substring_char(0, n - 1).to_string();
        assert(stripped@ =~= line@.drop_last());
        stripped
    } else {
        line
    }
}

/// The lines of a text.
pub fn lines(s: &str) -> (lines: Vec<String>)
    ensures
        texts(lines@) == lines_of(s@),
{
    let pieces = split(s, '\n');
    let ghost all = texts(pieces@);
    let mut pieces = pieces;
    let last = match pieces.pop() {
        Some(last) => last,
        None => {
            return Vec::new();
        },
    };
    assert(texts(pieces@) =~= all.drop_last());
    assert(last@ == all.last());
    let ghost ended = all.drop_last().map_values(|line: Seq<char>| without_return(line));
    let mut out: Vec<String> = Vec::new();
    let mut i: usize = 0;
    while i < pieces.len()
        invariant
            i <= pieces@.len(),
            texts(pieces@) == all.drop_last(),
            ended == all.drop_last().map_values(|line: Seq<char>| without_return(line)),
            texts(out@) == ended.take(i as int),
        decreases pieces@.len() - i,
    {
        assert(texts(pieces@)[i as int] == pieces@[i as int]@);
        let ghost before = texts(out@);
        let line = strip_return(pieces[i].clone());
        out.push(line);
        assert(texts(out@) =~= before.push(line@));
        assert(ended.take(i + 1) =~= ended.take(i as int).push(ended[i as int]));
        i += 1;
    }
    assert(ended.take(i as int) =~= ended);
    if !last.as_str().is_empty() {
        let ghost before = texts(out@);
        out.push(last);
        assert(texts(out@) =~= before.push(last@));
    }
    out
}

/// The words of a text: the longest runs without white space.
pub open spec fn words_of(s: Seq<char>) -> Seq<Seq<char>>
    decreases s.len(),
{
    if s.len() == 0 {
        Seq::empty()
    } else {
        let words = words_of(s.drop_last());
        if white_space(s.last()) {
            words
        } else if s.len() == 1 || white_space(s[s.len() - 2]) {
            words.push(seq![s.last()])
        } else {
            words.drop_last().push(words.last().push(s.last()))
        }
    }
}

/// The words of a text.
pub fn split_whitespace(s: &str) -> (words: Vec<String>)
    ensures
        texts(words@) == words_of(s@),
{
    let mut words: Vec<String> = Vec::new();
    let mut current = String::new();
    let mut open = false;
    let mut chars = s.chars();
    let ghost mut i: int = 0;
    assert(s@.skip(0) =~= s@);
    assert(texts(words@) =~= words_of(s@.take(0)));
    loop
        invariant
            0 <= i <= s@.len(),
            vstd::std_specs::iter::IteratorSpec::remaining(&chars) == s@.skip(i),
            open == (i > 0 && !white_space(s@[i - 1])),
            !open ==> texts(words@) == words_of(s@.take(i)),
            open ==> texts(words@).push(current@) == words_of(s@.take(i)),
        decreases s@.len() - i,
    {
        match chars.next() {
            Some(c) => {
                assert(s@.skip(i).drop_first() =~= s@.skip(i + 1));
                assert(s@.take(i + 1).drop_last() =~= s@.take(i));
                if is_white_space(c) {
                    if open {
                        let ghost before = texts(words@).push(current@);
                        words.push(current);
                        assert(texts(words@) =~= before);
                        current = String::new();
                        open = false;
                    }
                } else if open {
                    assert(texts(words@).push(current@).drop_last() =~= texts(words@));
                    current.push(c);
                } else {
                    current = String::new();
                    current.push(c);
                    assert(current@ =~= seq![c]);
                    open = true;
                }
                proof {
                    i = i + 1;
                }
            },
            None => {
                assert(s@.take(i) =~= s@);
                if open {
                    let ghost before = texts(words@).push(current@);
                    words.push(current);
                    assert(texts(words@) =~= before);
                }
                return words;
            },
        }
    }
}

/// A text is cut at each separator and nowhere else: without one it is a single
/// piece, and what stands before a separator is cut apart from what stands after
/// it.
pub proof fn law_a_text_is_cut_at_its_separators(a: Seq<char>, b: Seq<char>, separator: char)
    ensures
        !a.contains(separator) ==> split_on(a, separator) == seq![a],
        split_on(a + seq![separator] + b, separator) == split_on(a, separator) + split_on(
            b,
            separator,
        ),
        split_on(a, separator).len() > 0,
{
    lemma_one_piece(a, separator);
    lemma_cut(a, b, separator);
    lemma_pieces(a, separator);
}

proof fn lemma_pieces(s: Seq<char>, separator: char)
    ensures
        split_on(s, separator).len() > 0,
    decreases s.len(),
{
    if s.len() > 0 {
        lemma_pieces(s.drop_last(), separator);
    }
}

proof fn lemma_one_piece(s: Seq<char>, separator: char)
    ensures
        !s.contains(separator) ==> split_on(s, separator) == seq![s],
    decreases s.len(),
{
    if s.len() == 0 {
        assert(s =~= Seq::empty());
    } else if !s.contains(separator) {
        let front = s.drop_last();
        assert forall|i: int| 0 <= i < front.len() implies front[i] != separator by {
            assert(s[i] == front[i]);
        }
        lemma_one_piece(front, separator);
        assert(s[s.len() - 1] != separator);
        assert(front.push(s.last()) =~= s);
        let pieces = split_on(front, separator);
        assert(pieces.drop_last() =~= Seq::empty());
        assert(pieces.last() == front);
        assert(split_on(s, separator) =~= seq![s]);
    }
}

proof fn lemma_cut(a: Seq<char>, b: Seq<char>, separator: char)
    ensures
        split_on(a + seq![separator] + b, separator) == split_on(a, separator) + split_on(
            b,
            separator,
        ),
    decreases b.len(),
{
    let s = a + seq![separator] + b;
    if b.len() == 0 {
        assert(s.last() == separator);
        assert(s.drop_last() =~= a);
        assert(split_on(s, separator) =~= split_on(a, separator) + split_on(b, separator));
    } else {
        let front = b.drop_last();
        lemma_cut(a, front, separator);
        lemma_pieces(front, separator);
        assert(s.last() == b.last());
        assert(s.drop_last() =~= a + seq![separator] + front);
        let before = split_on(a, separator);
        let pieces = split_on(front, separator);
        assert((before + pieces).last() == pieces.last());
        assert((before + pieces).drop_last() =~= before + pieces.drop_last());
        assert(split_on(s, separator) =~= before + split_on(b, separator));
    }
}

/// Lines end at line feeds, a return before the line feed belongs to the end, and
/// a last line may go without one.
pub proof fn law_lines_end_at_line_feeds(line: Seq<char>, rest: Seq<char>)
    requires
        !line.contains('\n'),
    ensures
        lines_of(Seq::empty()).len() == 0,
        line.len() > 0 ==> lines_of(line) == seq![line],
        (line.len() == 0 || line.last() != '\r') ==> lines_of(line + seq!['\n'] + rest)
            == seq![line] + lines_of(rest),
        lines_of(line + seq!['\r', '\n'] + rest) == seq![line] + lines_of(rest),
{
    let f = |l: Seq<char>| without_return(l);
    lemma_one_piece(Seq::empty(), '\n');
    lemma_one_piece(line, '\n');
    lemma_pieces(rest, '\n');
    let pieces = split_on(rest, '\n');
    assert(lines_of(line) =~= if line.len() == 0 {
        Seq::<Seq<char>>::empty()
    } else {
        seq![line]
    });
    if line.len() == 0 || line.last() != '\r' {
        lemma_cut(line, rest, '\n');
        let all = seq![line] + pieces;
        assert(all.last() == pieces.last());
        assert(all.drop_last() =~= seq![line] + pieces.drop_last());
        assert(all.drop_last().map_values(f) =~= seq![line] + pieces.drop_last().map_values(f));
        assert(lines_of(line + seq!['\n'] + rest) =~= seq![line] + lines_of(rest));
    }
    let ended = line.push('\r');
    assert(!ended.contains('\n')) by {
        assert forall|i: int| 0 <= i < ended.len() implies ended[i] != '\n' by {
            if i < line.len() {
                assert(line[i] != '\n');
            }
        }
    }
    lemma_one_piece(ended, '\n');
    lemma_cut(ended, rest, '\n');
    assert(ended + seq!['\n'] + rest =~= line + seq!['\r', '\n'] + rest);
    assert(without_return(ended) =~= line);
    let all = seq![ended] + pieces;
    assert(all.last() == pieces.last());
    assert(all.drop_last() =~= seq![ended] + pieces.drop_last());
    assert(all.drop_last().map_values(f) =~= seq![line] + pieces.drop_last().map_values(f));
    assert(lines_of(line + seq!['\r', '\n'] + rest) =~= seq![line] + lines_of(rest));
}

/// Words stand between white space: a text without any is one word, a text of
/// nothing is none, and white space parts the words before it from those after.
pub proof fn law_words_stand_between_white_space(a: Seq<char>, b: Seq<char>, space: char)
    requires
        white_space(space),
    ensures
        words_of(Seq::empty()).len() == 0,
        a.len() > 0 && (forall|i: int| 0 <= i < a.len() ==> !white_space(#[trigger] a[i]))
            ==> words_of(a) == seq![a],
        words_of(a + seq![space] + b) == words_of(a) + words_of(b),
{
    lemma_one_word(a);
    lemma_part(a, b, space);
}

proof fn lemma_one_word(s: Seq<char>)
    ensures
        s.len() > 0 && (forall|i: int| 0 <= i < s.len() ==> !white_space(#[trigger] s[i]))
            ==> words_of(s) == seq![s],
    decreases s.len(),
{
    if s.len() > 0 && (forall|i: int| 0 <= i < s.len() ==> !white_space(#[trigger] s[i])) {
        let front = s.drop_last();
        assert forall|i: int| 0 <= i < front.len() implies !white_space(#[trigger] front[i]) by {
            assert(s[i] == front[i]);
        }
        lemma_one_word(front);
        assert(front.push(s.last()) =~= s);
        if s.len() == 1 {
            assert(words_of(front) =~= Seq::empty());
            assert(seq![s.last()] =~= s);
        } else {
            assert(!white_space(s[s.len() - 2]));
            let words = words_of(front);
            assert(words.drop_last() =~= Seq::empty());
            assert(words.last() == front);
            assert(words_of(s) =~= seq![s]);
        }
    }
}

proof fn lemma_has_word(s: Seq<char>)
    ensures
        s.len() > 0 && !white_space(s.last()) ==> words_of(s).len() > 0,
    decreases s.len(),
{
}

proof fn lemma_part(a: Seq<char>, b: Seq<char>, space: char)
    requires
        white_space(space),
    ensures
        words_of(a + seq![space] + b) == words_of(a) + words_of(b),
    decreases b.len(),
{
    let s = a + seq![space] + b;
    if b.len() == 0 {
        assert(s.last() == space);
        assert(s.drop_last() =~= a);
        assert(words_of(s) =~= words_of(a) + words_of(b));
    } else {
        let front = b.drop_last();
        lemma_part(a, front, space);
        lemma_has_word(front);
        assert(s.last() == b.last());
        assert(s.drop_last() =~= a + seq![space] + front);
        let before = words_of(a);
        let words = words_of(front);
        if b.len() == 1 {
            assert(s[s.len() - 2] == space);
            assert(words_of(s) =~= before + words_of(b));
        } else {
            assert(s[s.len() - 2] == b[b.len() - 2]);
            assert(front.last() == b[b.len() - 2]);
            if !white_space(b.last()) && !white_space(b[b.len() - 2]) {
                assert((before + words).last() == words.last());
                assert((before + words).drop_last() =~= before + words.drop_last());
            }
            assert(words_of(s) =~= before + words_of(b));
        }
    }
}

} // verus!
