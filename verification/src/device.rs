//! Choosing the phone that a device-management command is about.

use vstd::prelude::*;

use crate::reply::texts;
use crate::scan::{lines, lines_of, split_whitespace, words_of};
use crate::text::{ascii_lower, lowered, chars_of, lower, same_text, trim, trimmed};

verus! {

/// ASCII hexadecimal digits, in either case.
pub open spec fn hex_digit(c: char) -> bool {
    ('0' <= c && c <= '9') || ('A' <= c && c <= 'F') || ('a' <= c && c <= 'f')
}

/// Hexadecimal digits and dashes only.
pub open spec fn hex_and_dashes(s: Seq<char>) -> bool {
    forall|i: int| 0 <= i < s.len() ==> hex_digit(#[trigger] s[i]) || s[i] == '-'
}

pub fn is_hex_and_dashes(s: &str) -> (only: bool)
    ensures
        only == hex_and_dashes(s@),
{
    let chars = chars_of(s);
    let mut i: usize = 0;
    while i < chars.len()
        invariant
            i <= chars@.len(),
            chars@ == s@,
            forall|k: int| 0 <= k < i ==> hex_digit(#[trigger] s@[k]) || s@[k] == '-',
        decreases chars@.len() - i,
    {
        let c = chars[i];
        let digit = ('0' <= c && c <= '9') || ('A' <= c && c <= 'F') || ('a' <= c && c <= 'f');
        if !(digit || c == '-') {
            assert(!hex_digit(s@[i as int]) && s@[i as int] != '-');
            return false;
        }
        i += 1;
    }
    true
}

/// The form of the identifier under which a phone is set up.
pub open spec fn udid_valid(s: Seq<char>) -> bool {
    1 <= s.len() <= 128 && hex_and_dashes(s)
}

pub fn valid_wda_udid(udid: &str) -> (valid: bool)
    ensures
        valid == udid_valid(udid@),
{
    let n: usize = udid.unicode_len();
    n >= 1 && n <= 128 && is_hex_and_dashes(udid)
}

pub open spec fn ascii_alpha(c: char) -> bool {
    ('A' <= c && c <= 'Z') || ('a' <= c && c <= 'z')
}

fn is_ascii_alpha(c: char) -> (alpha: bool)
    ensures
        alpha == ascii_alpha(c),
{
    ('A' <= c && c <= 'Z') || ('a' <= c && c <= 'z')
}

/// A text from its first letter on.
pub open spec fn from_letter(s: Seq<char>) -> Seq<char>
    decreases s.len(),
{
    if s.len() > 0 && !ascii_alpha(s[0]) {
        from_letter(s.drop_first())
    } else {
        s
    }
}

/// A text up to its last letter.
pub open spec fn to_letter(s: Seq<char>) -> Seq<char>
    decreases s.len(),
{
    if s.len() > 0 && !ascii_alpha(s.last()) {
        to_letter(s.drop_last())
    } else {
        s
    }
}

/// The word without what is no letter at its ends, in small letters.
pub open spec fn bare_word(s: Seq<char>) -> Seq<char> {
    to_letter(from_letter(s)).map_values(|c: char| ascii_lower(c))
}

fn bare(word: &str) -> (text: String)
    ensures
        text@ == bare_word(word@),
{
    let chars = chars_of(word);
    let n: usize = chars.len();
    let mut from: usize = 0;
    assert(word@.skip(0) =~= word@);
    while from < n && !is_ascii_alpha(chars[from])
        invariant
            from <= n,
            n == chars@.len(),
            chars@ == word@,
            from_letter(word@) == from_letter(word@.skip(from as int)),
        decreases n - from,
    {
        assert(word@.skip(from as int).drop_first() =~= word@.skip(from + 1));
        from += 1;
    }
    let ghost tail = word@.skip(from as int);
    assert(from_letter(word@) == tail);
    let mut to: usize = n;
    assert(tail.take(to - from) =~= tail);
    while to > from && !is_ascii_alpha(chars[to - 1])
        invariant
            from <= to <= n,
            n == chars@.len(),
            chars@ == word@,
            tail == word@.skip(from as int),
            to_letter(tail) == to_letter(tail.take(to - from)),
        decreases to,
    {
        assert(tail.take(to - from).drop_last() =~= tail.take(to - 1 - from));
        to -= 1;
    }
    let ghost core = tail.take(to - from);
    assert(to_letter(tail) == core);
    let mut out = String::new();
    let mut i: usize = from;
    while i < to
        invariant
            from <= i <= to <= n,
            n == chars@.len(),
            chars@ == word@,
            core == word@.skip(from as int).take(to - from),
            out@ == core.take(i - from).map_values(|c: char| ascii_lower(c)),
        decreases to - i,
    {
        out.push(lower(chars[i]));
        assert(core.take(i + 1 - from).map_values(|c: char| ascii_lower(c)) =~= core.take(
            i - from,
        ).map_values(|c: char| ascii_lower(c)).push(ascii_lower(core[i - from])));
        i += 1;
    }
    assert(core.take(i - from) =~= core);
    out
}

/// A line of the list of phones that tells of a connected one. The state is a
/// word of its own, so "disconnected" does not count.
pub open spec fn line_connected(line: Seq<char>) -> bool {
    exists|i: int|
        0 <= i < words_of(line).len() && bare_word(#[trigger] words_of(line)[i]) == "connected"@
}

/// The identifiers of phones have this form.
pub open spec fn device_id(word: Seq<char>) -> bool {
    word.len() == 36 && hex_and_dashes(word)
}

/// A list with one more entry, unless it is there already.
pub open spec fn with_new(list: Seq<Seq<char>>, entry: Seq<char>) -> Seq<Seq<char>> {
    if list.contains(entry) {
        list
    } else {
        list.push(entry)
    }
}

/// What a list becomes with the identifiers among the first words of a line.
pub open spec fn with_ids(list: Seq<Seq<char>>, words: Seq<Seq<char>>) -> Seq<Seq<char>>
    decreases words.len(),
{
    if words.len() == 0 {
        list
    } else {
        let before = with_ids(list, words.drop_last());
        if device_id(words.last()) {
            with_new(before, words.last())
        } else {
            before
        }
    }
}

/// The identifiers on the lines that tell of a connected phone, each once, in
/// the order in which they first occur.
pub open spec fn connected_ids(lines: Seq<Seq<char>>) -> Seq<Seq<char>>
    decreases lines.len(),
{
    if lines.len() == 0 {
        Seq::empty()
    } else {
        let before = connected_ids(lines.drop_last());
        if line_connected(lines.last()) {
            with_ids(before, words_of(lines.last()))
        } else {
            before
        }
    }
}

/// Why a device-management command failed.
#[derive(Debug)]
pub enum DevicectlError {
    Timeout,
    /// Not exactly one phone is connected; this many are.
    TargetRequired(usize),
    Failed(String),
}

fn is_device_id(word: &str) -> (id: bool)
    ensures
        id == device_id(word@),
{
    word.unicode_len() == 36 && is_hex_and_dashes(word)
}

fn is_connected(words: &Vec<String>, Ghost(line): Ghost<Seq<char>>) -> (connected: bool)
    requires
        texts(words@) == words_of(line),
    ensures
        connected == line_connected(line),
{
    let mut i: usize = 0;
    while i < words.len()
        invariant
            i <= words@.len(),
            texts(words@) == words_of(line),
            forall|k: int| 0 <= k < i ==> bare_word(#[trigger] words_of(line)[k]) != "connected"@,
        decreases words@.len() - i,
    {
        assert(words_of(line)[i as int] == words@[i as int]@);
        let word = bare(words[i].as_str());
        if same_text(word.as_str(), "connected") {
            return true;
        }
        i += 1;
    }
    false
}

fn add_new(list: &mut Vec<String>, entry: &str)
    ensures
        texts(final(list)@) == with_new(texts(old(list)@), entry@),
{
    let ghost before = texts(list@);
    let mut i: usize = 0;
    while i < list.len()
        invariant
            i <= list@.len(),
            *list == *old(list),
            before == texts(list@),
            forall|k: int| 0 <= k < i ==> #[trigger] before[k] != entry@,
        decreases list@.len() - i,
    {
        assert(before[i as int] == list@[i as int]@);
        if same_text(list[i].as_str(), entry) {
            assert(before.contains(entry@));
            return;
        }
        i += 1;
    }
    assert(!before.contains(entry@));
    list.push(entry.to_string());
    assert(texts(list@) =~= before.push(entry@));
}

/// The one phone that is connected, read from the printed list of phones.
pub fn detect_connected_device(listing: &str) -> (device: Result<String, DevicectlError>)
    ensures
        match device {
            Ok(device) => connected_ids(lines_of(listing@)) == seq![device@],
            Err(DevicectlError::TargetRequired(count)) => {
                &&& count == connected_ids(lines_of(listing@)).len()
                &&& count != 1
            },
            Err(_) => false,
        },
{
    let listed = lines(listing);
    let ghost all = lines_of(listing@);
    let mut connected: Vec<String> = Vec::new();
    let mut i: usize = 0;
    assert(texts(connected@) =~= connected_ids(all.take(0)));
    while i < listed.len()
        invariant
            i <= listed@.len(),
            all == texts(listed@),
            texts(connected@) == connected_ids(all.take(i as int)),
        decreases listed@.len() - i,
    {
        let ghost line = listed@[i as int]@;
        assert(all[i as int] == line);
        let words = split_whitespace(listed[i].as_str());
        let ghost before = texts(connected@);
        if is_connected(&words, Ghost(line)) {
            let mut j: usize = 0;
            assert(with_ids(before, texts(words@).take(0)) =~= before);
            while j < words.len()
                invariant
                    j <= words@.len(),
                    texts(connected@) == with_ids(before, texts(words@).take(j as int)),
                decreases words@.len() - j,
            {
                assert(texts(words@).take(j + 1).drop_last() =~= texts(words@).take(j as int));
                assert(texts(words@)[j as int] == words@[j as int]@);
                if is_device_id(words[j].as_str()) {
                    add_new(&mut connected, words[j].as_str());
                }
                j += 1;
            }
            assert(texts(words@).take(j as int) =~= texts(words@));
        }
        assert(all.take(i + 1).drop_last() =~= all.take(i as int));
        i += 1;
    }
    assert(all.take(i as int) =~= all);
    let count: usize = connected.len();
    if count == 1 {
        assert(texts(connected@) =~= seq![connected@[0]@]);
        Ok(connected[0].clone())
    } else {
        Err(DevicectlError::TargetRequired(count))
    }
}

/// The command that removes an app and its data from a phone.
pub open spec fn uninstall_command(device: Seq<char>, bundle: Seq<char>) -> Seq<Seq<char>> {
    seq![
        "devicectl"@,
        "--quiet"@,
        "--timeout"@,
        "15"@,
        "device"@,
        "uninstall"@,
        "app"@,
        "--device"@,
        device,
        bundle,
    ]
}

/// The arguments of the command that removes an app.
pub fn devicectl_uninstall(device: &str, bundle: &str) -> (args: Vec<String>)
    ensures
        texts(args@) == uninstall_command(device@, bundle@),
{
    let mut args: Vec<String> = Vec::new();
    args.push("devicectl".to_string());
    args.push("--quiet".to_string());
    args.push("--timeout".to_string());
    args.push("15".to_string());
    args.push("device".to_string());
    args.push("uninstall".to_string());
    args.push("app".to_string());
    args.push("--device".to_string());
    args.push(device.to_string());
    args.push(bundle.to_string());
    assert(texts(args@) =~= uninstall_command(device@, bundle@));
    args
}

/// How a device-management command ended, from its exit and what it complained
/// of.
pub fn devicectl_end(success: bool, complaint: &str) -> (end: Result<(), DevicectlError>)
    ensures
        match end {
            Ok(_) => success,
            Err(DevicectlError::Failed(text)) => !success && text@ == trimmed(complaint@),
            Err(_) => false,
        },
{
    if success {
        Ok(())
    } else {
        Err(DevicectlError::Failed(trim(complaint).to_string()))
    }
}

/// No identifier is found twice, and every one found has its form.
pub proof fn law_connected_ids_are_distinct(lines: Seq<Seq<char>>)
    ensures
        connected_ids(lines).no_duplicates(),
        forall|i: int|
            0 <= i < connected_ids(lines).len() ==> device_id(#[trigger] connected_ids(lines)[i]),
    decreases lines.len(),
{
    if lines.len() > 0 {
        law_connected_ids_are_distinct(lines.drop_last());
        lemma_ids_stay_distinct(connected_ids(lines.drop_last()), words_of(lines.last()));
    }
}

proof fn lemma_ids_stay_distinct(list: Seq<Seq<char>>, words: Seq<Seq<char>>)
    requires
        list.no_duplicates(),
        forall|i: int| 0 <= i < list.len() ==> device_id(#[trigger] list[i]),
    ensures
        with_ids(list, words).no_duplicates(),
        forall|i: int|
            0 <= i < with_ids(list, words).len() ==> device_id(#[trigger] with_ids(list, words)[i]),
    decreases words.len(),
{
    if words.len() > 0 {
        lemma_ids_stay_distinct(list, words.drop_last());
        let before = with_ids(list, words.drop_last());
        if device_id(words.last()) && !before.contains(words.last()) {
            let after = before.push(words.last());
            assert forall|i: int, j: int|
                0 <= i < after.len() && 0 <= j < after.len() && i != j implies after[i]
                != after[j] by {
                if i < before.len() && j < before.len() {
                } else if i < before.len() {
                    assert(before[i] != words.last());
                } else if j < before.len() {
                    assert(before[j] != words.last());
                }
            }
        }
    }
}

/// An id is made of digits and dashes, and a phone's id is one to a hundred and
/// twenty-eight of them.
pub proof fn law_an_id_is_made_of_digits_and_dashes(s: Seq<char>, i: int)
    ensures
        hex_and_dashes(s) && 0 <= i < s.len() ==> ('0' <= s[i] && s[i] <= '9') || ('a' <= s[i]
            && s[i] <= 'f') || ('A' <= s[i] && s[i] <= 'F') || s[i] == '-',
        (forall|k: int|
            0 <= k < s.len() ==> ('0' <= #[trigger] s[k] && s[k] <= '9') || ('a' <= s[k] && s[k]
                <= 'f') || ('A' <= s[k] && s[k] <= 'F') || s[k] == '-') ==> hex_and_dashes(s),
        udid_valid(s) <==> 1 <= s.len() <= 128 && hex_and_dashes(s),
        device_id(s) <==> s.len() == 36 && hex_and_dashes(s),
{
    if forall|k: int|
        0 <= k < s.len() ==> ('0' <= #[trigger] s[k] && s[k] <= '9') || ('a' <= s[k] && s[k]
            <= 'f') || ('A' <= s[k] && s[k] <= 'F') || s[k] == '-' {
        assert forall|k: int| 0 <= k < s.len() implies hex_digit(#[trigger] s[k]) || s[k] == '-' by {
            assert(('0' <= s[k] && s[k] <= '9') || ('a' <= s[k] && s[k] <= 'f') || ('A' <= s[k]
                && s[k] <= 'F') || s[k] == '-');
        }
    }
}

proof fn lemma_ids_of_words(list: Seq<Seq<char>>, words: Seq<Seq<char>>, id: Seq<char>)
    ensures
        with_ids(list, words).contains(id) <==> list.contains(id) || (device_id(id)
            && words.contains(id)),
    decreases words.len(),
{
    if words.len() > 0 {
        let front = words.drop_last();
        lemma_ids_of_words(list, front, id);
        let before = with_ids(list, front);
        let all = with_ids(list, words);
        if front.contains(id) {
            let k = choose|k: int| 0 <= k < front.len() && front[k] == id;
            assert(words[k] == id);
        }
        if words.contains(id) && !front.contains(id) {
            let k = choose|k: int| 0 <= k < words.len() && words[k] == id;
            if k < front.len() {
                assert(front[k] == id);
            }
            assert(words.last() == id);
        }
        assert(words[words.len() - 1] == words.last());
        if device_id(words.last()) && !before.contains(words.last()) {
            assert(all == before.push(words.last()));
            assert(all[before.len() as int] == words.last());
            if before.contains(id) {
                let k = choose|k: int| 0 <= k < before.len() && before[k] == id;
                assert(all[k] == id);
            }
            if all.contains(id) {
                let k = choose|k: int| 0 <= k < all.len() && all[k] == id;
                if k < before.len() {
                    assert(before[k] == id);
                }
            }
        }
    }
}

/// The phones that are listed as connected are those whose ids stand on a line
/// that says so, and no others.
pub proof fn law_a_connected_phone_stands_on_its_line(lines: Seq<Seq<char>>, id: Seq<char>)
    ensures
        connected_ids(lines).contains(id) <==> device_id(id) && exists|i: int|
            0 <= i < lines.len() && line_connected(#[trigger] lines[i]) && words_of(
                lines[i],
            ).contains(id),
    decreases lines.len(),
{
    if lines.len() > 0 {
        let front = lines.drop_last();
        law_a_connected_phone_stands_on_its_line(front, id);
        let before = connected_ids(front);
        lemma_ids_of_words(before, words_of(lines.last()), id);
        assert(lines[lines.len() - 1] == lines.last());
        if exists|i: int|
            0 <= i < front.len() && line_connected(#[trigger] front[i]) && words_of(
                front[i],
            ).contains(id) {
            let i = choose|i: int|
                0 <= i < front.len() && line_connected(#[trigger] front[i]) && words_of(
                    front[i],
                ).contains(id);
            assert(lines[i] == front[i]);
        }
        if exists|i: int|
            0 <= i < lines.len() && line_connected(#[trigger] lines[i]) && words_of(
                lines[i],
            ).contains(id) {
            let i = choose|i: int|
                0 <= i < lines.len() && line_connected(#[trigger] lines[i]) && words_of(
                    lines[i],
                ).contains(id);
            if i < front.len() {
                assert(front[i] == lines[i]);
            }
        }
    }
}

proof fn lemma_letters_kept(s: Seq<char>)
    ensures
        s.len() > 0 && ascii_alpha(s[0]) ==> from_letter(s) == s,
        s.len() > 0 && ascii_alpha(s.last()) ==> to_letter(s) == s,
        s.len() > 0 && !ascii_alpha(s[0]) ==> from_letter(s) == from_letter(s.drop_first()),
        s.len() > 0 && !ascii_alpha(s.last()) ==> to_letter(s) == to_letter(s.drop_last()),
{
}

/// A word is read without what is no letter before and after it, and in small
/// letters.
pub proof fn law_a_word_is_read_without_its_marks(word: Seq<char>, before: char, after: char)
    requires
        word.len() > 0,
        ascii_alpha(word[0]),
        ascii_alpha(word.last()),
        !ascii_alpha(before),
        !ascii_alpha(after),
    ensures
        bare_word(word) == lowered(word),
        bare_word(seq![before] + word) == lowered(word),
        bare_word(word.push(after)) == lowered(word),
        bare_word(seq![before] + word.push(after)) == lowered(word),
{
    let small = word.map_values(|c: char| ascii_lower(c));
    assert(small =~= lowered(word));
    lemma_letters_kept(word);
    let a = seq![before] + word;
    lemma_letters_kept(a);
    assert(a.drop_first() =~= word);
    let b = word.push(after);
    lemma_letters_kept(b);
    assert(b.drop_last() =~= word);
    let c = seq![before] + word.push(after);
    lemma_letters_kept(c);
    assert(c.drop_first() =~= b);
}

/// An app is removed from the phone that is named, by its bundle, and the tool is
/// given fifteen seconds.
pub proof fn law_a_removal_names_its_phone_and_its_app(
    device: Seq<char>,
    bundle: Seq<char>,
    complaint: &str,
    end: Result<(), DevicectlError>,
)
    ensures
        uninstall_command(device, bundle) == seq![
            "devicectl"@,
            "--quiet"@,
            "--timeout"@,
            "15"@,
            "device"@,
            "uninstall"@,
            "app"@,
            "--device"@,
            device,
            bundle,
        ],
        call_ensures(devicectl_end, (true, complaint), end) ==> end is Ok,
        call_ensures(devicectl_end, (false, complaint), end) ==> end is Err,
{
}

/// The only connected phone is the one that is meant; with none or several, one
/// has to be named.
pub proof fn law_only_a_sole_phone_is_meant(listing: &str, found: Result<String, DevicectlError>)
    requires
        call_ensures(detect_connected_device, (listing,), found),
    ensures
        found is Ok <==> connected_ids(lines_of(listing@)).len() == 1,
        found matches Ok(id) ==> connected_ids(lines_of(listing@))[0] == id@,
        found matches Err(error) ==> (error matches DevicectlError::TargetRequired(n) && n
            == connected_ids(lines_of(listing@)).len()),
{
}

} // verus!
