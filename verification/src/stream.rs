//! Live views: how many there are, and which of them still receives pictures.

use vstd::prelude::*;

use crate::state::since;
use crate::text::{ascii_alnum, chars_of, is_ascii_alnum, same_text};

verus! {

/// A place among the live views. Whoever has one gives it back when the view is
/// closed.
#[derive(Debug)]
pub struct StreamGuard(());

impl StreamGuard {
    /// Takes a place, where fewer than `maximum` are taken.
    pub fn try_reserve(count: &mut usize, maximum: usize) -> (guard: Option<StreamGuard>)
        ensures
            guard is Some == (*old(count) < maximum),
            *final(count) == (if guard is Some {
                (*old(count) + 1) as usize
            } else {
                *old(count)
            }),
    {
        if *count < maximum {
            *count = *count + 1;
            Some(StreamGuard(()))
        } else {
            None
        }
    }

    /// Gives the place back.
    pub fn release(self, count: &mut usize)
        ensures
            *final(count) == (if *old(count) > 0 {
                (*old(count) - 1) as usize
            } else {
                0
            }),
    {
        if *count > 0 {
            *count = *count - 1;
        }
    }
}

/// When a view last received anything, and which registration it belongs to.
#[derive(Clone, Copy, Debug, PartialEq, Eq, Structural)]
pub struct Beat {
    pub token: u64,
    /// Milliseconds on one monotonic clock.
    pub at: u64,
}

/// The registration of one view.
#[derive(Debug)]
pub struct MjpegActivityGuard {
    stream_id: String,
    token: u64,
}

impl MjpegActivityGuard {
    pub closed spec fn id(&self) -> Seq<char> {
        self.stream_id@
    }

    pub closed spec fn number(&self) -> u64 {
        self.token
    }
}

/// The live views by the name that each browser chose.
#[derive(Debug)]
pub struct StreamActivity {
    entries: Vec<(String, Beat)>,
    next_token: u64,
}

pub open spec fn beats(entries: Seq<(String, Beat)>) -> Map<Seq<char>, Beat>
    decreases entries.len(),
{
    if entries.len() == 0 {
        Map::empty()
    } else {
        beats(entries.drop_last()).insert(entries.last().0@, entries.last().1)
    }
}

pub open spec fn distinct(entries: Seq<(String, Beat)>) -> bool {
    forall|i: int, j: int|
        0 <= i < j < entries.len() ==> (#[trigger] entries[i]).0@ != (#[trigger] entries[j]).0@
}

proof fn lemma_beats(entries: Seq<(String, Beat)>)
    requires
        distinct(entries),
    ensures
        forall|i: int|
            0 <= i < entries.len() ==> beats(entries).contains_pair(
                (#[trigger] entries[i]).0@,
                entries[i].1,
            ),
        forall|k: Seq<char>| #[trigger]
            beats(entries).dom().contains(k) ==> exists|i: int|
                0 <= i < entries.len() && (#[trigger] entries[i]).0@ == k,
    decreases entries.len(),
{
    if entries.len() > 0 {
        let rest = entries.drop_last();
        assert(distinct(rest)) by {
            assert forall|i: int, j: int| 0 <= i < j < rest.len() implies (
            #[trigger] rest[i]).0@ != (#[trigger] rest[j]).0@ by {
                assert(entries[i].0@ != entries[j].0@);
            }
        }
        lemma_beats(rest);
        assert forall|i: int| 0 <= i < entries.len() implies beats(entries).contains_pair(
            (#[trigger] entries[i]).0@,
            entries[i].1,
        ) by {
            if i < rest.len() {
                assert(rest[i] == entries[i]);
                assert(entries[i].0@ != entries[rest.len() as int].0@);
            }
        }
        assert forall|k: Seq<char>| #[trigger] beats(entries).dom().contains(k) implies exists|
            i: int,
        | 0 <= i < entries.len() && (#[trigger] entries[i]).0@ == k by {
            if k != entries.last().0@ {
                assert(beats(rest).dom().contains(k));
                let i = choose|i: int| 0 <= i < rest.len() && (#[trigger] rest[i]).0@ == k;
                assert(entries[i].0@ == k);
            } else {
                assert(entries[entries.len() - 1].0@ == k);
            }
        }
    }
}

/// A list without one of its entries has the others' beats.
proof fn lemma_beats_removed(entries: Seq<(String, Beat)>, at: int)
    requires
        distinct(entries),
        0 <= at < entries.len(),
    ensures
        distinct(entries.remove(at)),
        beats(entries.remove(at)) == beats(entries).remove(entries[at].0@),
{
    let rest = entries.remove(at);
    assert forall|i: int, j: int| 0 <= i < j < rest.len() implies (#[trigger] rest[i]).0@ != (
    #[trigger] rest[j]).0@ by {
        let a = if i < at {
            i
        } else {
            i + 1
        };
        let b = if j < at {
            j
        } else {
            j + 1
        };
        assert(entries[a].0@ != entries[b].0@);
    }
    lemma_beats(entries);
    lemma_beats(rest);
    let left = beats(rest);
    let right = beats(entries).remove(entries[at].0@);
    assert forall|k: Seq<char>| left.dom().contains(k) == right.dom().contains(k) by {
        if left.dom().contains(k) {
            let i = choose|i: int| 0 <= i < rest.len() && (#[trigger] rest[i]).0@ == k;
            let a = if i < at {
                i
            } else {
                i + 1
            };
            assert(entries[a] == rest[i]);
            assert(entries[a].0@ != entries[at].0@);
        }
        if right.dom().contains(k) {
            let a = choose|a: int| 0 <= a < entries.len() && (#[trigger] entries[a]).0@ == k;
            let i = if a < at {
                a
            } else {
                a - 1
            };
            assert(rest[i] == entries[a]);
        }
    }
    assert forall|k: Seq<char>| left.dom().contains(k) implies #[trigger] left[k] == right[k] by {
        let i = choose|i: int| 0 <= i < rest.len() && (#[trigger] rest[i]).0@ == k;
        let a = if i < at {
            i
        } else {
            i + 1
        };
        assert(entries[a] == rest[i]);
        assert(left.contains_pair(rest[i].0@, rest[i].1));
        assert(beats(entries).contains_pair(entries[a].0@, entries[a].1));
    }
    assert(left =~= right);
}

/// The content of a [`StreamActivity`].
pub struct ActivityView {
    pub beats: Map<Seq<char>, Beat>,
    pub next_token: u64,
}

impl View for StreamActivity {
    type V = ActivityView;

    closed spec fn view(&self) -> ActivityView {
        ActivityView { beats: beats(self.entries@), next_token: self.next_token }
    }
}

/// Whether a registration is the one that counts for its name.
pub open spec fn registered(activity: ActivityView, guard: MjpegActivityGuard) -> bool {
    activity.beats.dom().contains(guard.id()) && activity.beats[guard.id()].token == guard.number()
}

impl StreamActivity {
    #[verifier::type_invariant]
    spec fn inv(&self) -> bool {
        distinct(self.entries@)
    }

    pub fn new() -> (activity: StreamActivity)
        ensures
            activity@.beats == Map::<Seq<char>, Beat>::empty(),
            activity@.next_token == 1,
    {
        StreamActivity { entries: Vec::new(), next_token: 1 }
    }

    fn position(&self, stream_id: &str) -> (at: Option<usize>)
        ensures
            match at {
                Some(at) => {
                    &&& at < self.entries@.len()
                    &&& self.entries@[at as int].0@ == stream_id@
                    &&& self@.beats.contains_pair(stream_id@, self.entries@[at as int].1)
                },
                None => !self@.beats.dom().contains(stream_id@),
            },
    {
        proof {
            use_type_invariant(self);
            lemma_beats(self.entries@);
        }
        let mut i: usize = 0;
        while i < self.entries.len()
            invariant
                i <= self.entries@.len(),
                forall|k: int| 0 <= k < i ==> (#[trigger] self.entries@[k]).0@ != stream_id@,
                forall|k: int|
                    0 <= k < self.entries@.len() ==> beats(self.entries@).contains_pair(
                        (#[trigger] self.entries@[k]).0@,
                        self.entries@[k].1,
                    ),
            decreases self.entries@.len() - i,
        {
            if same_text(self.entries[i].0.as_str(), stream_id) {
                return Some(i);
            }
            i += 1;
        }
        None
    }

    /// The list without a name.
    fn without(self, stream_id: &str) -> (rest: StreamActivity)
        ensures
            rest@.beats == self@.beats.remove(stream_id@),
            rest@.next_token == self@.next_token,
    {
        proof {
            use_type_invariant(&self);
        }
        match self.position(stream_id) {
            Some(at) => {
                proof {
                    lemma_beats_removed(self.entries@, at as int);
                }
                let mut entries = self.entries;
                entries.remove(at);
                StreamActivity { entries, next_token: self.next_token }
            },
            None => {
                assert(self@.beats.remove(stream_id@) =~= self@.beats);
                self
            },
        }
    }

    /// The list with one more entry, under a name that is not in it.
    fn plus(self, stream_id: String, beat: Beat, next_token: u64) -> (more: StreamActivity)
        requires
            !self@.beats.dom().contains(stream_id@),
        ensures
            more@.beats == self@.beats.insert(stream_id@, beat),
            more@.next_token == next_token,
    {
        proof {
            use_type_invariant(&self);
            lemma_beats(self.entries@);
        }
        let ghost before = self.entries@;
        let mut entries = self.entries;
        entries.push((stream_id, beat));
        proof {
            assert forall|i: int, j: int| 0 <= i < j < entries@.len() implies (
            #[trigger] entries@[i]).0@ != (#[trigger] entries@[j]).0@ by {
                if j < before.len() {
                    assert(before[i].0@ != before[j].0@);
                } else {
                    assert(beats(before).contains_pair(before[i].0@, before[i].1));
                }
            }
            assert(entries@.drop_last() =~= before);
        }
        StreamActivity { entries, next_token }
    }

    /// Registers a view under its name, in place of an older one.
    pub fn register(self, stream_id: String, now: u64) -> (registered: (
        StreamActivity,
        MjpegActivityGuard,
    ))
        ensures
            registered.1.id() == stream_id@,
            registered.1.number() == self@.next_token,
            registered.0@.beats == self@.beats.insert(
                stream_id@,
                (Beat { token: self@.next_token, at: now }),
            ),
            registered.0@.next_token == (if self@.next_token < u64::MAX {
                (self@.next_token + 1) as u64
            } else {
                self@.next_token
            }),
    {
        let ghost before = self@.beats;
        let token: u64 = self.next_token;
        let next_token: u64 = token.saturating_add(1);
        let guard = MjpegActivityGuard { stream_id: stream_id.clone(), token };
        let rest = self.without(stream_id.as_str());
        let more = rest.plus(stream_id, Beat { token, at: now }, next_token);
        assert(more@.beats =~= before.insert(stream_id@, (Beat { token, at: now })));
        (more, guard)
    }

    /// Something was received. An older registration of the same name does not
    /// count.
    pub fn touch(self, guard: &MjpegActivityGuard, now: u64) -> (after: StreamActivity)
        ensures
            after@.next_token == self@.next_token,
            after@.beats == (if registered(self@, *guard) {
                self@.beats.insert(guard.id(), (Beat { token: guard.number(), at: now }))
            } else {
                self@.beats
            }),
    {
        let ghost before = self@.beats;
        let current = match self.position(guard.stream_id.as_str()) {
            Some(at) => self.entries[at].1.token == guard.token,
            None => false,
        };
        if !current {
            return self;
        }
        let next_token: u64 = self.next_token;
        let rest = self.without(guard.stream_id.as_str());
        let more = rest.plus(
            guard.stream_id.clone(),
            Beat { token: guard.token, at: now },
            next_token,
        );
        assert(more@.beats =~= before.insert(
            guard.id(),
            (Beat { token: guard.number(), at: now }),
        ));
        more
    }

    /// A view is closed. It takes only its own registration away, not one that
    /// replaced it.
    pub fn unregister(self, guard: MjpegActivityGuard) -> (after: StreamActivity)
        ensures
            after@.next_token == self@.next_token,
            after@.beats == (if registered(self@, guard) {
                self@.beats.remove(guard.id())
            } else {
                self@.beats
            }),
    {
        let current = match self.position(guard.stream_id.as_str()) {
            Some(at) => self.entries[at].1.token == guard.token,
            None => false,
        };
        if !current {
            return self;
        }
        self.without(guard.stream_id.as_str())
    }

    /// Milliseconds since a view received anything.
    pub fn age(&self, stream_id: &str, now: u64) -> (ms: Option<u64>)
        ensures
            match ms {
                Some(ms) => {
                    &&& self@.beats.dom().contains(stream_id@)
                    &&& ms == since(now, self@.beats[stream_id@].at)
                },
                None => !self@.beats.dom().contains(stream_id@),
            },
    {
        match self.position(stream_id) {
            Some(at) => Some(now.saturating_sub(self.entries[at].1.at)),
            None => None,
        }
    }

    /// Whether no view is registered.
    pub fn is_empty(&self) -> (empty: bool)
        ensures
            empty == (self@.beats == Map::<Seq<char>, Beat>::empty()),
    {
        proof {
            use_type_invariant(self);
            lemma_beats(self.entries@);
            if self.entries@.len() > 0 {
                assert(beats(self.entries@).contains_pair(
                    self.entries@[0].0@,
                    self.entries@[0].1,
                ));
            }
        }
        self.entries.len() == 0
    }
}

/// A view that was replaced under its name can neither keep the new one alive
/// nor take it away.
pub proof fn law_a_replaced_view_has_no_say(
    before: ActivityView,
    after: ActivityView,
    older: MjpegActivityGuard,
    newer: MjpegActivityGuard,
    now: u64,
)
    requires
        older.id() == newer.id(),
        older.number() < before.next_token,
        newer.number() == before.next_token,
        after.beats == before.beats.insert(
            newer.id(),
            (Beat { token: before.next_token, at: now }),
        ),
    ensures
        registered(after, newer),
        !registered(after, older),
{
}

pub open spec fn stream_id_char(c: char) -> bool {
    ascii_alnum(c) || c == '-' || c == '_'
}

/// A usable name of a view.
pub open spec fn stream_id_valid(s: Seq<char>) -> bool {
    8 <= s.len() <= 64 && forall|i: int| 0 <= i < s.len() ==> stream_id_char(#[trigger] s[i])
}

pub fn valid_mjpeg_stream_id(stream_id: &str) -> (valid: bool)
    ensures
        valid == stream_id_valid(stream_id@),
{
    let chars = chars_of(stream_id);
    if chars.len() < 8 || chars.len() > 64 {
        return false;
    }
    let mut i: usize = 0;
    while i < chars.len()
        invariant
            i <= chars@.len(),
            chars@ == stream_id@,
            forall|k: int| 0 <= k < i ==> stream_id_char(#[trigger] stream_id@[k]),
        decreases chars@.len() - i,
    {
        let c = chars[i];
        if !(is_ascii_alnum(c) || c == '-' || c == '_') {
            assert(!stream_id_char(stream_id@[i as int]));
            return false;
        }
        i += 1;
    }
    true
}

/// The name of a live view has eight to sixty-four characters: letters, digits,
/// dashes and underscores.
pub proof fn law_a_view_has_a_plain_name(s: Seq<char>, i: int)
    ensures
        stream_id_valid(s) ==> 8 <= s.len() <= 64,
        stream_id_valid(s) && 0 <= i < s.len() ==> ('0' <= s[i] && s[i] <= '9') || ('a' <= s[i]
            && s[i] <= 'z') || ('A' <= s[i] && s[i] <= 'Z') || s[i] == '-' || s[i] == '_',
        8 <= s.len() <= 64 && (forall|k: int|
            0 <= k < s.len() ==> ('0' <= #[trigger] s[k] && s[k] <= '9') || ('a' <= s[k] && s[k]
                <= 'z') || ('A' <= s[k] && s[k] <= 'Z') || s[k] == '-' || s[k] == '_')
            ==> stream_id_valid(s),
{
    if 8 <= s.len() <= 64 && (forall|k: int|
        0 <= k < s.len() ==> ('0' <= #[trigger] s[k] && s[k] <= '9') || ('a' <= s[k] && s[k]
            <= 'z') || ('A' <= s[k] && s[k] <= 'Z') || s[k] == '-' || s[k] == '_') {
        assert forall|k: int| 0 <= k < s.len() implies stream_id_char(#[trigger] s[k]) by {
            assert(('0' <= s[k] && s[k] <= '9') || ('a' <= s[k] && s[k] <= 'z') || ('A' <= s[k]
                && s[k] <= 'Z') || s[k] == '-' || s[k] == '_');
        }
    }
}

/// A view is touched, and let go, only by the guard that it was last given to; and
/// no other view is changed by it.
pub proof fn law_a_view_listens_to_its_own_guard(
    activity: StreamActivity,
    guard: MjpegActivityGuard,
    now: u64,
    touched: StreamActivity,
    left: StreamActivity,
    other: Seq<char>,
)
    requires
        call_ensures(StreamActivity::touch, (activity, &guard, now), touched),
        call_ensures(StreamActivity::unregister, (activity, guard), left),
    ensures
        ({
            let own = activity@.beats.dom().contains(guard.id())
                && activity@.beats[guard.id()].token == guard.number();
            &&& own ==> touched@.beats[guard.id()].at == now && touched@.beats[guard.id()].token
                == guard.number()
            &&& own ==> !left@.beats.dom().contains(guard.id())
            &&& !own ==> touched@.beats == activity@.beats && left@.beats == activity@.beats
            &&& other != guard.id() && activity@.beats.dom().contains(other)
                ==> touched@.beats.dom().contains(other) && left@.beats.dom().contains(other)
                && touched@.beats[other] == activity@.beats[other] && left@.beats[other]
                == activity@.beats[other]
        }),
{
}

/// A view that is opened is known under its name from then on, by a number that
/// none had before it, and its age is the time since it was last touched.
pub proof fn law_an_opened_view_is_known(
    activity: StreamActivity,
    id: String,
    now: u64,
    opened: (StreamActivity, MjpegActivityGuard),
    name: &str,
    later: u64,
    age: Option<u64>,
)
    requires
        call_ensures(StreamActivity::register, (activity, id, now), opened),
        call_ensures(StreamActivity::age, (&opened.0, name, later), age),
        name@ == id@,
        later >= now,
    ensures
        opened.1.id() == id@,
        opened.1.number() == activity@.next_token,
        activity@.next_token < u64::MAX ==> opened.0@.next_token == activity@.next_token + 1,
        opened.0@.beats.dom().contains(id@),
        age == Some((later - now) as u64),
{
}

} // verus!
