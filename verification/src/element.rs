//! Rows of the flattened accessibility tree: their state, their identity, and
//! the difference between two reads of the tree.

use vstd::prelude::*;

use crate::json::float_magnitude;
use crate::reply::{opt_text, texts};
use crate::text::same_text;

verus! {

/// One row of the flattened element tree. The four numbers of `rect` are the
/// IEEE-754 bits of x, y, width and height in points.
#[derive(Debug)]
pub struct ElementRow {
    pub kind: String,
    pub label: String,
    pub identifier: Option<String>,
    pub rect: [u64; 4],
    pub depth: u32,
    pub value: Option<String>,
    pub enabled: Option<bool>,
    pub visible: Option<bool>,
    pub accessible: Option<bool>,
    pub focused: Option<bool>,
    pub placeholder: Option<String>,
    pub actions: Option<Vec<String>>,
}

impl Default for ElementRow {
    fn default() -> (row: ElementRow)
        ensures
            row.kind@ == Seq::<char>::empty(),
            row.label@ == Seq::<char>::empty(),
            row.identifier is None,
            row.rect@ == seq![0u64, 0u64, 0u64, 0u64],
            row.depth == 0,
            row.value is None,
            row.enabled is None,
            row.visible is None,
            row.accessible is None,
            row.focused is None,
            row.placeholder is None,
            row.actions is None,
    {
        let rect: [u64; 4] = [0, 0, 0, 0];
        assert(rect@ =~= seq![0u64, 0u64, 0u64, 0u64]);
        ElementRow {
            kind: String::new(),
            label: String::new(),
            identifier: None,
            rect,
            depth: 0,
            value: None,
            enabled: None,
            visible: None,
            accessible: None,
            focused: None,
            placeholder: None,
            actions: None,
        }
    }
}

/// What makes two rows of different reads the same control: kind, label,
/// identifier and placeholder.
pub struct Identity {
    pub kind: Seq<char>,
    pub label: Seq<char>,
    pub identifier: Option<Seq<char>>,
    pub placeholder: Option<Seq<char>>,
}

pub open spec fn identity(row: ElementRow) -> Identity {
    Identity {
        kind: row.kind@,
        label: row.label@,
        identifier: opt_text(row.identifier),
        placeholder: opt_text(row.placeholder),
    }
}

/// Numeric equality of two doubles given by their bits: a NaN equals nothing,
/// and the two zeros are equal.
pub open spec fn float_same(a: u64, b: u64) -> bool {
    &&& float_magnitude(a) <= 0x7FF0_0000_0000_0000
    &&& float_magnitude(b) <= 0x7FF0_0000_0000_0000
    &&& a == b || (float_magnitude(a) == 0 && float_magnitude(b) == 0)
}

pub open spec fn same_actions(a: Option<Vec<String>>, b: Option<Vec<String>>) -> bool {
    match (a, b) {
        (Some(a), Some(b)) => texts(a@) == texts(b@),
        (None, None) => true,
        _ => false,
    }
}

/// Whether two rows are equal in every field.
pub open spec fn same_row(a: ElementRow, b: ElementRow) -> bool {
    &&& identity(a) == identity(b)
    &&& forall|i: int| 0 <= i < 4 ==> float_same(#[trigger] a.rect@[i], b.rect@[i])
    &&& a.depth == b.depth
    &&& opt_text(a.value) == opt_text(b.value)
    &&& a.enabled == b.enabled
    &&& a.visible == b.visible
    &&& a.accessible == b.accessible
    &&& a.focused == b.focused
    &&& same_actions(a.actions, b.actions)
}

pub fn same_opt_text(a: &Option<String>, b: &Option<String>) -> (same: bool)
    ensures
        same == (opt_text(*a) == opt_text(*b)),
{
    match (a, b) {
        (Some(a), Some(b)) => same_text(a.as_str(), b.as_str()),
        (None, None) => true,
        _ => false,
    }
}

pub fn same_opt_bool(a: Option<bool>, b: Option<bool>) -> (same: bool)
    ensures
        same == (a == b),
{
    match (a, b) {
        (Some(a), Some(b)) => a == b,
        (None, None) => true,
        _ => false,
    }
}

fn magnitude(bits: u64) -> (magnitude: u64)
    ensures
        magnitude == float_magnitude(bits),
{
    if bits >= 0x8000_0000_0000_0000 {
        bits - 0x8000_0000_0000_0000
    } else {
        bits
    }
}

fn same_float(a: u64, b: u64) -> (same: bool)
    ensures
        same == float_same(a, b),
{
    let ma: u64 = magnitude(a);
    let mb: u64 = magnitude(b);
    ma <= 0x7FF0_0000_0000_0000 && mb <= 0x7FF0_0000_0000_0000 && (a == b || (ma == 0 && mb == 0))
}

fn same_texts(a: &Vec<String>, b: &Vec<String>) -> (same: bool)
    ensures
        same == (texts(a@) == texts(b@)),
{
    if a.len() != b.len() {
        assert(texts(a@).len() != texts(b@).len());
        return false;
    }
    let mut i: usize = 0;
    while i < a.len()
        invariant
            a@.len() == b@.len(),
            i <= a@.len(),
            forall|k: int| 0 <= k < i ==> texts(a@)[k] == texts(b@)[k],
        decreases a@.len() - i,
    {
        if !same_text(a[i].as_str(), b[i].as_str()) {
            assert(texts(a@)[i as int] != texts(b@)[i as int]);
            return false;
        }
        i += 1;
    }
    assert(texts(a@) =~= texts(b@));
    true
}

impl ElementRow {
    /// Whether both rows are reads of the same control.
    pub fn same_identity(&self, other: &ElementRow) -> (same: bool)
        ensures
            same == (identity(*self) == identity(*other)),
    {
        same_text(self.kind.as_str(), other.kind.as_str()) && same_text(
            self.label.as_str(),
            other.label.as_str(),
        ) && same_opt_text(&self.identifier, &other.identifier) && same_opt_text(
            &self.placeholder,
            &other.placeholder,
        )
    }

    /// Whether both rows agree in every field.
    pub fn same(&self, other: &ElementRow) -> (same: bool)
        ensures
            same == same_row(*self, *other),
    {
        let rects = same_float(self.rect[0], other.rect[0]) && same_float(
            self.rect[1],
            other.rect[1],
        ) && same_float(self.rect[2], other.rect[2]) && same_float(self.rect[3], other.rect[3]);
        let actions = match (&self.actions, &other.actions) {
            (Some(a), Some(b)) => same_texts(a, b),
            (None, None) => true,
            _ => false,
        };
        assert(rects == (forall|i: int|
            0 <= i < 4 ==> float_same(#[trigger] self.rect@[i], other.rect@[i])));
        self.same_identity(other) && rects && self.depth == other.depth && same_opt_text(
            &self.value,
            &other.value,
        ) && same_opt_bool(self.enabled, other.enabled) && same_opt_bool(
            self.visible,
            other.visible,
        ) && same_opt_bool(self.accessible, other.accessible) && same_opt_bool(
            self.focused,
            other.focused,
        ) && actions
    }
}

/// How many of the first `n` rows have the identity `key`.
pub open spec fn occurrences(rows: Seq<ElementRow>, n: int, key: Identity) -> nat
    decreases n,
{
    if n <= 0 {
        0
    } else {
        occurrences(rows, n - 1, key) + (if identity(rows[n - 1]) == key {
            1nat
        } else {
            0nat
        })
    }
}

/// The baseline row `b` is the one that the current row `i` is a newer read of:
/// both have the same identity, and equally many rows of that identity come
/// before them in their trees.
pub open spec fn partners(
    baseline: Seq<ElementRow>,
    current: Seq<ElementRow>,
    b: int,
    i: int,
) -> bool {
    &&& 0 <= b < baseline.len()
    &&& 0 <= i < current.len()
    &&& identity(baseline[b]) == identity(current[i])
    &&& occurrences(baseline, b, identity(baseline[b])) == occurrences(
        current,
        i,
        identity(current[i]),
    )
}

/// No baseline row is a partner of the current row `i`.
pub open spec fn row_added(baseline: Seq<ElementRow>, current: Seq<ElementRow>, i: int) -> bool {
    forall|b: int| !#[trigger] partners(baseline, current, b, i)
}

/// The current row `i` has a partner from which it differs.
pub open spec fn row_changed(baseline: Seq<ElementRow>, current: Seq<ElementRow>, i: int) -> bool {
    exists|b: int| #[trigger]
        partners(baseline, current, b, i) && !same_row(baseline[b], current[i])
}

/// The current row `i` has a partner that it equals.
pub open spec fn row_kept(baseline: Seq<ElementRow>, current: Seq<ElementRow>, i: int) -> bool {
    exists|b: int| #[trigger]
        partners(baseline, current, b, i) && same_row(baseline[b], current[i])
}

/// No current row is a partner of the baseline row `b`.
pub open spec fn row_removed(baseline: Seq<ElementRow>, current: Seq<ElementRow>, b: int) -> bool {
    forall|i: int| !#[trigger] partners(baseline, current, b, i)
}

/// The numbers below `n` that satisfy `pred`, in ascending order.
pub open spec fn indexes(n: nat, pred: spec_fn(int) -> bool) -> Seq<usize>
    decreases n,
{
    if n == 0 {
        Seq::empty()
    } else if pred(n - 1) {
        indexes((n - 1) as nat, pred).push((n - 1) as usize)
    } else {
        indexes((n - 1) as nat, pred)
    }
}

/// Index-level difference between two element trees.
#[derive(Debug, PartialEq, Eq)]
pub struct ElementRowsDelta {
    /// Current rows without a partner in the baseline.
    pub added: Vec<usize>,
    /// Current rows that differ from their partner.
    pub changed: Vec<usize>,
    /// Baseline rows without a partner in the current tree.
    pub removed: Vec<usize>,
    /// How many current rows equal their partner.
    pub unchanged: usize,
}

/// The number of rows of one identity never shrinks as more rows are counted.
proof fn lemma_occurrences_monotone(rows: Seq<ElementRow>, m: int, n: int, key: Identity)
    requires
        m <= n,
    ensures
        occurrences(rows, m, key) <= occurrences(rows, n, key),
    decreases n - m,
{
    if m < n && n > 0 {
        lemma_occurrences_monotone(rows, m, n - 1, key);
    }
}

/// A row is counted once its own place is passed.
proof fn lemma_occurrences_after(rows: Seq<ElementRow>, i: int, n: int)
    requires
        0 <= i < n,
    ensures
        occurrences(rows, i, identity(rows[i])) < occurrences(rows, n, identity(rows[i])),
{
    lemma_occurrences_monotone(rows, i + 1, n, identity(rows[i]));
}

/// Two rows of one identity with equally many before them are the same row.
proof fn lemma_rank_unique(rows: Seq<ElementRow>, i: int, j: int)
    requires
        0 <= i < rows.len(),
        0 <= j < rows.len(),
        identity(rows[i]) == identity(rows[j]),
        occurrences(rows, i, identity(rows[i])) == occurrences(rows, j, identity(rows[j])),
    ensures
        i == j,
{
    if i < j {
        lemma_occurrences_after(rows, i, j);
    } else if j < i {
        lemma_occurrences_after(rows, j, i);
    }
}

/// Counting up to any number of rows that is reached, some row has that rank.
proof fn lemma_rank_exists(rows: Seq<ElementRow>, n: int, key: Identity, rank: nat) -> (i: int)
    requires
        0 <= n <= rows.len(),
        rank < occurrences(rows, n, key),
    ensures
        0 <= i < n,
        identity(rows[i]) == key,
        occurrences(rows, i, key) == rank,
    decreases n,
{
    if identity(rows[n - 1]) == key && occurrences(rows, n - 1, key) == rank {
        n - 1
    } else {
        lemma_rank_exists(rows, n - 1, key, rank)
    }
}

/// The difference between a baseline tree and a current one.
///
/// Rows are matched by identity, duplicates in document order; index-positional
/// matching would report every row after one insertion as changed.
pub fn diff_element_rows(baseline: &Vec<ElementRow>, current: &Vec<ElementRow>) -> (delta:
    ElementRowsDelta)
    ensures
        delta.added@ == indexes(current@.len(), |i: int| row_added(baseline@, current@, i)),
        delta.changed@ == indexes(current@.len(), |i: int| row_changed(baseline@, current@, i)),
        delta.removed@ == indexes(baseline@.len(), |b: int| row_removed(baseline@, current@, b)),
        delta.unchanged == indexes(
            current@.len(),
            |i: int| row_kept(baseline@, current@, i),
        ).len(),
{
    let ghost added_p = |i: int| row_added(baseline@, current@, i);
    let ghost changed_p = |i: int| row_changed(baseline@, current@, i);
    let ghost kept_p = |i: int| row_kept(baseline@, current@, i);
    let ghost removed_p = |b: int| row_removed(baseline@, current@, b);
    let mut added: Vec<usize> = Vec::new();
    let mut changed: Vec<usize> = Vec::new();
    let mut unchanged: usize = 0;
    let mut matched: Vec<bool> = Vec::new();
    let mut k: usize = 0;
    while k < baseline.len()
        invariant
            k <= baseline@.len(),
            matched@.len() == k,
            forall|b: int| 0 <= b < k ==> !#[trigger] matched@[b],
        decreases baseline@.len() - k,
    {
        matched.push(false);
        k += 1;
    }
    let mut i: usize = 0;
    while i < current.len()
        invariant
            i <= current@.len(),
            matched@.len() == baseline@.len(),
            unchanged <= i,
            added_p == (|i: int| row_added(baseline@, current@, i)),
            changed_p == (|i: int| row_changed(baseline@, current@, i)),
            kept_p == (|i: int| row_kept(baseline@, current@, i)),
            added@ == indexes(i as nat, added_p),
            changed@ == indexes(i as nat, changed_p),
            unchanged == indexes(i as nat, kept_p).len(),
            forall|b: int|
                0 <= b < baseline@.len() ==> #[trigger] matched@[b] == (occurrences(
                    baseline@,
                    b,
                    identity(baseline@[b]),
                ) < occurrences(current@, i as int, identity(baseline@[b]))),
        decreases current@.len() - i,
    {
        let ghost key = identity(current@[i as int]);
        let ghost rank = occurrences(current@, i as int, key);
        // The first unmatched baseline row of this identity.
        let mut b: usize = 0;
        while b < baseline.len() && (matched[b] || !baseline[b].same_identity(&current[i]))
            invariant
                i < current@.len(),
                b <= baseline@.len(),
                matched@.len() == baseline@.len(),
                key == identity(current@[i as int]),
                forall|c: int|
                    0 <= c < b ==> (#[trigger] matched@[c] || identity(baseline@[c]) != key),
            decreases baseline@.len() - b,
        {
            b += 1;
        }
        proof {
            if b < baseline@.len() {
                assert(identity(baseline@[b as int]) == key);
                // Every earlier row of this identity is matched, so its rank is
                // below that of the current row; this one's rank is not.
                if occurrences(baseline@, b as int, key) > rank {
                    let c = lemma_rank_exists(baseline@, b as int, key, rank);
                    assert(matched@[c]);
                }
                assert(partners(baseline@, current@, b as int, i as int));
                assert forall|c: int| #[trigger] partners(baseline@, current@, c, i as int) implies c
                    == b as int by {
                    lemma_rank_unique(baseline@, c, b as int);
                }
            } else {
                assert forall|c: int| !#[trigger] partners(baseline@, current@, c, i as int) by {
                    if partners(baseline@, current@, c, i as int) {
                        assert(matched@[c]);
                    }
                }
            }
        }
        let ghost before = matched@;
        if b < baseline.len() {
            matched.set(b, true);
            if baseline[b].same(&current[i]) {
                assert(kept_p(i as int));
                assert(!changed_p(i as int));
                assert(!added_p(i as int));
                unchanged += 1;
            } else {
                assert(changed_p(i as int));
                assert(!kept_p(i as int));
                assert(!added_p(i as int));
                changed.push(i);
            }
        } else {
            assert(added_p(i as int));
            assert(!kept_p(i as int));
            assert(!changed_p(i as int));
            added.push(i);
        }
        proof {
            assert forall|c: int| 0 <= c < baseline@.len() implies #[trigger] matched@[c] == (
            occurrences(baseline@, c, identity(baseline@[c])) < occurrences(
                current@,
                i + 1,
                identity(baseline@[c]),
            )) by {
                let rank_c = occurrences(baseline@, c, identity(baseline@[c]));
                if identity(baseline@[c]) == key {
                    if rank_c == rank {
                        assert(partners(baseline@, current@, c, i as int));
                        assert(b < baseline@.len());
                        assert(c == b as int);
                    } else {
                        assert(c != b as int || b >= baseline@.len());
                        assert(matched@[c] == before[c]);
                    }
                } else {
                    assert(matched@[c] == before[c]);
                }
            }
        }
        i += 1;
    }
    let mut removed: Vec<usize> = Vec::new();
    let mut c: usize = 0;
    while c < baseline.len()
        invariant
            c <= baseline@.len(),
            matched@.len() == baseline@.len(),
            removed_p == (|b: int| row_removed(baseline@, current@, b)),
            removed@ == indexes(c as nat, removed_p),
            forall|b: int|
                0 <= b < baseline@.len() ==> #[trigger] matched@[b] == (occurrences(
                    baseline@,
                    b,
                    identity(baseline@[b]),
                ) < occurrences(current@, current@.len() as int, identity(baseline@[b]))),
        decreases baseline@.len() - c,
    {
        proof {
            let key = identity(baseline@[c as int]);
            let rank = occurrences(baseline@, c as int, key);
            if matched@[c as int] {
                let j = lemma_rank_exists(current@, current@.len() as int, key, rank);
                assert(partners(baseline@, current@, c as int, j));
                assert(!removed_p(c as int));
            } else {
                assert forall|j: int| !#[trigger] partners(baseline@, current@, c as int, j) by {
                    if partners(baseline@, current@, c as int, j) {
                        lemma_occurrences_after(current@, j, current@.len() as int);
                    }
                }
                assert(removed_p(c as int));
            }
        }
        if !matched[c] {
            removed.push(c);
        }
        c += 1;
    }
    ElementRowsDelta { added, changed, removed, unchanged }
}

/// A row has at most one partner in the other tree.
proof fn lemma_partners_unique(
    baseline: Seq<ElementRow>,
    current: Seq<ElementRow>,
    b: int,
    i: int,
    c: int,
    j: int,
)
    requires
        partners(baseline, current, b, i),
        partners(baseline, current, c, j),
    ensures
        b == c <==> i == j,
{
    if i == j {
        lemma_rank_unique(baseline, b, c);
    }
    if b == c {
        lemma_rank_unique(current, i, j);
    }
}

proof fn lemma_three_parts(
    n: nat,
    first: spec_fn(int) -> bool,
    second: spec_fn(int) -> bool,
    third: spec_fn(int) -> bool,
)
    requires
        forall|i: int|
            0 <= i < n ==> (if #[trigger] first(i) {
                !second(i) && !third(i)
            } else {
                second(i) != third(i)
            }),
    ensures
        indexes(n, first).len() + indexes(n, second).len() + indexes(n, third).len() == n,
    decreases n,
{
    if n > 0 {
        assert(first(n - 1) || !first(n - 1));
        lemma_three_parts((n - 1) as nat, first, second, third);
    }
}

proof fn lemma_none(n: nat, pred: spec_fn(int) -> bool)
    requires
        forall|i: int| 0 <= i < n ==> !#[trigger] pred(i),
    ensures
        indexes(n, pred) == Seq::<usize>::empty(),
    decreases n,
{
    if n > 0 {
        lemma_none((n - 1) as nat, pred);
    }
}

/// A difference accounts for every row: a current row was added, was changed or
/// stayed as it was, and never two of these; a row of the baseline was removed
/// or has exactly one partner in the current tree.
pub proof fn law_a_difference_accounts_for_every_row(
    baseline: Seq<ElementRow>,
    current: Seq<ElementRow>,
)
    ensures
        forall|i: int|
            0 <= i < current.len() ==> (if #[trigger] row_added(baseline, current, i) {
                !row_changed(baseline, current, i) && !row_kept(baseline, current, i)
            } else {
                row_changed(baseline, current, i) != row_kept(baseline, current, i)
            }),
        indexes(current.len(), |i: int| row_added(baseline, current, i)).len() + indexes(
            current.len(),
            |i: int| row_changed(baseline, current, i),
        ).len() + indexes(current.len(), |i: int| row_kept(baseline, current, i)).len()
            == current.len(),
        forall|b: int, i: int, j: int|
            #![trigger partners(baseline, current, b, i), partners(baseline, current, b, j)]
            partners(baseline, current, b, i) && partners(baseline, current, b, j) ==> i == j,
        forall|b: int, c: int, i: int|
            #![trigger partners(baseline, current, b, i), partners(baseline, current, c, i)]
            partners(baseline, current, b, i) && partners(baseline, current, c, i) ==> b == c,
{
    assert forall|b: int, i: int, j: int|
        #![trigger partners(baseline, current, b, i), partners(baseline, current, b, j)]
        partners(baseline, current, b, i) && partners(baseline, current, b, j) implies i == j by {
        lemma_partners_unique(baseline, current, b, i, b, j);
    }
    assert forall|b: int, c: int, i: int|
        #![trigger partners(baseline, current, b, i), partners(baseline, current, c, i)]
        partners(baseline, current, b, i) && partners(baseline, current, c, i) implies b == c by {
        lemma_partners_unique(baseline, current, b, i, c, i);
    }
    let first = |i: int| row_added(baseline, current, i);
    let second = |i: int| row_changed(baseline, current, i);
    let third = |i: int| row_kept(baseline, current, i);
    assert forall|i: int| 0 <= i < current.len() implies (if #[trigger] first(i) {
        !second(i) && !third(i)
    } else {
        second(i) != third(i)
    }) by {
        if !row_added(baseline, current, i) {
            let b = choose|b: int| partners(baseline, current, b, i);
            assert(partners(baseline, current, b, i));
        }
    }
    assert forall|i: int| 0 <= i < current.len() implies (if #[trigger] row_added(
        baseline,
        current,
        i,
    ) {
        !row_changed(baseline, current, i) && !row_kept(baseline, current, i)
    } else {
        row_changed(baseline, current, i) != row_kept(baseline, current, i)
    }) by {
        assert(first(i) == row_added(baseline, current, i));
    }
    lemma_three_parts(current.len(), first, second, third);
}

proof fn lemma_indexes_agree(n: nat, p: spec_fn(int) -> bool, q: spec_fn(int) -> bool)
    requires
        forall|i: int| 0 <= i < n ==> #[trigger] p(i) == q(i),
    ensures
        indexes(n, p) == indexes(n, q),
    decreases n,
{
    if n > 0 {
        assert(p(n - 1) == q(n - 1));
        lemma_indexes_agree((n - 1) as nat, p, q);
    }
}

/// The numbers of [`indexes`] as a set.
spec fn picked(n: nat, pred: spec_fn(int) -> bool) -> Set<int> {
    Set::new(|i: int| 0 <= i < n && pred(i))
}

proof fn lemma_picked_len(n: nat, pred: spec_fn(int) -> bool)
    ensures
        picked(n, pred).finite(),
        picked(n, pred).len() == indexes(n, pred).len(),
    decreases n,
{
    if n == 0 {
        assert(picked(n, pred) =~= Set::empty());
    } else {
        let before = picked((n - 1) as nat, pred);
        lemma_picked_len((n - 1) as nat, pred);
        if pred(n - 1) {
            assert(picked(n, pred) =~= before.insert(n - 1));
        } else {
            assert(picked(n, pred) =~= before);
        }
    }
}

/// Two ranges of numbers that are paired off have equally many members.
proof fn lemma_paired_off(
    m: nat,
    p: spec_fn(int) -> bool,
    n: nat,
    q: spec_fn(int) -> bool,
    there: spec_fn(int) -> int,
    back: spec_fn(int) -> int,
)
    requires
        forall|i: int|
            #![trigger there(i)]
            0 <= i < m && p(i) ==> 0 <= there(i) < n && q(there(i)) && back(there(i)) == i,
        forall|j: int|
            #![trigger back(j)]
            0 <= j < n && q(j) ==> 0 <= back(j) < m && p(back(j)) && there(back(j)) == j,
    ensures
        indexes(m, p).len() == indexes(n, q).len(),
{
    let x = picked(m, p);
    let y = picked(n, q);
    lemma_picked_len(m, p);
    lemma_picked_len(n, q);
    assert forall|i: int, j: int|
        x.contains(i) && x.contains(j) && #[trigger] there(i) == #[trigger] there(j) implies i
        == j by {
        assert(back(there(i)) == i);
        assert(back(there(j)) == j);
    }
    assert forall|j: int| #[trigger] y.contains(j) implies x.map(there).contains(j) by {
        let i = back(j);
        assert(x.contains(i) && j == there(i));
    }
    assert(x.map(there) =~= y);
    vstd::set_lib::lemma_map_size(x, y, there);
}

proof fn lemma_same_row_symmetric(a: ElementRow, b: ElementRow)
    ensures
        same_row(a, b) == same_row(b, a),
{
    if same_row(a, b) {
        assert forall|i: int| 0 <= i < 4 implies float_same(#[trigger] b.rect@[i], a.rect@[i]) by {
            assert(float_same(a.rect@[i], b.rect@[i]));
        }
    }
    if same_row(b, a) {
        assert forall|i: int| 0 <= i < 4 implies float_same(#[trigger] a.rect@[i], b.rect@[i]) by {
            assert(float_same(b.rect@[i], a.rect@[i]));
        }
    }
}

/// Whether the current row `i` has a partner that it equals, or one from which
/// it differs.
spec fn row_paired(
    baseline: Seq<ElementRow>,
    current: Seq<ElementRow>,
    i: int,
    equal: bool,
) -> bool {
    exists|b: int| #[trigger]
        partners(baseline, current, b, i) && same_row(baseline[b], current[i]) == equal
}

proof fn lemma_pairs_both_ways(baseline: Seq<ElementRow>, current: Seq<ElementRow>, equal: bool)
    ensures
        indexes(current.len(), |i: int| row_paired(baseline, current, i, equal)).len() == indexes(
            baseline.len(),
            |b: int| row_paired(current, baseline, b, equal),
        ).len(),
{
    let p = |i: int| row_paired(baseline, current, i, equal);
    let q = |b: int| row_paired(current, baseline, b, equal);
    let there = |i: int| choose|b: int| partners(baseline, current, b, i);
    let back = |b: int| choose|i: int| partners(baseline, current, b, i);
    assert forall|i: int| #![trigger there(i)] 0 <= i < current.len() && p(i) implies 0 <= there(
        i,
    ) < baseline.len() && q(there(i)) && back(there(i)) == i by {
        let b = choose|b: int| #[trigger]
            partners(baseline, current, b, i) && same_row(baseline[b], current[i]) == equal;
        assert(partners(baseline, current, there(i), i));
        lemma_partners_unique(baseline, current, b, i, there(i), i);
        lemma_same_row_symmetric(baseline[b], current[i]);
        assert(partners(current, baseline, i, b));
        assert(partners(baseline, current, b, back(b)));
        lemma_partners_unique(baseline, current, b, i, b, back(b));
    }
    assert forall|b: int| #![trigger back(b)] 0 <= b < baseline.len() && q(b) implies 0 <= back(
        b,
    ) < current.len() && p(back(b)) && there(back(b)) == b by {
        let i = choose|i: int| #[trigger]
            partners(current, baseline, i, b) && same_row(current[i], baseline[b]) == equal;
        assert(partners(baseline, current, b, i));
        assert(partners(baseline, current, b, back(b)));
        lemma_partners_unique(baseline, current, b, i, b, back(b));
        lemma_same_row_symmetric(baseline[b], current[i]);
        assert(partners(baseline, current, there(i), i));
        lemma_partners_unique(baseline, current, b, i, there(i), i);
    }
    lemma_paired_off(current.len(), p, baseline.len(), q, there, back);
}

/// The difference the other way round is the mirror image: what was added is
/// removed, what was removed is added, and as many rows are changed, and as many
/// stay as they were.
pub proof fn law_a_difference_mirrors(baseline: Seq<ElementRow>, current: Seq<ElementRow>)
    ensures
        indexes(baseline.len(), |b: int| row_added(current, baseline, b)) == indexes(
            baseline.len(),
            |b: int| row_removed(baseline, current, b),
        ),
        indexes(current.len(), |i: int| row_removed(current, baseline, i)) == indexes(
            current.len(),
            |i: int| row_added(baseline, current, i),
        ),
        indexes(baseline.len(), |b: int| row_changed(current, baseline, b)).len() == indexes(
            current.len(),
            |i: int| row_changed(baseline, current, i),
        ).len(),
        indexes(baseline.len(), |b: int| row_kept(current, baseline, b)).len() == indexes(
            current.len(),
            |i: int| row_kept(baseline, current, i),
        ).len(),
{
    assert forall|b: int, i: int|
        #![trigger partners(baseline, current, b, i)]
        #![trigger partners(current, baseline, i, b)]
        partners(baseline, current, b, i) == partners(current, baseline, i, b) by {}
    lemma_indexes_agree(
        baseline.len(),
        |b: int| row_added(current, baseline, b),
        |b: int| row_removed(baseline, current, b),
    );
    lemma_indexes_agree(
        current.len(),
        |i: int| row_removed(current, baseline, i),
        |i: int| row_added(baseline, current, i),
    );
    lemma_pairs_both_ways(baseline, current, false);
    lemma_pairs_both_ways(baseline, current, true);
    lemma_indexes_agree(
        current.len(),
        |i: int| row_changed(baseline, current, i),
        |i: int| row_paired(baseline, current, i, false),
    );
    lemma_indexes_agree(
        baseline.len(),
        |b: int| row_changed(current, baseline, b),
        |b: int| row_paired(current, baseline, b, false),
    );
    lemma_indexes_agree(
        current.len(),
        |i: int| row_kept(baseline, current, i),
        |i: int| row_paired(baseline, current, i, true),
    );
    lemma_indexes_agree(
        baseline.len(),
        |b: int| row_kept(current, baseline, b),
        |b: int| row_paired(current, baseline, b, true),
    );
}

/// The rows of the baseline are accounted for too: so many were removed, changed
/// or kept as there are.
pub proof fn law_a_difference_accounts_for_the_baseline(
    baseline: Seq<ElementRow>,
    current: Seq<ElementRow>,
)
    ensures
        indexes(baseline.len(), |b: int| row_removed(baseline, current, b)).len() + indexes(
            current.len(),
            |i: int| row_changed(baseline, current, i),
        ).len() + indexes(current.len(), |i: int| row_kept(baseline, current, i)).len()
            == baseline.len(),
{
    law_a_difference_accounts_for_every_row(current, baseline);
    law_a_difference_mirrors(baseline, current);
}

/// A tree does not differ from itself, as long as its frames are numbers.
pub proof fn law_a_tree_does_not_differ_from_itself(rows: Seq<ElementRow>)
    requires
        forall|i: int|
            0 <= i < rows.len() ==> same_row(#[trigger] rows[i], rows[i]),
    ensures
        indexes(rows.len(), |i: int| row_added(rows, rows, i)) == Seq::<usize>::empty(),
        indexes(rows.len(), |i: int| row_changed(rows, rows, i)) == Seq::<usize>::empty(),
        indexes(rows.len(), |b: int| row_removed(rows, rows, b)) == Seq::<usize>::empty(),
        indexes(rows.len(), |i: int| row_kept(rows, rows, i)).len() == rows.len(),
{
    law_a_difference_accounts_for_every_row(rows, rows);
    let first = |i: int| row_added(rows, rows, i);
    let second = |i: int| row_changed(rows, rows, i);
    let removed = |b: int| row_removed(rows, rows, b);
    assert forall|i: int| 0 <= i < rows.len() implies !#[trigger] first(i) && !second(i)
        && !removed(i) by {
        assert(partners(rows, rows, i, i));
        assert(same_row(rows[i], rows[i]));
        assert(row_kept(rows, rows, i));
    }
    assert forall|i: int| 0 <= i < rows.len() implies !#[trigger] second(i) by {
        assert(!first(i));
    }
    assert forall|i: int| 0 <= i < rows.len() implies !#[trigger] removed(i) by {
        assert(!first(i));
    }
    lemma_none(rows.len(), first);
    lemma_none(rows.len(), second);
    lemma_none(rows.len(), removed);
}

/// A row that is reported as unchanged agrees with its partner in every field;
/// and where a single field of the two differs, the row is reported as changed.
pub proof fn law_unchanged_means_equal_in_every_field(
    baseline: Seq<ElementRow>,
    current: Seq<ElementRow>,
    b: int,
    i: int,
    k: int,
)
    requires
        partners(baseline, current, b, i),
    ensures
        row_kept(baseline, current, i) ==> {
            let (was, is) = (baseline[b], current[i]);
            &&& was.kind@ == is.kind@
            &&& was.label@ == is.label@
            &&& opt_text(was.identifier) == opt_text(is.identifier)
            &&& opt_text(was.placeholder) == opt_text(is.placeholder)
            &&& opt_text(was.value) == opt_text(is.value)
            &&& was.depth == is.depth
            &&& was.enabled == is.enabled
            &&& was.visible == is.visible
            &&& was.accessible == is.accessible
            &&& was.focused == is.focused
            &&& was.actions is Some == is.actions is Some
            &&& was.actions is Some ==> texts((was.actions->0)@) == texts((is.actions->0)@)
            &&& 0 <= k < 4 ==> was.rect@[k] == is.rect@[k] || (float_magnitude(was.rect@[k]) == 0
                && float_magnitude(is.rect@[k]) == 0)
        },
        baseline[b].enabled != current[i].enabled ==> row_changed(baseline, current, i)
            && !row_kept(baseline, current, i),
        baseline[b].visible != current[i].visible ==> row_changed(baseline, current, i),
        baseline[b].accessible != current[i].accessible ==> row_changed(baseline, current, i),
        baseline[b].focused != current[i].focused ==> row_changed(baseline, current, i),
        opt_text(baseline[b].value) != opt_text(current[i].value) ==> row_changed(
            baseline,
            current,
            i,
        ),
        baseline[b].depth != current[i].depth ==> row_changed(baseline, current, i),
        baseline[b].actions is Some != current[i].actions is Some ==> row_changed(
            baseline,
            current,
            i,
        ),
        baseline[b].actions is Some && current[i].actions is Some && texts(
            (baseline[b].actions->0)@,
        ) != texts((current[i].actions->0)@) ==> row_changed(baseline, current, i),
        0 <= k < 4 && baseline[b].rect@[k] != current[i].rect@[k] && float_magnitude(
            baseline[b].rect@[k],
        ) != 0 ==> row_changed(baseline, current, i),
{
    assert forall|c: int| #[trigger] partners(baseline, current, c, i) implies c == b by {
        lemma_partners_unique(baseline, current, b, i, c, i);
    }
    if 0 <= k < 4 {
        assert(same_row(baseline[b], current[i]) ==> float_same(
            baseline[b].rect@[k],
            current[i].rect@[k],
        ));
    }
}

/// Two rows that agree in every field, with frames of numbers, are reported as
/// unchanged.
pub proof fn law_equal_rows_are_unchanged(
    baseline: Seq<ElementRow>,
    current: Seq<ElementRow>,
    b: int,
    i: int,
)
    requires
        partners(baseline, current, b, i),
        opt_text(baseline[b].value) == opt_text(current[i].value),
        baseline[b].depth == current[i].depth,
        baseline[b].enabled == current[i].enabled,
        baseline[b].visible == current[i].visible,
        baseline[b].accessible == current[i].accessible,
        baseline[b].focused == current[i].focused,
        baseline[b].actions is None,
        current[i].actions is None,
        forall|k: int|
            0 <= k < 4 ==> #[trigger] baseline[b].rect@[k] == current[i].rect@[k]
                && float_magnitude(baseline[b].rect@[k]) <= 0x7FF0_0000_0000_0000,
    ensures
        row_kept(baseline, current, i),
        !row_changed(baseline, current, i),
{
    assert(same_row(baseline[b], current[i]));
    assert forall|c: int| #[trigger] partners(baseline, current, c, i) implies c == b by {
        lemma_partners_unique(baseline, current, b, i, c, i);
    }
}

/// Rows are partners by what they are, not by where they stand: partners have the
/// same kind, label, identifier and placeholder, and the first row of its kind
/// in one tree is the partner of the first in the other.
pub proof fn law_partners_are_the_same_control(
    baseline: Seq<ElementRow>,
    current: Seq<ElementRow>,
    b: int,
    i: int,
)
    requires
        0 <= b < baseline.len(),
        0 <= i < current.len(),
    ensures
        partners(baseline, current, b, i) ==> {
            &&& baseline[b].kind@ == current[i].kind@
            &&& baseline[b].label@ == current[i].label@
            &&& opt_text(baseline[b].identifier) == opt_text(current[i].identifier)
            &&& opt_text(baseline[b].placeholder) == opt_text(current[i].placeholder)
        },
        baseline[b].kind@ == current[i].kind@ && baseline[b].label@ == current[i].label@
            && opt_text(baseline[b].identifier) == opt_text(current[i].identifier) && opt_text(
            baseline[b].placeholder,
        ) == opt_text(current[i].placeholder) && (forall|c: int|
            0 <= c < b ==> (#[trigger] baseline[c]).label@ != baseline[b].label@) && (forall|
            j: int,
        |
            0 <= j < i ==> (#[trigger] current[j]).label@ != current[i].label@) ==> partners(
            baseline,
            current,
            b,
            i,
        ),
{
    if forall|c: int| 0 <= c < b ==> (#[trigger] baseline[c]).label@ != baseline[b].label@ {
        lemma_none_before(baseline, b, b);
    }
    if forall|j: int| 0 <= j < i ==> (#[trigger] current[j]).label@ != current[i].label@ {
        lemma_none_before(current, i, i);
    }
}

proof fn lemma_none_before(rows: Seq<ElementRow>, b: int, n: int)
    requires
        0 <= n <= b < rows.len(),
        forall|c: int| 0 <= c < b ==> (#[trigger] rows[c]).label@ != rows[b].label@,
    ensures
        occurrences(rows, n, identity(rows[b])) == 0,
    decreases n,
{
    if n > 0 {
        lemma_none_before(rows, b, n - 1);
        assert(rows[n - 1].label@ != rows[b].label@);
    }
}

proof fn lemma_indexes_hold(n: nat, pred: spec_fn(int) -> bool, i: int)
    requires
        0 <= i < n,
        n <= usize::MAX,
    ensures
        indexes(n, pred).contains(i as usize) <==> pred(i),
    decreases n,
{
    let before = indexes((n - 1) as nat, pred);
    if pred(n - 1) {
        assert(indexes(n, pred)[before.len() as int] == (n - 1) as usize);
    }
    if i < n - 1 {
        lemma_indexes_hold((n - 1) as nat, pred, i);
        if before.contains(i as usize) {
            let k = choose|k: int| 0 <= k < before.len() && before[k] == i as usize;
            assert(indexes(n, pred)[k] == i as usize);
        }
        if indexes(n, pred).contains(i as usize) {
            let k = choose|k: int|
                0 <= k < indexes(n, pred).len() && indexes(n, pred)[k] == i as usize;
            if k < before.len() {
                assert(before[k] == i as usize);
            }
        }
    } else {
        lemma_indexes_below((n - 1) as nat, pred);
        if !pred(i) && indexes(n, pred).contains(i as usize) {
            let k = choose|k: int| 0 <= k < before.len() && before[k] == i as usize;
            assert(before[k] < n - 1);
        }
    }
}

proof fn lemma_indexes_below(n: nat, pred: spec_fn(int) -> bool)
    requires
        n <= usize::MAX,
    ensures
        forall|k: int| 0 <= k < indexes(n, pred).len() ==> (#[trigger] indexes(n, pred)[k]) < n,
    decreases n,
{
    if n > 0 {
        lemma_indexes_below((n - 1) as nat, pred);
        let before = indexes((n - 1) as nat, pred);
        assert forall|k: int| 0 <= k < indexes(n, pred).len() implies (#[trigger] indexes(
            n,
            pred,
        )[k]) < n by {
            if k < before.len() {
                assert(indexes(n, pred)[k] == before[k]);
            }
        }
    }
}

/// A list of indexes holds exactly the numbers that it is made for.
pub proof fn law_a_list_of_indexes_holds_what_it_is_made_for(
    n: nat,
    pred: spec_fn(int) -> bool,
    i: int,
)
    requires
        n <= usize::MAX,
        0 <= i < n,
    ensures
        indexes(n, pred).contains(i as usize) <==> pred(i),
        indexes(n, pred).len() <= n,
{
    lemma_indexes_hold(n, pred, i);
    lemma_indexes_short(n, pred);
}

proof fn lemma_indexes_short(n: nat, pred: spec_fn(int) -> bool)
    ensures
        indexes(n, pred).len() <= n,
    decreases n,
{
    if n > 0 {
        lemma_indexes_short((n - 1) as nat, pred);
    }
}

/// The indexes that meet a condition are listed from the first to the last, each
/// once, and each meets it.
pub proof fn law_indexes_are_in_order(n: nat, pred: spec_fn(int) -> bool)
    requires
        n <= usize::MAX,
    ensures
        forall|k: int|
            0 <= k < indexes(n, pred).len() ==> (#[trigger] indexes(n, pred)[k]) < n && pred(
                indexes(n, pred)[k] as int,
            ),
        forall|j: int, k: int|
            0 <= j < k < indexes(n, pred).len() ==> (#[trigger] indexes(n, pred)[j]) < (
            #[trigger] indexes(n, pred)[k]),
    decreases n,
{
    if n > 0 {
        law_indexes_are_in_order((n - 1) as nat, pred);
        let before = indexes((n - 1) as nat, pred);
        let all = indexes(n, pred);
        assert forall|k: int| 0 <= k < all.len() implies (#[trigger] all[k]) < n && pred(
            all[k] as int,
        ) by {
            if k < before.len() {
                assert(all[k] == before[k]);
            }
        }
        assert forall|j: int, k: int| 0 <= j < k < all.len() implies (#[trigger] all[j]) < (
        #[trigger] all[k]) by {
            assert(all[j] == before[j]);
            if k < before.len() {
                assert(all[k] == before[k]);
            }
        }
    }
}

} // verus!
