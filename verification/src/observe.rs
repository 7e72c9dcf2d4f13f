//! Reading the screen: snapshot tokens, the cache of recent trees, and the
//! answers that carry a tree or its changes.

use vstd::prelude::*;

use crate::control::DeviceFacts;
use crate::element::{diff_element_rows, indexes, row_added, row_changed, row_kept, row_removed, ElementRow, ElementRowsDelta};
use crate::json::{json_document, json_text, put_field, Json, JsonView};
use crate::lifecycle::WdaLifecycleTransition;
use crate::locator::{app_change, app_changed_json, listed, settle_tree_is_sparse, sparse, strs};
use crate::reply::{
    array_of, array_text, index_array, index_items, json_reply, json_string_text, object_text,
    opt_str, opt_text, string_array, string_items, texts, ObjectText, Reply, ReplyView,
};
use crate::run::opt_field;
use crate::text::{decimal, same_text};

verus! {

/// The SHA-256 digest of some bytes.
pub uninterp spec fn sha256_of(bytes: Seq<u8>) -> Seq<u8>;

/// `sha2::Sha256::digest`: the digest, which is always 32 bytes. The hash itself
/// is not restated; it depends on the bytes alone and is named [`sha256_of`].
#[verifier::external_body]
fn sha256(bytes: &[u8]) -> (digest: Vec<u8>)
    ensures
        digest@ == sha256_of(bytes@),
        digest@.len() == 32,
{
    <sha2::Sha256 as sha2::Digest>::digest(bytes).to_vec()
}

/// Some bytes in URL-safe base64 without padding.
pub uninterp spec fn base64_url_text(bytes: Seq<u8>) -> Seq<char>;

/// `base64`'s `encode` with the `URL_SAFE_NO_PAD` engine. The encoding is not
/// restated; it depends on the bytes alone and is named [`base64_url_text`].
#[verifier::external_body]
fn base64_url(bytes: &[u8]) -> (text: String)
    ensures
        text@ == base64_url_text(bytes@),
{
    base64::Engine::encode(&base64::engine::general_purpose::URL_SAFE_NO_PAD, bytes)
}

/// The token of a tree, given the encoded rows: equal rows have equal tokens,
/// and nothing but the rows goes into it.
pub fn element_snapshot_id(encoded: &[u8]) -> (token: String)
    ensures
        token@ == base64_url_text(sha256_of(encoded@)),
{
    let digest = sha256(encoded);
    base64_url(digest.as_slice())
}

/// The trees that were read most recently, oldest first.
#[derive(Debug)]
pub struct SnapshotCache {
    entries: Vec<(String, Vec<ElementRow>)>,
}

/// A token and the tree it stands for.
pub struct SnapshotView {
    pub token: Seq<char>,
    pub rows: Seq<ElementRow>,
}

pub open spec fn snapshot_views(entries: Seq<(String, Vec<ElementRow>)>) -> Seq<SnapshotView> {
    entries.map_values(
        |e: (String, Vec<ElementRow>)| SnapshotView { token: e.0@, rows: e.1@ },
    )
}

/// How many trees are kept.
pub open spec fn snapshot_cap() -> nat {
    8
}

/// Without the first entry of this token.
pub open spec fn forget(cache: Seq<SnapshotView>, token: Seq<char>) -> Seq<SnapshotView>
    decreases cache.len(),
{
    if cache.len() == 0 {
        cache
    } else if cache[0].token == token {
        cache.skip(1)
    } else {
        seq![cache[0]] + forget(cache.skip(1), token)
    }
}

/// Without its oldest entries, as far as there are too many.
pub open spec fn newest(cache: Seq<SnapshotView>) -> Seq<SnapshotView> {
    if cache.len() > snapshot_cap() {
        cache.skip(cache.len() - snapshot_cap())
    } else {
        cache
    }
}

/// The tree as the newest entry, and the only one of its token.
pub open spec fn remembered(
    cache: Seq<SnapshotView>,
    token: Seq<char>,
    rows: Seq<ElementRow>,
) -> Seq<SnapshotView> {
    newest(forget(cache, token).push(SnapshotView { token, rows }))
}

/// The tree that a token stands for.
pub open spec fn recall(cache: Seq<SnapshotView>, token: Seq<char>) -> Option<Seq<ElementRow>>
    decreases cache.len(),
{
    if cache.len() == 0 {
        None
    } else if cache[0].token == token {
        Some(cache[0].rows)
    } else {
        recall(cache.skip(1), token)
    }
}

/// No token stands twice, and not too many trees are kept.
pub open spec fn cache_valid(cache: Seq<SnapshotView>) -> bool {
    &&& cache.len() <= snapshot_cap()
    &&& forall|i: int, j: int|
        0 <= i < j < cache.len() ==> (#[trigger] cache[i]).token != (#[trigger] cache[j]).token
}

impl View for SnapshotCache {
    type V = Seq<SnapshotView>;

    closed spec fn view(&self) -> Seq<SnapshotView> {
        snapshot_views(self.entries@)
    }
}

proof fn lemma_forget_at(cache: Seq<SnapshotView>, token: Seq<char>, i: int)
    requires
        0 <= i <= cache.len(),
        forall|k: int| 0 <= k < i ==> (#[trigger] cache[k]).token != token,
        i < cache.len() ==> cache[i].token == token,
    ensures
        forget(cache, token) == (if i < cache.len() {
            cache.remove(i)
        } else {
            cache
        }),
    decreases cache.len(),
{
    if cache.len() == 0 {
    } else if cache[0].token == token {
        assert(i == 0);
        assert(cache.skip(1) =~= cache.remove(0));
    } else {
        assert(i > 0);
        let rest = cache.skip(1);
        assert forall|k: int| 0 <= k < i - 1 implies (#[trigger] rest[k]).token != token by {
            assert(cache[k + 1].token != token);
        }
        lemma_forget_at(rest, token, i - 1);
        if i < cache.len() {
            assert(forget(cache, token) =~= cache.remove(i));
        } else {
            assert(forget(cache, token) =~= cache);
        }
    }
}

proof fn lemma_recall_at(cache: Seq<SnapshotView>, token: Seq<char>, i: int)
    requires
        0 <= i <= cache.len(),
        forall|k: int| 0 <= k < i ==> (#[trigger] cache[k]).token != token,
        i < cache.len() ==> cache[i].token == token,
    ensures
        recall(cache, token) == (if i < cache.len() {
            Some(cache[i].rows)
        } else {
            None
        }),
    decreases cache.len(),
{
    if cache.len() > 0 && cache[0].token != token {
        let rest = cache.skip(1);
        assert forall|k: int| 0 <= k < i - 1 implies (#[trigger] rest[k]).token != token by {
            assert(cache[k + 1].token != token);
        }
        lemma_recall_at(rest, token, i - 1);
    }
}

/// Without a token's entry, the token stands nowhere and the others stand as
/// they did.
proof fn lemma_forget_valid(cache: Seq<SnapshotView>, token: Seq<char>)
    requires
        cache_valid(cache),
    ensures
        cache_valid(forget(cache, token)),
        forall|k: int|
            0 <= k < forget(cache, token).len() ==> (#[trigger] forget(cache, token)[k]).token
                != token,
{
    if exists|i: int| 0 <= i < cache.len() && (#[trigger] cache[i]).token == token {
        let i = choose|i: int| 0 <= i < cache.len() && (#[trigger] cache[i]).token == token;
        lemma_forget_at(cache, token, i);
        let out = cache.remove(i);
        assert forall|k: int| 0 <= k < out.len() implies (#[trigger] out[k]).token != token by {
            if k < i {
                assert(cache[k].token != cache[i].token);
            } else {
                assert(cache[i].token != cache[k + 1].token);
            }
        }
        assert forall|a: int, b: int| 0 <= a < b < out.len() implies (#[trigger] out[a]).token != (
        #[trigger] out[b]).token by {
            let x = if a < i {
                a
            } else {
                a + 1
            };
            let y = if b < i {
                b
            } else {
                b + 1
            };
            assert(cache[x].token != cache[y].token);
        }
    } else {
        lemma_forget_at(cache, token, cache.len() as int);
    }
}

proof fn lemma_remembered_valid(cache: Seq<SnapshotView>, token: Seq<char>, rows: Seq<ElementRow>)
    requires
        cache_valid(cache),
    ensures
        cache_valid(remembered(cache, token, rows)),
        remembered(cache, token, rows).len() > 0,
        remembered(cache, token, rows).last() == (SnapshotView { token, rows }),
{
    lemma_forget_valid(cache, token);
    let kept = forget(cache, token);
    let all = kept.push(SnapshotView { token, rows });
    let out = remembered(cache, token, rows);
    let dropped = all.len() - out.len();
    assert forall|a: int, b: int| 0 <= a < b < out.len() implies (#[trigger] out[a]).token != (
    #[trigger] out[b]).token by {
        assert(out[a] == all[a + dropped]);
        assert(out[b] == all[b + dropped]);
        if b + dropped < kept.len() {
            assert(kept[a + dropped].token != kept[b + dropped].token);
        } else {
            assert(kept[a + dropped].token != token);
        }
    }
}

/// A tree that was just remembered is recalled by its token, whatever the cache
/// held before.
pub proof fn law_a_remembered_tree_is_recalled(
    cache: Seq<SnapshotView>,
    token: Seq<char>,
    rows: Seq<ElementRow>,
)
    requires
        cache_valid(cache),
    ensures
        recall(remembered(cache, token, rows), token) == Some(rows),
{
    lemma_remembered_valid(cache, token, rows);
    let out = remembered(cache, token, rows);
    let last = out.len() - 1;
    assert forall|k: int| 0 <= k < last implies (#[trigger] out[k]).token != token by {
        assert(out[k].token != out[last].token);
    }
    lemma_recall_at(out, token, last);
}

/// However many trees are remembered, the cache stays within its bound and keeps
/// one tree for each token.
pub proof fn law_the_snapshot_cache_stays_bounded(
    cache: Seq<SnapshotView>,
    token: Seq<char>,
    rows: Seq<ElementRow>,
)
    requires
        cache_valid(cache),
    ensures
        cache_valid(remembered(cache, token, rows)),
{
    lemma_remembered_valid(cache, token, rows);
}

impl SnapshotCache {
    #[verifier::type_invariant]
    spec fn inv(&self) -> bool {
        cache_valid(self@)
    }

    pub fn new() -> (cache: SnapshotCache)
        ensures
            cache@ == Seq::<SnapshotView>::empty(),
    {
        let cache = SnapshotCache { entries: Vec::new() };
        assert(cache@ =~= Seq::<SnapshotView>::empty());
        cache
    }

    /// Keeps a tree under its token. A tree that is read again counts as read
    /// now.
    pub fn remember_element_snapshot(self, token: &str, rows: Vec<ElementRow>) -> (cache:
        SnapshotCache)
        ensures
            cache@ == remembered(self@, token@, rows@),
            cache_valid(self@),
    {
        proof {
            use_type_invariant(&self);
        }
        let ghost before = self@;
        let mut entries = self.entries;
        let mut i: usize = 0;
        while i < entries.len() && !same_text(entries[i].0.as_str(), token)
            invariant
                i <= entries@.len(),
                before == snapshot_views(entries@),
                forall|k: int| 0 <= k < i ==> (#[trigger] before[k]).token != token@,
            decreases entries@.len() - i,
        {
            assert(before[i as int].token == entries@[i as int].0@);
            i += 1;
        }
        proof {
            if i < entries@.len() {
                assert(before[i as int].token == entries@[i as int].0@);
            }
            lemma_forget_at(before, token@, i as int);
        }
        if i < entries.len() {
            let ghost held = entries@;
            let _ = entries.remove(i);
            assert(snapshot_views(entries@) =~= before.remove(i as int));
        }
        let ghost kept = snapshot_views(entries@);
        assert(kept == forget(before, token@));
        entries.push((token.to_owned(), rows));
        let ghost all = kept.push(SnapshotView { token: token@, rows: rows@ });
        assert(snapshot_views(entries@) =~= all);
        if entries.len() > 8 {
            proof {
                lemma_forget_valid(before, token@);
            }
            let ghost held = entries@;
            let _ = entries.remove(0);
            assert(snapshot_views(entries@) =~= all.skip(1));
        }
        proof {
            lemma_remembered_valid(before, token@, rows@);
        }
        SnapshotCache { entries }
    }

    /// The tree that a token stands for, if it is still kept.
    pub fn lookup_element_snapshot(&self, token: &str) -> (rows: Option<&Vec<ElementRow>>)
        ensures
            match rows {
                Some(rows) => recall(self@, token@) == Some(rows@),
                None => recall(self@, token@) is None,
            },
    {
        let mut i: usize = 0;
        while i < self.entries.len() && !same_text(self.entries[i].0.as_str(), token)
            invariant
                i <= self.entries@.len(),
                forall|k: int| 0 <= k < i ==> (#[trigger] self@[k]).token != token@,
            decreases self.entries@.len() - i,
        {
            assert(self@[i as int].token == self.entries@[i as int].0@);
            i += 1;
        }
        proof {
            if i < self.entries@.len() {
                assert(self@[i as int].token == self.entries@[i as int].0@);
            }
            lemma_recall_at(self@, token@, i as int);
        }
        if i < self.entries.len() {
            Some(&self.entries[i].1)
        } else {
            None
        }
    }
}

/// How usable a tree is, in counts.
#[derive(Clone, Copy, Debug, PartialEq, Eq, Structural)]
pub struct AxCounts {
    pub n: usize,
    pub n_interactive: usize,
    /// Interactive rows with a label.
    pub n_labeled: usize,
    pub container_only: bool,
    pub max_depth: u32,
}

/// How many of the first `n` rows satisfy a condition.
pub open spec fn count_rows(
    rows: Seq<ElementRow>,
    n: nat,
    p: spec_fn(ElementRow) -> bool,
) -> nat
    decreases n,
{
    if n == 0 {
        0
    } else {
        count_rows(rows, (n - 1) as nat, p) + (if p(rows[n - 1]) {
            1nat
        } else {
            0nat
        })
    }
}

pub open spec fn deepest(rows: Seq<ElementRow>, n: nat) -> u32
    decreases n,
{
    if n == 0 {
        0
    } else if rows[n - 1].depth > deepest(rows, (n - 1) as nat) {
        rows[n - 1].depth
    } else {
        deepest(rows, (n - 1) as nat)
    }
}

pub open spec fn is_interactive(kinds: Seq<Seq<char>>, row: ElementRow) -> bool {
    kinds.contains(row.kind@)
}

/// Counts over a tree. `interactive` names the kinds that can be acted on.
pub fn ax_counts(rows: &Vec<ElementRow>, interactive: &Vec<&'static str>) -> (counts: AxCounts)
    ensures
        counts.n == rows@.len(),
        counts.n_interactive == count_rows(
            rows@,
            rows@.len(),
            |r: ElementRow| is_interactive(strs(interactive@), r),
        ),
        counts.n_labeled == count_rows(
            rows@,
            rows@.len(),
            |r: ElementRow| is_interactive(strs(interactive@), r) && r.label@.len() > 0,
        ),
        counts.container_only == sparse(rows@),
        counts.max_depth == deepest(rows@, rows@.len()),
{
    let ghost p = |r: ElementRow| is_interactive(strs(interactive@), r);
    let ghost q = |r: ElementRow|
        is_interactive(strs(interactive@), r) && r.label@.len() > 0;
    let mut n_interactive: usize = 0;
    let mut n_labeled: usize = 0;
    let mut max_depth: u32 = 0;
    let mut i: usize = 0;
    while i < rows.len()
        invariant
            i <= rows@.len(),
            p == (|r: ElementRow| is_interactive(strs(interactive@), r)),
            q == (|r: ElementRow|
                is_interactive(strs(interactive@), r) && r.label@.len() > 0),
            n_interactive == count_rows(rows@, i as nat, p),
            n_labeled == count_rows(rows@, i as nat, q),
            n_interactive <= i,
            n_labeled <= i,
            max_depth == deepest(rows@, i as nat),
        decreases rows@.len() - i,
    {
        let row = &rows[i];
        if listed(interactive, row.kind.as_str()) {
            assert(p(rows@[i as int]));
            n_interactive += 1;
            if !row.label.as_str().is_empty() {
                assert(q(rows@[i as int]));
                n_labeled += 1;
            } else {
                assert(!q(rows@[i as int]));
            }
        } else {
            assert(!p(rows@[i as int]));
            assert(!q(rows@[i as int]));
        }
        if row.depth > max_depth {
            max_depth = row.depth;
        }
        i += 1;
    }
    let container_only = settle_tree_is_sparse(rows);
    AxCounts { n: rows.len(), n_interactive, n_labeled, container_only, max_depth }
}

/// The text of one changed row: its index, and the row as JSON text.
pub open spec fn indexed_row(index: usize, row: Seq<char>) -> Seq<char> {
    object_text(seq![("element"@, row), ("index"@, decimal(index as nat))])
}

pub open spec fn indexed_rows(list: Seq<usize>, rows: Seq<Seq<char>>) -> Seq<Seq<char>> {
    Seq::new(list.len(), |k: int| indexed_row(list[k], rows[list[k] as int]))
}

pub open spec fn delta_fields(
    added: Seq<usize>,
    changed: Seq<usize>,
    removed: Seq<usize>,
    unchanged: nat,
    rows: Seq<Seq<char>>,
) -> Seq<(Seq<char>, Seq<char>)> {
    seq![
        ("added"@, array_text(indexed_rows(added, rows))),
        ("changed"@, array_text(indexed_rows(changed, rows))),
        ("removed"@, array_text(index_items(removed))),
        ("unchanged"@, decimal(unchanged)),
    ]
}

fn indexed_array(list: &Vec<usize>, rows: &Vec<String>) -> (text: String)
    requires
        forall|k: int| 0 <= k < list@.len() ==> #[trigger] list@[k] < rows@.len(),
    ensures
        text@ == array_text(indexed_rows(list@, texts(rows@))),
{
    let mut items: Vec<String> = Vec::new();
    let ghost all = indexed_rows(list@, texts(rows@));
    let mut k: usize = 0;
    assert(texts(items@) =~= all.take(0));
    while k < list.len()
        invariant
            k <= list@.len(),
            all == indexed_rows(list@, texts(rows@)),
            forall|k: int| 0 <= k < list@.len() ==> #[trigger] list@[k] < rows@.len(),
            texts(items@) == all.take(k as int),
        decreases list@.len() - k,
    {
        let index: usize = list[k];
        let item = ObjectText::new().raw("element", rows[index].as_str()).count(
            "index",
            index as u64,
        );
        assert(item.fields() =~= seq![
            ("element"@, texts(rows@)[index as int]),
            ("index"@, decimal(index as nat)),
        ]);
        let item = item.finish();
        let ghost before = items@;
        items.push(item);
        assert(texts(items@) =~= texts(before).push(item@));
        assert(all.take(k + 1) =~= all.take(k as int).push(all[k as int]));
        k += 1;
    }
    assert(all.take(k as int) =~= all);
    array_of(&items)
}

/// The text of a difference. `rows` holds the JSON text of each current row, so
/// that a changed row can be acted on without another read.
pub fn elements_delta_json(delta: &ElementRowsDelta, rows: &Vec<String>) -> (text: String)
    requires
        forall|k: int| 0 <= k < delta.added@.len() ==> #[trigger] delta.added@[k] < rows@.len(),
        forall|k: int|
            0 <= k < delta.changed@.len() ==> #[trigger] delta.changed@[k] < rows@.len(),
    ensures
        text@ == object_text(
            delta_fields(
                delta.added@,
                delta.changed@,
                delta.removed@,
                delta.unchanged as nat,
                texts(rows@),
            ),
        ),
{
    let added = indexed_array(&delta.added, rows);
    let changed = indexed_array(&delta.changed, rows);
    let removed = index_array(&delta.removed);
    let body = ObjectText::new().raw("added", added.as_str()).raw("changed", changed.as_str()).raw(
        "removed",
        removed.as_str(),
    ).count("unchanged", delta.unchanged as u64);
    assert(body.fields() =~= delta_fields(
        delta.added@,
        delta.changed@,
        delta.removed@,
        delta.unchanged as nat,
        texts(rows@),
    ));
    body.finish()
}

proof fn lemma_indexes_below(n: nat, p: spec_fn(int) -> bool)
    requires
        n <= usize::MAX,
    ensures
        forall|k: int| 0 <= k < indexes(n, p).len() ==> #[trigger] indexes(n, p)[k] < n,
    decreases n,
{
    if n > 0 {
        lemma_indexes_below((n - 1) as nat, p);
        let rest = indexes((n - 1) as nat, p);
        assert forall|k: int| 0 <= k < indexes(n, p).len() implies #[trigger] indexes(n, p)[k]
            < n by {
            if k < rest.len() {
                assert(rest[k] < n - 1);
            }
        }
    }
}

/// The fields of the difference between two trees.
pub open spec fn tree_delta_fields(
    baseline: Seq<ElementRow>,
    current: Seq<ElementRow>,
    rows: Seq<Seq<char>>,
) -> Seq<(Seq<char>, Seq<char>)> {
    delta_fields(
        indexes(current.len(), |i: int| row_added(baseline, current, i)),
        indexes(current.len(), |i: int| row_changed(baseline, current, i)),
        indexes(baseline.len(), |b: int| row_removed(baseline, current, b)),
        indexes(current.len(), |i: int| row_kept(baseline, current, i)).len(),
        rows,
    )
}

/// The text of the difference between two trees; `rows` holds the JSON text of
/// each current row.
pub fn tree_delta_text(
    baseline: &Vec<ElementRow>,
    current: &Vec<ElementRow>,
    rows: &Vec<String>,
) -> (text: String)
    requires
        rows@.len() == current@.len(),
    ensures
        text@ == object_text(tree_delta_fields(baseline@, current@, texts(rows@))),
{
    let delta = diff_element_rows(baseline, current);
    let count: usize = current.len();
    proof {
        lemma_indexes_below(count as nat, |i: int| row_added(baseline@, current@, i));
        lemma_indexes_below(count as nat, |i: int| row_changed(baseline@, current@, i));
    }
    elements_delta_json(&delta, rows)
}

/// The system alert that is showing: its text and its buttons.
#[derive(Debug)]
pub struct Alert {
    pub text: String,
    pub buttons: Vec<String>,
}

/// The alert block of an answer, as JSON text.
pub open spec fn alert_text(alert: Option<Alert>) -> Option<Seq<char>> {
    match alert {
        Some(alert) => Some(
            object_text(
                seq![
                    ("buttons"@, array_text(string_items(texts(alert.buttons@)))),
                    ("text"@, json_string_text(alert.text@)),
                ],
            ),
        ),
        None => None,
    }
}

/// The alert block of an answer; there is none while no alert is showing.
pub fn alert_json(alert: &Option<Alert>) -> (text: Option<String>)
    ensures
        opt_text(text) == alert_text(*alert),
{
    match alert {
        Some(a) => {
            let buttons = string_array(&a.buttons);
            let body = ObjectText::new().raw("buttons", buttons.as_str()).text(
                "text",
                a.text.as_str(),
            );
            assert(body.fields() =~= seq![
                ("buttons"@, array_text(string_items(texts(a.buttons@)))),
                ("text"@, json_string_text(a.text@)),
            ]);
            Some(body.finish())
        },
        None => None,
    }
}

/// The alert block as a document.
pub open spec fn alert_document(alert: Alert) -> JsonView {
    JsonView::Object(
        seq![
            ("text"@, JsonView::Text(alert.text@)),
            (
                "buttons"@,
                JsonView::List(texts(alert.buttons@).map_values(|s: Seq<char>| JsonView::Text(s))),
            ),
        ],
    )
}

fn text_list(items: &Vec<String>) -> (list: Json)
    ensures
        list@ == JsonView::List(texts(items@).map_values(|s: Seq<char>| JsonView::Text(s))),
{
    let mut out: Vec<Json> = Vec::new();
    let mut i: usize = 0;
    while i < items.len()
        invariant
            i <= items@.len(),
            out@.len() == i,
            forall|k: int| 0 <= k < i ==> (#[trigger] out@[k])@ == JsonView::Text(items@[k]@),
        decreases items@.len() - i,
    {
        out.push(Json::text(items[i].as_str()));
        i += 1;
    }
    let list = Json::List(out);
    assert(list@->List_0 =~= texts(items@).map_values(|s: Seq<char>| JsonView::Text(s)));
    list
}

/// A finished body with the alert block added: read, extended and written again.
/// A body that is no document is left as it is.
pub open spec fn with_alert(body: Seq<char>, alert: Option<Alert>) -> Seq<char> {
    match alert {
        None => body,
        Some(alert) => match json_document(body) {
            Some(document) => json_text(put_field(document, "alert"@, alert_document(alert))),
            None => body,
        },
    }
}

pub fn attach_alert(body: String, alert: &Option<Alert>) -> (with: String)
    ensures
        with@ == with_alert(body@, *alert),
{
    match alert {
        None => body,
        Some(a) => match Json::parse(body.as_str()) {
            Some(document) => {
                let block = Json::object().with("text", Json::text(a.text.as_str())).with(
                    "buttons",
                    text_list(&a.buttons),
                );
                assert(block@->Object_0 =~= alert_document(*a)->Object_0);
                let document = document.set("alert", block);
                document.render()
            },
            None => body,
        },
    }
}

/// The refusal of a read of the tree; `None` where it may go on.
pub open spec fn elements_refusal(facts: DeviceFacts) -> Option<ReplyView> {
    if !facts.direct {
        Some(json_reply(409, r#"{"elements":[],"error":"backend_is_mirror"}"#@))
    } else if facts.pending {
        Some(
            json_reply(
                409,
                r#"{"elements":[],"error":"target_not_configured","hint":"run setup-wda.sh to select and persist the canonical iPhone before using Direct control"}"#@,
            ),
        )
    } else if facts.transition != WdaLifecycleTransition::Active || facts.released {
        Some(
            json_reply(
                503,
                r#"{"elements":[],"error":"device_transition_in_progress","transitioning":true}"#@,
            ),
        )
    } else if !facts.has_runner {
        Some(json_reply(503, r#"{"elements":[],"error":"wda_not_configured"}"#@))
    } else {
        None
    }
}

/// Refuses a read of the tree where the phone cannot be read. The failure is in
/// the status: an empty tree with success could not be told from an empty
/// screen.
pub fn agent_elements_refusal(facts: DeviceFacts) -> (refusal: Option<Reply>)
    ensures
        match refusal {
            Some(reply) => elements_refusal(facts) == Some(reply@),
            None => elements_refusal(facts) is None,
        },
{
    if !facts.direct {
        return Some(Reply::fixed(409, r#"{"elements":[],"error":"backend_is_mirror"}"#));
    }
    if facts.pending {
        return Some(
            Reply::fixed(
                409,
                r#"{"elements":[],"error":"target_not_configured","hint":"run setup-wda.sh to select and persist the canonical iPhone before using Direct control"}"#,
            ),
        );
    }
    if facts.transition != WdaLifecycleTransition::Active || facts.released {
        return Some(
            Reply::fixed(
                503,
                r#"{"elements":[],"error":"device_transition_in_progress","transitioning":true}"#,
            ),
        );
    }
    if !facts.has_runner {
        return Some(Reply::fixed(503, r#"{"elements":[],"error":"wda_not_configured"}"#));
    }
    None
}

/// Why a read of the tree failed.
#[derive(Clone, Copy, Debug, PartialEq, Eq, Structural)]
pub enum ElementsFailure {
    Source,
    Timeout,
    Serialization,
}

pub open spec fn elements_failure(failure: ElementsFailure) -> ReplyView {
    match failure {
        ElementsFailure::Source => json_reply(
            502,
            r#"{"elements":[],"error":"wda_source_failed","transitioning":true}"#@,
        ),
        ElementsFailure::Timeout => json_reply(
            504,
            r#"{"elements":[],"error":"wda_source_timeout","transitioning":true,"retry_after_secs":3,"hint":"the accessibility tree took too long to serialize (heavy page or stalled app); wait retry_after_secs and read again, or bring a lighter screen to the foreground first"}"#@,
        ),
        ElementsFailure::Serialization => json_reply(
            500,
            r#"{"elements":[],"error":"serialization_failed"}"#@,
        ),
    }
}

/// A screen that could not be read is never answered as one: every refusal and
/// every failure says so in its status.
pub proof fn law_an_unread_screen_is_no_empty_screen(facts: DeviceFacts, failure: ElementsFailure)
    ensures
        elements_failure(failure).status >= 500,
        elements_refusal(facts) matches Some(reply) ==> reply.status >= 400,
        elements_refusal(facts) is None <==> facts.direct && !facts.pending && facts.transition
            == WdaLifecycleTransition::Active && !facts.released && facts.has_runner,
{
}

pub fn agent_elements_failure(failure: ElementsFailure) -> (reply: Reply)
    ensures
        reply@ == elements_failure(failure),
{
    match failure {
        ElementsFailure::Source => Reply::fixed(
            502,
            r#"{"elements":[],"error":"wda_source_failed","transitioning":true}"#,
        ),
        ElementsFailure::Timeout => Reply::fixed(
            504,
            r#"{"elements":[],"error":"wda_source_timeout","transitioning":true,"retry_after_secs":3,"hint":"the accessibility tree took too long to serialize (heavy page or stalled app); wait retry_after_secs and read again, or bring a lighter screen to the foreground first"}"#,
        ),
        ElementsFailure::Serialization => Reply::fixed(
            500,
            r#"{"elements":[],"error":"serialization_failed"}"#,
        ),
    }
}

/// What to do after a failed attempt to read the tree.
#[derive(Clone, Copy, Debug, PartialEq, Eq, Structural)]
pub enum SourceRetry {
    /// Rebuild the session, sleep this long and try again.
    Sleep { ms: u64 },
    GiveUp,
}

/// Reads change nothing, so they are retried until the deadline.
pub fn source_retry(now: u64, deadline: u64) -> (retry: SourceRetry)
    ensures
        retry == (if now >= deadline {
            SourceRetry::GiveUp
        } else if deadline - now < 250 {
            SourceRetry::Sleep { ms: (deadline - now) as u64 }
        } else {
            SourceRetry::Sleep { ms: 250 }
        }),
{
    if now >= deadline {
        SourceRetry::GiveUp
    } else if deadline - now < 250 {
        SourceRetry::Sleep { ms: deadline - now }
    } else {
        SourceRetry::Sleep { ms: 250 }
    }
}

/// The token to compare against: a non-empty one whose tree is still kept.
pub open spec fn baseline_of(since: Option<Seq<char>>, cache: Seq<SnapshotView>) -> Option<
    (Seq<char>, Seq<ElementRow>),
> {
    match since {
        Some(since) => if since.len() == 0 {
            None
        } else {
            match recall(cache, since) {
                Some(rows) => Some((since, rows)),
                None => None,
            }
        },
        None => None,
    }
}

/// The texts that the caller provides for an answer with a tree: the screen's
/// size, the statistics, the whole list of rows, and each row.
#[derive(Debug)]
pub struct TreeTexts {
    pub screen: String,
    pub ax_stats: String,
    pub elements: String,
    pub rows: Vec<String>,
}

/// The fields of the answer to a read of the tree: the changes against a tree
/// that is still known, else the whole of it.
pub open spec fn elements_fields(
    snapshot: Seq<char>,
    baseline: Option<(Seq<char>, Seq<ElementRow>)>,
    current: Seq<ElementRow>,
    t: TreeTexts,
    alert: Option<Alert>,
) -> Seq<(Seq<char>, Seq<char>)> {
    match baseline {
        Some((since, rows)) => opt_field("alert"@, alert_text(alert)) + opt_field(
            "app_changed"@,
            app_change(rows, current),
        ) + seq![
            ("ax_stats"@, t.ax_stats@),
            ("baseline"@, json_string_text(since)),
            ("delta"@, object_text(tree_delta_fields(rows, current, texts(t.rows@)))),
            ("screen"@, t.screen@),
            ("snapshot"@, json_string_text(snapshot)),
        ],
        None => opt_field("alert"@, alert_text(alert)) + seq![
            ("ax_stats"@, t.ax_stats@),
            ("elements"@, t.elements@),
            ("screen"@, t.screen@),
            ("snapshot"@, json_string_text(snapshot)),
        ],
    }
}

/// One more field, where there is one.
pub fn put_opt(body: ObjectText, name: &str, value: &Option<String>) -> (next: ObjectText)
    ensures
        next.fields() == body.fields() + opt_field(name@, opt_text(*value)),
{
    match value {
        Some(value) => {
            let next = body.raw(name, value.as_str());
            assert(next.fields() =~= body.fields() + opt_field(name@, Some(value@)));
            next
        },
        None => {
            assert(body.fields() =~= body.fields() + opt_field(name@, None));
            body
        },
    }
}

/// Answers a read of the tree. `cache` is the cache in which this read is already
/// kept.
pub fn agent_elements_reply(
    cache: &SnapshotCache,
    since: Option<&str>,
    snapshot: &str,
    current: &Vec<ElementRow>,
    t: &TreeTexts,
    alert: &Option<Alert>,
) -> (reply: Reply)
    requires
        t.rows@.len() == current@.len(),
    ensures
        reply@ == json_reply(
            200,
            object_text(
                elements_fields(
                    snapshot@,
                    baseline_of(opt_str(since), cache@),
                    current@,
                    *t,
                    *alert,
                ),
            ),
        ),
{
    let block = alert_json(alert);
    let body = put_opt(ObjectText::new(), "alert", &block);
    let baseline = match since {
        Some(token) if !token.is_empty() => cache.lookup_element_snapshot(token),
        _ => None,
    };
    match (since, baseline) {
        (Some(token), Some(rows)) => {
            let change = app_changed_json(rows, current);
            let delta = tree_delta_text(rows, current, &t.rows);
            let body = put_opt(body, "app_changed", &change).raw(
                "ax_stats",
                t.ax_stats.as_str(),
            ).text("baseline", token).raw("delta", delta.as_str()).raw(
                "screen",
                t.screen.as_str(),
            ).text("snapshot", snapshot);
            assert(body.fields() =~= elements_fields(
                snapshot@,
                Some((token@, rows@)),
                current@,
                *t,
                *alert,
            ));
            Reply::json(200, body.finish())
        },
        _ => {
            let body = body.raw("ax_stats", t.ax_stats.as_str()).raw(
                "elements",
                t.elements.as_str(),
            ).raw("screen", t.screen.as_str()).text("snapshot", snapshot);
            assert(body.fields() =~= elements_fields(snapshot@, None, current@, *t, *alert));
            Reply::json(200, body.finish())
        },
    }
}

/// What is remembered stands last; what was known under the same token is
/// replaced, all else stays in its order, and the oldest leaves where there would
/// be more than eight.
pub proof fn law_the_latest_tree_stands_last(
    cache: Seq<SnapshotView>,
    token: Seq<char>,
    rows: Seq<ElementRow>,
)
    ensures
        remembered(cache, token, rows).len() > 0,
        remembered(cache, token, rows).last() == (SnapshotView { token, rows }),
        recall(cache, token) is None && cache.len() < 8 ==> remembered(cache, token, rows)
            == cache.push(SnapshotView { token, rows }),
        recall(cache, token) is None && cache.len() == 8 ==> remembered(cache, token, rows)
            == cache.skip(1).push(SnapshotView { token, rows }),
        recall(cache, token) is Some && cache.len() <= 8 ==> remembered(cache, token, rows).len()
            == cache.len(),
        snapshot_cap() == 8,
{
    lemma_forget(cache, token);
    let all = forget(cache, token).push(SnapshotView { token, rows });
    if recall(cache, token) is None && cache.len() == 8 {
        assert(all.skip(1) =~= cache.skip(1).push(SnapshotView { token, rows }));
    }
}

proof fn lemma_forget(cache: Seq<SnapshotView>, token: Seq<char>)
    ensures
        recall(cache, token) is None ==> forget(cache, token) == cache,
        recall(cache, token) is Some ==> forget(cache, token).len() == cache.len() - 1,
    decreases cache.len(),
{
    if cache.len() > 0 && cache[0].token != token {
        lemma_forget(cache.skip(1), token);
        assert(seq![cache[0]] + cache.skip(1) =~= cache);
    }
}

/// A screen is read only from a phone that is driven directly, is chosen, is in
/// use and has a runner; a read that is refused or fails says which of these is
/// missing, or how it failed.
pub proof fn law_a_screen_is_read_only_from_a_phone_in_use(facts: DeviceFacts)
    ensures
        elements_refusal(facts) is None <==> facts.direct && !facts.pending && facts.transition
            is Active && !facts.released && facts.has_runner,
        !facts.direct ==> elements_refusal(facts) == Some(
            json_reply(409, r#"{"elements":[],"error":"backend_is_mirror"}"#@),
        ),
        facts.direct && facts.pending ==> elements_refusal(facts)->0.status == 409,
        facts.direct && !facts.pending && (facts.transition !is Active || facts.released)
            ==> elements_refusal(facts) == Some(
            json_reply(
                503,
                r#"{"elements":[],"error":"device_transition_in_progress","transitioning":true}"#@,
            ),
        ),
        facts.direct && !facts.pending && facts.transition is Active && !facts.released
            && !facts.has_runner ==> elements_refusal(facts) == Some(
            json_reply(503, r#"{"elements":[],"error":"wda_not_configured"}"#@),
        ),
        elements_failure(ElementsFailure::Source) == json_reply(
            502,
            r#"{"elements":[],"error":"wda_source_failed","transitioning":true}"#@,
        ),
        elements_failure(ElementsFailure::Timeout).status == 504,
        elements_failure(ElementsFailure::Serialization) == json_reply(
            500,
            r#"{"elements":[],"error":"serialization_failed"}"#@,
        ),
{
}

/// A failed read is tried again a quarter of a second later, or at the deadline
/// where that is sooner; and not after it.
pub proof fn law_a_failed_read_is_tried_again_in_time(now: u64, deadline: u64, retry: SourceRetry)
    requires
        call_ensures(source_retry, (now, deadline), retry),
    ensures
        retry is GiveUp <==> now >= deadline,
        retry matches SourceRetry::Sleep { ms } ==> 0 < ms <= 250 && now + ms <= deadline && (ms
            == 250 || now + ms == deadline),
{
}

/// A change of the tree is told row by row: what is new and what is different with
/// its row and the number of it, what is gone by its number, and how many stayed.
pub proof fn law_a_difference_is_told_row_by_row(
    added: Seq<usize>,
    changed: Seq<usize>,
    removed: Seq<usize>,
    unchanged: nat,
    rows: Seq<Seq<char>>,
    k: int,
)
    ensures
        ({
            let all = delta_fields(added, changed, removed, unchanged, rows);
            &&& all.contains(("added"@, array_text(indexed_rows(added, rows))))
            &&& all.contains(("changed"@, array_text(indexed_rows(changed, rows))))
            &&& all.contains(("removed"@, array_text(index_items(removed))))
            &&& all.contains(("unchanged"@, decimal(unchanged)))
            &&& all.len() == 4
        }),
        indexed_rows(added, rows).len() == added.len(),
        0 <= k < added.len() ==> indexed_rows(added, rows)[k] == object_text(
            seq![
                ("element"@, rows[added[k] as int]),
                ("index"@, decimal(added[k] as nat)),
            ],
        ),
{
    let all = delta_fields(added, changed, removed, unchanged, rows);
    assert(all[0] == ("added"@, array_text(indexed_rows(added, rows))));
    assert(all[1] == ("changed"@, array_text(indexed_rows(changed, rows))));
    assert(all[2] == ("removed"@, array_text(index_items(removed))));
    assert(all[3] == ("unchanged"@, decimal(unchanged)));
}

/// The difference between two trees lists each row under what became of it.
pub proof fn law_a_difference_lists_each_row_under_its_fate(
    baseline: Seq<ElementRow>,
    current: Seq<ElementRow>,
    rows: Seq<Seq<char>>,
)
    ensures
        tree_delta_fields(baseline, current, rows) == delta_fields(
            indexes(current.len(), |i: int| row_added(baseline, current, i)),
            indexes(current.len(), |i: int| row_changed(baseline, current, i)),
            indexes(baseline.len(), |b: int| row_removed(baseline, current, b)),
            indexes(current.len(), |i: int| row_kept(baseline, current, i)).len(),
            rows,
        ),
{
}

/// A screen is answered with its snapshot, its size and its counts; with the
/// change since the snapshot that was named, where that one is known, and else
/// with the whole tree; and with the alert that stands on it.
pub proof fn law_a_screen_is_answered_whole_or_by_its_change(
    snapshot: Seq<char>,
    since: Seq<char>,
    rows: Seq<ElementRow>,
    current: Seq<ElementRow>,
    t: TreeTexts,
    alert: Option<Alert>,
)
    ensures
        ({
            let whole = elements_fields(snapshot, None, current, t, alert);
            &&& whole.contains(("ax_stats"@, t.ax_stats@))
            &&& whole.contains(("elements"@, t.elements@))
            &&& whole.contains(("screen"@, t.screen@))
            &&& whole.contains(("snapshot"@, json_string_text(snapshot)))
            &&& alert is Some ==> whole.contains(("alert"@, alert_text(alert)->0))
            &&& whole.len() == 4 + (if alert is Some {
                1int
            } else {
                0
            })
        }),
        ({
            let change = elements_fields(snapshot, Some((since, rows)), current, t, alert);
            &&& change.contains(("ax_stats"@, t.ax_stats@))
            &&& change.contains(("baseline"@, json_string_text(since)))
            &&& change.contains(
                ("delta"@, object_text(tree_delta_fields(rows, current, texts(t.rows@)))),
            )
            &&& change.contains(("screen"@, t.screen@))
            &&& change.contains(("snapshot"@, json_string_text(snapshot)))
            &&& alert is Some ==> change.contains(("alert"@, alert_text(alert)->0))
            &&& app_change(rows, current) matches Some(text) ==> change.contains(
                ("app_changed"@, text),
            )
        }),
{
    let a: int = if alert is Some {
        1
    } else {
        0
    };
    let whole = elements_fields(snapshot, None, current, t, alert);
    let change = elements_fields(snapshot, Some((since, rows)), current, t, alert);
    if alert is Some {
        assert(whole[0] == ("alert"@, alert_text(alert)->0));
        assert(change[0] == ("alert"@, alert_text(alert)->0));
    }
    assert(whole[a] == ("ax_stats"@, t.ax_stats@));
    assert(whole[a + 1] == ("elements"@, t.elements@));
    assert(whole[a + 2] == ("screen"@, t.screen@));
    assert(whole[a + 3] == ("snapshot"@, json_string_text(snapshot)));
    let p: int = if app_change(rows, current) is Some {
        1
    } else {
        0
    };
    if let Some(text) = app_change(rows, current) {
        assert(change[a] == ("app_changed"@, text));
    }
    assert(change[a + p] == ("ax_stats"@, t.ax_stats@));
    assert(change[a + p + 1] == ("baseline"@, json_string_text(since)));
    assert(change[a + p + 2] == (
        "delta"@,
        object_text(tree_delta_fields(rows, current, texts(t.rows@))),
    ));
    assert(change[a + p + 3] == ("screen"@, t.screen@));
    assert(change[a + p + 4] == ("snapshot"@, json_string_text(snapshot)));
}

/// A change is told only from a snapshot that is named and known.
pub proof fn law_a_baseline_is_named_and_known(since: Seq<char>, cache: Seq<SnapshotView>)
    ensures
        baseline_of(None, cache) is None,
        since.len() == 0 ==> baseline_of(Some(since), cache) is None,
        since.len() > 0 ==> (recall(cache, since) matches Some(rows) ==> baseline_of(
            Some(since),
            cache,
        ) == Some((since, rows))),
        since.len() > 0 && recall(cache, since) is None ==> baseline_of(Some(since), cache) is None,
{
}

/// An alert is told with its text and its buttons.
pub proof fn law_an_alert_is_told_with_its_buttons(alert: Alert, body: Seq<char>)
    ensures
        alert_text(None) is None,
        alert_text(Some(alert)) == Some(
            object_text(
                seq![
                    ("buttons"@, array_text(string_items(texts(alert.buttons@)))),
                    ("text"@, json_string_text(alert.text@)),
                ],
            ),
        ),
        with_alert(body, None) == body,
        json_document(body) matches Some(v) ==> with_alert(body, Some(alert)) == json_text(
            put_field(v, "alert"@, alert_document(alert)),
        ),
        alert_document(alert) matches JsonView::Object(fields) && fields.len() == 2 && fields[0] == (
            "text"@,
            JsonView::Text(alert.text@),
        ) && fields[1].0 == "buttons"@,
{
}

/// Rows are counted one by one, and the depth that is told is that of the deepest.
pub proof fn law_rows_are_counted_one_by_one(
    rows: Seq<ElementRow>,
    n: nat,
    p: spec_fn(ElementRow) -> bool,
    i: int,
)
    requires
        n <= rows.len(),
    ensures
        count_rows(rows, n, p) <= n,
        (forall|k: int| 0 <= k < n ==> p(#[trigger] rows[k])) ==> count_rows(rows, n, p) == n,
        (forall|k: int| 0 <= k < n ==> !p(#[trigger] rows[k])) ==> count_rows(rows, n, p) == 0,
        0 <= i < n && p(rows[i]) ==> count_rows(rows, n, p) >= 1,
        0 <= i < n && !p(rows[i]) ==> count_rows(rows, n, p) < n,
        0 <= i < n ==> rows[i].depth <= deepest(rows, n),
        n > 0 ==> exists|k: int| 0 <= k < n && (#[trigger] rows[k]).depth == deepest(rows, n),
    decreases n,
{
    if n > 0 {
        let m = (n - 1) as nat;
        law_rows_are_counted_one_by_one(rows, m, p, i);
        if rows[n - 1].depth > deepest(rows, m) {
            assert(rows[n - 1].depth == deepest(rows, n));
        } else if m == 0 {
            assert(rows[0].depth == deepest(rows, n));
        }
    }
}

} // verus!
