//! What the phone sends back: a bounded list of documents for agents to read.

use vstd::prelude::*;

use crate::json::{json_document, json_text, Json, JsonView};
use crate::reply::{
    array_of, array_text, json_reply, object_text, plain_reply, texts, ObjectText, Reply,
};
use crate::text::decimal;

verus! {

/// One document from the phone.
#[derive(Debug)]
pub struct InboxItem {
    /// Unix seconds of its arrival.
    pub received_at: u64,
    pub body: Json,
}

/// The content of an [`InboxItem`].
pub struct ItemView {
    pub received_at: u64,
    pub body: JsonView,
}

impl View for InboxItem {
    type V = ItemView;

    open spec fn view(&self) -> ItemView {
        ItemView { received_at: self.received_at, body: self.body@ }
    }
}

/// What waits to be read, oldest first.
#[derive(Debug)]
pub struct Inbox {
    items: Vec<InboxItem>,
}

pub open spec fn item_views(items: Seq<InboxItem>) -> Seq<ItemView> {
    items.map_values(|item: InboxItem| item@)
}

impl View for Inbox {
    type V = Seq<ItemView>;

    closed spec fn view(&self) -> Seq<ItemView> {
        item_views(self.items@)
    }
}

/// How many documents are kept.
pub open spec fn inbox_cap() -> nat {
    64
}

/// What the phone sent: a document, or a text that is none.
pub open spec fn sent(text: Seq<char>) -> JsonView {
    match json_document(text) {
        Some(document) => document,
        None => JsonView::Text(text),
    }
}

/// The last of some documents.
pub open spec fn newest(items: Seq<ItemView>) -> Seq<ItemView> {
    if items.len() > inbox_cap() {
        items.skip(items.len() - inbox_cap())
    } else {
        items
    }
}

/// What waits after one more document arrived.
pub open spec fn received(items: Seq<ItemView>, text: Seq<char>, now: u64) -> Seq<ItemView> {
    newest(items.push(ItemView { received_at: now, body: sent(text) }))
}

pub open spec fn item_text(item: ItemView) -> Seq<char> {
    object_text(
        seq![
            ("body"@, json_text(item.body)),
            ("received_at"@, decimal(item.received_at as nat)),
        ],
    )
}

pub open spec fn item_texts(items: Seq<ItemView>) -> Seq<Seq<char>> {
    items.map_values(|item: ItemView| item_text(item))
}

pub open spec fn inbox_text(items: Seq<ItemView>) -> Seq<char> {
    object_text(seq![("items"@, array_text(item_texts(items)))])
}

fn items_text(items: &Vec<InboxItem>) -> (text: String)
    ensures
        text@ == inbox_text(item_views(items@)),
{
    let ghost all = item_texts(item_views(items@));
    let mut out: Vec<String> = Vec::new();
    let mut i: usize = 0;
    while i < items.len()
        invariant
            i <= items@.len(),
            all == item_texts(item_views(items@)),
            texts(out@) == all.take(i as int),
        decreases items@.len() - i,
    {
        let body = items[i].body.render();
        let one = ObjectText::new().raw("body", body.as_str()).count(
            "received_at",
            items[i].received_at,
        );
        assert(one.fields() =~= seq![
            ("body"@, json_text(items@[i as int].body@)),
            ("received_at"@, decimal(items@[i as int].received_at as nat)),
        ]);
        let one = one.finish();
        let ghost before = texts(out@);
        out.push(one);
        assert(texts(out@) =~= before.push(one@));
        assert(all.take(i + 1) =~= all.take(i as int).push(all[i as int]));
        i += 1;
    }
    assert(all.take(i as int) =~= all);
    let list = array_of(&out);
    let body = ObjectText::new().raw("items", list.as_str());
    assert(body.fields() =~= seq![("items"@, array_text(all))]);
    body.finish()
}

impl Inbox {
    pub fn new() -> (inbox: Inbox)
        ensures
            inbox@ == Seq::<ItemView>::empty(),
    {
        let inbox = Inbox { items: Vec::new() };
        assert(inbox@ =~= Seq::<ItemView>::empty());
        inbox
    }

    /// Takes in what the phone sent; the oldest goes where there are too many.
    pub fn agent_inbox_post(&mut self, text: &str, now: u64) -> (reply: Reply)
        ensures
            final(self)@ == received(old(self)@, text@, now),
            reply@ == plain_reply(200, "accepted"@),
    {
        let body = match Json::parse(text) {
            Some(document) => document,
            None => Json::text(text),
        };
        let ghost before = self@;
        self.items.push(InboxItem { received_at: now, body });
        let ghost all = before.push(ItemView { received_at: now, body: sent(text@) });
        assert(item_views(self.items@) =~= all);
        let ghost mut gone: int = 0;
        assert(all.skip(0) =~= all);
        while self.items.len() > 64
            invariant
                0 <= gone <= all.len(),
                item_views(self.items@) == all.skip(gone),
                gone > 0 ==> all.len() - gone >= inbox_cap(),
            decreases self.items@.len(),
        {
            let ghost held = self.items@;
            self.items.remove(0);
            assert(item_views(self.items@) =~= item_views(held).skip(1));
            assert(all.skip(gone).skip(1) =~= all.skip(gone + 1));
            proof {
                gone = gone + 1;
            }
        }
        Reply::plain(200, "accepted")
    }

    /// What waits, without taking it.
    pub fn agent_inbox_get(&self) -> (reply: Reply)
        ensures
            reply@ == json_reply(200, inbox_text(self@)),
    {
        Reply::json(200, items_text(&self.items))
    }

    /// What waits, taken in one step: nothing is read twice, and nothing is lost
    /// in between.
    pub fn agent_inbox_drain(&mut self) -> (reply: Reply)
        ensures
            reply@ == json_reply(200, inbox_text(old(self)@)),
            final(self)@ == Seq::<ItemView>::empty(),
    {
        let reply = Reply::json(200, items_text(&self.items));
        self.items = Vec::new();
        assert(self@ =~= Seq::<ItemView>::empty());
        reply
    }
}

/// Never more than so many documents wait, and they are the latest that came,
/// in order.
pub proof fn law_the_inbox_keeps_the_latest(items: Seq<ItemView>, text: Seq<char>, now: u64)
    ensures
        received(items, text, now).len() <= inbox_cap(),
        received(items, text, now).last() == (ItemView { received_at: now, body: sent(text) }),
        exists|from: int|
            0 <= from <= items.len() && received(items, text, now) == #[trigger] items.push(
                ItemView { received_at: now, body: sent(text) },
            ).skip(from),
        items.len() < inbox_cap() ==> received(items, text, now) == items.push(
            ItemView { received_at: now, body: sent(text) },
        ),
{
    let all = items.push(ItemView { received_at: now, body: sent(text) });
    assert(all.skip(0) =~= all);
    if all.len() <= inbox_cap() {
        assert(received(items, text, now) == all.skip(0));
    } else {
        assert(received(items, text, now) == all.skip(all.len() - inbox_cap()));
    }
}

/// What comes in is kept as the document that it is, or as the text that it is
/// where it is none, with the time at which it came; and it is told so.
pub proof fn law_what_comes_in_is_kept_as_it_came(
    items: Seq<ItemView>,
    text: Seq<char>,
    now: u64,
    i: int,
)
    ensures
        received(items, text, now).len() > 0,
        received(items, text, now).last().received_at == now,
        json_document(text) matches Some(v) ==> received(items, text, now).last().body == v,
        json_document(text) is None ==> received(items, text, now).last().body == JsonView::Text(
            text,
        ),
        items.len() < 64 ==> received(items, text, now).drop_last() == items,
        items.len() == 64 ==> received(items, text, now).drop_last() == items.skip(1),
        inbox_text(items) == object_text(seq![("items"@, array_text(item_texts(items)))]),
        item_texts(items).len() == items.len(),
        0 <= i < items.len() ==> item_texts(items)[i] == object_text(
            seq![
                ("body"@, json_text(items[i].body)),
                ("received_at"@, decimal(items[i].received_at as nat)),
            ],
        ),
{
    let all = items.push(ItemView { received_at: now, body: sent(text) });
    assert(items.len() < 64 ==> received(items, text, now) == all);
    assert(all.drop_last() =~= items);
    if items.len() == 64 {
        assert(received(items, text, now) =~= all.skip(1));
        assert(all.skip(1).drop_last() =~= items.skip(1));
    }
}

} // verus!
