//! Which of several cooperating sessions drives the phone.

use vstd::prelude::*;

use crate::json::{bool_of, field_of, json_document, Json};
use crate::reply::{
    json_reply, json_retry_reply, json_string, json_string_text, opt_str, Reply, ReplyView,
};
use crate::text::{chars_of, decimal, decimal_text, join3, same_text, trim, trimmed};

verus! {

/// The session that drives the phone: the name that it chose, and when it last
/// acted, in milliseconds on one monotonic clock.
#[derive(Debug)]
pub struct PhoneOwner {
    pub name: String,
    pub last_seen: u64,
}

/// The content of a [`PhoneOwner`].
pub struct OwnerView {
    pub name: Seq<char>,
    pub last_seen: u64,
}

impl View for PhoneOwner {
    type V = OwnerView;

    open spec fn view(&self) -> OwnerView {
        OwnerView { name: self.name@, last_seen: self.last_seen }
    }
}

pub open spec fn slot_view(slot: Option<PhoneOwner>) -> Option<OwnerView> {
    match slot {
        Some(owner) => Some(owner@),
        None => None,
    }
}

/// Who a control request comes from.
#[derive(Debug)]
pub enum OwnerClaim {
    /// It does not say.
    Anonymous,
    Named(String),
    /// A named session that takes the phone from whoever has it.
    Takeover(String),
}

/// The content of an [`OwnerClaim`].
pub enum ClaimView {
    Anonymous,
    Named(Seq<char>),
    Takeover(Seq<char>),
}

impl View for OwnerClaim {
    type V = ClaimView;

    open spec fn view(&self) -> ClaimView {
        match *self {
            OwnerClaim::Anonymous => ClaimView::Anonymous,
            OwnerClaim::Named(name) => ClaimView::Named(name@),
            OwnerClaim::Takeover(name) => ClaimView::Takeover(name@),
        }
    }
}

/// Why a request was refused: another session has the phone.
#[derive(Debug)]
pub struct OwnedByOther {
    pub owner: String,
    pub lease_remaining_secs: u64,
}

/// How long ago the owner acted.
pub open spec fn idle(owner: OwnerView, now: u64) -> int {
    if now > owner.last_seen {
        now - owner.last_seen
    } else {
        0
    }
}

/// Whether a lease still holds.
pub open spec fn lease_live(slot: Option<OwnerView>, now: u64, lease: u64) -> bool {
    slot matches Some(owner) && idle(owner, now) < lease
}

/// Whole seconds that a live lease still has.
pub open spec fn lease_left(owner: OwnerView, now: u64, lease: u64) -> nat {
    ((lease - idle(owner, now)) / 1000) as nat
}

/// Whether a request is admitted.
pub open spec fn admitted(slot: Option<OwnerView>, claim: ClaimView, now: u64, lease: u64) -> bool {
    lease_live(slot, now, lease) ==> match claim {
        ClaimView::Anonymous => false,
        ClaimView::Named(name) => slot->0.name == name,
        ClaimView::Takeover(_) => true,
    }
}

/// Who has the phone after a request.
pub open spec fn slot_after(
    slot: Option<OwnerView>,
    claim: ClaimView,
    now: u64,
    lease: u64,
) -> Option<OwnerView> {
    if !admitted(slot, claim, now, lease) {
        slot
    } else {
        match claim {
            ClaimView::Anonymous => None,
            ClaimView::Named(name) => Some(OwnerView { name, last_seen: now }),
            ClaimView::Takeover(name) => Some(OwnerView { name, last_seen: now }),
        }
    }
}

fn still_live(slot: &Option<PhoneOwner>, now: u64, lease: u64) -> (live: bool)
    ensures
        live == lease_live(slot_view(*slot), now, lease),
{
    match slot {
        Some(owner) => now.saturating_sub(owner.last_seen) < lease,
        None => false,
    }
}

fn left_of(owner: &PhoneOwner, now: u64, lease: u64) -> (left: u64)
    requires
        lease_live(Some(owner@), now, lease),
    ensures
        left == lease_left(owner@, now, lease),
{
    (lease - now.saturating_sub(owner.last_seen)) / 1000
}

/// Admits or refuses one control request, and records an admitted one.
///
/// Without a live lease a named session takes it and a nameless one leaves it
/// empty. A live lease is refreshed by its own session, refuses every other, and
/// yields to an explicit takeover.
pub fn arbitrate_owner(
    slot: &mut Option<PhoneOwner>,
    claim: &OwnerClaim,
    now: u64,
    lease: u64,
) -> (outcome: Result<(), OwnedByOther>)
    ensures
        slot_view(*final(slot)) == slot_after(slot_view(*old(slot)), claim@, now, lease),
        match outcome {
            Ok(_) => admitted(slot_view(*old(slot)), claim@, now, lease),
            Err(other) => {
                &&& !admitted(slot_view(*old(slot)), claim@, now, lease)
                &&& slot_view(*old(slot)) matches Some(owner) && {
                    &&& other.owner@ == owner.name
                    &&& other.lease_remaining_secs == lease_left(owner, now, lease)
                }
            },
        },
{
    if still_live(slot, now, lease) {
        if let Some(owner) = slot {
            let refused = match claim {
                OwnerClaim::Anonymous => true,
                OwnerClaim::Named(name) => !same_text(owner.name.as_str(), name.as_str()),
                OwnerClaim::Takeover(_) => false,
            };
            if refused {
                return Err(
                    OwnedByOther {
                        owner: owner.name.clone(),
                        lease_remaining_secs: left_of(owner, now, lease),
                    },
                );
            }
        }
    }
    match claim {
        OwnerClaim::Anonymous => {
            *slot = None;
        },
        OwnerClaim::Named(name) => {
            *slot = Some(PhoneOwner { name: name.clone(), last_seen: now });
        },
        OwnerClaim::Takeover(name) => {
            *slot = Some(PhoneOwner { name: name.clone(), last_seen: now });
        },
    }
    Ok(())
}

/// Visible ASCII and blanks, but no double quote.
pub open spec fn owner_char(c: char) -> bool {
    ' ' <= c && c <= '~' && c != '"'
}

/// A usable name: up to 64 visible ASCII characters, no quotes.
pub open spec fn owner_name_valid(name: Seq<char>) -> bool {
    1 <= name.len() <= 64 && forall|i: int| 0 <= i < name.len() ==> owner_char(#[trigger] name[i])
}

pub fn valid_owner_name(name: &str) -> (valid: bool)
    ensures
        valid == owner_name_valid(name@),
{
    let chars = chars_of(name);
    if chars.len() == 0 || chars.len() > 64 {
        return false;
    }
    let mut i: usize = 0;
    while i < chars.len()
        invariant
            i <= chars@.len(),
            chars@ == name@,
            forall|k: int| 0 <= k < i ==> owner_char(#[trigger] name@[k]),
        decreases chars@.len() - i,
    {
        let c = chars[i];
        if !(' ' <= c && c <= '~' && c != '"') {
            assert(!owner_char(name@[i as int]));
            return false;
        }
        i += 1;
    }
    true
}

pub open spec fn invalid_owner_reply() -> ReplyView {
    json_reply(
        400,
        r#"{"ok":false,"error":"invalid_owner","hint":"X-Phone-Owner must be 1-64 printable ASCII characters without quotes"}"#@,
    )
}

/// The claim in a request's headers; `None` where the name is not usable.
pub open spec fn claim_of(owner: Option<Seq<char>>, takeover: Option<Seq<char>>) -> Option<
    ClaimView,
> {
    match owner {
        None => Some(ClaimView::Anonymous),
        Some(raw) => if !owner_name_valid(trimmed(raw)) {
            None
        } else if takeover == Some("1"@) {
            Some(ClaimView::Takeover(trimmed(raw)))
        } else {
            Some(ClaimView::Named(trimmed(raw)))
        },
    }
}

/// Reads the claim from the two headers that carry it.
pub fn owner_claim_from_headers(owner: Option<&str>, takeover: Option<&str>) -> (claim: Result<
    OwnerClaim,
    Reply,
>)
    ensures
        match claim {
            Ok(claim) => claim_of(opt_str(owner), opt_str(takeover)) == Some(claim@),
            Err(reply) => {
                &&& claim_of(opt_str(owner), opt_str(takeover)) is None
                &&& reply@ == invalid_owner_reply()
            },
        },
{
    let raw = match owner {
        None => {
            return Ok(OwnerClaim::Anonymous);
        },
        Some(raw) => raw,
    };
    let name = trim(raw);
    if !valid_owner_name(name) {
        return Err(
            Reply::fixed(
                400,
                r#"{"ok":false,"error":"invalid_owner","hint":"X-Phone-Owner must be 1-64 printable ASCII characters without quotes"}"#,
            ),
        );
    }
    let takes = match takeover {
        Some(value) => same_text(value, "1"),
        None => false,
    };
    if takes {
        Ok(OwnerClaim::Takeover(name.to_string()))
    } else {
        Ok(OwnerClaim::Named(name.to_string()))
    }
}

/// The answer to a request that another session's lease refuses.
pub open spec fn owned_reply(owner: Seq<char>, left: nat) -> ReplyView {
    json_retry_reply(
        409,
        if left > 1 {
            left as u64
        } else {
            1
        },
        r#"{"ok":false,"error":"phone_owned","owner":"#@ + json_string_text(owner)
            + r#","owner_lease_remaining_secs":"#@ + decimal(left)
            + r#","outcome":"not_sent","hint":"another session is driving this phone; wait for its lease to lapse, ask it to release via POST /agent/owner, or send X-Phone-Owner-Takeover: 1 only if you are sure it is abandoned"}"#@,
    )
}

fn owned_response(other: &OwnedByOther) -> (reply: Reply)
    ensures
        reply@ == owned_reply(other.owner@, other.lease_remaining_secs as nat),
{
    let name = json_string(other.owner.as_str());
    let left = decimal_text(other.lease_remaining_secs);
    let head = join3(
        r#"{"ok":false,"error":"phone_owned","owner":"#,
        name.as_str(),
        r#","owner_lease_remaining_secs":"#,
    );
    let body = join3(
        head.as_str(),
        left.as_str(),
        r#","outcome":"not_sent","hint":"another session is driving this phone; wait for its lease to lapse, ask it to release via POST /agent/owner, or send X-Phone-Owner-Takeover: 1 only if you are sure it is abandoned"}"#,
    );
    let retry: u64 = if other.lease_remaining_secs > 1 {
        other.lease_remaining_secs
    } else {
        1
    };
    Reply::fixed_retry(409, retry, body.as_str())
}

/// The refusal of a control request, if there is one.
pub open spec fn owner_refusal(
    slot: Option<OwnerView>,
    owner: Option<Seq<char>>,
    takeover: Option<Seq<char>>,
    now: u64,
    lease: u64,
) -> Option<ReplyView> {
    match claim_of(owner, takeover) {
        None => Some(invalid_owner_reply()),
        Some(claim) => if admitted(slot, claim, now, lease) {
            None
        } else {
            Some(owned_reply(slot->0.name, lease_left(slot->0, now, lease)))
        },
    }
}

/// Who has the phone after a control request.
pub open spec fn owner_after(
    slot: Option<OwnerView>,
    owner: Option<Seq<char>>,
    takeover: Option<Seq<char>>,
    now: u64,
    lease: u64,
) -> Option<OwnerView> {
    match claim_of(owner, takeover) {
        None => slot,
        Some(claim) => slot_after(slot, claim, now, lease),
    }
}

/// Lets a request drive the phone, or refuses it.
pub fn claim_phone_owner(
    slot: &mut Option<PhoneOwner>,
    owner: Option<&str>,
    takeover: Option<&str>,
    now: u64,
    lease: u64,
) -> (outcome: Result<(), Reply>)
    ensures
        slot_view(*final(slot)) == owner_after(
            slot_view(*old(slot)),
            opt_str(owner),
            opt_str(takeover),
            now,
            lease,
        ),
        match outcome {
            Ok(_) => owner_refusal(
                slot_view(*old(slot)),
                opt_str(owner),
                opt_str(takeover),
                now,
                lease,
            ) is None,
            Err(reply) => owner_refusal(
                slot_view(*old(slot)),
                opt_str(owner),
                opt_str(takeover),
                now,
                lease,
            ) == Some(reply@),
        },
{
    match owner_claim_from_headers(owner, takeover) {
        Err(reply) => Err(reply),
        Ok(claim) => match arbitrate_owner(slot, &claim, now, lease) {
            Ok(_) => Ok(()),
            Err(other) => Err(owned_response(&other)),
        },
    }
}

/// The owner's name and the whole seconds left to it.
pub open spec fn owner_seen(slot: Option<OwnerView>, now: u64, lease: u64) -> (
    Option<Seq<char>>,
    nat,
) {
    if lease_live(slot, now, lease) {
        (Some(slot->0.name), lease_left(slot->0, now, lease))
    } else {
        (None, 0)
    }
}

/// The owner's name and the whole seconds left to it, or nothing.
pub fn owner_status(slot: &Option<PhoneOwner>, now: u64, lease: u64) -> (status: (
    Option<String>,
    u64,
))
    ensures
        (crate::reply::opt_text(status.0), status.1 as nat) == owner_seen(
            slot_view(*slot),
            now,
            lease,
        ),
{
    if still_live(slot, now, lease) {
        match slot {
            Some(owner) => (Some(owner.name.clone()), left_of(owner, now, lease)),
            None => (None, 0),
        }
    } else {
        (None, 0)
    }
}

/// Whether a body asks to give the lease up.
pub open spec fn asks_release(body: Seq<char>) -> bool {
    match json_document(body) {
        Some(v) => bool_of(field_of(v, "release"@)) == Some(true),
        None => false,
    }
}

/// Whether a claim may give up the lease: its own session may, and anyone may
/// where none is live.
pub open spec fn may_release(slot: Option<OwnerView>, claim: ClaimView, now: u64, lease: u64) -> bool {
    lease_live(slot, now, lease) ==> match claim {
        ClaimView::Anonymous => false,
        ClaimView::Named(name) => slot->0.name == name,
        ClaimView::Takeover(name) => slot->0.name == name,
    }
}

/// The answer to a request to give the lease up.
pub open spec fn release_reply(
    slot: Option<OwnerView>,
    body: Seq<char>,
    owner: Option<Seq<char>>,
    takeover: Option<Seq<char>>,
    now: u64,
    lease: u64,
) -> ReplyView {
    if !asks_release(body) {
        json_reply(
            400,
            r#"{"ok":false,"error":"invalid_owner_request","hint":"send {"release":true}"}"#@,
        )
    } else {
        match claim_of(owner, takeover) {
            None => invalid_owner_reply(),
            Some(claim) => if may_release(slot, claim, now, lease) {
                json_reply(200, r#"{"ok":true,"owner":null}"#@)
            } else {
                json_reply(
                    409,
                    r#"{"ok":false,"error":"phone_owned","owner":"#@ + json_string_text(
                        slot->0.name,
                    ) + r#","owner_lease_remaining_secs":"#@ + decimal(
                        lease_left(slot->0, now, lease),
                    ) + "}"@,
                )
            },
        }
    }
}

/// Whether a request gives the lease up.
pub open spec fn releases(
    slot: Option<OwnerView>,
    body: Seq<char>,
    owner: Option<Seq<char>>,
    takeover: Option<Seq<char>>,
    now: u64,
    lease: u64,
) -> bool {
    asks_release(body) && (claim_of(owner, takeover) matches Some(claim) && may_release(
        slot,
        claim,
        now,
        lease,
    ))
}

/// Gives the lease up. It never takes one.
pub fn agent_owner(
    slot: &mut Option<PhoneOwner>,
    body: &str,
    owner: Option<&str>,
    takeover: Option<&str>,
    now: u64,
    lease: u64,
) -> (reply: Reply)
    ensures
        reply@ == release_reply(
            slot_view(*old(slot)),
            body@,
            opt_str(owner),
            opt_str(takeover),
            now,
            lease,
        ),
        slot_view(*final(slot)) == (if releases(
            slot_view(*old(slot)),
            body@,
            opt_str(owner),
            opt_str(takeover),
            now,
            lease,
        ) {
            None
        } else {
            slot_view(*old(slot))
        }),
{
    let asked = match Json::parse(body) {
        Some(v) => match v.bool_field("release") {
            Some(release) => release,
            None => false,
        },
        None => false,
    };
    if !asked {
        return Reply::fixed(
            400,
            r#"{"ok":false,"error":"invalid_owner_request","hint":"send {"release":true}"}"#,
        );
    }
    let claim = match owner_claim_from_headers(owner, takeover) {
        Ok(claim) => claim,
        Err(reply) => {
            return reply;
        },
    };
    if still_live(slot, now, lease) {
        if let Some(current) = slot {
            let own = match &claim {
                OwnerClaim::Anonymous => false,
                OwnerClaim::Named(name) => same_text(current.name.as_str(), name.as_str()),
                OwnerClaim::Takeover(name) => same_text(current.name.as_str(), name.as_str()),
            };
            if !own {
                let name = json_string(current.name.as_str());
                let left = decimal_text(left_of(current, now, lease));
                let head = join3(
                    r#"{"ok":false,"error":"phone_owned","owner":"#,
                    name.as_str(),
                    r#","owner_lease_remaining_secs":"#,
                );
                let text = join3(head.as_str(), left.as_str(), "}");
                return Reply::json(409, text);
            }
        }
    }
    *slot = None;
    Reply::fixed(200, r#"{"ok":true,"owner":null}"#)
}

/// A refused request changes nothing, and one that is admitted under a name has
/// the phone for as long as the lease lasts.
pub proof fn law_the_lease_follows_its_session(
    slot: Option<OwnerView>,
    claim: ClaimView,
    now: u64,
    later: u64,
    lease: u64,
)
    requires
        now <= later,
    ensures
        !admitted(slot, claim, now, lease) ==> slot_after(slot, claim, now, lease) == slot,
        admitted(slot, claim, now, lease) && (claim is Named || claim is Takeover) ==> lease_live(
            slot_after(slot, claim, now, lease),
            later,
            lease,
        ) == (later - now < lease),
{
}

/// While one session's lease is live, requests of others and nameless requests
/// are refused, and only an explicit takeover is not.
pub proof fn law_a_live_lease_refuses_others(
    slot: Option<OwnerView>,
    claim: ClaimView,
    now: u64,
    lease: u64,
)
    requires
        lease_live(slot, now, lease),
    ensures
        claim is Anonymous ==> !admitted(slot, claim, now, lease),
        claim matches ClaimView::Named(name) ==> (admitted(slot, claim, now, lease) == (name
            == slot->0.name)),
        claim is Takeover ==> admitted(slot, claim, now, lease),
{
}

/// A session that gave its lease up leaves the phone to anyone.
pub proof fn law_a_released_phone_is_free(claim: ClaimView, now: u64, lease: u64)
    ensures
        admitted(None, claim, now, lease),
        !lease_live(None, now, lease),
{
}

/// A lease lives from when its session was last seen until its time has passed,
/// and what is left of it is told in whole seconds.
pub proof fn law_a_lease_lapses_after_its_time(owner: OwnerView, now: u64, lease: u64)
    ensures
        lease_live(Some(owner), now, lease) <==> lease > 0 && now < owner.last_seen + lease,
        !lease_live(None, now, lease),
        lease_live(Some(owner), now, lease) && now >= owner.last_seen ==> lease_left(
            owner,
            now,
            lease,
        ) == (owner.last_seen + lease - now) / 1000,
        lease_live(Some(owner), now, lease) ==> owner_seen(Some(owner), now, lease) == (
            Some(owner.name),
            lease_left(owner, now, lease),
        ),
        !lease_live(Some(owner), now, lease) ==> owner_seen(Some(owner), now, lease).0 is None
            && owner_seen(Some(owner), now, lease).1 == 0,
{
}

/// While a lease lives, a request is refused unless it comes under the same name
/// or asks to take the phone over; otherwise every request with a fit name, or
/// none, is taken. A taken request under a name has the lease from then on, one
/// without a name leaves the phone to nobody, and a refused one changes nothing.
pub proof fn law_a_phone_is_claimed_by_name(
    slot: Option<OwnerView>,
    raw: Seq<char>,
    takeover: Option<Seq<char>>,
    now: u64,
    lease: u64,
)
    ensures
        ({
            let name = trimmed(raw);
            let refusal = owner_refusal(slot, Some(raw), takeover, now, lease);
            let after = owner_after(slot, Some(raw), takeover, now, lease);
            let live = lease_live(slot, now, lease);
            &&& !owner_name_valid(name) ==> refusal == Some(invalid_owner_reply()) && after == slot
            &&& owner_name_valid(name) && (!live || slot->0.name == name || takeover == Some("1"@))
                ==> refusal is None && after == Some(OwnerView { name, last_seen: now })
            &&& owner_name_valid(name) && live && slot->0.name != name && takeover != Some("1"@)
                ==> refusal == Some(owned_reply(slot->0.name, lease_left(slot->0, now, lease)))
                && after == slot
        }),
        ({
            let refusal = owner_refusal(slot, None, takeover, now, lease);
            let after = owner_after(slot, None, takeover, now, lease);
            &&& lease_live(slot, now, lease) ==> refusal == Some(
                owned_reply(slot->0.name, lease_left(slot->0, now, lease)),
            ) && after == slot
            &&& !lease_live(slot, now, lease) ==> refusal is None && after is None
        }),
{
}

/// A name is fit that has one to sixty-four characters, all of them printable
/// and none a quote.
pub proof fn law_a_fit_name_is_printable(name: Seq<char>, i: int)
    ensures
        owner_name_valid(name) ==> 1 <= name.len() <= 64,
        owner_name_valid(name) && 0 <= i < name.len() ==> 32 <= name[i] as int <= 126 && name[i]
            != '"',
        1 <= name.len() <= 64 && (forall|j: int|
            0 <= j < name.len() ==> 32 <= #[trigger] name[j] as int <= 126 && name[j] != '"')
            ==> owner_name_valid(name),
        invalid_owner_reply().status == 400,
{
    if 1 <= name.len() <= 64 && (forall|j: int|
        0 <= j < name.len() ==> 32 <= #[trigger] name[j] as int <= 126 && name[j] != '"') {
        assert forall|j: int| 0 <= j < name.len() implies owner_char(#[trigger] name[j]) by {
            assert(32 <= name[j] as int <= 126);
        }
    }
}

/// Whoever is kept away is told by whom and for how long, and to come back not
/// sooner than in a second.
pub proof fn law_who_is_kept_away_is_told_by_whom(owner: Seq<char>, left: nat)
    requires
        left <= u64::MAX,
    ensures
        owned_reply(owner, left).status == 409,
        owned_reply(owner, left).retry_after == Some(
            if left > 1 {
                left as u64
            } else {
                1
            },
        ),
        owned_reply(owner, left).body == r#"{"ok":false,"error":"phone_owned","owner":"#@
            + json_string_text(owner) + r#","owner_lease_remaining_secs":"#@ + decimal(left)
            + r#","outcome":"not_sent","hint":"another session is driving this phone; wait for its lease to lapse, ask it to release via POST /agent/owner, or send X-Phone-Owner-Takeover: 1 only if you are sure it is abandoned"}"#@,
{
}

/// A lease is given up only by its own session, or by anyone once it has lapsed;
/// asking to take over is no way to do it.
pub proof fn law_a_lease_is_given_up_by_its_own_session(
    slot: Option<OwnerView>,
    body: Seq<char>,
    raw: Seq<char>,
    takeover: Option<Seq<char>>,
    now: u64,
    lease: u64,
)
    ensures
        ({
            let asked = json_document(body) matches Some(v) && bool_of(field_of(v, "release"@))
                == Some(true);
            let gives = releases(slot, body, Some(raw), takeover, now, lease);
            let reply = release_reply(slot, body, Some(raw), takeover, now, lease);
            &&& gives <==> asked && owner_name_valid(trimmed(raw)) && (!lease_live(slot, now, lease)
                || slot->0.name == trimmed(raw))
            &&& gives ==> reply == json_reply(200, r#"{"ok":true,"owner":null}"#@)
            &&& !asked ==> reply.status == 400
            &&& asked && !owner_name_valid(trimmed(raw)) ==> reply == invalid_owner_reply()
            &&& asked && owner_name_valid(trimmed(raw)) && !gives ==> reply.status == 409
                && reply.body == r#"{"ok":false,"error":"phone_owned","owner":"#@
                + json_string_text(slot->0.name) + r#","owner_lease_remaining_secs":"#@ + decimal(
                lease_left(slot->0, now, lease),
            ) + "}"@
        }),
        releases(slot, body, None, takeover, now, lease) ==> !lease_live(slot, now, lease),
{
}

} // verus!
