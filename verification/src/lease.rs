//! Who may move the pointer of the mirrored phone.

use vstd::prelude::*;

use crate::text::same_text;

verus! {

/// Who holds the pointer.
#[derive(Debug)]
pub enum Holder {
    /// A person who watches in a browser.
    Viewer(String),
    Agent(String),
}

/// The content of a [`Holder`].
pub enum HolderView {
    Viewer(Seq<char>),
    Agent(Seq<char>),
}

impl View for Holder {
    type V = HolderView;

    open spec fn view(&self) -> HolderView {
        match *self {
            Holder::Viewer(name) => HolderView::Viewer(name@),
            Holder::Agent(name) => HolderView::Agent(name@),
        }
    }
}

/// One grant of the pointer.
#[derive(Debug)]
pub struct Lease {
    holder: Holder,
    number: u64,
    granted_at: u64,
}

/// The content of a [`Lease`].
pub struct LeaseView {
    pub holder: HolderView,
    pub number: u64,
    pub granted_at: u64,
}

impl View for Lease {
    type V = LeaseView;

    closed spec fn view(&self) -> LeaseView {
        LeaseView { holder: self.holder@, number: self.number, granted_at: self.granted_at }
    }
}

fn copy_of(holder: &Holder) -> (copy: Holder)
    ensures
        copy@ == holder@,
{
    match holder {
        Holder::Viewer(name) => Holder::Viewer(name.clone()),
        Holder::Agent(name) => Holder::Agent(name.clone()),
    }
}

fn same_holder(a: &Holder, b: &Holder) -> (same: bool)
    ensures
        same == (a@ == b@),
{
    match (a, b) {
        (Holder::Viewer(a), Holder::Viewer(b)) => same_text(a.as_str(), b.as_str()),
        (Holder::Agent(a), Holder::Agent(b)) => same_text(a.as_str(), b.as_str()),
        (Holder::Viewer(_), Holder::Agent(_)) => false,
        (Holder::Agent(_), Holder::Viewer(_)) => false,
    }
}

/// The pointer has one holder at a time, and the last to ask gets it. Grants are
/// numbered, so that an old one of the same holder cannot pass for the present
/// one.
#[derive(Debug)]
pub struct LeaseState {
    granted: u64,
    current: Option<(Holder, u64)>,
}

/// The content of a [`LeaseState`]: how many grants there were, and the holder
/// and number of the one that holds.
pub struct LeaseStateView {
    pub granted: u64,
    pub current: Option<(HolderView, u64)>,
}

impl View for LeaseState {
    type V = LeaseStateView;

    closed spec fn view(&self) -> LeaseStateView {
        LeaseStateView {
            granted: self.granted,
            current: match self.current {
                Some((holder, number)) => Some((holder@, number)),
                None => None,
            },
        }
    }
}

/// The number of the grant after so many.
pub open spec fn next_number(granted: u64) -> u64 {
    if granted < u64::MAX {
        (granted + 1) as u64
    } else {
        granted
    }
}

/// The next grant, to this holder.
pub open spec fn next_lease(state: LeaseStateView, holder: HolderView, now: u64) -> LeaseView {
    LeaseView { holder, number: next_number(state.granted), granted_at: now }
}

/// The state after the next grant, to this holder.
pub open spec fn granted_next(state: LeaseStateView, holder: HolderView) -> LeaseStateView {
    LeaseStateView {
        granted: next_number(state.granted),
        current: Some((holder, next_number(state.granted))),
    }
}

/// Whether a grant is the one that holds.
pub open spec fn holds(state: LeaseStateView, lease: LeaseView) -> bool {
    state.current == Some((lease.holder, lease.number))
}

/// The state after a grant was given up: nobody holds the pointer where it was
/// the one that held, and nothing changes where it was not.
pub open spec fn given_up(state: LeaseStateView, lease: LeaseView) -> LeaseStateView {
    if holds(state, lease) {
        LeaseStateView { granted: state.granted, current: None }
    } else {
        state
    }
}

impl LeaseState {
    pub fn new() -> (state: LeaseState)
        ensures
            state@ == (LeaseStateView { granted: 0, current: None }),
    {
        LeaseState { granted: 0, current: None }
    }

    /// Grants the pointer, taking it from whoever had it. `now` is in seconds.
    pub fn acquire(&mut self, holder: Holder, now: u64) -> (lease: Lease)
        ensures
            lease@ == next_lease(old(self)@, holder@, now),
            final(self)@ == granted_next(old(self)@, holder@),
    {
        let number: u64 = self.granted.saturating_add(1);
        let lease = Lease { holder: copy_of(&holder), number, granted_at: now };
        *self = LeaseState { granted: number, current: Some((holder, number)) };
        lease
    }

    /// Whether anyone may move the pointer.
    pub fn allows_injection(&self) -> (allowed: bool)
        ensures
            allowed == self@.current is Some,
    {
        self.current.is_some()
    }

    /// Gives a grant up, where it is the one that holds.
    pub fn release_if_current(&mut self, lease: &Lease)
        ensures
            final(self)@ == given_up(old(self)@, lease@),
    {
        let current = match &self.current {
            Some((holder, number)) => *number == lease.number && same_holder(holder, &lease.holder),
            None => false,
        };
        if current {
            self.current = None;
        }
    }
}

impl Default for LeaseState {
    fn default() -> (state: LeaseState)
        ensures
            state@ == (LeaseStateView { granted: 0, current: None }),
    {
        LeaseState::new()
    }
}

/// The last to ask holds the pointer, whoever held it before, until it gives the
/// grant up. Giving it up once more changes nothing.
pub proof fn law_the_last_to_ask_holds(state: LeaseStateView, holder: HolderView, now: u64)
    ensures
        holds(granted_next(state, holder), next_lease(state, holder, now)),
        given_up(granted_next(state, holder), next_lease(state, holder, now)).current is None,
        given_up(
            given_up(granted_next(state, holder), next_lease(state, holder, now)),
            next_lease(state, holder, now),
        ) == given_up(granted_next(state, holder), next_lease(state, holder, now)),
{
}

/// A grant that was replaced neither passes for the present one nor gives it up.
/// Between two holders this is always so; between two grants to one holder, for
/// as long as there are numbers left.
pub proof fn law_a_replaced_grant_is_worth_nothing(
    state: LeaseStateView,
    holder: HolderView,
    replaced: LeaseView,
)
    requires
        replaced.holder != holder || replaced.number <= state.granted < u64::MAX,
    ensures
        !holds(granted_next(state, holder), replaced),
        given_up(granted_next(state, holder), replaced) == granted_next(state, holder),
{
}

/// A grant is numbered one higher than the last, goes to whoever asked and from
/// when it was asked; giving it up leaves nobody holding, and giving up one that
/// is not held changes nothing.
pub proof fn law_a_grant_is_given_up_by_its_holder(
    state: LeaseStateView,
    holder: HolderView,
    now: u64,
    other: LeaseView,
)
    ensures
        ({
            let lease = next_lease(state, holder, now);
            let after = granted_next(state, holder);
            &&& lease.holder == holder && lease.granted_at == now
            &&& state.granted < u64::MAX ==> lease.number == state.granted + 1
            &&& after.granted == lease.number
            &&& after.current == Some((holder, lease.number))
            &&& given_up(after, lease).current is None
            &&& given_up(after, lease).granted == after.granted
            &&& (other.holder != holder || other.number != lease.number) ==> given_up(after, other)
                == after
        }),
{
}

} // verus!
