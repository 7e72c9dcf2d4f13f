//! Single-owner arbitration of the runner's start and stop transitions.

use vstd::prelude::*;

verus! {

/// What the runner is going through.
#[derive(Clone, Copy, Debug, PartialEq, Eq, Structural)]
pub enum WdaLifecycleTransition {
    Active,
    Releasing,
    Reconnecting,
}

/// Generations are counted modulo this number: they share one 64-bit word with
/// the phase, which takes the low eight bits.
pub open spec fn generations() -> int {
    0x100_0000_0000_0000
}

/// The content of a [`WdaLifecycle`]: the round, and what is going on in it.
pub struct LifecycleView {
    pub generation: int,
    pub phase: WdaLifecycleTransition,
}

/// Proof that its holder owns one round of one transition.
///
/// The phase alone would not do: after a second reconnect has begun it is the
/// same as in the first, and a late finish of the first would end the second.
/// The generation tells the two apart.
#[derive(Clone, Copy, Debug, PartialEq, Eq, Structural)]
pub struct WdaTransitionToken {
    generation: u64,
    phase: WdaLifecycleTransition,
}

impl WdaTransitionToken {
    /// The state of a lifecycle in which this token owns the transition.
    pub closed spec fn round(self) -> LifecycleView {
        LifecycleView {
            generation: self.generation as int % generations(),
            phase: self.phase,
        }
    }

    /// What the token's round is about.
    pub fn phase(self) -> (phase: WdaLifecycleTransition)
        ensures
            phase == self.round().phase,
    {
        self.phase
    }
}

/// Arbitration between releasing and reconnecting, which exclude each other.
///
/// The generation and the phase are packed into one word; every begin makes a
/// new generation, and only the token of a round can end it.
#[derive(Debug)]
pub struct WdaLifecycle {
    state: u64,
}

impl View for WdaLifecycle {
    type V = LifecycleView;

    closed spec fn view(&self) -> LifecycleView {
        decoded(self.state)
    }
}

/// The low eight bits that stand for a phase.
pub open spec fn phase_number(phase: WdaLifecycleTransition) -> int {
    match phase {
        WdaLifecycleTransition::Active => 0,
        WdaLifecycleTransition::Releasing => 1,
        WdaLifecycleTransition::Reconnecting => 2,
    }
}

/// The word that stands for a generation and a phase.
pub open spec fn packed(generation: int, phase: WdaLifecycleTransition) -> u64 {
    ((generation % generations()) * 256 + phase_number(phase)) as u64
}

/// What a packed word stands for.
pub open spec fn decoded(state: u64) -> LifecycleView {
    LifecycleView {
        generation: state as int / 256,
        phase: if state as int % 256 == 0 {
            WdaLifecycleTransition::Active
        } else if state as int % 256 == 1 {
            WdaLifecycleTransition::Releasing
        } else {
            WdaLifecycleTransition::Reconnecting
        },
    }
}

/// Whether the token owns the transition that a lifecycle is in.
pub open spec fn owned(lifecycle: LifecycleView, token: WdaTransitionToken) -> bool {
    lifecycle == token.round()
}

/// The round after this one, in the given phase.
pub open spec fn next_round(lifecycle: LifecycleView, phase: WdaLifecycleTransition) -> LifecycleView {
    LifecycleView { generation: (lifecycle.generation + 1) % generations(), phase }
}

/// The same round, over.
pub open spec fn round_over(lifecycle: LifecycleView) -> LifecycleView {
    LifecycleView { generation: lifecycle.generation, phase: WdaLifecycleTransition::Active }
}

/// The lifecycle after an attempt to begin a round: one begins where none is
/// under way.
pub open spec fn begun(lifecycle: LifecycleView, phase: WdaLifecycleTransition) -> LifecycleView {
    if lifecycle.phase == WdaLifecycleTransition::Active {
        next_round(lifecycle, phase)
    } else {
        lifecycle
    }
}

/// The lifecycle after an attempt to end a round with a token: it ends where the
/// token owns it.
pub open spec fn finished(lifecycle: LifecycleView, token: WdaTransitionToken) -> LifecycleView {
    if owned(lifecycle, token) {
        round_over(lifecycle)
    } else {
        lifecycle
    }
}

impl WdaLifecycle {
    #[verifier::type_invariant]
    spec fn inv(&self) -> bool {
        self.state as int % 256 <= 2
    }

    pub fn new() -> (lifecycle: WdaLifecycle)
        ensures
            lifecycle@ == (LifecycleView {
                generation: 0,
                phase: WdaLifecycleTransition::Active,
            }),
    {
        WdaLifecycle { state: 0 }
    }

    /// Takes a packed word apart.
    pub fn decode(state: u64) -> (parts: (u64, WdaLifecycleTransition))
        requires
            state as int % 256 <= 2,
        ensures
            parts.0 == decoded(state).generation,
            parts.1 == decoded(state).phase,
            parts.0 < generations(),
    {
        let phase = if state % 256 == 0 {
            WdaLifecycleTransition::Active
        } else if state % 256 == 1 {
            WdaLifecycleTransition::Releasing
        } else {
            WdaLifecycleTransition::Reconnecting
        };
        (state / 256, phase)
    }

    /// Packs a generation and a phase; the generation wraps around.
    pub fn encode(generation: u64, phase: WdaLifecycleTransition) -> (state: u64)
        ensures
            state == packed(generation as int, phase),
            state as int % 256 <= 2,
            decoded(state).generation == generation as int % generations(),
            decoded(state).phase == phase,
    {
        let low: u64 = match phase {
            WdaLifecycleTransition::Active => 0,
            WdaLifecycleTransition::Releasing => 1,
            WdaLifecycleTransition::Reconnecting => 2,
        };
        (generation % 0x100_0000_0000_0000) * 256 + low
    }

    /// What is going on.
    pub fn current(&self) -> (phase: WdaLifecycleTransition)
        ensures
            phase == self@.phase,
    {
        proof {
            use_type_invariant(self);
        }
        WdaLifecycle::decode(self.state).1
    }

    /// Begins a round where none is under way.
    fn try_begin(&mut self, transition: WdaLifecycleTransition) -> (token: Option<
        WdaTransitionToken,
    >)
        requires
            transition != WdaLifecycleTransition::Active,
        ensures
            token is Some == (old(self)@.phase == WdaLifecycleTransition::Active),
            token matches Some(token) ==> owned(final(self)@, token),
            final(self)@ == begun(old(self)@, transition),
    {
        proof {
            use_type_invariant(&*self);
        }
        let (generation, phase) = WdaLifecycle::decode(self.state);
        if phase != WdaLifecycleTransition::Active {
            return None;
        }
        let next: u64 = generation.wrapping_add(1);
        let state: u64 = WdaLifecycle::encode(next, transition);
        *self = WdaLifecycle { state };
        Some(WdaTransitionToken { generation: next, phase: transition })
    }

    /// Ends the round that the token owns. A token of another round changes
    /// nothing: that is how a superseded task fares, and no fault.
    pub fn finish(&mut self, token: WdaTransitionToken) -> (ended: bool)
        requires
            token.round().phase != WdaLifecycleTransition::Active,
        ensures
            ended == owned(old(self)@, token),
            final(self)@ == finished(old(self)@, token),
    {
        if !self.owns(token) {
            return false;
        }
        let state: u64 = WdaLifecycle::encode(token.generation, WdaLifecycleTransition::Active);
        *self = WdaLifecycle { state };
        true
    }

    /// Whether the token still owns the current transition.
    pub fn owns(&self, token: WdaTransitionToken) -> (owns: bool)
        ensures
            owns == owned(self@, token),
    {
        proof {
            use_type_invariant(self);
        }
        let (generation, phase) = WdaLifecycle::decode(self.state);
        generation == token.generation % 0x100_0000_0000_0000 && phase == token.phase
    }

    /// Runs `publish` while the token owns the transition, and not otherwise.
    pub fn publish_if_current<R, F: FnOnce() -> R>(
        &self,
        token: WdaTransitionToken,
        publish: F,
    ) -> (published: Option<R>)
        requires
            owned(self@, token) ==> publish.requires(()),
        ensures
            match published {
                Some(result) => owned(self@, token) && publish.ensures((), result),
                None => !owned(self@, token),
            },
    {
        if !self.owns(token) {
            return None;
        }
        Some(publish())
    }

    pub fn try_begin_releasing(&mut self) -> (token: Option<WdaTransitionToken>)
        ensures
            token is Some == (old(self)@.phase == WdaLifecycleTransition::Active),
            token matches Some(token) ==> owned(final(self)@, token),
            final(self)@ == begun(old(self)@, WdaLifecycleTransition::Releasing),
    {
        self.try_begin(WdaLifecycleTransition::Releasing)
    }

    pub fn finish_releasing(&mut self, token: WdaTransitionToken) -> (ended: bool)
        requires
            token.round().phase == WdaLifecycleTransition::Releasing,
        ensures
            ended == owned(old(self)@, token),
            final(self)@ == finished(old(self)@, token),
    {
        self.finish(token)
    }

    pub fn try_begin_reconnecting(&mut self) -> (token: Option<WdaTransitionToken>)
        ensures
            token is Some == (old(self)@.phase == WdaLifecycleTransition::Active),
            token matches Some(token) ==> owned(final(self)@, token),
            final(self)@ == begun(old(self)@, WdaLifecycleTransition::Reconnecting),
    {
        self.try_begin(WdaLifecycleTransition::Reconnecting)
    }

    pub fn finish_reconnecting(&mut self, token: WdaTransitionToken) -> (ended: bool)
        requires
            token.round().phase == WdaLifecycleTransition::Reconnecting,
        ensures
            ended == owned(old(self)@, token),
            final(self)@ == finished(old(self)@, token),
    {
        self.finish(token)
    }

    pub fn is_releasing(&self) -> (releasing: bool)
        ensures
            releasing == (self@.phase == WdaLifecycleTransition::Releasing),
    {
        self.current() == WdaLifecycleTransition::Releasing
    }

    pub fn is_reconnecting(&self) -> (reconnecting: bool)
        ensures
            reconnecting == (self@.phase == WdaLifecycleTransition::Reconnecting),
    {
        self.current() == WdaLifecycleTransition::Reconnecting
    }

    pub fn is_transitioning(&self) -> (transitioning: bool)
        ensures
            transitioning == (self@.phase != WdaLifecycleTransition::Active),
    {
        self.current() != WdaLifecycleTransition::Active
    }
}

impl Default for WdaLifecycle {
    fn default() -> (lifecycle: WdaLifecycle)
        ensures
            lifecycle@ == (LifecycleView {
                generation: 0,
                phase: WdaLifecycleTransition::Active,
            }),
    {
        WdaLifecycle::new()
    }
}

/// Unpacking gives back what was packed, for every generation that fits beside
/// the phase; larger ones wrap around.
pub proof fn law_packing_reads_back(generation: int, phase: WdaLifecycleTransition)
    requires
        0 <= generation,
    ensures
        packed(generation, phase) as int % 256 <= 2,
        decoded(packed(generation, phase)) == (LifecycleView {
            generation: generation % generations(),
            phase,
        }),
        generation < generations() ==> decoded(packed(generation, phase)).generation == generation,
{
    vstd::arithmetic::div_mod::lemma_mod_bound(generation, generations());
    if generation < generations() {
        vstd::arithmetic::div_mod::lemma_small_mod(generation as nat, generations() as nat);
    }
}

/// Packing gives back the word that was unpacked, for every word that a
/// lifecycle can hold: no two of them stand for the same.
pub proof fn law_unpacking_packs_back(state: u64)
    requires
        state as int % 256 <= 2,
    ensures
        packed(decoded(state).generation, decoded(state).phase) == state,
{
    vstd::arithmetic::div_mod::lemma_small_mod(
        decoded(state).generation as nat,
        generations() as nat,
    );
}

/// A call that may change a lifecycle.
pub enum LifecycleCall {
    BeginReleasing,
    BeginReconnecting,
    Finish(WdaTransitionToken),
}

/// The lifecycle after one call.
pub open spec fn after_call(lifecycle: LifecycleView, call: LifecycleCall) -> LifecycleView {
    match call {
        LifecycleCall::BeginReleasing => begun(lifecycle, WdaLifecycleTransition::Releasing),
        LifecycleCall::BeginReconnecting => begun(lifecycle, WdaLifecycleTransition::Reconnecting),
        LifecycleCall::Finish(token) => finished(lifecycle, token),
    }
}

/// The lifecycle after a run of calls.
pub open spec fn after_calls(lifecycle: LifecycleView, calls: Seq<LifecycleCall>) -> LifecycleView
    decreases calls.len(),
{
    if calls.len() == 0 {
        lifecycle
    } else {
        after_call(after_calls(lifecycle, calls.drop_last()), calls.last())
    }
}

/// How many of the calls begin a round or try to.
pub open spec fn begins(calls: Seq<LifecycleCall>) -> nat
    decreases calls.len(),
{
    if calls.len() == 0 {
        0
    } else {
        begins(calls.drop_last()) + if calls.last() is Finish {
            0nat
        } else {
            1nat
        }
    }
}

/// The rounds that have begun in a run of calls, counted in the generation.
proof fn lemma_rounds_counted(lifecycle: LifecycleView, calls: Seq<LifecycleCall>) -> (rounds: nat)
    requires
        0 <= lifecycle.generation < generations(),
        lifecycle.phase == WdaLifecycleTransition::Active,
    ensures
        rounds <= begins(calls),
        after_calls(lifecycle, calls).generation == (lifecycle.generation + rounds)
            % generations(),
        rounds == 0 ==> after_calls(lifecycle, calls).phase == WdaLifecycleTransition::Active,
    decreases calls.len(),
{
    if calls.len() == 0 {
        vstd::arithmetic::div_mod::lemma_small_mod(
            lifecycle.generation as nat,
            generations() as nat,
        );
        0
    } else {
        let before = after_calls(lifecycle, calls.drop_last());
        let rounds = lemma_rounds_counted(lifecycle, calls.drop_last());
        if calls.last() is Finish || before.phase != WdaLifecycleTransition::Active {
            rounds
        } else {
            vstd::arithmetic::div_mod::lemma_add_mod_noop_right(
                1,
                lifecycle.generation + rounds,
                generations(),
            );
            rounds + 1
        }
    }
}

proof fn lemma_generations_differ(generation: int, rounds: nat)
    requires
        0 <= generation < generations(),
        0 < rounds < generations(),
    ensures
        (generation + rounds) % generations() != generation,
{
    let sum = generation + rounds;
    if sum < generations() {
        vstd::arithmetic::div_mod::lemma_small_mod(sum as nat, generations() as nat);
    } else {
        vstd::arithmetic::div_mod::lemma_mod_sub_multiples_vanish(sum, generations());
        vstd::arithmetic::div_mod::lemma_small_mod(
            (sum - generations()) as nat,
            generations() as nat,
        );
    }
}

/// A token that has ended its round never ends another, whatever is begun and
/// ended after it, in whatever order and with whatever tokens, until the
/// generations have gone all the way round.
pub proof fn law_a_spent_token_ends_nothing_again(
    lifecycle: LifecycleView,
    token: WdaTransitionToken,
    calls: Seq<LifecycleCall>,
)
    requires
        owned(lifecycle, token),
        lifecycle.phase != WdaLifecycleTransition::Active,
        begins(calls) < generations(),
    ensures
        !owned(after_calls(finished(lifecycle, token), calls), token),
        finished(after_calls(finished(lifecycle, token), calls), token) == after_calls(
            finished(lifecycle, token),
            calls,
        ),
{
    let over = finished(lifecycle, token);
    assert(0 <= over.generation < generations());
    let rounds = lemma_rounds_counted(over, calls);
    if rounds > 0 {
        lemma_generations_differ(over.generation, rounds);
    }
}

/// Releasing and reconnecting exclude each other: while one of them is under
/// way, no token of the other owns the lifecycle.
pub proof fn law_release_and_reconnect_exclude_each_other(
    lifecycle: LifecycleView,
    release: WdaTransitionToken,
    reconnect: WdaTransitionToken,
)
    requires
        release.round().phase == WdaLifecycleTransition::Releasing,
        reconnect.round().phase == WdaLifecycleTransition::Reconnecting,
    ensures
        !(owned(lifecycle, release) && owned(lifecycle, reconnect)),
{
}

/// The token that began a round ends it, and ends it once: afterwards it owns
/// nothing.
pub proof fn law_finish_ends_the_round_once(lifecycle: LifecycleView, token: WdaTransitionToken)
    requires
        owned(lifecycle, token),
        lifecycle.phase != WdaLifecycleTransition::Active,
    ensures
        finished(lifecycle, token).phase == WdaLifecycleTransition::Active,
        !owned(finished(lifecycle, token), token),
{
}

/// A round is begun only from rest, is a new one, and is of the kind that was
/// asked for; it is ended only by its own token, and leaves the phone at rest in
/// the same round.
pub proof fn law_a_round_is_begun_from_rest_and_ended_by_its_token(
    lifecycle: LifecycleView,
    phase: WdaLifecycleTransition,
    token: WdaTransitionToken,
)
    requires
        0 <= lifecycle.generation < generations(),
    ensures
        lifecycle.phase is Active ==> begun(lifecycle, phase).phase == phase && begun(
            lifecycle,
            phase,
        ).generation != lifecycle.generation,
        lifecycle.phase is Active && lifecycle.generation + 1 < generations() ==> begun(
            lifecycle,
            phase,
        ).generation == lifecycle.generation + 1,
        lifecycle.phase !is Active ==> begun(lifecycle, phase) == lifecycle,
        lifecycle == token.round() ==> finished(lifecycle, token).phase is Active && finished(
            lifecycle,
            token,
        ).generation == lifecycle.generation,
        lifecycle != token.round() ==> finished(lifecycle, token) == lifecycle,
        generations() == 72057594037927936,
{
}

} // verus!
