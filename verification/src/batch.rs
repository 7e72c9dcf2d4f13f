//! Batches of steps: what they may hold, and what they wait for.

use vstd::prelude::*;

use crate::action::{action_error, step_error, step_error_text, validate_agent_action_value};
use crate::element::{indexes, ElementRow};
use crate::json::{Json, JsonView};
use crate::locator::{
    active_application, any_row_matches, frontmost, has_condition, locator_has_condition, present,
    settle_tree_is_sparse, sparse, AgentElementLocator, LocatorView,
};
use crate::reply::opt_text;
use crate::text::same_text;

verus! {

/// What a `wait_for` step waits for.
#[derive(Debug)]
pub struct AgentUiExpectation {
    pub application: Option<String>,
    pub present: Vec<AgentElementLocator>,
    pub absent: Vec<AgentElementLocator>,
}

/// The content of an [`AgentUiExpectation`].
pub struct ExpectationView {
    pub application: Option<Seq<char>>,
    pub present: Seq<LocatorView>,
    pub absent: Seq<LocatorView>,
}

pub open spec fn locators(list: Seq<AgentElementLocator>) -> Seq<LocatorView> {
    list.map_values(|l: AgentElementLocator| l@)
}

impl View for AgentUiExpectation {
    type V = ExpectationView;

    open spec fn view(&self) -> ExpectationView {
        ExpectationView {
            application: opt_text(self.application),
            present: locators(self.present@),
            absent: locators(self.absent@),
        }
    }
}

/// One step of a batch.
#[derive(Debug)]
pub enum AgentActionStep {
    /// One input action, and a short pause for its animation.
    Action { action: Json, after_ms: u64 },
    /// Poll the element tree until it meets the expectation.
    WaitFor { expect: AgentUiExpectation, timeout_ms: u64, poll_ms: u64 },
    /// A bounded pause.
    Pause { ms: u64 },
}

/// The content of an [`AgentActionStep`].
pub enum StepView {
    Action { action: JsonView, after_ms: u64 },
    WaitFor { expect: ExpectationView, timeout_ms: u64, poll_ms: u64 },
    Pause { ms: u64 },
}

impl View for AgentActionStep {
    type V = StepView;

    open spec fn view(&self) -> StepView {
        match *self {
            AgentActionStep::Action { action, after_ms } => StepView::Action {
                action: action@,
                after_ms,
            },
            AgentActionStep::WaitFor { expect, timeout_ms, poll_ms } => StepView::WaitFor {
                expect: expect@,
                timeout_ms,
                poll_ms,
            },
            AgentActionStep::Pause { ms } => StepView::Pause { ms },
        }
    }
}

pub open spec fn step_views(steps: Seq<AgentActionStep>) -> Seq<StepView> {
    steps.map_values(|s: AgentActionStep| s@)
}

/// Milliseconds that a `wait_for` step waits unless it says otherwise.
pub fn default_agent_actions_wait_ms() -> (ms: u64)
    ensures
        ms == 5_000,
{
    5_000
}

/// Milliseconds between two reads of a `wait_for` step unless it says otherwise.
pub fn default_agent_actions_poll_ms() -> (ms: u64)
    ensures
        ms == 250,
{
    250
}

pub open spec fn some_empty_locator(list: Seq<LocatorView>) -> bool {
    exists|i: int| 0 <= i < list.len() && !has_condition(#[trigger] list[i])
}

/// What is wrong with a step, after the `steps[i]` that starts the message; the
/// outer `None` is for a step without fault.
pub open spec fn step_fault(step: StepView, index: nat) -> Option<Seq<char>> {
    match step {
        StepView::Action { action, after_ms } => if !(action is Object) {
            Some(step_error(index, ".action must be an object"@))
        } else if action_error(action, index) is Some {
            action_error(action, index)
        } else if after_ms > 3_000 {
            Some(step_error(index, ".after_ms exceeds 3000"@))
        } else {
            None
        },
        StepView::WaitFor { expect, timeout_ms, poll_ms } => if expect.application is None
            && expect.present.len() == 0 && expect.absent.len() == 0 {
            Some(step_error(index, ".expect must include application, present, or absent"@))
        } else if expect.application matches Some(application) && application.len() == 0 {
            Some(step_error(index, ".expect.application must not be empty"@))
        } else if some_empty_locator(expect.present) || some_empty_locator(expect.absent) {
            Some(step_error(index, " contains an empty element locator"@))
        } else if timeout_ms == 0 || timeout_ms > 10_000 {
            Some(step_error(index, ".timeout_ms must be between 1 and 10000"@))
        } else if poll_ms < 50 || poll_ms > 1_000 {
            Some(step_error(index, ".poll_ms must be between 50 and 1000"@))
        } else {
            None
        },
        StepView::Pause { ms } => if ms == 0 || ms > 3_000 {
            Some(step_error(index, ".ms must be between 1 and 3000"@))
        } else {
            None
        },
    }
}

/// The first fault of the steps from `i` on.
pub open spec fn first_fault(steps: Seq<StepView>, i: int) -> Option<Seq<char>>
    decreases steps.len() - i,
{
    if i < 0 || i >= steps.len() {
        None
    } else if step_fault(steps[i], i as nat) is Some {
        step_fault(steps[i], i as nat)
    } else {
        first_fault(steps, i + 1)
    }
}

/// The milliseconds that a step may wait at most.
pub open spec fn step_wait(step: StepView) -> nat {
    match step {
        StepView::Action { after_ms, .. } => after_ms as nat,
        StepView::WaitFor { timeout_ms, .. } => timeout_ms as nat,
        StepView::Pause { ms } => ms as nat,
    }
}

/// The milliseconds that the first `n` steps may wait at most.
pub open spec fn declared_wait(steps: Seq<StepView>, n: int) -> nat
    decreases n,
{
    if n <= 0 {
        0
    } else {
        declared_wait(steps, n - 1) + step_wait(steps[n - 1])
    }
}

/// Why a batch is refused; `None` where it is accepted.
pub open spec fn batch_error(steps: Seq<StepView>) -> Option<Seq<char>> {
    if steps.len() == 0 {
        Some("steps must contain at least one step"@)
    } else if steps.len() > 24 {
        Some("steps exceeds the maximum of 24"@)
    } else if first_fault(steps, 0) is Some {
        first_fault(steps, 0)
    } else if declared_wait(steps, steps.len() as int) > 60_000 {
        Some("declared waits exceed the batch maximum of 60000ms"@)
    } else {
        None
    }
}

fn has_empty_locator(list: &Vec<AgentElementLocator>) -> (found: bool)
    ensures
        found == some_empty_locator(locators(list@)),
{
    let mut i: usize = 0;
    while i < list.len()
        invariant
            i <= list@.len(),
            forall|k: int| 0 <= k < i ==> has_condition(#[trigger] locators(list@)[k]),
        decreases list@.len() - i,
    {
        if !locator_has_condition(&list[i]) {
            assert(!has_condition(locators(list@)[i as int]));
            return true;
        }
        i += 1;
    }
    false
}

fn check_step(step: &AgentActionStep, index: usize) -> (fault: Option<String>)
    ensures
        opt_text(fault) == step_fault(step@, index as nat),
{
    match step {
        AgentActionStep::Action { action, after_ms } => {
            if !action.is_object() {
                return Some(step_error_text(index, ".action must be an object"));
            }
            match validate_agent_action_value(action, index) {
                Ok(()) => {},
                Err(error) => {
                    return Some(error);
                },
            }
            if *after_ms > 3_000 {
                return Some(step_error_text(index, ".after_ms exceeds 3000"));
            }
            None
        },
        AgentActionStep::WaitFor { expect, timeout_ms, poll_ms } => {
            assert(expect@.present.len() == expect.present@.len());
            assert(expect@.absent.len() == expect.absent@.len());
            if expect.application.is_none() && expect.present.len() == 0 && expect.absent.len()
                == 0 {
                return Some(
                    step_error_text(index, ".expect must include application, present, or absent"),
                );
            }
            if let Some(application) = &expect.application {
                if application.as_str().is_empty() {
                    return Some(step_error_text(index, ".expect.application must not be empty"));
                }
            }
            if has_empty_locator(&expect.present) || has_empty_locator(&expect.absent) {
                return Some(step_error_text(index, " contains an empty element locator"));
            }
            if *timeout_ms == 0 || *timeout_ms > 10_000 {
                return Some(step_error_text(index, ".timeout_ms must be between 1 and 10000"));
            }
            if *poll_ms < 50 || *poll_ms > 1_000 {
                return Some(step_error_text(index, ".poll_ms must be between 50 and 1000"));
            }
            None
        },
        AgentActionStep::Pause { ms } => {
            if *ms == 0 || *ms > 3_000 {
                return Some(step_error_text(index, ".ms must be between 1 and 3000"));
            }
            None
        },
    }
}

/// Accepts or refuses a whole batch before any of it is sent.
pub fn validate_agent_actions(steps: &Vec<AgentActionStep>) -> (checked: Result<(), String>)
    ensures
        match checked {
            Ok(()) => batch_error(step_views(steps@)) is None,
            Err(error) => batch_error(step_views(steps@)) == Some(error@),
        },
{
    let ghost all = step_views(steps@);
    if steps.len() == 0 {
        return Err("steps must contain at least one step".to_owned());
    }
    if steps.len() > 24 {
        return Err("steps exceeds the maximum of 24".to_owned());
    }
    let mut declared: u64 = 0;
    let mut i: usize = 0;
    while i < steps.len()
        invariant
            i <= steps@.len(),
            0 < steps@.len() <= 24,
            all == step_views(steps@),
            first_fault(all, 0) == first_fault(all, i as int),
            declared == declared_wait(all, i as int),
            declared <= 10_000 * i,
        decreases steps@.len() - i,
    {
        assert(all[i as int] == steps@[i as int]@);
        if let Some(fault) = check_step(&steps[i], i) {
            return Err(fault);
        }
        let wait: u64 = match &steps[i] {
            AgentActionStep::Action { after_ms, .. } => *after_ms,
            AgentActionStep::WaitFor { timeout_ms, .. } => *timeout_ms,
            AgentActionStep::Pause { ms } => *ms,
        };
        declared = declared.saturating_add(wait);
        i += 1;
    }
    if declared > 60_000 {
        return Err("declared waits exceed the batch maximum of 60000ms".to_owned());
    }
    Ok(())
}

/// What one read of the tree says about an expectation.
#[derive(Debug)]
pub struct Observation {
    pub application: Option<String>,
    pub application_matches: bool,
    /// Indexes of wanted locators that no row meets.
    pub missing_present: Vec<usize>,
    /// Indexes of unwanted locators that some row meets.
    pub violated_absent: Vec<usize>,
    pub rows: usize,
    pub sparse: bool,
    /// Indexes of unwanted locators whose absence this tree cannot show.
    pub absent_unproven: Vec<usize>,
}

/// The content of an [`Observation`].
pub struct ObservationView {
    pub application: Option<Seq<char>>,
    pub application_matches: bool,
    pub missing_present: Seq<usize>,
    pub violated_absent: Seq<usize>,
    pub rows: nat,
    pub sparse: bool,
    pub absent_unproven: Seq<usize>,
}

impl View for Observation {
    type V = ObservationView;

    open spec fn view(&self) -> ObservationView {
        ObservationView {
            application: opt_text(self.application),
            application_matches: self.application_matches,
            missing_present: self.missing_present@,
            violated_absent: self.violated_absent@,
            rows: self.rows as nat,
            sparse: self.sparse,
            absent_unproven: self.absent_unproven@,
        }
    }
}

/// What a tree says about an expectation. A sparse tree shows no absence: that
/// nothing can be seen is no proof that something is gone.
pub open spec fn observe(rows: Seq<ElementRow>, expect: ExpectationView) -> ObservationView {
    ObservationView {
        application: frontmost(rows),
        application_matches: expect.application is Some ==> frontmost(rows) == expect.application,
        missing_present: indexes(
            expect.present.len(),
            |i: int| !present(rows, expect.present[i]),
        ),
        violated_absent: indexes(expect.absent.len(), |i: int| present(rows, expect.absent[i])),
        rows: rows.len(),
        sparse: sparse(rows),
        absent_unproven: if sparse(rows) {
            indexes(expect.absent.len(), |i: int| true)
        } else {
            Seq::empty()
        },
    }
}

/// Whether an observation meets its expectation.
pub open spec fn observation_met(o: ObservationView) -> bool {
    o.application_matches && o.missing_present.len() == 0 && o.violated_absent.len() == 0
        && o.absent_unproven.len() == 0
}

fn locators_where(
    rows: &Vec<ElementRow>,
    list: &Vec<AgentElementLocator>,
    wanted: bool,
) -> (found: Vec<usize>)
    ensures
        found@ == indexes(
            locators(list@).len(),
            |i: int| present(rows@, locators(list@)[i]) == wanted,
        ),
{
    let ghost p = |i: int| present(rows@, locators(list@)[i]) == wanted;
    let mut found: Vec<usize> = Vec::new();
    let mut i: usize = 0;
    while i < list.len()
        invariant
            i <= list@.len(),
            p == (|i: int| present(rows@, locators(list@)[i]) == wanted),
            found@ == indexes(i as nat, p),
        decreases list@.len() - i,
    {
        assert(locators(list@)[i as int] == list@[i as int]@);
        if any_row_matches(rows, &list[i]) == wanted {
            assert(p(i as int));
            found.push(i);
        } else {
            assert(!p(i as int));
        }
        i += 1;
    }
    found
}

/// Two predicates that agree below `n` select the same numbers.
proof fn lemma_indexes_same(n: nat, p: spec_fn(int) -> bool, q: spec_fn(int) -> bool)
    requires
        forall|i: int| 0 <= i < n ==> #[trigger] p(i) == #[trigger] q(i),
    ensures
        indexes(n, p) == indexes(n, q),
    decreases n,
{
    if n > 0 {
        lemma_indexes_same((n - 1) as nat, p, q);
    }
}

fn all_below(n: usize) -> (all: Vec<usize>)
    ensures
        all@ == indexes(n as nat, |i: int| true),
{
    let ghost p = |i: int| true;
    let mut all: Vec<usize> = Vec::new();
    let mut i: usize = 0;
    while i < n
        invariant
            i <= n,
            p == (|i: int| true),
            all@ == indexes(i as nat, p),
        decreases n - i,
    {
        assert(p(i as int));
        all.push(i);
        i += 1;
    }
    all
}

/// Holds one read of the tree against an expectation.
pub fn agent_expectation_observation(rows: &Vec<ElementRow>, expect: &AgentUiExpectation) -> (seen:
    (bool, Observation))
    ensures
        seen.1@ == observe(rows@, expect@),
        seen.0 == observation_met(observe(rows@, expect@)),
{
    let application = active_application(rows);
    let application_matches = match &expect.application {
        None => true,
        Some(expected) => match &application {
            Some(actual) => same_text(actual.as_str(), expected.as_str()),
            None => false,
        },
    };
    let missing_present = locators_where(rows, &expect.present, false);
    let violated_absent = locators_where(rows, &expect.absent, true);
    proof {
        let e = expect@;
        lemma_indexes_same(
            e.present.len(),
            |i: int| present(rows@, locators(expect.present@)[i]) == false,
            |i: int| !present(rows@, e.present[i]),
        );
        lemma_indexes_same(
            e.absent.len(),
            |i: int| present(rows@, locators(expect.absent@)[i]) == true,
            |i: int| present(rows@, e.absent[i]),
        );
    }
    let bare = settle_tree_is_sparse(rows);
    let absent_unproven = if bare {
        all_below(expect.absent.len())
    } else {
        Vec::new()
    };
    let met = application_matches && missing_present.len() == 0 && violated_absent.len() == 0
        && absent_unproven.len() == 0;
    let seen = Observation {
        application,
        application_matches,
        missing_present,
        violated_absent,
        rows: rows.len(),
        sparse: bare,
        absent_unproven,
    };
    proof {
        assert(expect@.absent.len() == expect.absent@.len());
        assert(seen@.absent_unproven =~= observe(rows@, expect@).absent_unproven);
    }
    (met, seen)
}

proof fn lemma_indexes_all(n: nat, p: spec_fn(int) -> bool)
    requires
        forall|i: int| 0 <= i < n ==> #[trigger] p(i),
    ensures
        indexes(n, p).len() == n,
    decreases n,
{
    if n > 0 {
        lemma_indexes_all((n - 1) as nat, p);
    }
}

/// A tree in which nothing can be seen never meets an expectation that something
/// is absent.
pub proof fn law_sparse_tree_proves_no_absence(rows: Seq<ElementRow>, expect: ExpectationView)
    requires
        sparse(rows),
        expect.absent.len() > 0,
    ensures
        !observation_met(observe(rows, expect)),
{
    lemma_indexes_all(expect.absent.len(), |i: int| true);
}

/// Where an expectation is met, every wanted locator is on screen and no
/// unwanted one is.
pub proof fn law_met_expectation_holds(rows: Seq<ElementRow>, expect: ExpectationView)
    requires
        observation_met(observe(rows, expect)),
    ensures
        expect.application is Some ==> frontmost(rows) == expect.application,
        forall|i: int| 0 <= i < expect.present.len() ==> present(rows, #[trigger] expect.present[i]),
        forall|i: int| 0 <= i < expect.absent.len() ==> !present(rows, #[trigger] expect.absent[i]),
        expect.absent.len() > 0 ==> !sparse(rows),
{
    lemma_indexes_empty(expect.present.len(), |i: int| !present(rows, expect.present[i]));
    lemma_indexes_empty(expect.absent.len(), |i: int| present(rows, expect.absent[i]));
    assert forall|i: int| 0 <= i < expect.present.len() implies present(
        rows,
        #[trigger] expect.present[i],
    ) by {
        let p = |i: int| !present(rows, expect.present[i]);
        assert(!p(i));
    }
    assert forall|i: int| 0 <= i < expect.absent.len() implies !present(
        rows,
        #[trigger] expect.absent[i],
    ) by {
        let p = |i: int| present(rows, expect.absent[i]);
        assert(!p(i));
    }
    if sparse(rows) && expect.absent.len() > 0 {
        law_sparse_tree_proves_no_absence(rows, expect);
    }
}

proof fn lemma_indexes_empty(n: nat, p: spec_fn(int) -> bool)
    requires
        indexes(n, p).len() == 0,
    ensures
        forall|i: int| 0 <= i < n ==> !#[trigger] p(i),
    decreases n,
{
    if n > 0 {
        lemma_indexes_empty((n - 1) as nat, p);
    }
}

/// A batch is accepted only where it has 1 to 24 steps, each of them is in
/// order, and the times that they declare add up to a minute at most.
pub proof fn law_an_accepted_batch_is_in_order(steps: Seq<StepView>, i: int)
    requires
        batch_error(steps) is None,
        0 <= i < steps.len(),
    ensures
        1 <= steps.len() <= 24,
        declared_wait(steps, steps.len() as int) <= 60_000,
        steps[i] matches StepView::Action { action, after_ms } ==> action is Object && after_ms
            <= 3_000 && crate::action::accepted(action),
        steps[i] matches StepView::Pause { ms } ==> 1 <= ms <= 3_000,
        steps[i] matches StepView::WaitFor { expect, timeout_ms, poll_ms } ==> {
            &&& 1 <= timeout_ms <= 10_000
            &&& 50 <= poll_ms <= 1_000
            &&& expect.application is Some || expect.present.len() > 0 || expect.absent.len() > 0
            &&& expect.application matches Some(application) ==> application.len() > 0
            &&& forall|k: int|
                0 <= k < expect.present.len() ==> has_condition(#[trigger] expect.present[k])
            &&& forall|k: int|
                0 <= k < expect.absent.len() ==> has_condition(#[trigger] expect.absent[k])
        },
{
    lemma_no_fault(steps, 0, i);
    if let StepView::Action { action, .. } = steps[i] {
        crate::action::law_the_place_of_an_action_does_not_decide(action, i as nat, 0);
    }
    if let StepView::WaitFor { expect, .. } = steps[i] {
        assert(!some_empty_locator(expect.present));
        assert(!some_empty_locator(expect.absent));
    }
}

proof fn lemma_no_fault(steps: Seq<StepView>, from: int, i: int)
    requires
        0 <= from <= i < steps.len(),
        first_fault(steps, from) is None,
    ensures
        step_fault(steps[i], i as nat) is None,
    decreases steps.len() - from,
{
    if from < i {
        lemma_no_fault(steps, from + 1, i);
    }
}

proof fn lemma_some_fault(steps: Seq<StepView>, from: int)
    requires
        0 <= from <= steps.len(),
        forall|i: int|
            from <= i < steps.len() ==> step_fault(#[trigger] steps[i], i as nat) is None,
    ensures
        first_fault(steps, from) is None,
    decreases steps.len() - from,
{
    if from < steps.len() {
        assert(step_fault(steps[from], from as nat) is None);
        lemma_some_fault(steps, from + 1);
    }
}

/// A batch of 1 to 24 pauses within their bounds, and within a minute in all, is
/// accepted; and the time that a batch declares is the sum of what its steps
/// declare.
pub proof fn law_the_time_of_a_batch_adds_up(steps: Seq<StepView>, last: StepView)
    ensures
        declared_wait(steps.push(last), steps.len() as int + 1) == declared_wait(
            steps,
            steps.len() as int,
        ) + (match last {
            StepView::Action { after_ms, .. } => after_ms as int,
            StepView::WaitFor { timeout_ms, .. } => timeout_ms as int,
            StepView::Pause { ms } => ms as int,
        }),
        declared_wait(Seq::empty(), 0) == 0,
        1 <= steps.len() <= 24 && declared_wait(steps, steps.len() as int) <= 60_000 && (forall|
            i: int,
        |
            0 <= i < steps.len() ==> ((#[trigger] steps[i]) matches StepView::Pause { ms } && 1
                <= ms <= 3_000)) ==> batch_error(steps) is None,
{
    lemma_same_wait(steps, last, steps.len() as int);
    if forall|i: int|
        0 <= i < steps.len() ==> ((#[trigger] steps[i]) matches StepView::Pause { ms } && 1 <= ms
            <= 3_000) {
        lemma_some_fault(steps, 0);
    }
}

proof fn lemma_same_wait(steps: Seq<StepView>, last: StepView, n: int)
    requires
        0 <= n <= steps.len(),
    ensures
        declared_wait(steps.push(last), n) == declared_wait(steps, n),
    decreases n,
{
    if n > 0 {
        lemma_same_wait(steps, last, n - 1);
    }
}

/// An expectation is met exactly where the app in front is the one that is
/// expected, every control that is to be there is there, none that is to be gone
/// is there, and the tree is good enough to tell that.
pub proof fn law_an_expectation_is_met_by_the_tree(
    rows: Seq<ElementRow>,
    expect: ExpectationView,
    k: int,
)
    requires
        expect.present.len() <= usize::MAX,
        expect.absent.len() <= usize::MAX,
    ensures
        observation_met(observe(rows, expect)) ==> {
            &&& expect.application matches Some(application) ==> frontmost(rows) == Some(
                application,
            )
            &&& 0 <= k < expect.present.len() ==> present(rows, expect.present[k])
            &&& 0 <= k < expect.absent.len() ==> !present(rows, expect.absent[k])
            &&& expect.absent.len() > 0 ==> !sparse(rows)
        },
        (expect.application is None || frontmost(rows) == expect.application) && (forall|i: int|
            0 <= i < expect.present.len() ==> present(rows, #[trigger] expect.present[i])) && (
        forall|i: int|
            0 <= i < expect.absent.len() ==> !present(rows, #[trigger] expect.absent[i])) && (
        expect.absent.len() == 0 || !sparse(rows)) ==> observation_met(observe(rows, expect)),
        0 <= k < expect.present.len() ==> (observe(rows, expect).missing_present.contains(
            k as usize,
        ) <==> !present(rows, expect.present[k])),
        0 <= k < expect.absent.len() ==> (observe(rows, expect).violated_absent.contains(
            k as usize,
        ) <==> present(rows, expect.absent[k])),
        observe(rows, expect).rows == rows.len(),
        observe(rows, expect).application == frontmost(rows),
{
    let missing = |i: int| !present(rows, expect.present[i]);
    let violated = |i: int| present(rows, expect.absent[i]);
    let all = |i: int| true;
    if 0 <= k < expect.present.len() {
        crate::element::law_a_list_of_indexes_holds_what_it_is_made_for(
            expect.present.len(),
            missing,
            k,
        );
    }
    if 0 <= k < expect.absent.len() {
        crate::element::law_a_list_of_indexes_holds_what_it_is_made_for(
            expect.absent.len(),
            violated,
            k,
        );
    }
    if expect.absent.len() > 0 {
        crate::element::law_a_list_of_indexes_holds_what_it_is_made_for(
            expect.absent.len(),
            all,
            0,
        );
    }
    if forall|i: int| 0 <= i < expect.present.len() ==> present(rows, #[trigger] expect.present[i]) {
        lemma_no_index(expect.present.len(), missing);
    }
    if forall|i: int| 0 <= i < expect.absent.len() ==> !present(rows, #[trigger] expect.absent[i]) {
        lemma_no_index(expect.absent.len(), violated);
    }
}

proof fn lemma_no_index(n: nat, pred: spec_fn(int) -> bool)
    requires
        forall|i: int| 0 <= i < n ==> !#[trigger] pred(i),
    ensures
        indexes(n, pred).len() == 0,
    decreases n,
{
    if n > 0 {
        lemma_no_index((n - 1) as nat, pred);
    }
}

} // verus!
