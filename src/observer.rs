use vstd::prelude::*;

verus! {

/// A phase of one cycle of the host run loop.
#[derive(Clone, Copy, PartialEq, Eq, Structural, Debug)]
pub enum Activity {
    Entry,
    AfterWaiting,
    BeforeWaiting,
    Exit,
}

/// The phases an observer is called on.
#[derive(Clone, Copy, PartialEq, Eq, Structural, Debug)]
pub struct ActivitySet {
    pub entry: bool,
    pub after_waiting: bool,
    pub before_waiting: bool,
    pub exit: bool,
}

impl ActivitySet {
    pub open spec fn has(&self, a: Activity) -> bool {
        match a {
            Activity::Entry => self.entry,
            Activity::AfterWaiting => self.after_waiting,
            Activity::BeforeWaiting => self.before_waiting,
            Activity::Exit => self.exit,
        }
    }

    pub fn contains(&self, a: Activity) -> (r: bool)
        ensures
            r == self.has(a),
    {
        match a {
            Activity::Entry => self.entry,
            Activity::AfterWaiting => self.after_waiting,
            Activity::BeforeWaiting => self.before_waiting,
            Activity::Exit => self.exit,
        }
    }
}

/// Who registered an observer.
#[derive(Clone, Copy, PartialEq, Eq, Structural, Debug)]
pub enum ObserverRole {
    /// The bridge's observer of the resume boundary.
    ControlFlowBegin,
    /// The bridge's observer of the sleep boundary.
    ControlFlowEnd,
    /// Any other component, told apart by a number of its own.
    Other(u64),
}

/// An observer on the host run loop. On each phase the host calls the
/// observers of that phase in ascending `order`, and those of equal order
/// in the order they were added: the lowest order runs first.
#[derive(Clone, Copy, PartialEq, Eq, Structural, Debug)]
pub struct Observer {
    pub order: i64,
    pub activities: ActivitySet,
    pub role: ObserverRole,
}

/// The lowest order value: an observer with it runs before all others.
pub const FIRST_ORDER: i64 = -9223372036854775808;

/// The highest order value: an observer with it runs after all others.
pub const LAST_ORDER: i64 = 9223372036854775807;

/// What the bridge asks of the lifecycle collaborator at a phase boundary.
#[derive(Clone, Copy, PartialEq, Eq, Structural, Debug)]
pub enum LifecycleCall {
    HandleWakeupTransition,
    HandleEventsCleared,
}

/// A phase on which the bridge's observers are not meant to be called:
/// the host behaves otherwise than this bridge was built for.
#[derive(Clone, Copy, PartialEq, Eq, Structural, Debug)]
pub struct UnexpectedPhase {
    pub activity: Activity,
}

/// The observer of the resume boundary: the lifecycle call it makes on
/// each phase. Only `AfterWaiting` is expected.
pub fn control_flow_begin_handler(activity: Activity) -> (r: Result<LifecycleCall, UnexpectedPhase>)
    ensures
        activity == Activity::AfterWaiting ==> r == Ok::<LifecycleCall, UnexpectedPhase>(
            LifecycleCall::HandleWakeupTransition,
        ),
        activity != Activity::AfterWaiting ==> r == Err::<LifecycleCall, UnexpectedPhase>(
            (UnexpectedPhase { activity }),
        ),
{
    match activity {
        Activity::AfterWaiting => Ok(LifecycleCall::HandleWakeupTransition),
        _ => Err(UnexpectedPhase { activity }),
    }
}

/// The observer of the sleep boundary: the lifecycle call it makes on
/// each phase. Only `BeforeWaiting` is expected.
pub fn control_flow_end_handler(activity: Activity) -> (r: Result<LifecycleCall, UnexpectedPhase>)
    ensures
        activity == Activity::BeforeWaiting ==> r == Ok::<LifecycleCall, UnexpectedPhase>(
            LifecycleCall::HandleEventsCleared,
        ),
        activity != Activity::BeforeWaiting ==> r == Err::<LifecycleCall, UnexpectedPhase>(
            (UnexpectedPhase { activity }),
        ),
{
    match activity {
        Activity::BeforeWaiting => Ok(LifecycleCall::HandleEventsCleared),
        _ => Err(UnexpectedPhase { activity }),
    }
}

/// The bridge's observer of the resume boundary.
pub open spec fn spec_begin_observer() -> Observer {
    Observer {
        order: FIRST_ORDER,
        activities: ActivitySet {
            entry: true,
            after_waiting: true,
            before_waiting: false,
            exit: false,
        },
        role: ObserverRole::ControlFlowBegin,
    }
}

/// The bridge's observer of the sleep boundary.
pub open spec fn spec_end_observer() -> Observer {
    Observer {
        order: LAST_ORDER,
        activities: ActivitySet {
            entry: false,
            after_waiting: false,
            before_waiting: true,
            exit: true,
        },
        role: ObserverRole::ControlFlowEnd,
    }
}

/// The observer of the resume boundary, registered first of all on
/// `Entry` and `AfterWaiting`.
pub fn begin_observer() -> (r: Observer)
    ensures
        r == spec_begin_observer(),
        r.order == FIRST_ORDER,
        r.role == ObserverRole::ControlFlowBegin,
        r.activities.has(Activity::Entry) && r.activities.has(Activity::AfterWaiting),
        !r.activities.has(Activity::BeforeWaiting) && !r.activities.has(Activity::Exit),
{
    Observer {
        order: FIRST_ORDER,
        activities: ActivitySet {
            entry: true,
            after_waiting: true,
            before_waiting: false,
            exit: false,
        },
        role: ObserverRole::ControlFlowBegin,
    }
}

/// The observer of the sleep boundary, registered last of all on
/// `BeforeWaiting` and `Exit`.
pub fn end_observer() -> (r: Observer)
    ensures
        r == spec_end_observer(),
        r.order == LAST_ORDER,
        r.role == ObserverRole::ControlFlowEnd,
        r.activities.has(Activity::BeforeWaiting) && r.activities.has(Activity::Exit),
        !r.activities.has(Activity::Entry) && !r.activities.has(Activity::AfterWaiting),
{
    Observer {
        order: LAST_ORDER,
        activities: ActivitySet {
            entry: false,
            after_waiting: false,
            before_waiting: true,
            exit: true,
        },
        role: ObserverRole::ControlFlowEnd,
    }
}

/// Observers held in the order the host calls them.
pub open spec fn sorted_by_order(s: Seq<Observer>) -> bool {
    forall|i: int, j: int| 0 <= i < j < s.len() ==> s[i].order <= s[j].order
}

/// `after` is `before` with `o` put at `k`: behind every observer of no
/// greater order, ahead of every observer of greater order.
pub open spec fn inserted_at(before: Seq<Observer>, after: Seq<Observer>, o: Observer, k: int) -> bool {
    &&& 0 <= k <= before.len()
    &&& after == before.insert(k, o)
    &&& forall|j: int| 0 <= j < k ==> before[j].order <= o.order
    &&& forall|j: int| k <= j < before.len() ==> before[j].order > o.order
}

/// The roles of the observers of `s` that watch `a`, in call order.
pub open spec fn roles_for(s: Seq<Observer>, a: Activity) -> Seq<ObserverRole>
    decreases s.len(),
{
    if s.len() == 0 {
        Seq::empty()
    } else {
        let r = roles_for(s.drop_last(), a);
        if s.last().activities.has(a) {
            r.push(s.last().role)
        } else {
            r
        }
    }
}

/// Adds `o` to a list kept in call order, behind the observers of equal
/// order that came before it.
pub fn insert_by_order(list: &mut Vec<Observer>, o: Observer)
    requires
        sorted_by_order(old(list)@),
        old(list)@.len() < usize::MAX,
    ensures
        sorted_by_order(final(list)@),
        exists|k: int| inserted_at(old(list)@, final(list)@, o, k),
{
    let mut i: usize = 0;
    while i < list.len() && list[i].order <= o.order
        invariant
            0 <= i <= list@.len(),
            forall|j: int| 0 <= j < i ==> list@[j].order <= o.order,
        decreases list@.len() - i,
    {
        i = i + 1;
    }
    let ghost before = list@;
    list.insert(i, o);
    assert(inserted_at(before, list@, o, i as int));
}

/// The roles of the observers in `list` that watch `a`, in the order the
/// host calls them.
pub fn observers_for(list: &Vec<Observer>, a: Activity) -> (r: Vec<ObserverRole>)
    ensures
        r@ == roles_for(list@, a),
{
    let mut r: Vec<ObserverRole> = Vec::new();
    let mut i: usize = 0;
    while i < list.len()
        invariant
            0 <= i <= list@.len(),
            r@ == roles_for(list@.subrange(0, i as int), a),
        decreases list@.len() - i,
    {
        assert(list@.subrange(0, i as int + 1).drop_last() =~= list@.subrange(0, i as int));
        if list[i].activities.contains(a) {
            r.push(list[i].role);
        }
        i = i + 1;
    }
    assert(list@.subrange(0, list@.len() as int) =~= list@);
    r
}

/// The bridge's resume observer, once in the list, stays ahead of any
/// observer added after it: an observer added later never runs before it.
pub proof fn lemma_begin_stays_first(
    before: Seq<Observer>,
    after: Seq<Observer>,
    o: Observer,
    k: int,
    b: int,
)
    requires
        0 <= b < before.len(),
        before[b].order == FIRST_ORDER,
        inserted_at(before, after, o, k),
    ensures
        b < k,
        after[b] == before[b],
        after[k] == o,
{
}

/// The bridge's sleep observer, once in the list, stays behind any
/// observer added after it with a lower order value (a higher priority):
/// such an observer always runs before it.
pub proof fn lemma_end_stays_last(
    before: Seq<Observer>,
    after: Seq<Observer>,
    o: Observer,
    k: int,
    e: int,
)
    requires
        0 <= e < before.len(),
        before[e].order == LAST_ORDER,
        o.order < LAST_ORDER,
        inserted_at(before, after, o, k),
    ensures
        k <= e,
        after[e + 1] == before[e],
        after[k] == o,
{
}

} // verus!
