use vstd::prelude::*;
use std::collections::VecDeque;
use crate::observer::{insert_by_order, observers_for, sorted_by_order, inserted_at, roles_for, Activity, Observer, ObserverRole};
use crate::wake::{WakeSource, WakeState};

verus! {

/// A flag that can be set once and is never cleared.
#[derive(Clone, Copy, PartialEq, Eq, Structural, Debug)]
pub struct InitGuard {
    pub initialized: bool,
}

impl InitGuard {
    pub fn new() -> (r: InitGuard)
        ensures
            !r.initialized,
    {
        InitGuard { initialized: false }
    }

    /// Sets the flag. Tells whether this call was the one that set it.
    pub fn claim(&mut self) -> (won: bool)
        ensures
            won == !old(self).initialized,
            final(self).initialized,
    {
        let won = !self.initialized;
        self.initialized = true;
        won
    }
}

/// The main run loop of the process as the bridge sees it: the observers
/// registered on it, the wake sources added to it, whether it is awake,
/// and the ordered channel of user events that proxies feed and the
/// window target drains.
pub struct RunLoop<T> {
    pub observers: Vec<Observer>,
    pub sources: Vec<WakeSource>,
    pub queue: VecDeque<T>,
    pub receiver_alive: bool,
    pub awake: bool,
    pub loop_guard: InitGuard,
    pub app_started: bool,
}

impl<T> RunLoop<T> {
    pub open spec fn wf(&self) -> bool {
        &&& sorted_by_order(self.observers@)
        &&& forall|i: int| 0 <= i < self.sources@.len() ==> (#[trigger] self.sources@[i]).wf()
    }

    /// Nothing but the observers and wake sources changes.
    pub open spec fn same_channel(&self, other: &RunLoop<T>) -> bool {
        &&& self.queue@ == other.queue@
        &&& self.receiver_alive == other.receiver_alive
        &&& self.loop_guard == other.loop_guard
        &&& self.app_started == other.app_started
    }

    /// A run loop on which nothing is registered yet and no event loop
    /// was made.
    pub fn new() -> (r: RunLoop<T>)
        ensures
            r.wf(),
            r.observers@.len() == 0,
            r.sources@.len() == 0,
            r.queue@.len() == 0,
            !r.receiver_alive,
            r.awake,
            !r.loop_guard.initialized,
            !r.app_started,
    {
        RunLoop {
            observers: Vec::new(),
            sources: Vec::new(),
            queue: VecDeque::new(),
            receiver_alive: false,
            awake: true,
            loop_guard: InitGuard::new(),
            app_started: false,
        }
    }

    /// Registers an observer; the host will call it in order of priority.
    pub fn add_observer(&mut self, o: Observer)
        requires
            old(self).wf(),
            old(self).observers@.len() < usize::MAX,
        ensures
            final(self).wf(),
            exists|k: int| inserted_at(old(self).observers@, final(self).observers@, o, k),
            final(self).sources@ == old(self).sources@,
            final(self).awake == old(self).awake,
            final(self).same_channel(old(self)),
    {
        let ghost before = self.observers@;
        insert_by_order(&mut self.observers, o);
        let ghost k = choose|k: int| inserted_at(before, self.observers@, o, k);
        assert(inserted_at(old(self).observers@, self.observers@, o, k));
    }

    /// The roles of the observers that the host calls on `a`, in the order
    /// it calls them.
    pub fn observers_for(&self, a: Activity) -> (r: Vec<ObserverRole>)
        ensures
            r@ == roles_for(self.observers@, a),
    {
        observers_for(&self.observers, a)
    }

    /// Adds a new wake source and registers it. Returns its index.
    pub fn add_source(&mut self) -> (idx: usize)
        requires
            old(self).wf(),
        ensures
            final(self).wf(),
            idx == old(self).sources@.len(),
            final(self).sources@.len() == old(self).sources@.len() + 1,
            final(self).sources@.subrange(0, idx as int) == old(self).sources@,
            final(self).sources@[idx as int].state == WakeState::Armed,
            !final(self).sources@[idx as int].signaled,
            final(self).observers@ == old(self).observers@,
            final(self).awake == old(self).awake,
            final(self).same_channel(old(self)),
    {
        let mut s = WakeSource::new();
        s.register();
        let idx = self.sources.len();
        self.sources.push(s);
        assert(self.sources@.subrange(0, idx as int) =~= old(self).sources@);
        idx
    }

    /// Wakes the loop from its wait, if it waits.
    pub fn wake_up(&mut self)
        ensures
            final(self).awake,
            final(self).observers@ == old(self).observers@,
            final(self).sources@ == old(self).sources@,
            final(self).same_channel(old(self)),
    {
        self.awake = true;
    }

    /// The host blocks in its wait.
    pub fn sleep(&mut self)
        ensures
            !final(self).awake,
            final(self).observers@ == old(self).observers@,
            final(self).sources@ == old(self).sources@,
            final(self).same_channel(old(self)),
    {
        self.awake = false;
    }

    /// Signals the source at `idx`; a source that is not armed ignores it.
    pub fn signal_source(&mut self, idx: usize)
        requires
            old(self).wf(),
            idx < old(self).sources@.len(),
        ensures
            final(self).wf(),
            final(self).sources@ == old(self).sources@.update(
                idx as int,
                WakeSource {
                    signaled: old(self).sources@[idx as int].signaled
                        || old(self).sources@[idx as int].state == WakeState::Armed,
                    ..old(self).sources@[idx as int]
                },
            ),
            final(self).observers@ == old(self).observers@,
            final(self).awake == old(self).awake,
            final(self).same_channel(old(self)),
    {
        let mut s = self.sources[idx];
        s.signal();
        self.sources.set(idx, s);
    }

    /// Invalidates and releases the source at `idx`, unless it already
    /// was. Tells whether this call released it.
    pub fn invalidate_source(&mut self, idx: usize) -> (released: bool)
        requires
            old(self).wf(),
            idx < old(self).sources@.len(),
        ensures
            final(self).wf(),
            released == (old(self).sources@[idx as int].state != WakeState::Invalidated),
            final(self).sources@ == old(self).sources@.update(
                idx as int,
                WakeSource { state: WakeState::Invalidated, signaled: false, releases: 1 },
            ),
            final(self).observers@ == old(self).observers@,
            final(self).awake == old(self).awake,
            final(self).same_channel(old(self)),
    {
        let mut s = self.sources[idx];
        let released = s.invalidate();
        self.sources.set(idx, s);
        released
    }

    /// Removes every queued user event, without waiting for more, and
    /// returns them in the order they were sent.
    pub fn take_user_events(&mut self) -> (r: VecDeque<T>)
        ensures
            r@ == old(self).queue@,
            final(self).queue@.len() == 0,
            final(self).receiver_alive == old(self).receiver_alive,
            final(self).loop_guard == old(self).loop_guard,
            final(self).app_started == old(self).app_started,
            final(self).observers@ == old(self).observers@,
            final(self).sources@ == old(self).sources@,
            final(self).awake == old(self).awake,
    {
        let mut taken: VecDeque<T> = VecDeque::new();
        std::mem::swap(&mut taken, &mut self.queue);
        taken
    }
}

} // verus!
