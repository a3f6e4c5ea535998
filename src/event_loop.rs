use vstd::prelude::*;
use std::collections::VecDeque;
use std::marker::PhantomData;
use crate::event::{ControlFlow, Event, EventLoopClosed, Never};
use crate::observer::{begin_observer, end_observer, inserted_at, spec_begin_observer, spec_end_observer};
use crate::run_loop::RunLoop;
use crate::wake::{WakeSource, WakeState};

verus! {

/// Why no event loop was made.
#[derive(Clone, Copy, PartialEq, Eq, Structural, Debug)]
pub enum CreationError {
    /// The caller is not on the main thread.
    NotMainThread,
    /// This process already made its one event loop.
    AlreadyCreated,
}

/// The main-thread side of the loop: it holds the receiving end of the
/// channel of user events, which the run loop state carries.
pub struct EventLoopWindowTarget<T> {
    phantom: PhantomData<T>,
}

/// The one event loop of the process.
pub struct EventLoop<T> {
    window_target: EventLoopWindowTarget<T>,
}

/// A handle through which any thread injects user events into the loop.
/// Clones share the wake source at `source`; only the proxy that created
/// it, its owner, invalidates it when dropped.
pub struct EventLoopProxy<T> {
    source: usize,
    owner: bool,
    phantom: PhantomData<T>,
}

/// The callback that the application hands to `run`.
/// An implementation keeps, as `received`, the events it was handed so
/// far, in order: each call appends the one event it is handed.
pub trait EventCallback<T> {
    spec fn received(&self) -> Seq<Event<T>>;

    fn call(&mut self, event: Event<T>, target: &EventLoopWindowTarget<T>, control_flow: &mut ControlFlow)
        ensures
            final(self).received() == old(self).received().push(event),
    ;
}

/// A callback that keeps every event it is handed and, when told to,
/// asks the loop to exit on each user event.
pub struct EventRecorder<T> {
    pub events: Vec<Event<T>>,
    pub exit_on_user_event: bool,
}

impl<T> EventRecorder<T> {
    pub fn new(exit_on_user_event: bool) -> (r: EventRecorder<T>)
        ensures
            r.events@ == Seq::<Event<T>>::empty(),
            r.exit_on_user_event == exit_on_user_event,
    {
        EventRecorder { events: Vec::new(), exit_on_user_event }
    }
}

impl<T> EventCallback<T> for EventRecorder<T> {
    open spec fn received(&self) -> Seq<Event<T>> {
        self.events@
    }

    fn call(&mut self, event: Event<T>, _target: &EventLoopWindowTarget<T>, control_flow: &mut ControlFlow) {
        if self.exit_on_user_event {
            if let Event::UserEvent(_) = &event {
                *control_flow = ControlFlow::Exit;
            }
        }
        self.events.push(event);
    }
}

/// A user event carrying `v`.
pub open spec fn user_event<T>(v: T) -> Event<T> {
    Event::UserEvent(v)
}

/// The target that the host's callbacks and the phase observers dispatch to.
pub trait EventHandler<T> {
    /// The events handed to the callback so far, in order.
    spec fn delivered(&self) -> Seq<Event<T>>;

    /// Hands a non-user event to the callback, once and unchanged.
    fn handle_nonuser_event(&mut self, event: Event<Never>, control_flow: &mut ControlFlow)
        requires
            !event.is_user(),
        ensures
            final(self).delivered().len() == old(self).delivered().len() + 1,
            final(self).delivered().drop_last() == old(self).delivered(),
            event.same_kind(&final(self).delivered().last()),
    ;

    /// Hands every user event queued now to the callback, in the order
    /// they were sent, without waiting for more.
    fn handle_user_events(&mut self, rl: &mut RunLoop<T>, control_flow: &mut ControlFlow)
        ensures
            final(self).delivered() == old(self).delivered() + old(rl).queue@.map_values(
                |v: T| user_event(v),
            ),
            old(rl).queue@.len() == 0 ==> *final(control_flow) == *old(control_flow),
            final(rl).queue@.len() == 0,
            final(rl).receiver_alive == old(rl).receiver_alive,
            final(rl).loop_guard == old(rl).loop_guard,
            final(rl).app_started == old(rl).app_started,
            final(rl).observers@ == old(rl).observers@,
            final(rl).sources@ == old(rl).sources@,
            final(rl).awake == old(rl).awake,
    ;
}

/// The handler that `run` installs: the application's callback and the
/// window target it is handed.
pub struct EventLoopHandler<F, T> {
    f: F,
    event_loop: EventLoopWindowTarget<T>,
}

/// What `send_event` returns on a run loop in this state.
pub open spec fn send_result<T>(rl: RunLoop<T>) -> Result<(), EventLoopClosed> {
    if rl.receiver_alive {
        Ok(())
    } else {
        Err(EventLoopClosed)
    }
}

/// `after` is `before` once `v` was sent through the proxy on `source`.
pub open spec fn sent<T>(before: RunLoop<T>, after: RunLoop<T>, source: usize, v: T) -> bool {
    if before.receiver_alive {
        &&& after.queue@ == before.queue@.push(v)
        &&& after.awake
        &&& after.sources@ == before.sources@.update(
            source as int,
            WakeSource {
                signaled: before.sources@[source as int].signaled
                    || before.sources@[source as int].state == WakeState::Armed,
                ..before.sources@[source as int]
            },
        )
        &&& after.observers@ == before.observers@
        &&& after.receiver_alive == before.receiver_alive
        &&& after.loop_guard == before.loop_guard
        &&& after.app_started == before.app_started
    } else {
        &&& after.queue@ == before.queue@
        &&& after.awake == before.awake
        &&& after.sources@ == before.sources@
        &&& after.observers@ == before.observers@
        &&& after.receiver_alive == before.receiver_alive
        &&& after.loop_guard == before.loop_guard
        &&& after.app_started == before.app_started
    }
}

/// `after` is `before` once the proxy on `source` was dropped.
pub open spec fn released<T>(before: RunLoop<T>, after: RunLoop<T>, source: usize) -> bool {
    &&& after.sources@ == before.sources@.update(
        source as int,
        WakeSource { state: WakeState::Invalidated, signaled: false, releases: 1 },
    )
    &&& after.observers@ == before.observers@
    &&& after.queue@ == before.queue@
    &&& after.awake == before.awake
    &&& after.receiver_alive == before.receiver_alive
    &&& after.loop_guard == before.loop_guard
    &&& after.app_started == before.app_started
}

/// Nothing in the run loop changed from `before` to `after`.
pub open spec fn unchanged<T>(before: RunLoop<T>, after: RunLoop<T>) -> bool {
    &&& after.sources@ == before.sources@
    &&& after.observers@ == before.observers@
    &&& after.queue@ == before.queue@
    &&& after.awake == before.awake
    &&& after.receiver_alive == before.receiver_alive
    &&& after.loop_guard == before.loop_guard
    &&& after.app_started == before.app_started
}

/// `after` is `before` once a proxy on `source` was dropped: the owner
/// releases the source, a clone changes nothing.
pub open spec fn dropped<T>(before: RunLoop<T>, after: RunLoop<T>, source: usize, owner: bool) -> bool {
    if owner {
        released(before, after, source)
    } else {
        unchanged(before, after)
    }
}

/// `after` is `before` with the bridge's two phase observers registered:
/// the resume observer first, then the sleep observer.
pub open spec fn observers_set_up<T>(before: RunLoop<T>, after: RunLoop<T>) -> bool {
    exists|mid: Seq<crate::observer::Observer>, k1: int, k2: int|
        inserted_at(before.observers@, mid, spec_begin_observer(), k1)
        && inserted_at(mid, after.observers@, spec_end_observer(), k2)
}

/// Registers the bridge's phase observers on the main run loop: the
/// resume observer at the highest priority, so that it runs before every
/// other observer of `AfterWaiting`, and the sleep observer at the lowest,
/// so that it runs after every other observer of `BeforeWaiting`.
pub fn setup_control_flow_observers<T>(rl: &mut RunLoop<T>)
    requires
        old(rl).wf(),
        old(rl).observers@.len() < usize::MAX - 1,
    ensures
        final(rl).wf(),
        observers_set_up(*old(rl), *final(rl)),
        final(rl).observers@.len() == old(rl).observers@.len() + 2,
        final(rl).sources@ == old(rl).sources@,
        final(rl).awake == old(rl).awake,
        final(rl).same_channel(old(rl)),
{
    let ghost before = rl.observers@;
    rl.add_observer(begin_observer());
    let ghost mid = rl.observers@;
    let ghost k1 = choose|k: int| inserted_at(before, mid, spec_begin_observer(), k);
    rl.add_observer(end_observer());
    let ghost k2 = choose|k: int| inserted_at(mid, rl.observers@, spec_end_observer(), k);
    assert(inserted_at(old(rl).observers@, mid, spec_begin_observer(), k1));
    assert(inserted_at(mid, rl.observers@, spec_end_observer(), k2));
}

impl<T> EventLoopWindowTarget<T> {
    /// Drops the receiving end: queued events are dropped with it, and
    /// every later send fails.
    pub fn close(self, rl: &mut RunLoop<T>)
        ensures
            !final(rl).receiver_alive,
            final(rl).queue@.len() == 0,
            final(rl).loop_guard == old(rl).loop_guard,
            final(rl).app_started == old(rl).app_started,
            final(rl).observers@ == old(rl).observers@,
            final(rl).sources@ == old(rl).sources@,
            final(rl).awake == old(rl).awake,
    {
        rl.receiver_alive = false;
        rl.queue = VecDeque::new();
    }
}

impl<T> EventLoop<T> {
    /// The window target that the loop owns.
    pub closed spec fn target(&self) -> EventLoopWindowTarget<T> {
        self.window_target
    }

    /// Makes the event loop of this process: marks the process as having
    /// one, opens the channel and registers the phase observers.
    pub fn new(rl: &mut RunLoop<T>, on_main_thread: bool) -> (r: EventLoop<T>)
        requires
            old(rl).wf(),
            on_main_thread,
            !old(rl).loop_guard.initialized,
            old(rl).observers@.len() < usize::MAX - 1,
        ensures
            final(rl).wf(),
            final(rl).loop_guard.initialized,
            final(rl).receiver_alive,
            final(rl).queue@.len() == 0,
            observers_set_up(*old(rl), *final(rl)),
            final(rl).sources@ == old(rl).sources@,
            final(rl).awake == old(rl).awake,
            final(rl).app_started == old(rl).app_started,
    {
        rl.loop_guard.claim();
        rl.queue = VecDeque::new();
        rl.receiver_alive = true;
        setup_control_flow_observers(rl);
        EventLoop { window_target: EventLoopWindowTarget { phantom: PhantomData } }
    }

    /// `new` for a caller that cannot know whether the process may still
    /// make its event loop: refuses a call off the main thread, and a
    /// second loop, and then changes nothing.
    pub fn try_new(rl: &mut RunLoop<T>, on_main_thread: bool) -> (r: Result<EventLoop<T>, CreationError>)
        requires
            old(rl).wf(),
            old(rl).observers@.len() < usize::MAX - 1,
        ensures
            !on_main_thread ==> r is Err && r->Err_0 == CreationError::NotMainThread,
            on_main_thread && old(rl).loop_guard.initialized ==> r is Err && r->Err_0
                == CreationError::AlreadyCreated,
            r is Err ==> *final(rl) == *old(rl),
            on_main_thread && !old(rl).loop_guard.initialized ==> {
                &&& r is Ok
                &&& final(rl).wf()
                &&& final(rl).loop_guard.initialized
                &&& final(rl).receiver_alive
                &&& final(rl).queue@.len() == 0
                &&& observers_set_up(*old(rl), *final(rl))
                &&& final(rl).sources@ == old(rl).sources@
            },
    {
        if !on_main_thread {
            Err(CreationError::NotMainThread)
        } else if rl.loop_guard.initialized {
            Err(CreationError::AlreadyCreated)
        } else {
            Ok(EventLoop::new(rl, on_main_thread))
        }
    }

    /// Hands control to the host: installs the handler made of `callback`
    /// and the window target. The host may be started once per process.
    pub fn run<F: EventCallback<T>>(self, rl: &mut RunLoop<T>, callback: F) -> (r: EventLoopHandler<F, T>)
        requires
            !old(rl).app_started,
        ensures
            final(rl).app_started,
            final(rl).loop_guard == old(rl).loop_guard,
            final(rl).receiver_alive == old(rl).receiver_alive,
            final(rl).queue@ == old(rl).queue@,
            final(rl).observers@ == old(rl).observers@,
            final(rl).sources@ == old(rl).sources@,
            final(rl).awake == old(rl).awake,
            r.callback() == callback,
            r.target() == self.target(),
            r.delivered() == callback.received(),
    {
        rl.app_started = true;
        EventLoopHandler { f: callback, event_loop: self.window_target }
    }

    /// A new proxy with a wake source of its own.
    pub fn create_proxy(&self, rl: &mut RunLoop<T>) -> (r: EventLoopProxy<T>)
        requires
            old(rl).wf(),
        ensures
            final(rl).wf(),
            r.source_index() == old(rl).sources@.len(),
            r.is_owner(),
            final(rl).sources@.len() == old(rl).sources@.len() + 1,
            final(rl).sources@.subrange(0, r.source_index() as int) == old(rl).sources@,
            final(rl).sources@[r.source_index() as int].state == WakeState::Armed,
            !final(rl).sources@[r.source_index() as int].signaled,
            final(rl).awake,
            final(rl).observers@ == old(rl).observers@,
            final(rl).same_channel(old(rl)),
    {
        EventLoopProxy::new(rl)
    }

    pub fn window_target(&self) -> (r: &EventLoopWindowTarget<T>)
        ensures
            *r == self.target(),
    {
        &self.window_target
    }

    /// Drops the loop before it runs, and with it the receiving end.
    pub fn close(self, rl: &mut RunLoop<T>)
        ensures
            !final(rl).receiver_alive,
            final(rl).queue@.len() == 0,
            final(rl).loop_guard == old(rl).loop_guard,
            final(rl).app_started == old(rl).app_started,
            final(rl).observers@ == old(rl).observers@,
            final(rl).sources@ == old(rl).sources@,
            final(rl).awake == old(rl).awake,
    {
        self.window_target.close(rl);
    }
}

impl<T> EventLoopProxy<T> {
    /// The index of the proxy's wake source on the run loop.
    pub closed spec fn source_index(&self) -> usize {
        self.source
    }

    /// Whether this proxy created its wake source, and so releases it.
    pub closed spec fn is_owner(&self) -> bool {
        self.owner
    }

    /// Adds a wake source to the main run loop and wakes it once, so that
    /// the source is in place before the first send.
    pub(crate) fn new(rl: &mut RunLoop<T>) -> (r: EventLoopProxy<T>)
        requires
            old(rl).wf(),
        ensures
            final(rl).wf(),
            r.source_index() == old(rl).sources@.len(),
            r.is_owner(),
            final(rl).sources@.len() == old(rl).sources@.len() + 1,
            final(rl).sources@.subrange(0, r.source_index() as int) == old(rl).sources@,
            final(rl).sources@[r.source_index() as int].state == WakeState::Armed,
            !final(rl).sources@[r.source_index() as int].signaled,
            final(rl).awake,
            final(rl).observers@ == old(rl).observers@,
            final(rl).same_channel(old(rl)),
    {
        let source = rl.add_source();
        rl.wake_up();
        EventLoopProxy { source, owner: true, phantom: PhantomData }
    }

    /// The index of the proxy's wake source on the run loop.
    pub fn source(&self) -> (r: usize)
        ensures
            r == self.source_index(),
    {
        self.source
    }

    /// A second handle on the same channel and wake source; it does not
    /// own the source.
    pub fn duplicate(&self) -> (r: EventLoopProxy<T>)
        ensures
            r.source_index() == self.source_index(),
            !r.is_owner(),
    {
        EventLoopProxy { source: self.source, owner: false, phantom: PhantomData }
    }

    /// Queues `event` for the main thread, then signals the wake source and
    /// wakes the main run loop so that it drains the channel. Fails, and
    /// changes nothing, once the receiving end is gone.
    pub fn send_event(&self, rl: &mut RunLoop<T>, event: T) -> (r: Result<(), EventLoopClosed>)
        requires
            old(rl).wf(),
            self.source_index() < old(rl).sources@.len(),
        ensures
            final(rl).wf(),
            r == send_result(*old(rl)),
            sent(*old(rl), *final(rl), self.source_index(), event),
    {
        if !rl.receiver_alive {
            return Err(EventLoopClosed);
        }
        rl.queue.push_back(event);
        rl.signal_source(self.source);
        rl.wake_up();
        Ok(())
    }

    /// Drops the proxy. The owner invalidates and releases its wake source,
    /// unless that was done already; a clone changes nothing. Tells whether
    /// the source was released by this call.
    pub fn release(self, rl: &mut RunLoop<T>) -> (did_release: bool)
        requires
            old(rl).wf(),
            self.source_index() < old(rl).sources@.len(),
        ensures
            final(rl).wf(),
            did_release == (self.is_owner() && old(rl).sources@[self.source_index() as int].state
                != WakeState::Invalidated),
            dropped(*old(rl), *final(rl), self.source_index(), self.is_owner()),
    {
        if self.owner {
            rl.invalidate_source(self.source)
        } else {
            false
        }
    }
}

impl<T> Clone for EventLoopProxy<T> {
    /// A second handle on the same channel and wake source; it does not
    /// own the source.
    fn clone(&self) -> (r: EventLoopProxy<T>)
        ensures
            r.source_index() == self.source_index(),
            !r.is_owner(),
    {
        self.duplicate()
    }
}

impl<F, T> EventLoopHandler<F, T> {
    pub closed spec fn callback(&self) -> F {
        self.f
    }

    /// The window target the callback is handed.
    pub closed spec fn target(&self) -> EventLoopWindowTarget<T> {
        self.event_loop
    }

    /// Drops the handler and with it the window target: queued events are
    /// dropped, and every later send fails.
    pub fn close(self, rl: &mut RunLoop<T>)
        ensures
            !final(rl).receiver_alive,
            final(rl).queue@.len() == 0,
            final(rl).loop_guard == old(rl).loop_guard,
            final(rl).app_started == old(rl).app_started,
            final(rl).observers@ == old(rl).observers@,
            final(rl).sources@ == old(rl).sources@,
            final(rl).awake == old(rl).awake,
    {
        self.event_loop.close(rl);
    }

    /// The application's callback, as it stands now.
    pub fn get_callback(&self) -> (r: &F)
        ensures
            *r == self.callback(),
    {
        &self.f
    }
}

impl<F: EventCallback<T>, T> EventHandler<T> for EventLoopHandler<F, T> {
    closed spec fn delivered(&self) -> Seq<Event<T>> {
        self.f.received()
    }

    fn handle_nonuser_event(&mut self, event: Event<Never>, control_flow: &mut ControlFlow) {
        match event.map_nonuser_event::<T>() {
            Ok(e) => self.f.call(e, &self.event_loop, control_flow),
            Err(_) => {},
        }
    }

    fn handle_user_events(&mut self, rl: &mut RunLoop<T>, control_flow: &mut ControlFlow) {
        let ghost start = self.f.received();
        let ghost cf0 = *control_flow;
        let mut events = rl.take_user_events();
        let ghost q = events@;
        let ghost mut i: int = 0;
        while events.len() > 0
            invariant
                0 <= i <= q.len(),
                events@ == q.subrange(i, q.len() as int),
                self.f.received() == start + q.subrange(0, i).map_values(|v: T| user_event(v)),
                q.len() == 0 ==> *control_flow == cf0,
            decreases events@.len(),
        {
            match events.pop_front() {
                Some(v) => {
                    assert(v == q[i]);
                    self.f.call(Event::UserEvent(v), &self.event_loop, control_flow);
                    proof {
                        assert(q.subrange(0, i + 1).map_values(|v: T| user_event(v)) =~= q.subrange(
                            0,
                            i,
                        ).map_values(|v: T| user_event(v)).push(user_event(q[i])));
                        assert(self.f.received() =~= start + q.subrange(0, i + 1).map_values(
                            |v: T| user_event(v),
                        ));
                        i = i + 1;
                    }
                },
                None => {},
            }
        }
        assert(q.subrange(0, i) =~= q);
    }
}

/// Once the bridge's observers are set up, the sleep observer is the last
/// observer of the list, and the resume observer stands ahead of it. With
/// `lemma_begin_stays_first` and `lemma_end_stays_last`, they keep these
/// places against every observer added later.
pub proof fn lemma_set_up_brackets<T>(before: RunLoop<T>, after: RunLoop<T>)
    requires
        observers_set_up(before, after),
    ensures
        after.observers@.len() == before.observers@.len() + 2,
        after.observers@.last() == spec_end_observer(),
        exists|b: int|
            0 <= b < after.observers@.len() - 1 && after.observers@[b] == spec_begin_observer(),
{
    let (mid, k1, k2) = choose|mid: Seq<crate::observer::Observer>, k1: int, k2: int|
        inserted_at(before.observers@, mid, spec_begin_observer(), k1)
        && inserted_at(mid, after.observers@, spec_end_observer(), k2);
    if k2 < mid.len() {
        assert(mid[k2].order > spec_end_observer().order);
    }
    assert(k2 == mid.len());
    assert(mid[k1] == spec_begin_observer());
    assert(after.observers@[k1] == mid[k1]);
}

/// Values sent one after another through one proxy, on a live channel
/// that starts empty, are queued in the order they were sent, each exactly
/// once; after at least one send the main run loop is awake, whether or
/// not it slept before.
pub proof fn lemma_sends_arrive_in_order<T>(states: Seq<RunLoop<T>>, source: usize, vs: Seq<T>)
    requires
        states.len() == vs.len() + 1,
        states[0].receiver_alive,
        states[0].queue@.len() == 0,
        forall|i: int| 0 <= i < vs.len() ==> sent(#[trigger] states[i], states[i + 1], source, vs[i]),
    ensures
        states.last().queue@ == vs,
        states.last().receiver_alive,
        vs.len() > 0 ==> states.last().awake,
    decreases vs.len(),
{
    if vs.len() > 0 {
        let n = vs.len() - 1;
        let prefix = states.drop_last();
        assert forall|i: int| 0 <= i < vs.drop_last().len() implies sent(
            #[trigger] prefix[i],
            prefix[i + 1],
            source,
            vs.drop_last()[i],
        ) by {
            assert(sent(states[i], states[i + 1], source, vs[i]));
        }
        lemma_sends_arrive_in_order(prefix, source, vs.drop_last());
        assert(sent(states[n], states[n + 1], source, vs[n]));
        assert(vs =~= vs.drop_last().push(vs[n]));
    }
}

/// Dropping proxies in any order, owners and the clones that share their
/// wake sources alike, keeps every source well formed: none is released
/// twice.
pub proof fn lemma_releases_at_most_once<T>(states: Seq<RunLoop<T>>, drops: Seq<usize>, owners: Seq<bool>)
    requires
        states.len() == drops.len() + 1,
        owners.len() == drops.len(),
        states[0].wf(),
        forall|i: int|
            0 <= i < drops.len() ==> drops[i] < states[i].sources@.len() && dropped(
                #[trigger] states[i],
                states[i + 1],
                drops[i],
                owners[i],
            ),
    ensures
        forall|i: int| 0 <= i < states.len() ==> (#[trigger] states[i]).wf(),
        forall|j: int|
            0 <= j < states.last().sources@.len() ==> (#[trigger] states.last().sources@[j]).releases
                <= 1,
    decreases drops.len(),
{
    if drops.len() > 0 {
        let n = drops.len() - 1;
        let prefix = states.drop_last();
        assert forall|i: int| 0 <= i < drops.drop_last().len() implies drops.drop_last()[i]
            < prefix[i].sources@.len() && dropped(
            #[trigger] prefix[i],
            prefix[i + 1],
            drops.drop_last()[i],
            owners.drop_last()[i],
        ) by {
            assert(dropped(states[i], states[i + 1], drops[i], owners[i]));
        }
        lemma_releases_at_most_once(prefix, drops.drop_last(), owners.drop_last());
        assert(prefix[n] == states[n]);
        assert(states[n].wf());
        assert(dropped(states[n], states[n + 1], drops[n], owners[n]));
        assert forall|j: int| 0 <= j < states[n + 1].sources@.len() implies (
        #[trigger] states[n + 1].sources@[j]).wf() by {
            if !owners[n] || j != drops[n] {
                assert(states[n + 1].sources@[j] == states[n].sources@[j]);
            }
        }
        assert forall|i: int| 0 <= i < states.len() implies (#[trigger] states[i]).wf() by {
            if i < n + 1 {
                assert(prefix[i] == states[i]);
            }
        }
    }
    assert forall|j: int| 0 <= j < states.last().sources@.len() implies (
    #[trigger] states.last().sources@[j]).releases <= 1 by {
        assert(states[states.len() - 1].wf());
    }
}

/// Values sent one after another through one proxy, on a live channel
/// that starts empty, reach the callback at the next drain in the order
/// they were sent, each exactly once, and no other event does.
/// `drained_before` and `drained_after` are what the handler delivered
/// before and after that drain, as `handle_user_events` relates them.
pub proof fn lemma_sent_values_reach_callback<T>(
    states: Seq<RunLoop<T>>,
    source: usize,
    vs: Seq<T>,
    drained_before: Seq<Event<T>>,
    drained_after: Seq<Event<T>>,
)
    requires
        states.len() == vs.len() + 1,
        states[0].receiver_alive,
        states[0].queue@.len() == 0,
        forall|i: int| 0 <= i < vs.len() ==> sent(#[trigger] states[i], states[i + 1], source, vs[i]),
        drained_after == drained_before + states.last().queue@.map_values(|v: T| user_event(v)),
    ensures
        drained_after == drained_before + vs.map_values(|v: T| user_event(v)),
        drained_after.len() == drained_before.len() + vs.len(),
        forall|i: int| 0 <= i < vs.len() ==> drained_after[drained_before.len() + i] == user_event(vs[i]),
{
    lemma_sends_arrive_in_order(states, source, vs);
}

/// Once the receiving end is gone, every send fails and queues nothing.
pub proof fn lemma_closed_loop_refuses_events<T>(before: RunLoop<T>, after: RunLoop<T>, source: usize, v: T)
    requires
        !before.receiver_alive,
        sent(before, after, source, v),
    ensures
        send_result(before) == Err::<(), EventLoopClosed>(EventLoopClosed),
        after.queue@ == before.queue@,
        !after.receiver_alive,
{
}

} // verus!
