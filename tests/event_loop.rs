use ios_event_loop::event::{ControlFlow, Event, EventLoopClosed, Never};
use ios_event_loop::event_loop::{CreationError, EventHandler, EventLoop, EventRecorder};
use ios_event_loop::observer::{
    control_flow_begin_handler, control_flow_end_handler, Activity, ActivitySet, LifecycleCall,
    Observer, ObserverRole, UnexpectedPhase, FIRST_ORDER, LAST_ORDER,
};
use ios_event_loop::run_loop::{InitGuard, RunLoop};
use ios_event_loop::wake::{WakeSource, WakeState};

/// The events a recorder kept, written out.
fn seen<T: std::fmt::Debug>(r: &EventRecorder<T>) -> Vec<String> {
    r.events
        .iter()
        .map(|e| match e {
            Event::UserEvent(v) => format!("user {:?}", v),
            other => format!("{:?}", other),
        })
        .collect()
}

fn recorder<T>() -> EventRecorder<T> {
    EventRecorder::new(true)
}

fn fresh<T>() -> (RunLoop<T>, EventLoop<T>) {
    let mut rl = RunLoop::new();
    let el = EventLoop::new(&mut rl, true);
    (rl, el)
}

#[test]
fn user_event_from_proxy_ends_the_loop() {
    let (mut rl, el) = fresh::<&'static str>();
    let proxy = el.create_proxy(&mut rl);
    assert_eq!(proxy.send_event(&mut rl, "x"), Ok(()));
    let mut handler = el.run(&mut rl, recorder());
    assert!(rl.app_started);
    let mut cf = ControlFlow::Wait;

    assert_eq!(rl.observers_for(Activity::AfterWaiting), vec![ObserverRole::ControlFlowBegin]);
    assert_eq!(
        control_flow_begin_handler(Activity::AfterWaiting),
        Ok(LifecycleCall::HandleWakeupTransition)
    );
    handler.handle_nonuser_event(Event::<Never>::NewEvents, &mut cf);
    assert_eq!(cf, ControlFlow::Wait);

    assert_eq!(rl.observers_for(Activity::BeforeWaiting), vec![ObserverRole::ControlFlowEnd]);
    assert_eq!(
        control_flow_end_handler(Activity::BeforeWaiting),
        Ok(LifecycleCall::HandleEventsCleared)
    );
    handler.handle_user_events(&mut rl, &mut cf);
    assert_eq!(seen(handler.get_callback()), vec!["NewEvents".to_string(), "user \"x\"".to_string()]);
    assert_eq!(cf, ControlFlow::Exit);
    assert!(rl.queue.is_empty());
}

#[test]
fn sends_are_drained_in_order_once() {
    let (mut rl, el) = fresh::<u32>();
    let proxy = el.create_proxy(&mut rl);
    for v in [1u32, 2, 3, 2] {
        assert_eq!(proxy.send_event(&mut rl, v), Ok(()));
    }
    let taken: Vec<u32> = rl.take_user_events().into_iter().collect();
    assert_eq!(taken, vec![1, 2, 3, 2]);
    assert!(rl.take_user_events().is_empty());
}

#[test]
fn handler_hands_user_events_in_send_order() {
    let (mut rl, el) = fresh::<u32>();
    let proxy = el.create_proxy(&mut rl);
    let copy = proxy.duplicate();
    assert_eq!(proxy.send_event(&mut rl, 7), Ok(()));
    assert_eq!(copy.send_event(&mut rl, 8), Ok(()));
    assert_eq!(proxy.send_event(&mut rl, 9), Ok(()));
    let mut handler = el.run(&mut rl, recorder());
    let mut cf = ControlFlow::Poll;
    handler.handle_user_events(&mut rl, &mut cf);
    assert_eq!(seen(handler.get_callback()), vec!["user 7", "user 8", "user 9"]);
    handler.handle_user_events(&mut rl, &mut cf);
    assert_eq!(handler.get_callback().events.len(), 3);
}

#[test]
fn empty_drain_calls_nothing_and_keeps_control_flow() {
    let (mut rl, el) = fresh::<u32>();
    let mut handler = el.run(&mut rl, recorder());
    let mut cf = ControlFlow::WaitUntil(9);
    handler.handle_user_events(&mut rl, &mut cf);
    assert!(handler.get_callback().events.is_empty());
    assert_eq!(cf, ControlFlow::WaitUntil(9));
}

#[test]
fn idle_loop_wakes_and_drains_a_single_send() {
    let (mut rl, el) = fresh::<u32>();
    let proxy = el.create_proxy(&mut rl);
    let mut handler = el.run(&mut rl, recorder());
    let mut cf = ControlFlow::Wait;
    rl.sleep();
    assert_eq!(proxy.send_event(&mut rl, 42), Ok(()));
    assert!(rl.awake);
    handler.handle_user_events(&mut rl, &mut cf);
    assert_eq!(seen(handler.get_callback()), vec!["user 42"]);
}

#[test]
fn send_wakes_an_idle_loop() {
    let (mut rl, el) = fresh::<u32>();
    let proxy = el.create_proxy(&mut rl);
    assert!(rl.awake);
    rl.sleep();
    assert!(!rl.awake);
    assert_eq!(proxy.send_event(&mut rl, 42), Ok(()));
    assert!(rl.awake);
    assert!(rl.sources[0].signaled);
    assert_eq!(rl.queue.len(), 1);
    assert_eq!(rl.queue[0], 42);
}

#[test]
fn proxy_creation_registers_and_wakes() {
    let (mut rl, el) = fresh::<u32>();
    rl.sleep();
    let _p = el.create_proxy(&mut rl);
    let _q = el.create_proxy(&mut rl);
    assert!(rl.awake);
    assert_eq!(rl.sources.len(), 2);
    assert_eq!(rl.sources[1].state, WakeState::Armed);
    assert!(!rl.sources[1].signaled);
}

#[test]
fn dropping_clones_releases_the_source_once() {
    let (mut rl, el) = fresh::<u32>();
    let proxy = el.create_proxy(&mut rl);
    let a = proxy.duplicate();
    let b = a.clone();
    assert!(!a.release(&mut rl));
    assert_eq!(rl.sources[0].state, WakeState::Armed);
    assert_eq!(rl.sources[0].releases, 0);
    assert!(proxy.release(&mut rl));
    assert_eq!(rl.sources[0].state, WakeState::Invalidated);
    assert!(!b.release(&mut rl));
    assert_eq!(rl.sources[0].state, WakeState::Invalidated);
    assert_eq!(rl.sources[0].releases, 1);
}

#[test]
fn owner_dropped_first_then_clones() {
    let (mut rl, el) = fresh::<u32>();
    let proxy = el.create_proxy(&mut rl);
    let a = proxy.clone();
    let b = proxy.duplicate();
    assert!(proxy.release(&mut rl));
    assert!(!b.release(&mut rl));
    assert!(!a.release(&mut rl));
    assert_eq!(rl.sources[0].releases, 1);
}

#[test]
fn send_through_a_dropped_source_still_queues_and_wakes() {
    let (mut rl, el) = fresh::<u32>();
    let proxy = el.create_proxy(&mut rl);
    let copy = proxy.duplicate();
    proxy.release(&mut rl);
    rl.sleep();
    assert_eq!(copy.send_event(&mut rl, 5), Ok(()));
    assert!(rl.awake);
    assert!(!rl.sources[0].signaled);
    assert_eq!(rl.queue.len(), 1);
}

#[test]
fn second_event_loop_is_refused() {
    let mut rl: RunLoop<u32> = RunLoop::new();
    assert!(EventLoop::try_new(&mut rl, true).is_ok());
    assert!(rl.loop_guard.initialized);
    let observers = rl.observers.len();
    match EventLoop::try_new(&mut rl, true) {
        Err(e) => assert_eq!(e, CreationError::AlreadyCreated),
        Ok(_) => panic!("a second event loop was made"),
    }
    assert_eq!(rl.observers.len(), observers);
}

#[test]
fn event_loop_off_the_main_thread_is_refused() {
    let mut rl: RunLoop<u32> = RunLoop::new();
    match EventLoop::try_new(&mut rl, false) {
        Err(e) => assert_eq!(e, CreationError::NotMainThread),
        Ok(_) => panic!("an event loop was made off the main thread"),
    }
    assert!(!rl.loop_guard.initialized);
    assert!(rl.observers.is_empty());
}

#[test]
fn send_after_close_fails() {
    let (mut rl, el) = fresh::<u32>();
    let proxy = el.create_proxy(&mut rl);
    assert_eq!(proxy.send_event(&mut rl, 1), Ok(()));
    el.close(&mut rl);
    assert!(!rl.receiver_alive);
    assert!(rl.queue.is_empty());
    rl.sleep();
    assert_eq!(proxy.send_event(&mut rl, 2), Err(EventLoopClosed));
    assert!(rl.queue.is_empty());
    assert!(!rl.awake);
}

#[test]
fn send_after_the_window_target_closes_fails() {
    let (mut rl, el) = fresh::<u32>();
    let proxy = el.create_proxy(&mut rl);
    let mut handler = el.run(&mut rl, recorder());
    let mut cf = ControlFlow::Wait;
    handler.handle_user_events(&mut rl, &mut cf);
    assert_eq!(proxy.send_event(&mut rl, 3), Ok(()));
    handler.close(&mut rl);
    assert!(!rl.receiver_alive);
    assert!(rl.queue.is_empty());
    assert_eq!(proxy.send_event(&mut rl, 4), Err(EventLoopClosed));
}

fn watcher(order: i64, id: u64) -> Observer {
    Observer {
        order,
        activities: ActivitySet { entry: false, after_waiting: true, before_waiting: true, exit: false },
        role: ObserverRole::Other(id),
    }
}

#[test]
fn bridge_observers_bracket_the_others() {
    let (mut rl, _el) = fresh::<u32>();
    rl.add_observer(watcher(0, 1));
    rl.add_observer(watcher(FIRST_ORDER, 2));
    rl.add_observer(watcher(LAST_ORDER - 1, 3));
    rl.add_observer(watcher(-5, 4));
    assert_eq!(
        rl.observers_for(Activity::AfterWaiting),
        vec![
            ObserverRole::ControlFlowBegin,
            ObserverRole::Other(2),
            ObserverRole::Other(4),
            ObserverRole::Other(1),
            ObserverRole::Other(3),
        ]
    );
    assert_eq!(
        rl.observers_for(Activity::BeforeWaiting),
        vec![
            ObserverRole::Other(2),
            ObserverRole::Other(4),
            ObserverRole::Other(1),
            ObserverRole::Other(3),
            ObserverRole::ControlFlowEnd,
        ]
    );
    assert_eq!(rl.observers_for(Activity::Entry), vec![ObserverRole::ControlFlowBegin]);
    assert_eq!(rl.observers_for(Activity::Exit), vec![ObserverRole::ControlFlowEnd]);
}

#[test]
fn observers_registered_before_the_loop_still_run_after_begin() {
    let mut rl: RunLoop<u32> = RunLoop::new();
    rl.add_observer(watcher(FIRST_ORDER, 9));
    let _el = EventLoop::new(&mut rl, true);
    assert_eq!(
        rl.observers_for(Activity::AfterWaiting),
        vec![ObserverRole::Other(9), ObserverRole::ControlFlowBegin]
    );
}

#[test]
fn unexpected_phases_are_faults() {
    assert_eq!(
        control_flow_begin_handler(Activity::Entry),
        Err(UnexpectedPhase { activity: Activity::Entry })
    );
    assert_eq!(
        control_flow_begin_handler(Activity::BeforeWaiting),
        Err(UnexpectedPhase { activity: Activity::BeforeWaiting })
    );
    assert_eq!(
        control_flow_end_handler(Activity::Exit),
        Err(UnexpectedPhase { activity: Activity::Exit })
    );
    assert_eq!(
        control_flow_end_handler(Activity::AfterWaiting),
        Err(UnexpectedPhase { activity: Activity::AfterWaiting })
    );
}

#[test]
fn nonuser_events_map_across_payloads() {
    match Event::<u8>::WindowEvent(3).map_nonuser_event::<String>() {
        Ok(Event::WindowEvent(id)) => assert_eq!(id, 3),
        other => panic!("unexpected {:?}", other),
    }
    match Event::<u8>::UserEvent(4).map_nonuser_event::<String>() {
        Err(Event::UserEvent(v)) => assert_eq!(v, 4),
        other => panic!("unexpected {:?}", other),
    }
}

#[test]
fn init_guard_is_claimed_once() {
    let mut g = InitGuard::new();
    assert!(g.claim());
    assert!(!g.claim());
    assert!(g.initialized);
}

#[test]
fn wake_source_lifecycle() {
    let mut s = WakeSource::new();
    assert_eq!(s.state, WakeState::Unregistered);
    s.signal();
    assert!(!s.signaled);
    s.register();
    assert_eq!(s.state, WakeState::Armed);
    s.signal();
    assert!(s.perform());
    assert!(!s.perform());
    assert!(s.invalidate());
    assert!(!s.invalidate());
    assert_eq!(s.releases, 1);
    s.register();
    assert_eq!(s.state, WakeState::Invalidated);
}
