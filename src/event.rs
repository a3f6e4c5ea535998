use vstd::prelude::*;

verus! {

/// What the callback asks of the host loop once it returns.
#[derive(Clone, Copy, PartialEq, Eq, Structural, Debug)]
pub enum ControlFlow {
    /// Sleep until the next event arrives.
    Wait,
    /// Sleep until the next event or until the given instant.
    WaitUntil(u64),
    /// Run the next cycle without sleeping.
    Poll,
    /// Leave the loop.
    Exit,
}

/// An event handed to the callback: either one produced by the windowing
/// layer or a value injected through a proxy.
#[derive(Debug)]
pub enum Event<T> {
    NewEvents,
    WindowEvent(u64),
    Suspended,
    Resumed,
    EventsCleared,
    LoopDestroyed,
    UserEvent(T),
}

/// A payload type that no caller can build: the private field has no
/// public constructor, so an `Event<Never>` handed in from outside this
/// crate is never a user event.
#[derive(Debug)]
pub struct Never {
    unconstructible: (),
}

/// The one recoverable error: the receiving loop no longer exists.
#[derive(Clone, Copy, PartialEq, Eq, Structural, Debug)]
pub struct EventLoopClosed;

impl<T> Event<T> {
    pub open spec fn is_user(&self) -> bool {
        self is UserEvent
    }

    /// The same non-user event over another payload type.
    pub open spec fn same_kind<U>(&self, other: &Event<U>) -> bool {
        match (self, other) {
            (Event::NewEvents, Event::NewEvents) => true,
            (Event::WindowEvent(a), Event::WindowEvent(b)) => a == b,
            (Event::Suspended, Event::Suspended) => true,
            (Event::Resumed, Event::Resumed) => true,
            (Event::EventsCleared, Event::EventsCleared) => true,
            (Event::LoopDestroyed, Event::LoopDestroyed) => true,
            _ => false,
        }
    }

    /// Carries a non-user event over to another payload type; a user event
    /// comes back unchanged as the error.
    pub fn map_nonuser_event<U>(self) -> (r: Result<Event<U>, Event<T>>)
        ensures
            match r {
                Ok(e) => !self.is_user() && self.same_kind(&e),
                Err(e) => self.is_user() && e == self,
            },
    {
        match self {
            Event::NewEvents => Ok(Event::NewEvents),
            Event::WindowEvent(id) => Ok(Event::WindowEvent(id)),
            Event::Suspended => Ok(Event::Suspended),
            Event::Resumed => Ok(Event::Resumed),
            Event::EventsCleared => Ok(Event::EventsCleared),
            Event::LoopDestroyed => Ok(Event::LoopDestroyed),
            Event::UserEvent(v) => Err(Event::UserEvent(v)),
        }
    }
}

} // verus!
