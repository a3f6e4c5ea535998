use vstd::prelude::*;

verus! {

/// The life of a wake source on the host run loop.
#[derive(Clone, Copy, PartialEq, Eq, Structural, Debug)]
pub enum WakeState {
    Unregistered,
    Armed,
    Invalidated,
}

/// A payload-free signal registered with the host run loop.
///
/// `releases` counts how often the source was handed back to the host;
/// a well-formed source has released exactly when it is invalidated.
#[derive(Clone, Copy, PartialEq, Eq, Structural, Debug)]
pub struct WakeSource {
    pub state: WakeState,
    pub signaled: bool,
    pub releases: u8,
}

impl WakeSource {
    pub open spec fn wf(&self) -> bool {
        &&& self.releases == (if self.state == WakeState::Invalidated { 1u8 } else { 0u8 })
        &&& self.signaled ==> self.state == WakeState::Armed
    }

    pub fn new() -> (r: WakeSource)
        ensures
            r.wf(),
            r.state == WakeState::Unregistered,
            !r.signaled,
    {
        WakeSource { state: WakeState::Unregistered, signaled: false, releases: 0 }
    }

    /// Adds the source to the run loop; only an unregistered source changes.
    pub fn register(&mut self)
        requires
            old(self).wf(),
        ensures
            final(self).wf(),
            final(self).state == (if old(self).state == WakeState::Unregistered {
                WakeState::Armed
            } else {
                old(self).state
            }),
            final(self).signaled == old(self).signaled,
    {
        if self.state == WakeState::Unregistered {
            self.state = WakeState::Armed;
        }
    }

    /// Marks an armed source as fired; any other source ignores the signal.
    pub fn signal(&mut self)
        requires
            old(self).wf(),
        ensures
            final(self).wf(),
            final(self).state == old(self).state,
            final(self).releases == old(self).releases,
            final(self).signaled == (old(self).signaled || old(self).state == WakeState::Armed),
    {
        if self.state == WakeState::Armed {
            self.signaled = true;
        }
    }

    /// The host has performed the source: clears the pending signal and
    /// tells whether there was one.
    pub fn perform(&mut self) -> (fired: bool)
        requires
            old(self).wf(),
        ensures
            final(self).wf(),
            fired == old(self).signaled,
            !final(self).signaled,
            final(self).state == old(self).state,
            final(self).releases == old(self).releases,
    {
        let fired = self.signaled;
        self.signaled = false;
        fired
    }

    /// Invalidates and releases the source, once: a source that is already
    /// invalidated is left as it is. Tells whether this call released it.
    pub fn invalidate(&mut self) -> (released: bool)
        requires
            old(self).wf(),
        ensures
            final(self).wf(),
            final(self).state == WakeState::Invalidated,
            !final(self).signaled,
            released == (old(self).state != WakeState::Invalidated),
            final(self).releases == 1,
    {
        if self.state == WakeState::Invalidated {
            false
        } else {
            self.state = WakeState::Invalidated;
            self.signaled = false;
            self.releases = self.releases + 1;
            true
        }
    }
}

} // verus!
