//! A push-style event loop bridge over a host-owned run loop.
//!
//! The host run loop, its observers and wake sources, and the ordered
//! channel that carries user events are held as an explicit `RunLoop`
//! state, so that the ordering and lifetime rules of the bridge can be
//! stated and proved over it.
use vstd::prelude::*;

pub mod event;
pub mod wake;
pub mod observer;
pub mod run_loop;
pub mod event_loop;

verus! {

} // verus!
