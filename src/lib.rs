//! A windowing-event shell: the registry of live windows, the deferred
//! application of window creation and destruction, and the translation of
//! platform events into per-window notifications.
use vstd::prelude::*;

pub mod geometry;
pub mod graphics;
pub mod input;
pub mod registry;
pub mod window;

verus! {

} // verus!
