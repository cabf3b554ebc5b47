//! The application's own event set: the semantic signals the interface
//! emits and the state logic consumes. The core never inspects these; it
//! moves them from a widget's producer to the state handler.

use vstd::prelude::*;

verus! {

/// All possible events receivable from the interface and upon which the
/// application processes its state. The set is closed but grows with the
/// application; the interface core stays generic over it.
#[derive(Clone, Copy, Debug, Eq, Hash, PartialEq, Structural)]
pub enum Event {
    /// The user asked to quit the application.
    Quit,
    /// A counted signal whose payload is read at trigger time.
    Count(u64),
}

} // verus!
