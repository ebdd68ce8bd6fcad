//! Whether a run goes on.

use vstd::prelude::*;

verus! {

/// The state of a run, as its loops consult it.
pub trait RunState {
    /// The run has been told to stop.
    spec fn stopped(&self) -> bool;

    /// The run goes on, whatever the time is.
    spec fn running(&self) -> bool;

    /// Whether the run goes on.
    fn is_alive(&self) -> (alive: bool)
        ensures
            self.stopped() ==> !alive,
            self.running() ==> alive,
    ;
}

} // verus!
