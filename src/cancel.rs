use vstd::prelude::*;

verus! {

/// The process-wide stop signal of a run.
#[derive(Clone, Copy, Debug, PartialEq, Eq, Structural)]
pub enum Cancellation {
    /// No interrupt has arrived.
    Idle,
    /// An interrupt asked the run to stop at its next file.
    StopRequested,
}

/// What an interrupt does: the signal's next state, and whether the process
/// must end at once.
pub open spec fn interrupt_spec(c: Cancellation) -> (Cancellation, bool) {
    match c {
        Cancellation::Idle => (Cancellation::StopRequested, false),
        Cancellation::StopRequested => (Cancellation::StopRequested, true),
    }
}

impl Cancellation {
    /// The state before any interrupt.
    pub fn new() -> (r: Self)
        ensures
            r == Cancellation::Idle,
    {
        Cancellation::Idle
    }

    /// Handles one interrupt: the first asks for a stop, the second asks to end
    /// the process immediately.
    pub fn interrupt(&mut self) -> (exit_now: bool)
        ensures
            (*final(self), exit_now) == interrupt_spec(*old(self)),
    {
        match *self {
            Cancellation::Idle => {
                *self = Cancellation::StopRequested;
                false
            },
            Cancellation::StopRequested => true,
        }
    }

    /// Whether the trial loop has to stop at its next file.
    pub fn stop_requested(&self) -> (r: bool)
        ensures
            r == (*self == Cancellation::StopRequested),
    {
        match self {
            Cancellation::Idle => false,
            Cancellation::StopRequested => true,
        }
    }
}

} // verus!
