//! The message loop's run state.
use vstd::prelude::*;

verus! {

/// Windows message loop manager: whether it is to keep running.
pub struct MessageLoop {
    running: bool,
}

impl MessageLoop {
    /// Whether the loop is to keep running.
    pub closed spec fn spec_running(&self) -> bool {
        self.running
    }

    /// Create a new message loop, set to run.
    pub fn new() -> (m: Self)
        ensures
            m.spec_running(),
    {
        MessageLoop { running: true }
    }

    /// Runs the loop: the messages are pumped by the thread that owns the hook, so
    /// nothing is left to do here and the state stays as it is.
    pub fn run(&mut self)
        ensures
            final(self).spec_running() == old(self).spec_running(),
    {
    }

    /// Stop the message loop
    pub fn stop(&mut self)
        ensures
            !final(self).spec_running(),
    {
        self.running = false;
    }

    /// Whether the loop is to keep running.
    pub fn is_running(&self) -> (r: bool)
        ensures
            r == self.spec_running(),
    {
        self.running
    }
}

} // verus!
