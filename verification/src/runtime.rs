//! The server lifecycle: built, running, stopped. Built holds the registered
//! tools but is not subscribed yet; running accepts inbound messages; stopped
//! is terminal and accepts none.
use vstd::prelude::*;

verus! {

/// The state of one server instance.
#[derive(Clone, Copy, Debug, PartialEq, Eq, Structural)]
pub enum ServerState {
    Built,
    Running,
    Stopped,
}

impl ServerState {
    /// Whether inbound messages are accepted: only while running.
    pub open spec fn accepts_spec(&self) -> bool {
        *self is Running
    }

    /// Whether inbound messages are accepted.
    pub fn accepts_messages(&self) -> (r: bool)
        ensures
            r == self.accepts_spec(),
    {
        matches!(self, ServerState::Running)
    }

    /// Enters the receive loop: only a built server starts; any other state
    /// is left unchanged and the start refused.
    pub fn start(&mut self) -> (r: bool)
        ensures
            *old(self) is Built ==> r && *final(self) is Running,
            !(*old(self) is Built) ==> !r && *final(self) == *old(self),
    {
        match self {
            ServerState::Built => {
                *self = ServerState::Running;
                true
            }
            _ => false,
        }
    }

    /// Leaves the receive loop: only a running server stops; stopping is
    /// terminal, and any other state is left unchanged with the stop refused.
    pub fn stop(&mut self) -> (r: bool)
        ensures
            *old(self) is Running ==> r && *final(self) is Stopped,
            !(*old(self) is Running) ==> !r && *final(self) == *old(self),
    {
        match self {
            ServerState::Running => {
                *self = ServerState::Stopped;
                true
            }
            _ => false,
        }
    }
}

} // verus!
