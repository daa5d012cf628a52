use vstd::prelude::*;

verus! {

/// What the player must do to its audio transport after a request.
#[derive(PartialEq, Eq, Structural, Clone, Copy, Debug)]
pub enum ControlAction {
    /// Open the transport with a fresh rendering session.
    StartTransport,
    /// Tear the transport down.
    StopTransport,
    /// Leave the transport as it is.
    Nothing,
}

/// Whether the transport is running after a start request, and what to do.
pub open spec fn start_outcome(running: bool) -> (bool, ControlAction) {
    if running {
        (true, ControlAction::Nothing)
    } else {
        (false, ControlAction::StartTransport)
    }
}

/// Whether the transport is running after a stop request, and what to do.
pub open spec fn stop_outcome(running: bool) -> (bool, ControlAction) {
    if running {
        (false, ControlAction::StopTransport)
    } else {
        (false, ControlAction::Nothing)
    }
}

/// The start/stop bookkeeping of a player: whether its transport runs.
pub struct PlayerControl {
    running: bool,
}

impl View for PlayerControl {
    type V = bool;

    closed spec fn view(&self) -> bool {
        self.running
    }
}

impl PlayerControl {
    /// A player whose transport is not running.
    pub fn new() -> (r: Self)
        ensures
            !r@,
    {
        PlayerControl { running: false }
    }

    pub fn is_running(&self) -> (r: bool)
        ensures
            r == self@,
    {
        self.running
    }

    /// A start request: the transport is to be opened unless it already
    /// runs. It counts as running once `started` reports success.
    pub fn request_start(&mut self) -> (r: ControlAction)
        ensures
            (final(self)@, r) == start_outcome(old(self)@),
    {
        if self.running {
            ControlAction::Nothing
        } else {
            ControlAction::StartTransport
        }
    }

    /// Records whether opening the transport succeeded.
    pub fn started(&mut self, ok: bool)
        ensures
            final(self)@ == ok,
    {
        self.running = ok;
    }

    /// A stop request: the transport is to be torn down if it runs.
    pub fn request_stop(&mut self) -> (r: ControlAction)
        ensures
            (final(self)@, r) == stop_outcome(old(self)@),
    {
        if self.running {
            self.running = false;
            ControlAction::StopTransport
        } else {
            ControlAction::Nothing
        }
    }
}

/// Start and stop are idempotent: starting a running player, or stopping
/// a stopped one, leaves its state as it was and asks nothing of the
/// transport.
pub proof fn lemma_repeated_requests_change_nothing(running: bool)
    ensures
        running ==> start_outcome(running) == (running, ControlAction::Nothing),
        !running ==> stop_outcome(running) == (running, ControlAction::Nothing),
        start_outcome(start_outcome(true).0) == start_outcome(true),
        stop_outcome(stop_outcome(running).0) == (stop_outcome(running).0, ControlAction::Nothing),
{
}

} // verus!
