use vstd::prelude::*;

verus! {

/// How far the shutdown handshake has come.
#[derive(Debug, Clone, Copy, PartialEq, Eq, Structural)]
pub enum ShutdownStage {
    /// The render loop has ended; nothing has been done yet.
    Begun,
    /// The stop signal has been raised.
    StopRaised,
    /// Waiting for the acquisition task to terminate.
    Joining,
    /// The acquisition task has terminated; the process may exit.
    Done,
}

/// What the coordinator asks for next.
#[derive(Debug, Clone, Copy, PartialEq, Eq, Structural)]
pub enum ShutdownStep {
    /// Raise the stop signal.
    RaiseStop,
    /// Tell the user that acquisition is still running and is waited for.
    AnnounceWait,
    /// Wait for the acquisition task to terminate.
    Join,
    /// Exit the process.
    Exit,
}

/// The next stage and step, given whether acquisition has reported itself
/// finished and whether its task has terminated.
pub open spec fn shutdown_next(
    stage: ShutdownStage,
    finished: bool,
    terminated: bool,
) -> (ShutdownStage, ShutdownStep) {
    match stage {
        ShutdownStage::Begun => (ShutdownStage::StopRaised, ShutdownStep::RaiseStop),
        ShutdownStage::StopRaised => if finished {
            (ShutdownStage::Joining, ShutdownStep::Join)
        } else {
            (ShutdownStage::Joining, ShutdownStep::AnnounceWait)
        },
        ShutdownStage::Joining => if terminated {
            (ShutdownStage::Done, ShutdownStep::Exit)
        } else {
            (ShutdownStage::Joining, ShutdownStep::Join)
        },
        ShutdownStage::Done => (ShutdownStage::Done, ShutdownStep::Exit),
    }
}

/// The handshake run once the render loop has ended: raise the stop signal,
/// announce the wait if acquisition is still running, wait for the task to
/// terminate, and only then let the process exit.
pub struct Shutdown {
    stage: ShutdownStage,
}

impl View for Shutdown {
    type V = ShutdownStage;

    closed spec fn view(&self) -> ShutdownStage {
        self.stage
    }
}

impl Shutdown {
    /// A handshake that has not started.
    pub fn new() -> (r: Shutdown)
        ensures
            r@ == ShutdownStage::Begun,
    {
        Shutdown { stage: ShutdownStage::Begun }
    }

    /// The current stage.
    pub fn stage(&self) -> (r: ShutdownStage)
        ensures
            r == self@,
    {
        self.stage
    }

    /// Decides the next step from the acquisition task's finished signal and
    /// whether the task has terminated.
    pub fn next(&mut self, acquisition_finished: bool, acquirer_terminated: bool) -> (r:
        ShutdownStep)
        ensures
            (final(self)@, r) == shutdown_next(old(self)@, acquisition_finished, acquirer_terminated),
            r == ShutdownStep::Exit ==> acquirer_terminated || old(self)@ == ShutdownStage::Done,
    {
        let (stage, step) = match self.stage {
            ShutdownStage::Begun => (ShutdownStage::StopRaised, ShutdownStep::RaiseStop),
            ShutdownStage::StopRaised => if acquisition_finished {
                (ShutdownStage::Joining, ShutdownStep::Join)
            } else {
                (ShutdownStage::Joining, ShutdownStep::AnnounceWait)
            },
            ShutdownStage::Joining => if acquirer_terminated {
                (ShutdownStage::Done, ShutdownStep::Exit)
            } else {
                (ShutdownStage::Joining, ShutdownStep::Join)
            },
            ShutdownStage::Done => (ShutdownStage::Done, ShutdownStep::Exit),
        };
        self.stage = stage;
        step
    }
}

} // verus!
