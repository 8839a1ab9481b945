use vstd::prelude::*;
use crate::ready_set::{ReadySet, ReadySetModel};

verus! {

/// How many images one session generates.
pub const MAX_IMAGES: u64 = 5;

/// Why acquisition ended.
#[derive(Debug, Clone, Copy, PartialEq, Eq, Structural)]
pub enum StopReason {
    /// Every requested item was produced.
    Completed,
    /// A stop was requested before the next item was begun.
    Stopped,
    /// Generating or downloading an item failed.
    Failed,
}

/// What the acquisition task does next.
#[derive(Debug, Clone, Copy, PartialEq, Eq, Structural)]
pub enum AcquireStep {
    /// Generate and download the item with this index.
    Fetch(u64),
    /// Stop: mark acquisition as finished.
    Finish,
}

/// The acquisition task's state over plain values: how many items were asked
/// for, the index of the next one, and why it ended, once it has.
pub ghost struct AcquirerModel {
    pub target: nat,
    pub next: nat,
    pub outcome: Option<StopReason>,
}

impl AcquirerModel {
    pub open spec fn finished(self) -> bool {
        self.outcome is Some
    }

    /// The state after asking for the next step, with the stop signal read as
    /// `stop_requested`.
    pub open spec fn after_begin(self, stop_requested: bool) -> AcquirerModel {
        if self.finished() {
            self
        } else if stop_requested {
            AcquirerModel { outcome: Some(StopReason::Stopped), ..self }
        } else if self.next >= self.target {
            AcquirerModel { outcome: Some(StopReason::Completed), ..self }
        } else {
            self
        }
    }

    /// The step handed out for that same call.
    pub open spec fn begin_step(self, stop_requested: bool) -> AcquireStep {
        if !self.finished() && !stop_requested && self.next < self.target {
            AcquireStep::Fetch(self.next as u64)
        } else {
            AcquireStep::Finish
        }
    }

    /// Whether a produced item is still taken: only while unfinished and
    /// short of the target.
    pub open spec fn accepts(self) -> bool {
        !self.finished() && self.next < self.target
    }

    /// The state after an item was produced.
    pub open spec fn after_complete(self) -> AcquirerModel {
        if self.accepts() {
            AcquirerModel { next: self.next + 1, ..self }
        } else {
            self
        }
    }

    /// The set after an item was produced: appended only when taken.
    pub open spec fn set_after_complete(self, set: ReadySetModel, item: String) -> ReadySetModel {
        if self.accepts() { set.append(item) } else { set }
    }

    /// The state after producing an item failed.
    pub open spec fn after_fail(self) -> AcquirerModel {
        if self.finished() {
            self
        } else {
            AcquirerModel { outcome: Some(StopReason::Failed), ..self }
        }
    }
}

/// The decisions of the background task that produces items one at a time and
/// appends each to the ready set, checking the stop signal between items.
pub struct Acquirer {
    target: u64,
    next: u64,
    outcome: Option<StopReason>,
}

impl View for Acquirer {
    type V = AcquirerModel;

    closed spec fn view(&self) -> AcquirerModel {
        AcquirerModel { target: self.target as nat, next: self.next as nat, outcome: self.outcome }
    }
}

impl Acquirer {
    /// A task that is to produce `target` items, none produced yet.
    pub fn new(target: u64) -> (r: Acquirer)
        ensures
            r@ == (AcquirerModel { target: target as nat, next: 0, outcome: None }),
    {
        Acquirer { target, next: 0, outcome: None }
    }

    /// Decides the next step, reading the stop signal as `stop_requested`: a
    /// set signal, or a reached target, ends the task before another item is
    /// begun.
    pub fn begin(&mut self, stop_requested: bool) -> (r: AcquireStep)
        ensures
            final(self)@ == old(self)@.after_begin(stop_requested),
            r == old(self)@.begin_step(stop_requested),
    {
        if self.outcome.is_some() {
            AcquireStep::Finish
        } else if stop_requested {
            self.outcome = Some(StopReason::Stopped);
            AcquireStep::Finish
        } else if self.next >= self.target {
            self.outcome = Some(StopReason::Completed);
            AcquireStep::Finish
        } else {
            AcquireStep::Fetch(self.next)
        }
    }

    /// Takes a produced item: it is appended to `set` and counted, unless the
    /// task has already ended or reached its target.
    pub fn complete(&mut self, set: &mut ReadySet, item: String)
        requires
            old(set)@.wf(),
        ensures
            final(self)@ == old(self)@.after_complete(),
            final(set)@ == old(self)@.set_after_complete(old(set)@, item),
            final(set)@.wf(),
    {
        if self.outcome.is_none() && self.next < self.target {
            set.append(item);
            self.next = self.next + 1;
        }
    }

    /// Records that producing an item failed, which ends the task.
    pub fn fail(&mut self)
        ensures
            final(self)@ == old(self)@.after_fail(),
    {
        if self.outcome.is_none() {
            self.outcome = Some(StopReason::Failed);
        }
    }

    /// Whether the task has ended.
    pub fn is_finished(&self) -> (r: bool)
        ensures
            r == self@.finished(),
    {
        self.outcome.is_some()
    }

    /// How many items were produced and appended.
    pub fn produced(&self) -> (r: u64)
        ensures
            r == self@.next,
    {
        self.next
    }

    /// Why the task ended, once it has.
    pub fn outcome(&self) -> (r: Option<StopReason>)
        ensures
            r == self@.outcome,
    {
        self.outcome
    }
}

} // verus!
