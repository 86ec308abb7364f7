//! The decision the monitor loop takes on each tick.
use vstd::prelude::*;
use crate::detector::{AlertEvent, Detector, Snapshot, DetectError, observed};

verus! {

/// Why no snapshot could be taken this tick.
#[derive(Clone, Copy, Debug, PartialEq, Eq)]
pub enum SampleError {
    ProviderUnavailable,
}

/// What the loop does after a tick's sample.
#[derive(Clone, Debug, PartialEq, Eq)]
pub enum TickAction {
    /// Send these alerts, then wait for the next tick.
    Dispatch(Vec<AlertEvent>),
    /// Leave the detector as it was and wait for the next tick.
    Skip,
}

impl Detector {
    /// Takes in one tick's sample. A failed sample, or a snapshot with another
    /// core count, skips the tick and leaves the detector unchanged; otherwise
    /// the tick's alerts are handed out for dispatch.
    pub fn on_sample(&mut self, sample: Result<Snapshot, SampleError>) -> (r: TickAction)
        ensures
            sample is Err ==> r == TickAction::Skip && *final(self) == *old(self),
            sample is Ok && sample->Ok_0.cpu_usages@.len() != old(self).cpus@.len() ==> r == TickAction::Skip
                && *final(self) == *old(self),
            sample is Ok && sample->Ok_0.cpu_usages@.len() == old(self).cpus@.len() ==> r is Dispatch
                && observed(*old(self), sample->Ok_0, *final(self), r->Dispatch_0),
    {
        match sample {
            Err(_) => TickAction::Skip,
            Ok(snap) => match self.observe(&snap) {
                Ok(events) => TickAction::Dispatch(events),
                Err(DetectError::CoreCountChanged) => TickAction::Skip,
            },
        }
    }
}

} // verus!
