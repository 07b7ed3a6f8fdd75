pub mod cpu_recorder;

pub use cpu_recorder::CPURecorder;

use vstd::prelude::*;

use crate::local_storage::LocalStorage;
use crate::record::Records;
use crate::recorder::thread::{Pid, ThreadSample};

verus! {

/// A hook that a sub-recorder received, with what it was given.
pub enum SubRecorderEvent {
    /// A tick, with the records as they stood before it and the sample.
    Tick(Records, ThreadSample),
    CleanUp,
    Pause,
    Resume(ThreadSample),
    ThreadCreated(Pid, LocalStorage),
}

/// A sub-recorder as the recorder holds it.
pub struct SubRecorderSlot {
    pub sub: Box<dyn SubRecorder>,
}

/// A part of the recorder that fills the records at each tick.
///
/// Each hook is recorded in the sub-recorder's log, so that what a recorder
/// did to its sub-recorders can be stated.
pub trait SubRecorder: Send {
    /// The hooks that this sub-recorder has received, oldest first. A verified
    /// sub-recorder keeps this log in its ghost state; one that is not verified
    /// keeps none, and what the hooks' `ensures` say of it is then believed of
    /// that sub-recorder without proof.
    open spec fn spec_log(&self) -> Seq<SubRecorderEvent> {
        Seq::empty()
    }

    fn tick(&mut self, records: &mut Records, sample: &ThreadSample)
        ensures
            final(self).spec_log() == old(self).spec_log().push(
                SubRecorderEvent::Tick(*old(records), *sample),
            ),
    ;

    fn clean_up(&mut self)
        ensures
            final(self).spec_log() == old(self).spec_log().push(SubRecorderEvent::CleanUp),
    ;

    fn pause(&mut self)
        ensures
            final(self).spec_log() == old(self).spec_log().push(SubRecorderEvent::Pause),
    ;

    fn resume(&mut self, sample: &ThreadSample)
        ensures
            final(self).spec_log() == old(self).spec_log().push(SubRecorderEvent::Resume(*sample)),
    ;

    fn on_thread_created(&mut self, id: Pid, store: &LocalStorage)
        ensures
            final(self).spec_log() == old(self).spec_log().push(
                SubRecorderEvent::ThreadCreated(id, *store),
            ),
    ;
}

} // verus!
