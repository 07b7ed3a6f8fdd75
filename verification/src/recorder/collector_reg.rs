use vstd::prelude::*;

use crate::recorder::Task;
use crate::worker::{hands_back, ScheduleError, Scheduler};
use crate::Collector;

verus! {

/// `CollectorRegHandle` accepts registrations of [`Collector`]s.
pub struct CollectorRegHandle {
    scheduler: Scheduler<Task>,
}

impl Clone for CollectorRegHandle {
    fn clone(&self) -> (h: Self)
        ensures
            h.spec_capacity() == self.spec_capacity(),
    {
        CollectorRegHandle { scheduler: self.scheduler.clone() }
    }
}

impl CollectorRegHandle {
    pub fn new(scheduler: Scheduler<Task>) -> (h: Self)
        ensures
            h.spec_capacity() == scheduler.capacity(),
    {
        CollectorRegHandle { scheduler }
    }

    /// The capacity of the scheduler through which collectors are registered.
    pub closed spec fn spec_capacity(self) -> usize {
        self.scheduler.capacity()
    }

    /// Registers a collector with the recorder under `id`. The returned guard
    /// can deregister it; it holds no scheduler when the registration could
    /// not be scheduled.
    pub fn register(&self, collector: Box<dyn Collector>, id: CollectorID) -> (g: CollectorGuard)
        ensures
            g.spec_id() == id,
            self.spec_capacity() == 0 ==> !g.is_armed(),
            g.is_armed() ==> g.spec_scheduler_capacity() == self.spec_capacity(),
    {
        let reg_msg = Task::CollectorReg(CollectorReg::Register { id, collector });
        let scheduled = self.scheduler.schedule(reg_msg);
        CollectorGuard::for_registration(id, &scheduled, &self.scheduler)
    }
}

/// The id under which a collector is registered.
#[derive(Copy, Clone, Debug, Eq, PartialEq, Hash, Structural)]
pub struct CollectorID(pub u64);

impl Default for CollectorID {
    fn default() -> (id: Self)
        ensures
            id.0 == 0,
    {
        CollectorID(0)
    }
}

/// A change to the set of registered collectors.
pub enum CollectorReg {
    Register { id: CollectorID, collector: Box<dyn Collector> },
    Deregister { id: CollectorID },
}

/// The request that the recorder deregister the collector under `id`.
pub open spec fn deregistration(id: CollectorID) -> Task {
    Task::CollectorReg(CollectorReg::Deregister { id })
}

/// The registration of a collector. `deregister` undoes it.
pub struct CollectorGuard {
    id: CollectorID,
    tx: Option<Scheduler<Task>>,
}

impl CollectorGuard {
    /// The guard of the registration under `id` whose scheduling through
    /// `scheduler` gave `scheduled`: it deregisters through that scheduler
    /// when the registration was scheduled, and through none otherwise.
    pub fn for_registration(
        id: CollectorID,
        scheduled: &Result<(), ScheduleError<Task>>,
        scheduler: &Scheduler<Task>,
    ) -> (g: CollectorGuard)
        ensures
            g.spec_id() == id,
            g.is_armed() == (scheduled is Ok),
            g.is_armed() ==> g.spec_scheduler_capacity() == scheduler.capacity(),
    {
        match scheduled {
            Ok(_) => CollectorGuard { id, tx: Some(scheduler.clone()) },
            Err(_err) => CollectorGuard { id, tx: None },
        }
    }

    pub closed spec fn spec_id(self) -> CollectorID {
        self.id
    }

    /// The id under which the collector is registered.
    pub fn id(&self) -> (id: CollectorID)
        ensures
            id == self.spec_id(),
    {
        self.id
    }

    /// Whether the guard holds a scheduler to deregister with.
    pub closed spec fn is_armed(self) -> bool {
        self.tx is Some
    }

    /// The capacity of the scheduler that the guard deregisters through.
    pub closed spec fn spec_scheduler_capacity(self) -> usize {
        self.tx->0.capacity()
    }

    /// Asks the recorder to deregister the collector, once: afterwards the guard
    /// holds no scheduler. The request is scheduled whatever the number of
    /// pending tasks, so only a stopped recorder misses it. Returns whether the
    /// request was scheduled.
    pub fn deregister(&mut self) -> (sent: bool)
        ensures
            !final(self).is_armed(),
            final(self).spec_id() == old(self).spec_id(),
            sent ==> old(self).is_armed(),
    {
        match self.schedule_deregistration() {
            Some(Ok(())) => true,
            _ => false,
        }
    }

    /// Schedules `deregistration` of the guard's id through the scheduler that
    /// the guard holds, whatever the number of pending tasks, and gives up that
    /// scheduler. Returns the outcome, or `None` when the guard held none: a
    /// refused request comes back, and only a stopped recorder refuses it.
    pub fn schedule_deregistration(&mut self) -> (r: Option<Result<(), ScheduleError<Task>>>)
        ensures
            !final(self).is_armed(),
            final(self).spec_id() == old(self).spec_id(),
            (r is Some) == old(self).is_armed(),
            r matches Some(res) ==> hands_back(res, deregistration(old(self).spec_id())) && !(res matches Err(
                ScheduleError::Full(_),
            )),
    {
        match self.tx.take() {
            None => None,
            Some(tx) => Some(tx.schedule_force(Task::CollectorReg(CollectorReg::Deregister { id: self.id }))),
        }
    }
}

} // verus!
