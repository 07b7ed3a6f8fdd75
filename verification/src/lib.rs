pub mod collector;
pub mod local_storage;
pub mod record;
pub mod recorder;
pub mod util;
pub mod worker;

use std::hash::{Hash, Hasher};
use std::sync::{Arc, Mutex};

use vstd::prelude::*;

pub use crate::collector::Collector;
use crate::local_storage::LocalStorage;
pub use crate::record::{Record, Records};
pub use crate::recorder::{
    CollectorGuard, CollectorID, CollectorReg, CollectorRegHandle, Recorder, RecorderBuilder, Task,
};
use crate::local_storage::{LocalStorageRef, MAX_THREAD_REGISTER_RETRY};
use crate::recorder::thread::Pid;
use crate::recorder::{each_received, ran_task, SubRecorderEvent};
use crate::worker::{hands_back, ScheduleError, Scheduler};

verus! {

#[verifier::external_type_specification]
#[verifier::external_body]
#[verifier::reject_recursive_types(T)]
pub struct ExMutex<T: ?Sized>(Mutex<T>);

/// Calls `Mutex::new`. The mutex is shared afterwards, so nothing is claimed
/// of what it holds.
#[verifier::external_body]
fn new_name_lock(name: Option<String>) -> Mutex<Option<String>> {
    Mutex::new(name)
}

/// Calls `Mutex::lock` and clones what it holds; a lock poisoned by a panic
/// elsewhere is read all the same. Other threads may write the name, so
/// nothing is claimed of the value.
#[verifier::external_body]
fn read_name(lock: &Mutex<Option<String>>) -> Option<String> {
    match lock.lock() {
        Ok(guard) => guard.clone(),
        Err(poisoned) => poisoned.into_inner().clone(),
    }
}

/// Calls `Mutex::lock` and stores `name`; a lock poisoned by a panic elsewhere
/// is written all the same. Nothing is claimed.
#[verifier::external_body]
fn write_name(lock: &Mutex<Option<String>>, name: Option<String>) {
    match lock.lock() {
        Ok(mut guard) => *guard = name,
        Err(poisoned) => *poisoned.into_inner() = name,
    }
}

/// This structure is the actual internal data of [`ObserverTag`]: the context
/// that it attaches to a thread, its name.
#[derive(Debug)]
pub struct TagInfos {
    name: Mutex<Option<String>>,
}

impl TagInfos {
    /// Tag data with the given name.
    pub fn new(name: Option<String>) -> Self {
        TagInfos { name: new_name_lock(name) }
    }

    /// The current name.
    pub fn name(&self) -> Option<String> {
        read_name(&self.name)
    }

    /// Replaces the name.
    pub fn set_name(&self, name: Option<String>) {
        write_name(&self.name, name)
    }
}

impl Default for TagInfos {
    fn default() -> Self {
        TagInfos::new(None)
    }
}

/// Two tags are equal when their names are: each name is read under its lock.
impl PartialEq for TagInfos {
    #[verifier::external_body]
    fn eq(&self, other: &Self) -> bool {
        read_name(&self.name) == read_name(&other.name)
    }
}

impl Eq for TagInfos {
}

/// A tag hashes as its name, read under its lock.
impl Hash for TagInfos {
    #[verifier::external_body]
    fn hash<H: Hasher>(&self, state: &mut H) {
        read_name(&self.name).hash(state)
    }
}

/// How one attachment changes the registration flags of a thread: while a
/// registration is due, one attempt is made, and either succeeds or counts as
/// one more failure; otherwise the flags stay.
pub open spec fn registration_step(before: LocalStorage, after: LocalStorage) -> bool {
    if !before.registered && before.register_failed_times < MAX_THREAD_REGISTER_RETRY {
        ||| (after.registered && after.register_failed_times == before.register_failed_times)
        ||| (!after.registered && after.register_failed_times == before.register_failed_times + 1)
    } else {
        after.registered == before.registered && after.register_failed_times
            == before.register_failed_times
    }
}

/// However often a thread attaches a tag, its failed registrations never
/// exceed `MAX_THREAD_REGISTER_RETRY`.
pub proof fn lemma_failures_stay_bounded(before: LocalStorage, after: LocalStorage)
    requires
        before.register_failed_times <= MAX_THREAD_REGISTER_RETRY,
        registration_step(before, after),
    ensures
        after.register_failed_times <= MAX_THREAD_REGISTER_RETRY,
{
}

/// A registered thread stays registered, and is never registered again.
pub proof fn lemma_registration_is_kept(before: LocalStorage, after: LocalStorage)
    requires
        before.registered,
        registration_step(before, after),
    ensures
        after.registered,
        after.register_failed_times == before.register_failed_times,
{
}

/// A thread that has failed to register `MAX_THREAD_REGISTER_RETRY` times is
/// not tried again.
pub proof fn lemma_no_attempt_after_retries(before: LocalStorage, after: LocalStorage)
    requires
        before.register_failed_times >= MAX_THREAD_REGISTER_RETRY,
        registration_step(before, after),
    ensures
        after.registered == before.registered,
        after.register_failed_times == before.register_failed_times,
{
}

/// Attaching a tag and then releasing the guard leaves the thread with no tag
/// attached, in the same slot, with its registration advanced by one step.
pub proof fn lemma_attach_then_release(before: LocalStorage, attached: LocalStorage, after: LocalStorage)
    requires
        registration_step(before, attached),
        attached.is_set,
        attached.attached_tag == before.attached_tag,
        !after.is_set,
        after.registered == attached.registered,
        after.register_failed_times == attached.register_failed_times,
        after.attached_tag == attached.attached_tag,
    ensures
        !after.is_set,
        registration_step(before, after),
        after.attached_tag == before.attached_tag,
{
}

/// The request that the recorder observe the thread `tid`, whose local storage
/// is `storage`: the request carries a handle on the same tag slot.
pub open spec fn thread_registration(tid: Pid, storage: LocalStorage) -> Task {
    Task::ThreadReg(LocalStorageRef { id: tid, storage })
}

/// Once the recorder runs the request that registers a thread, it observes the
/// thread through the tag slot of the thread's own local storage, and every
/// sub-recorder is told of the thread with that storage: what the thread
/// attaches to its slot later is what the recorder reads.
pub proof fn lemma_registration_shares_the_slot(
    before: Recorder,
    after: Recorder,
    tid: Pid,
    storage: LocalStorage,
)
    requires
        ran_task(before, after, thread_registration(tid, storage)),
    ensures
        after.spec_threads().contains_key(tid),
        after.spec_threads()[tid].attached_tag == storage.attached_tag,
        after.spec_threads().dom() == before.spec_threads().dom().insert(tid),
        each_received(
            before.spec_sub_recorders(),
            after.spec_sub_recorders(),
            |j: int| SubRecorderEvent::ThreadCreated(tid, storage),
        ),
{
}

/// `ObserverTag` labels the current thread to attach context information.
pub struct ObserverTag {
    infos: Arc<TagInfos>,
    observer_tag_factory: ObserverTagFactory,
}

impl ObserverTag {
    /// A tag with the given data, which registers threads through `factory`.
    pub fn from_parts(infos: Arc<TagInfos>, observer_tag_factory: ObserverTagFactory) -> (t: Self)
        ensures
            t.spec_infos() == infos,
            t.spec_factory_capacity() == observer_tag_factory.spec_capacity(),
    {
        ObserverTag { infos, observer_tag_factory }
    }

    pub closed spec fn spec_infos(self) -> Arc<TagInfos> {
        self.infos
    }

    /// The capacity of the scheduler through which this tag registers threads.
    pub closed spec fn spec_factory_capacity(self) -> usize {
        self.observer_tag_factory.spec_capacity()
    }

    /// The data of this tag.
    pub fn infos(&self) -> (i: &Arc<TagInfos>)
        ensures
            *i == self.spec_infos(),
    {
        &self.infos
    }

    /// Attaches this tag to the thread `tid`, whose local storage is `ls`.
    ///
    /// A thread that is not registered with the recorder is first registered,
    /// unless it has failed to register `MAX_THREAD_REGISTER_RETRY` times.
    /// Attachments do not nest: the thread must have no tag attached.
    /// The returned [`Guard`] detaches the tag.
    pub fn attach(&self, ls: &mut LocalStorage, tid: Pid) -> (g: Guard)
        requires
            !old(ls).is_set,
        ensures
            registration_step(*old(ls), *final(ls)),
            final(ls).is_set,
            final(ls).attached_tag == old(ls).attached_tag,
    {
        if ls.needs_registration() {
            let ok = self.observer_tag_factory.register_local_storage(tid, ls);
            ls.record_registration(ok);
        }
        let _attached = ls.attach_tag(self.infos.clone());
        Guard
    }

    /// Renames this tag, for every holder of its data.
    pub fn update(&self, name: impl Into<String>) {
        self.infos.set_name(Some(name.into()))
    }
}

/// The attachment of a tag to a thread; `release` ends it.
pub struct Guard;

impl Guard {
    /// Ends the attachment in the thread's local storage `ls`. Returns whether a
    /// tag was attached; its owner then still takes the tag out of
    /// `ls.attached_tag`.
    pub fn release(self, ls: &mut LocalStorage) -> (was_set: bool)
        ensures
            was_set == old(ls).is_set,
            !final(ls).is_set,
            final(ls).registered == old(ls).registered,
            final(ls).register_failed_times == old(ls).register_failed_times,
            final(ls).attached_tag == old(ls).attached_tag,
    {
        ls.detach_tag()
    }
}

/// Makes [`ObserverTag`]s that register threads with one recorder.
pub struct ObserverTagFactory {
    scheduler: Scheduler<Task>,
}

impl Clone for ObserverTagFactory {
    fn clone(&self) -> (f: Self)
        ensures
            f.spec_capacity() == self.spec_capacity(),
    {
        ObserverTagFactory { scheduler: self.scheduler.clone() }
    }
}

impl ObserverTagFactory {
    pub fn new(scheduler: Scheduler<Task>) -> (f: Self)
        ensures
            f.spec_capacity() == scheduler.capacity(),
    {
        ObserverTagFactory { scheduler }
    }

    /// The capacity of the scheduler through which threads are registered.
    pub closed spec fn spec_capacity(self) -> usize {
        self.scheduler.capacity()
    }

    /// A new tag with the given name, which registers threads through this
    /// factory's scheduler.
    pub fn new_tag(&self, name: impl Into<String>) -> (t: ObserverTag)
        ensures
            t.spec_factory_capacity() == self.spec_capacity(),
    {
        ObserverTag {
            infos: Arc::new(TagInfos::new(Some(name.into()))),
            observer_tag_factory: self.clone(),
        }
    }

    /// Schedules `thread_registration(tid, storage)`, the request that the
    /// recorder observe the thread `tid` through a handle on the tag slot of
    /// its local storage `storage`. A refused request comes back; with no
    /// capacity it always is.
    pub fn schedule_thread_registration(&self, tid: Pid, storage: &LocalStorage) -> (r: Result<
        (),
        ScheduleError<Task>,
    >)
        ensures
            hands_back(r, thread_registration(tid, *storage)),
            self.spec_capacity() == 0 ==> r == Err::<(), ScheduleError<Task>>(
                ScheduleError::Full(thread_registration(tid, *storage)),
            ),
    {
        let lsr = LocalStorageRef { id: tid, storage: storage.clone() };
        self.scheduler.schedule(Task::ThreadReg(lsr))
    }

    /// Asks the recorder to observe the thread `tid` with the local storage
    /// `storage`. Returns whether the request was scheduled; it never is when
    /// the scheduler has no capacity.
    pub fn register_local_storage(&self, tid: Pid, storage: &LocalStorage) -> (ok: bool)
        ensures
            self.spec_capacity() == 0 ==> !ok,
    {
        match self.schedule_thread_registration(tid, storage) {
            Ok(_) => true,
            Err(_err) => false,
        }
    }
}

} // verus!
