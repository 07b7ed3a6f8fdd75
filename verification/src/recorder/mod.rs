pub mod collector_reg;
pub mod sub_recorder;
pub mod thread;

use std::collections::{HashMap, HashSet};
use std::hash::Hash;
use std::sync::Arc;
use std::time::{Duration, Instant};

use vstd::prelude::*;
use vstd::std_specs::hash::spec_keys_iter;
use vstd::std_specs::iter::IteratorSpec;

use crate::local_storage::{LocalStorage, LocalStorageRef};
use crate::record::Records;
use crate::util::{duration_from_micros, elapsed_between, instant_now, micros, whole_millis, whole_secs};
use crate::Collector;

pub use self::collector_reg::{deregistration, CollectorGuard, CollectorID, CollectorReg, CollectorRegHandle};
pub use self::sub_recorder::{CPURecorder, SubRecorder, SubRecorderEvent, SubRecorderSlot};
use self::thread::{Pid, ThreadSample};

verus! {

broadcast use vstd::std_specs::hash::group_hash_axioms;

/// The interval between two ticks of the recorder, in microseconds: a tick
/// rate of 99 Hz.
pub const RECORD_INTERVAL_MICROS: u64 = 10_101;

/// Above this capacity, records of fewer than half as many tags are shrunk.
pub const RECORD_LEN_THRESHOLD: usize = 20_000;

/// The default interval between two clean-ups, in seconds.
pub const CLEANUP_INTERVAL_SECS: u64 = 15 * 60;

/// The default interval between two collections, in milliseconds.
pub const DEFAULT_COLLECT_INTERVAL_MS: u64 = 1000;

/// The ids of a map, once each.
pub fn keys_of<V>(m: &HashMap<Pid, V>) -> (ks: Vec<Pid>)
    ensures
        ks@.to_set() == m@.dom(),
        ks@.no_duplicates(),
{
    let ghost all: Seq<Pid> = spec_keys_iter(m).remaining().map_values(|r: &Pid| *r);
    let mut ks: Vec<Pid> = Vec::new();
    for k in it: m.keys()
        invariant
            it.seq().map_values(|r: &Pid| *r) == all,
            ks@ == all.take(it.index() as int),
    {
        ks.push(*k);
    }
    assert(ks@ == all);
    assert(spec_keys_iter(m).remaining().unref() == all);
    ks
}

/// Calls `HashMap::capacity`: how many entries the map has room for, which
/// depends on the allocator. Nothing is claimed of the value.
#[verifier::external_body]
pub(crate) fn map_capacity<K, V>(m: &HashMap<K, V>) -> usize {
    m.capacity()
}

/// Calls `HashMap::shrink_to`, which only gives back memory: the entries stay.
#[verifier::external_body]
pub(crate) fn shrink_map<K: Eq + Hash, V>(m: &mut HashMap<K, V>, min_capacity: usize)
    ensures
        final(m)@ == old(m)@,
{
    m.shrink_to(min_capacity)
}

/// Each sub-recorder of `after` has received exactly one hook more than in
/// `before`: the `j`-th received `event(j)`.
pub open spec fn each_received(
    before: Seq<SubRecorderSlot>,
    after: Seq<SubRecorderSlot>,
    event: spec_fn(int) -> SubRecorderEvent,
) -> bool {
    &&& after.len() == before.len()
    &&& forall|j: int| #![trigger after[j]]
        0 <= j < before.len() ==> after[j].sub.spec_log() == before[j].sub.spec_log().push(event(j))
}

/// Each sub-recorder of `after` has received one more tick than in `before`,
/// with `sample`: the `j`-th was given the records `rs[j]`, and left the records
/// that the next one was given, `rs[j + 1]`.
pub open spec fn ticked_in_order(
    before: Seq<SubRecorderSlot>,
    after: Seq<SubRecorderSlot>,
    rs: Seq<Records>,
    sample: ThreadSample,
) -> bool {
    &&& rs.len() == before.len() + 1
    &&& each_received(before, after, |j: int| SubRecorderEvent::Tick(rs[j], sample))
}

/// What a sub-recorder's log becomes at a tick of the recorder's timer while
/// collectors are registered: a resume if the recorder was stopped, the tick
/// with the records `records`, and a clean-up if one was due.
pub open spec fn timed_out_log(
    log: Seq<SubRecorderEvent>,
    resumed: bool,
    records: Records,
    cleaned: bool,
    sample: ThreadSample,
) -> Seq<SubRecorderEvent> {
    let resumed_log = if resumed {
        log.push(SubRecorderEvent::Resume(sample))
    } else {
        log
    };
    let ticked_log = resumed_log.push(SubRecorderEvent::Tick(records, sample));
    if cleaned {
        ticked_log.push(SubRecorderEvent::CleanUp)
    } else {
        ticked_log
    }
}

/// Every sub-recorder of `after` went through one tick of the recorder's
/// timer, as `timed_out_log` says (resumed when the recorder was not running),
/// the `j`-th being given the records `rs[j]`.
pub open spec fn timed_out(
    before: Seq<SubRecorderSlot>,
    after: Seq<SubRecorderSlot>,
    was_running: bool,
    rs: Seq<Records>,
    cleaned: bool,
    sample: ThreadSample,
) -> bool {
    &&& rs.len() == before.len() + 1
    &&& after.len() == before.len()
    &&& forall|j: int| #![trigger after[j]]
        0 <= j < before.len() ==> after[j].sub.spec_log() == timed_out_log(
            before[j].sub.spec_log(),
            !was_running,
            rs[j],
            cleaned,
            sample,
        )
}

/// The sub-recorders from `i` on are the ones of `before`, and the ones before
/// `i` have each received one hook more: `event(j)` for the `j`-th.
pub open spec fn received_up_to(
    before: Seq<SubRecorderSlot>,
    now: Seq<SubRecorderSlot>,
    i: int,
    event: spec_fn(int) -> SubRecorderEvent,
) -> bool {
    &&& now.len() == before.len()
    &&& 0 <= i <= before.len()
    &&& forall|j: int| #![trigger now[j]]
        0 <= j < i ==> now[j].sub.spec_log() == before[j].sub.spec_log().push(event(j))
    &&& forall|j: int| #![trigger now[j]] i <= j < before.len() ==> now[j] == before[j]
}

/// Handing the `i`-th sub-recorder its hook advances `received_up_to` by one.
proof fn lemma_received_next(
    before: Seq<SubRecorderSlot>,
    now: Seq<SubRecorderSlot>,
    i: int,
    event: spec_fn(int) -> SubRecorderEvent,
    hooked: SubRecorderSlot,
)
    requires
        received_up_to(before, now, i, event),
        i < before.len(),
        hooked.sub.spec_log() == now[i].sub.spec_log().push(event(i)),
    ensures
        received_up_to(before, now.update(i, hooked), i + 1, event),
{
    // The elements are trait objects, for which the axioms are invoked by hand.
    let after = now.update(i, hooked);
    vstd::seq::axiom_seq_update_len(now, i, hooked);
    vstd::seq::axiom_seq_update_same(now, i, hooked);
    assert forall|j: int| #![trigger after[j]] 0 <= j < i + 1 implies after[j].sub.spec_log()
        == before[j].sub.spec_log().push(event(j)) by {
        if j < i {
            vstd::seq::axiom_seq_update_different(now, j, i, hooked);
            assert(after[j] == now[j]);
            assert(now[j].sub.spec_log() == before[j].sub.spec_log().push(event(j)));
        } else {
            assert(after[i] == hooked);
            assert(now[i] == before[i]);
        }
    }
    assert forall|j: int| #![trigger after[j]] i + 1 <= j < before.len() implies after[j]
        == before[j] by {
        vstd::seq::axiom_seq_update_different(now, j, i, hooked);
    }
}

/// The work that the recorder receives: a change to its collectors, or a new
/// thread to observe.
pub enum Task {
    CollectorReg(CollectorReg),
    ThreadReg(LocalStorageRef),
}

impl Task {
    /// The name of the task's kind.
    pub fn name(&self) -> (s: &'static str)
        ensures
            self is CollectorReg ==> s@ == "CollectorReg"@,
            self is ThreadReg ==> s@ == "NewThread"@,
    {
        match self {
            Task::CollectorReg(_) => "CollectorReg",
            Task::ThreadReg(_) => "NewThread",
        }
    }
}

/// The collectors after a change to them: a registration puts the collector
/// under its id, replacing any other; a deregistration removes the id.
pub open spec fn apply_registration(
    collectors: Map<u64, Box<dyn Collector>>,
    reg: CollectorReg,
) -> Map<u64, Box<dyn Collector>> {
    match reg {
        CollectorReg::Register { id, collector } => collectors.insert(id.0, collector),
        CollectorReg::Deregister { id } => collectors.remove(id.0),
    }
}

/// The ids of the registered collectors after a change to them.
pub open spec fn registered_ids(ids: Set<u64>, reg: CollectorReg) -> Set<u64> {
    match reg {
        CollectorReg::Register { id, .. } => ids.insert(id.0),
        CollectorReg::Deregister { id } => ids.remove(id.0),
    }
}

/// Registering a collector and then deregistering its id leaves the ids of
/// the collectors as they were without that id.
pub proof fn lemma_register_then_deregister(
    ids: Set<u64>,
    id: CollectorID,
    collector: Box<dyn Collector>,
)
    ensures
        registered_ids(
            registered_ids(ids, CollectorReg::Register { id, collector }),
            CollectorReg::Deregister { id },
        ) == ids.remove(id.0),
{
    assert(ids.insert(id.0).remove(id.0) =~= ids.remove(id.0));
}

/// Deregistering an id under which no collector is registered changes nothing.
pub proof fn lemma_deregister_unknown(ids: Set<u64>, id: CollectorID)
    requires
        !ids.contains(id.0),
    ensures
        registered_ids(ids, CollectorReg::Deregister { id }) == ids,
{
    assert(ids.remove(id.0) =~= ids);
}

/// After a registration the id is registered; after a deregistration it is
/// not; other ids are untouched either way.
pub proof fn lemma_registration_touches_one_id(ids: Set<u64>, reg: CollectorReg, other: u64)
    ensures
        registered_ids(ids, reg).contains(reg_id(reg).0) == (reg is Register),
        other != reg_id(reg).0 ==> (registered_ids(ids, reg).contains(other) == ids.contains(other)),
{
}

/// The id that a change to the collectors concerns.
pub open spec fn reg_id(reg: CollectorReg) -> CollectorID {
    match reg {
        CollectorReg::Register { id, .. } => id,
        CollectorReg::Deregister { id } => id,
    }
}

/// What running `task` does to the recorder: a change to the collectors is
/// applied, and touches neither the threads nor the sub-recorders; a new thread
/// is kept with its local storage, and every sub-recorder is told of it.
pub open spec fn ran_task(before: Recorder, after: Recorder, task: Task) -> bool {
    match task {
        Task::CollectorReg(reg) => {
            &&& after.spec_collectors() == apply_registration(before.spec_collectors(), reg)
            &&& after.spec_collectors().dom() == registered_ids(before.spec_collectors().dom(), reg)
            &&& after.spec_threads() == before.spec_threads()
            &&& after.spec_sub_recorders() == before.spec_sub_recorders()
        },
        Task::ThreadReg(lsr) => {
            &&& after.spec_threads() == before.spec_threads().insert(lsr.id, lsr.storage)
            &&& after.spec_collectors() == before.spec_collectors()
            &&& each_received(
                before.spec_sub_recorders(),
                after.spec_sub_recorders(),
                |j: int| SubRecorderEvent::ThreadCreated(lsr.id, lsr.storage),
            )
        },
    }
}

/// Running the registration of a collector under `id` and then the
/// deregistration of `id` leaves the recorder with the ids of the collectors
/// it had, less `id`; the threads and sub-recorders are untouched.
pub proof fn lemma_deregistration_undoes_registration(
    r0: Recorder,
    r1: Recorder,
    r2: Recorder,
    id: CollectorID,
    collector: Box<dyn Collector>,
)
    requires
        ran_task(r0, r1, Task::CollectorReg(CollectorReg::Register { id, collector })),
        ran_task(r1, r2, deregistration(id)),
    ensures
        r2.spec_collectors().dom() == r0.spec_collectors().dom().remove(id.0),
        !r2.spec_collectors().contains_key(id.0),
        r2.spec_threads() == r0.spec_threads(),
        r2.spec_sub_recorders() == r0.spec_sub_recorders(),
{
    lemma_register_then_deregister(r0.spec_collectors().dom(), id, collector);
}

/// The recorder: it observes the registered threads at each tick through its
/// sub-recorders, and hands the records to every registered collector once
/// per collection interval.
pub struct Recorder {
    // Every collect_interval_ms, each collector receives the records.
    collect_interval_ms: u64,
    last_collect: Instant,
    cleanup_interval_second: u64,
    last_cleanup: Instant,
    running: bool,
    records: Records,
    thread_stores: HashMap<Pid, LocalStorage>,
    sub_recorders: Vec<SubRecorderSlot>,
    collectors: HashMap<u64, Box<dyn Collector>>,
}

impl Recorder {
    pub closed spec fn spec_collect_interval_ms(self) -> u64 {
        self.collect_interval_ms
    }

    pub closed spec fn spec_cleanup_interval_second(self) -> u64 {
        self.cleanup_interval_second
    }

    pub closed spec fn spec_last_collect(self) -> Instant {
        self.last_collect
    }

    pub closed spec fn spec_last_cleanup(self) -> Instant {
        self.last_cleanup
    }

    pub closed spec fn spec_running(self) -> bool {
        self.running
    }

    pub closed spec fn spec_records(self) -> Records {
        self.records
    }

    pub closed spec fn spec_threads(self) -> Map<Pid, LocalStorage> {
        self.thread_stores@
    }

    pub closed spec fn spec_collectors(self) -> Map<u64, Box<dyn Collector>> {
        self.collectors@
    }

    pub closed spec fn spec_sub_recorder_count(self) -> nat {
        self.sub_recorders@.len()
    }

    /// The sub-recorders, in the order in which they are ticked.
    pub closed spec fn spec_sub_recorders(self) -> Seq<SubRecorderSlot> {
        self.sub_recorders@
    }

    /// The interval between two collections, in milliseconds.
    pub fn collect_interval_ms(&self) -> (ms: u64)
        ensures
            ms == self.spec_collect_interval_ms(),
    {
        self.collect_interval_ms
    }

    /// The interval between two clean-ups, in seconds.
    pub fn cleanup_interval_second(&self) -> (s: u64)
        ensures
            s == self.spec_cleanup_interval_second(),
    {
        self.cleanup_interval_second
    }

    /// Whether the recorder is running: it is while any collector is registered.
    pub fn is_running(&self) -> (b: bool)
        ensures
            b == self.spec_running(),
    {
        self.running
    }

    /// The number of observed threads.
    pub fn thread_count(&self) -> (n: usize)
        ensures
            n == self.spec_threads().len(),
    {
        self.thread_stores.len()
    }

    /// Whether the thread `id` is observed.
    pub fn observes_thread(&self, id: Pid) -> (b: bool)
        ensures
            b == self.spec_threads().contains_key(id),
    {
        self.thread_stores.contains_key(&id)
    }

    /// The ids of the observed threads.
    pub fn thread_ids(&self) -> (ids: Vec<Pid>)
        ensures
            ids@.to_set() == self.spec_threads().dom(),
            ids@.no_duplicates(),
    {
        keys_of(&self.thread_stores)
    }

    /// The number of registered collectors.
    pub fn collector_count(&self) -> (n: usize)
        ensures
            n == self.spec_collectors().len(),
    {
        self.collectors.len()
    }

    /// Whether a collector is registered under `id`.
    pub fn has_collector(&self, id: CollectorID) -> (b: bool)
        ensures
            b == self.spec_collectors().contains_key(id.0),
    {
        self.collectors.contains_key(&id.0)
    }

    /// The interval between two ticks: `RECORD_INTERVAL_MICROS` microseconds.
    pub fn get_interval(&self) -> (d: Duration)
        ensures
            d == duration_from_micros(RECORD_INTERVAL_MICROS),
    {
        micros(RECORD_INTERVAL_MICROS)
    }

    /// Applies a change to the registered collectors.
    pub fn handle_collector_registration(&mut self, reg: CollectorReg)
        ensures
            final(self).spec_collectors() == apply_registration(old(self).spec_collectors(), reg),
            final(self).spec_collectors().dom() == registered_ids(old(self).spec_collectors().dom(), reg),
            final(self).spec_threads() == old(self).spec_threads(),
            final(self).spec_running() == old(self).spec_running(),
            final(self).spec_records() == old(self).spec_records(),
            final(self).spec_sub_recorders() == old(self).spec_sub_recorders(),
            final(self).spec_collect_interval_ms() == old(self).spec_collect_interval_ms(),
            final(self).spec_cleanup_interval_second() == old(self).spec_cleanup_interval_second(),
            final(self).spec_last_collect() == old(self).spec_last_collect(),
            final(self).spec_last_cleanup() == old(self).spec_last_cleanup(),
    {
        match reg {
            CollectorReg::Register { id, collector } => {
                let ghost before = self.collectors@;
                self.collectors.insert(id.0, collector);
                proof {
                    vstd::map::axiom_map_insert_domain(before, id.0, collector);
                }
            },
            CollectorReg::Deregister { id } => {
                let ghost before = self.collectors@;
                self.collectors.remove(&id.0);
                proof {
                    vstd::map::axiom_map_remove_domain(before, id.0);
                }
            },
        }
    }

    /// Starts observing a thread: its local storage is kept under its id, and
    /// every sub-recorder is told of it.
    pub fn handle_thread_registration(&mut self, lsr: LocalStorageRef)
        ensures
            final(self).spec_threads() == old(self).spec_threads().insert(lsr.id, lsr.storage),
            each_received(
                old(self).spec_sub_recorders(),
                final(self).spec_sub_recorders(),
                |j: int| SubRecorderEvent::ThreadCreated(lsr.id, lsr.storage),
            ),
            final(self).spec_collectors() == old(self).spec_collectors(),
            final(self).spec_running() == old(self).spec_running(),
            final(self).spec_records() == old(self).spec_records(),
                        final(self).spec_collect_interval_ms() == old(self).spec_collect_interval_ms(),
            final(self).spec_cleanup_interval_second() == old(self).spec_cleanup_interval_second(),
            final(self).spec_last_collect() == old(self).spec_last_collect(),
            final(self).spec_last_cleanup() == old(self).spec_last_cleanup(),
    {
        self.thread_stores.insert(lsr.id, lsr.storage.clone());
        let ghost stores = self.thread_stores@;
        let mut i: usize = 0;
        while i < self.sub_recorders.len()
            invariant
                i <= self.sub_recorders@.len(),
                received_up_to(
                    old(self).sub_recorders@,
                    self.sub_recorders@,
                    i as int,
                    |j: int| SubRecorderEvent::ThreadCreated(lsr.id, lsr.storage),
                ),
                self.thread_stores@ == stores,
                self.collectors == old(self).collectors,
                self.records == old(self).records,
                self.running == old(self).running,
                self.collect_interval_ms == old(self).collect_interval_ms,
                self.cleanup_interval_second == old(self).cleanup_interval_second,
                self.last_collect == old(self).last_collect,
                self.last_cleanup == old(self).last_cleanup,
            decreases self.sub_recorders@.len() - i,
        {
            let ghost now = self.sub_recorders@;
            self.sub_recorders[i].sub.on_thread_created(lsr.id, &lsr.storage);
            proof {
                lemma_received_next(
                    old(self).sub_recorders@,
                    now,
                    i as int,
                    |j: int| SubRecorderEvent::ThreadCreated(lsr.id, lsr.storage),
                    self.sub_recorders@[i as int],
                );
            }
            i = i + 1;
        }
    }

    /// Runs one task.
    pub fn run(&mut self, task: Task)
        ensures
            ran_task(*old(self), *final(self), task),
            task matches Task::CollectorReg(reg) ==> final(self).spec_collectors()
                == apply_registration(old(self).spec_collectors(), reg)
                && final(self).spec_sub_recorders() == old(self).spec_sub_recorders()
                && final(self).spec_collectors().dom() == registered_ids(old(self).spec_collectors().dom(), reg)
                && final(self).spec_threads() == old(self).spec_threads(),
            task matches Task::ThreadReg(lsr) ==> final(self).spec_collectors() == old(self).spec_collectors() && final(self).spec_threads().dom() == old(self).spec_threads().dom().insert(lsr.id),
            final(self).spec_running() == old(self).spec_running(),
            final(self).spec_records() == old(self).spec_records(),
            final(self).spec_sub_recorder_count() == old(self).spec_sub_recorder_count(),
            final(self).spec_collect_interval_ms() == old(self).spec_collect_interval_ms(),
            final(self).spec_cleanup_interval_second() == old(self).spec_cleanup_interval_second(),
    {
        let ghost t = task;
        match task {
            Task::CollectorReg(reg) => self.handle_collector_registration(reg),
            Task::ThreadReg(lsr) => self.handle_thread_registration(lsr),
        }
        assert(ran_task(*old(self), *self, t));
    }

    /// Hands the records to the collectors when more than the collection
    /// interval has passed since the last collection (`elapsed_ms` of it, in
    /// whole milliseconds): the records then start anew, with `elapsed` as the
    /// length of the period that ended, and are handed out only if any tag was
    /// recorded; the next period starts at `now`. Returns whether records were
    /// handed out.
    pub fn collect_if_due(&mut self, elapsed_ms: u128, elapsed: Duration, now: Instant) -> (delivered: bool)
        ensures
            elapsed_ms > old(self).spec_collect_interval_ms() ==> final(self).spec_last_collect() == now,
            delivered == (elapsed_ms > old(self).spec_collect_interval_ms()
                && !old(self).spec_records().records@.is_empty()),
            elapsed_ms > old(self).spec_collect_interval_ms() ==> final(self).spec_records().records@
                == Map::<Arc<crate::TagInfos>, crate::Record>::empty() && final(self).spec_records().duration
                == duration_from_micros(0),
            elapsed_ms <= old(self).spec_collect_interval_ms() ==> final(self).spec_records() == old(self).spec_records()
                && final(self).spec_last_collect() == old(self).spec_last_collect(),
            final(self).spec_collectors() == old(self).spec_collectors(),
            final(self).spec_threads() == old(self).spec_threads(),
            final(self).spec_running() == old(self).spec_running(),
            final(self).spec_sub_recorders() == old(self).spec_sub_recorders(),
            final(self).spec_collect_interval_ms() == old(self).spec_collect_interval_ms(),
            final(self).spec_cleanup_interval_second() == old(self).spec_cleanup_interval_second(),
            final(self).spec_last_cleanup() == old(self).spec_last_cleanup(),
    {
        if elapsed_ms > self.collect_interval_ms as u128 {
            let mut records = Records::new();
            std::mem::swap(&mut records, &mut self.records);
            records.duration = elapsed;
            let delivered = !records.is_empty();
            if delivered {
                let records = Arc::new(records);
                for collector in self.collectors.values() {
                    collector.collect(records.clone());
                }
            }
            self.last_collect = now;
            delivered
        } else {
            false
        }
    }

    /// Collects at `now` when more than the collection interval has passed
    /// since the last collection, as `collect_if_due` does. Returns whether it
    /// collected; it never does at the very instant the period began.
    pub fn collect_at(&mut self, now: Instant) -> (collected: bool)
        ensures
            collected ==> final(self).spec_records().records@ == Map::<Arc<crate::TagInfos>, crate::Record>::empty()
                && final(self).spec_records().duration == duration_from_micros(0)
                && final(self).spec_last_collect() == now,
            !collected ==> final(self).spec_records() == old(self).spec_records()
                && final(self).spec_last_collect() == old(self).spec_last_collect(),
            now == old(self).spec_last_collect() ==> !collected,
            final(self).spec_collectors() == old(self).spec_collectors(),
            final(self).spec_threads() == old(self).spec_threads(),
            final(self).spec_running() == old(self).spec_running(),
            final(self).spec_sub_recorders() == old(self).spec_sub_recorders(),
            final(self).spec_collect_interval_ms() == old(self).spec_collect_interval_ms(),
            final(self).spec_cleanup_interval_second() == old(self).spec_cleanup_interval_second(),
            final(self).spec_last_cleanup() == old(self).spec_last_cleanup(),
    {
        let elapsed = elapsed_between(&now, &self.last_collect);
        let elapsed_ms = whole_millis(&elapsed);
        let due = elapsed_ms > self.collect_interval_ms as u128;
        self.collect_if_due(elapsed_ms, elapsed, now);
        due
    }

    /// Ticks every sub-recorder with `sample`, then hands the records to the
    /// collectors if the collection interval has passed.
    pub fn tick(&mut self, sample: &ThreadSample)
        ensures
            exists|rs: Seq<Records>, collected: bool, now: Instant| #[trigger]
                ticked_at(*old(self), *final(self), rs, collected, now, *sample),
            exists|rs: Seq<Records>| #[trigger]
                ticked_in_order(old(self).spec_sub_recorders(), final(self).spec_sub_recorders(), rs, *sample)
                    && rs[0] == old(self).spec_records() && ((final(self).spec_records() == rs.last()
                    && final(self).spec_last_collect() == old(self).spec_last_collect()) || (
                final(self).spec_records().records@ == Map::<Arc<crate::TagInfos>, crate::Record>::empty()
                    && final(self).spec_records().duration == duration_from_micros(0))),
            final(self).spec_collectors() == old(self).spec_collectors(),
            final(self).spec_threads() == old(self).spec_threads(),
            final(self).spec_running() == old(self).spec_running(),
            final(self).spec_sub_recorder_count() == old(self).spec_sub_recorder_count(),
            final(self).spec_collect_interval_ms() == old(self).spec_collect_interval_ms(),
            final(self).spec_cleanup_interval_second() == old(self).spec_cleanup_interval_second(),
            final(self).spec_last_cleanup() == old(self).spec_last_cleanup(),
    {
        let mut i: usize = 0;
        let ghost mut rs: Seq<Records> = seq![self.records];
        while i < self.sub_recorders.len()
            invariant
                i <= self.sub_recorders@.len(),
                rs.len() == i + 1,
                rs[0] == old(self).records,
                rs[i as int] == self.records,
                received_up_to(
                    old(self).sub_recorders@,
                    self.sub_recorders@,
                    i as int,
                    |j: int| SubRecorderEvent::Tick(rs[j], *sample),
                ),
                self.thread_stores == old(self).thread_stores,
                self.collectors == old(self).collectors,
                self.running == old(self).running,
                self.collect_interval_ms == old(self).collect_interval_ms,
                self.cleanup_interval_second == old(self).cleanup_interval_second,
                self.last_collect == old(self).last_collect,
                self.last_cleanup == old(self).last_cleanup,
            decreases self.sub_recorders@.len() - i,
        {
            let ghost before = self.sub_recorders@;
            self.sub_recorders[i].sub.tick(&mut self.records, sample);
            proof {
                lemma_received_next(
                    old(self).sub_recorders@,
                    before,
                    i as int,
                    |j: int| SubRecorderEvent::Tick(rs[j], *sample),
                    self.sub_recorders@[i as int],
                );
                let rs_next = rs.push(self.records);
                assert forall|j: int| 0 <= j < i + 1 implies rs_next[j] == rs[j] by {}
                assert(received_up_to(
                    old(self).sub_recorders@,
                    self.sub_recorders@,
                    i + 1,
                    |j: int| SubRecorderEvent::Tick(rs_next[j], *sample),
                ));
                rs = rs_next;
            }
            i = i + 1;
        }
        assert(rs.last() == self.records);
        let now = instant_now();
        let collected = self.collect_at(now);
        assert(ticked_in_order(old(self).spec_sub_recorders(), self.spec_sub_recorders(), rs, *sample));
        assert(ticked_at(*old(self), *self, rs, collected, now, *sample));
    }

    /// Stops observing the threads that are not alive.
    fn forget_dead_threads(&mut self, alive: &HashSet<Pid>)
        ensures
            final(self).thread_stores@ == old(self).thread_stores@.restrict(alive@),
            final(self).collectors == old(self).collectors,
            final(self).running == old(self).running,
            final(self).records == old(self).records,
            final(self).sub_recorders == old(self).sub_recorders,
            final(self).collect_interval_ms == old(self).collect_interval_ms,
            final(self).cleanup_interval_second == old(self).cleanup_interval_second,
            final(self).last_collect == old(self).last_collect,
            final(self).last_cleanup == old(self).last_cleanup,
    {
        let ids = keys_of(&self.thread_stores);
        let ghost start = self.thread_stores@;
        let mut i: usize = 0;
        while i < ids.len()
            invariant
                i <= ids.len(),
                ids@.to_set() == start.dom(),
                self.thread_stores@ == start.restrict(
                    start.dom().filter(|k: Pid| alive@.contains(k) || !ids@.take(i as int).contains(k)),
                ),
                self.collectors == old(self).collectors,
                self.records == old(self).records,
                self.sub_recorders == old(self).sub_recorders,
                self.running == old(self).running,
                self.collect_interval_ms == old(self).collect_interval_ms,
                self.cleanup_interval_second == old(self).cleanup_interval_second,
                self.last_collect == old(self).last_collect,
                self.last_cleanup == old(self).last_cleanup,
            decreases ids.len() - i,
        {
            let id = ids[i];
            let ghost before = self.thread_stores@;
            if !alive.contains(&id) {
                self.thread_stores.remove(&id);
            }
            let ghost prev = ids@.take(i as int);
            let ghost next = ids@.take(i + 1);
            assert(next == prev.push(id));
            assert forall|k: Pid| #[trigger] next.contains(k) == (prev.contains(k) || k == id) by {
                if prev.contains(k) {
                    let j = choose|j: int| 0 <= j < prev.len() && prev[j] == k;
                    assert(next[j] == k);
                }
                if k == id {
                    assert(next[i as int] == k);
                }
                if next.contains(k) && k != id {
                    let j = choose|j: int| 0 <= j < next.len() && next[j] == k;
                    assert(prev[j] == k);
                }
            }
            assert(self.thread_stores@ =~= start.restrict(
                start.dom().filter(|k: Pid| alive@.contains(k) || !ids@.take(i + 1).contains(k)),
            ));
            i = i + 1;
        }
        assert(ids@.take(ids@.len() as int) == ids@);
        assert(self.thread_stores@ =~= start.restrict(alive@));
    }

    /// Cleans up when more than the clean-up interval has passed since the
    /// last clean-up (`elapsed_secs` of it, in whole seconds): the threads that
    /// are not alive are forgotten when the live ones are known, the records
    /// give back memory they no longer need, every sub-recorder cleans up, in
    /// order, and the next clean-up period starts at `now`. Returns whether it
    /// cleaned up.
    pub fn clean_up_if_due(
        &mut self,
        elapsed_secs: u64,
        alive: &Option<HashSet<Pid>>,
        now: Instant,
    ) -> (due: bool)
        ensures
            due == (elapsed_secs > old(self).spec_cleanup_interval_second()),
            due ==> final(self).spec_threads() == match alive {
                Some(ids) => old(self).spec_threads().restrict(ids@),
                None => old(self).spec_threads(),
            },
            due ==> final(self).spec_last_cleanup() == now,
            due ==> each_received(
                old(self).spec_sub_recorders(),
                final(self).spec_sub_recorders(),
                |j: int| SubRecorderEvent::CleanUp,
            ),
            !due ==> *final(self) == *old(self),
            final(self).spec_records().records@ == old(self).spec_records().records@,
            final(self).spec_records().begin_unix_time_secs == old(self).spec_records().begin_unix_time_secs,
            final(self).spec_records().duration == old(self).spec_records().duration,
            final(self).spec_collectors() == old(self).spec_collectors(),
            final(self).spec_running() == old(self).spec_running(),
            final(self).spec_sub_recorder_count() == old(self).spec_sub_recorder_count(),
            final(self).spec_collect_interval_ms() == old(self).spec_collect_interval_ms(),
            final(self).spec_cleanup_interval_second() == old(self).spec_cleanup_interval_second(),
            final(self).spec_last_collect() == old(self).spec_last_collect(),
    {
        if elapsed_secs <= self.cleanup_interval_second {
            return false;
        }
        // Forget the threads that have ended.
        match alive {
            Some(ids) => self.forget_dead_threads(ids),
            None => {},
        }
        // Give back the memory of the records.
        if map_capacity(&self.records.records) > RECORD_LEN_THRESHOLD && self.records.records.len()
            < RECORD_LEN_THRESHOLD / 2 {
            shrink_map(&mut self.records.records, RECORD_LEN_THRESHOLD);
        }
        let mut i: usize = 0;
        while i < self.sub_recorders.len()
            invariant
                i <= self.sub_recorders@.len(),
                received_up_to(old(self).sub_recorders@, self.sub_recorders@, i as int, |j: int| SubRecorderEvent::CleanUp),
                self.records.begin_unix_time_secs == old(self).records.begin_unix_time_secs,
                self.records.duration == old(self).records.duration,
                self.thread_stores@ == match alive {
                    Some(ids) => old(self).thread_stores@.restrict(ids@),
                    None => old(self).thread_stores@,
                },
                self.records.records@ == old(self).records.records@,
                self.collectors == old(self).collectors,
                self.running == old(self).running,
                self.collect_interval_ms == old(self).collect_interval_ms,
                self.cleanup_interval_second == old(self).cleanup_interval_second,
                self.last_collect == old(self).last_collect,
            decreases self.sub_recorders@.len() - i,
        {
            let ghost before = self.sub_recorders@;
            self.sub_recorders[i].sub.clean_up();
            proof {
                lemma_received_next(
                    old(self).sub_recorders@,
                    before,
                    i as int,
                    |j: int| SubRecorderEvent::CleanUp,
                    self.sub_recorders@[i as int],
                );
            }
            i = i + 1;
        }
        self.last_cleanup = now;
        true
    }

    /// Cleans up at `now`, with the live threads of `sample`, when more than the
    /// clean-up interval has passed since the last clean-up, as
    /// `clean_up_if_due` does. Returns whether it cleaned up; it never does at
    /// the very instant the period began.
    pub fn clean_up_at(&mut self, now: Instant, sample: &ThreadSample) -> (cleaned: bool)
        ensures
            cleaned_up_at(*old(self), *final(self), cleaned, now, *sample),
            final(self).spec_records().records@ == old(self).spec_records().records@,
            final(self).spec_records().begin_unix_time_secs == old(self).spec_records().begin_unix_time_secs,
            final(self).spec_records().duration == old(self).spec_records().duration,
            final(self).spec_collectors() == old(self).spec_collectors(),
            final(self).spec_running() == old(self).spec_running(),
            final(self).spec_sub_recorder_count() == old(self).spec_sub_recorder_count(),
            final(self).spec_collect_interval_ms() == old(self).spec_collect_interval_ms(),
            final(self).spec_cleanup_interval_second() == old(self).spec_cleanup_interval_second(),
            final(self).spec_last_collect() == old(self).spec_last_collect(),
    {
        let elapsed = elapsed_between(&now, &self.last_cleanup);
        let elapsed_secs = whole_secs(&elapsed);
        self.clean_up_if_due(elapsed_secs, &sample.alive, now)
    }

    /// Cleans up if the clean-up interval has passed, with the live threads of
    /// `sample`.
    pub fn clean_up(&mut self, sample: &ThreadSample)
        ensures
            exists|cleaned: bool, now: Instant| #[trigger]
                cleaned_up_at(*old(self), *final(self), cleaned, now, *sample),
            *final(self) == *old(self) || (final(self).spec_threads() == match sample.alive {
                Some(ids) => old(self).spec_threads().restrict(ids@),
                None => old(self).spec_threads(),
            } && each_received(
                old(self).spec_sub_recorders(),
                final(self).spec_sub_recorders(),
                |j: int| SubRecorderEvent::CleanUp,
            )),
            final(self).spec_threads().dom().subset_of(old(self).spec_threads().dom()),
            forall|id: Pid| #[trigger] final(self).spec_threads().contains_key(id)
                ==> final(self).spec_threads()[id] == old(self).spec_threads()[id],
            final(self).spec_records().records@ == old(self).spec_records().records@,
            final(self).spec_records().begin_unix_time_secs == old(self).spec_records().begin_unix_time_secs,
            final(self).spec_records().duration == old(self).spec_records().duration,
            final(self).spec_collectors() == old(self).spec_collectors(),
            final(self).spec_running() == old(self).spec_running(),
            final(self).spec_sub_recorder_count() == old(self).spec_sub_recorder_count(),
            final(self).spec_collect_interval_ms() == old(self).spec_collect_interval_ms(),
            final(self).spec_cleanup_interval_second() == old(self).spec_cleanup_interval_second(),
            final(self).spec_last_collect() == old(self).spec_last_collect(),
    {
        let now = instant_now();
        let cleaned = self.clean_up_at(now, sample);
        assert(cleaned_up_at(*old(self), *self, cleaned, now, *sample));
    }

    /// Stops recording: a running recorder stops and pauses every sub-recorder;
    /// a stopped one is left as it is.
    pub fn pause(&mut self)
        ensures
            !final(self).spec_running(),
            !old(self).spec_running() ==> *final(self) == *old(self),
            old(self).spec_running() ==> each_received(
                old(self).spec_sub_recorders(),
                final(self).spec_sub_recorders(),
                |j: int| SubRecorderEvent::Pause,
            ),
            final(self).spec_collectors() == old(self).spec_collectors(),
            final(self).spec_threads() == old(self).spec_threads(),
            final(self).spec_records() == old(self).spec_records(),
            final(self).spec_sub_recorder_count() == old(self).spec_sub_recorder_count(),
            final(self).spec_collect_interval_ms() == old(self).spec_collect_interval_ms(),
            final(self).spec_cleanup_interval_second() == old(self).spec_cleanup_interval_second(),
            final(self).spec_last_collect() == old(self).spec_last_collect(),
            final(self).spec_last_cleanup() == old(self).spec_last_cleanup(),
    {
        if !self.running {
            return;
        }
        self.running = false;
        let mut i: usize = 0;
        while i < self.sub_recorders.len()
            invariant
                i <= self.sub_recorders@.len(),
                self.sub_recorders@.len() == old(self).sub_recorders@.len(),
                !self.running,
                received_up_to(old(self).sub_recorders@, self.sub_recorders@, i as int, |j: int| SubRecorderEvent::Pause),
                self.thread_stores == old(self).thread_stores,
                self.collectors == old(self).collectors,
                self.records == old(self).records,
                self.collect_interval_ms == old(self).collect_interval_ms,
                self.cleanup_interval_second == old(self).cleanup_interval_second,
                self.last_collect == old(self).last_collect,
                self.last_cleanup == old(self).last_cleanup,
            decreases self.sub_recorders@.len() - i,
        {
            let ghost now = self.sub_recorders@;
            self.sub_recorders[i].sub.pause();
            proof {
                lemma_received_next(old(self).sub_recorders@, now, i as int, |j: int| SubRecorderEvent::Pause, self.sub_recorders@[i as int]);
            }
            i = i + 1;
        }
    }

    /// Starts recording: a stopped recorder starts with fresh records, restarts
    /// its collection and clean-up periods now, and resumes every sub-recorder
    /// with `sample`; a running one is left as it is.
    pub fn resume(&mut self, sample: &ThreadSample)
        ensures
            final(self).spec_running(),
            old(self).spec_running() ==> *final(self) == *old(self),
            !old(self).spec_running() ==> final(self).spec_records().records@ == Map::<
                Arc<crate::TagInfos>,
                crate::Record,
            >::empty() && final(self).spec_records().duration == duration_from_micros(0)
                && final(self).spec_last_collect() == final(self).spec_last_cleanup()
                && each_received(
                old(self).spec_sub_recorders(),
                final(self).spec_sub_recorders(),
                |j: int| SubRecorderEvent::Resume(*sample),
            ),
            final(self).spec_collectors() == old(self).spec_collectors(),
            final(self).spec_threads() == old(self).spec_threads(),
            final(self).spec_sub_recorder_count() == old(self).spec_sub_recorder_count(),
            final(self).spec_collect_interval_ms() == old(self).spec_collect_interval_ms(),
            final(self).spec_cleanup_interval_second() == old(self).spec_cleanup_interval_second(),
    {
        if self.running {
            return;
        }
        let now = instant_now();
        self.resume_at(now, sample);
    }

    /// Starts recording at `now`: a stopped recorder starts with fresh
    /// records, both its collection and clean-up periods start at `now`, and
    /// every sub-recorder is resumed with `sample`, in order; a running one is
    /// left as it is.
    pub fn resume_at(&mut self, now: Instant, sample: &ThreadSample)
        ensures
            final(self).spec_running(),
            old(self).spec_running() ==> *final(self) == *old(self),
            !old(self).spec_running() ==> final(self).spec_records().records@ == Map::<
                Arc<crate::TagInfos>,
                crate::Record,
            >::empty() && final(self).spec_records().duration == duration_from_micros(0)
                && final(self).spec_last_collect() == now && final(self).spec_last_cleanup() == now
                && each_received(
                old(self).spec_sub_recorders(),
                final(self).spec_sub_recorders(),
                |j: int| SubRecorderEvent::Resume(*sample),
            ),
            final(self).spec_collectors() == old(self).spec_collectors(),
            final(self).spec_threads() == old(self).spec_threads(),
            final(self).spec_sub_recorder_count() == old(self).spec_sub_recorder_count(),
            final(self).spec_collect_interval_ms() == old(self).spec_collect_interval_ms(),
            final(self).spec_cleanup_interval_second() == old(self).spec_cleanup_interval_second(),
    {
        if self.running {
            return;
        }
        self.running = true;
        self.records = Records::new();
        self.last_collect = now;
        self.last_cleanup = now;
        let mut i: usize = 0;
        while i < self.sub_recorders.len()
            invariant
                i <= self.sub_recorders@.len(),
                received_up_to(
                    old(self).sub_recorders@,
                    self.sub_recorders@,
                    i as int,
                    |j: int| SubRecorderEvent::Resume(*sample),
                ),
                self.running,
                self.records.records@ == Map::<Arc<crate::TagInfos>, crate::Record>::empty(),
                self.records.duration == duration_from_micros(0),
                self.last_collect == now,
                self.last_cleanup == now,
                self.thread_stores == old(self).thread_stores,
                self.collectors == old(self).collectors,
                self.collect_interval_ms == old(self).collect_interval_ms,
                self.cleanup_interval_second == old(self).cleanup_interval_second,
            decreases self.sub_recorders@.len() - i,
        {
            let ghost before = self.sub_recorders@;
            self.sub_recorders[i].sub.resume(sample);
            proof {
                lemma_received_next(
                    old(self).sub_recorders@,
                    before,
                    i as int,
                    |j: int| SubRecorderEvent::Resume(*sample),
                    self.sub_recorders@[i as int],
                );
            }
            i = i + 1;
        }
    }

    /// What the recorder does at each tick of its timer: with no collector it
    /// pauses and does nothing else; otherwise it resumes, ticks and cleans up.
    pub fn on_timeout(&mut self, sample: &ThreadSample)
        ensures
            final(self).spec_running() == !old(self).spec_collectors().is_empty(),
            final(self).spec_collectors() == old(self).spec_collectors(),
            final(self).spec_threads().dom().subset_of(old(self).spec_threads().dom()),
            forall|id: Pid| #[trigger] final(self).spec_threads().contains_key(id)
                ==> final(self).spec_threads()[id] == old(self).spec_threads()[id],
            old(self).spec_collectors().is_empty() ==> final(self).spec_threads() == old(self).spec_threads()
                && final(self).spec_records() == old(self).spec_records()
                && final(self).spec_last_collect() == old(self).spec_last_collect()
                && final(self).spec_last_cleanup() == old(self).spec_last_cleanup()
                && (!old(self).spec_running() ==> *final(self) == *old(self))
                && (old(self).spec_running() ==> each_received(
                old(self).spec_sub_recorders(),
                final(self).spec_sub_recorders(),
                |j: int| SubRecorderEvent::Pause,
            )),
            !old(self).spec_collectors().is_empty() ==> exists|rs: Seq<Records>, cleaned: bool|
                #[trigger] timed_out(
                    old(self).spec_sub_recorders(),
                    final(self).spec_sub_recorders(),
                    old(self).spec_running(),
                    rs,
                    cleaned,
                    *sample,
                ),
            !old(self).spec_collectors().is_empty() ==> exists|rs: Seq<Records>, cleaned: bool, collected: bool|
                #[trigger] timer_ticked(*old(self), *final(self), rs, cleaned, collected, *sample),
            final(self).spec_sub_recorder_count() == old(self).spec_sub_recorder_count(),
            final(self).spec_collect_interval_ms() == old(self).spec_collect_interval_ms(),
            final(self).spec_cleanup_interval_second() == old(self).spec_cleanup_interval_second(),
    {
        if self.collectors.is_empty() {
            self.pause();
            return;
        }
        let ghost s0 = self.sub_recorders@;
        let ghost was_running = self.running;
        self.resume(sample);
        let ghost s1 = self.sub_recorders@;
        let ghost recorder1 = *self;
        self.tick(sample);
        let ghost s2 = self.sub_recorders@;
        let ghost recorder2 = *self;
        self.clean_up(sample);
        let ghost s3 = self.sub_recorders@;
        proof {
            let (rs, collected, now) = choose|rs: Seq<Records>, collected: bool, now: Instant| #[trigger]
                ticked_at(recorder1, recorder2, rs, collected, now, *sample);
            let cleaned = !(*self == recorder2);
            assert forall|j: int| #![trigger s3[j]] 0 <= j < s0.len() implies s3[j].sub.spec_log()
                == timed_out_log(s0[j].sub.spec_log(), !was_running, rs[j], cleaned, *sample) by {
                let l0 = s0[j].sub.spec_log();
                let l1 = s1[j].sub.spec_log();
                let l2 = s2[j].sub.spec_log();
                let l3 = s3[j].sub.spec_log();
                if was_running {
                    assert(s1 == s0);
                } else {
                    assert(l1 == l0.push(SubRecorderEvent::Resume(*sample)));
                }
                assert(l2 == l1.push(SubRecorderEvent::Tick(rs[j], *sample)));
                if cleaned {
                    assert(l3 == l2.push(SubRecorderEvent::CleanUp));
                } else {
                    assert(s3 == s2);
                }
                assert(l3 =~= timed_out_log(l0, !was_running, rs[j], cleaned, *sample));
            }
            assert(timed_out(s0, s3, was_running, rs, cleaned, *sample));
            assert(timer_ticked(*old(self), *self, rs, cleaned, collected, *sample));
        }
    }
}

/// A tick of the recorder from `before` to `after` with `sample`, reading
/// the clock at `now`: every sub-recorder was ticked in order, the first given
/// the records held before; then, when `collected`, the records were handed
/// out and started anew, the next collection period starting at `now`;
/// otherwise the records are those that the last sub-recorder left. A tick at
/// the very instant the collection period began does not collect.
pub open spec fn ticked_at(
    before: Recorder,
    after: Recorder,
    rs: Seq<Records>,
    collected: bool,
    now: Instant,
    sample: ThreadSample,
) -> bool {
    &&& ticked_in_order(before.spec_sub_recorders(), after.spec_sub_recorders(), rs, sample)
    &&& rs[0] == before.spec_records()
    &&& collected ==> after.spec_records().records@ == Map::<Arc<crate::TagInfos>, crate::Record>::empty()
        && after.spec_records().duration == duration_from_micros(0) && after.spec_last_collect() == now
    &&& !collected ==> after.spec_records() == rs.last() && after.spec_last_collect()
        == before.spec_last_collect()
    &&& now == before.spec_last_collect() ==> !collected
}

/// A collection starts the next collection period at the instant of the tick:
/// a second tick at that same instant collects nothing and keeps the records
/// that its sub-recorders left.
pub proof fn lemma_collection_restarts_period(
    r0: Recorder,
    r1: Recorder,
    r2: Recorder,
    rs1: Seq<Records>,
    rs2: Seq<Records>,
    collected2: bool,
    now: Instant,
    s1: ThreadSample,
    s2: ThreadSample,
)
    requires
        ticked_at(r0, r1, rs1, true, now, s1),
        ticked_at(r1, r2, rs2, collected2, now, s2),
    ensures
        !collected2,
        r2.spec_records() == rs2.last(),
        r2.spec_last_collect() == now,
{
}

/// A clean-up from `before` to `after` with `sample`, reading the clock at
/// `now`: when `cleaned`, the threads that `sample` does not find alive are
/// forgotten, every sub-recorder cleaned up, and the next clean-up period
/// starts at `now`; otherwise nothing changed. A clean-up at the very instant
/// the clean-up period began does nothing.
pub open spec fn cleaned_up_at(
    before: Recorder,
    after: Recorder,
    cleaned: bool,
    now: Instant,
    sample: ThreadSample,
) -> bool {
    &&& cleaned ==> after.spec_threads() == match sample.alive {
        Some(ids) => before.spec_threads().restrict(ids@),
        None => before.spec_threads(),
    } && each_received(
        before.spec_sub_recorders(),
        after.spec_sub_recorders(),
        |j: int| SubRecorderEvent::CleanUp,
    ) && after.spec_last_cleanup() == now
    &&& !cleaned ==> after == before
    &&& now == before.spec_last_cleanup() ==> !cleaned
}

/// A clean-up starts the next clean-up period at the instant it ran: a second
/// clean-up at that same instant changes nothing.
pub proof fn lemma_clean_up_restarts_period(
    r0: Recorder,
    r1: Recorder,
    r2: Recorder,
    cleaned2: bool,
    now: Instant,
    s1: ThreadSample,
    s2: ThreadSample,
)
    requires
        cleaned_up_at(r0, r1, true, now, s1),
        cleaned_up_at(r1, r2, cleaned2, now, s2),
    ensures
        !cleaned2,
        r2 == r1,
{
}

/// A tick of the recorder's timer while collectors are registered, from
/// `before` to `after` with `sample`: the recorder runs, every sub-recorder
/// went through `timed_out`, the first being given the records held before
/// when the recorder was running, and fresh ones when it had to resume; then,
/// when `collected`, the records were handed out and started anew, and
/// otherwise they are those that the last sub-recorder left.
pub open spec fn timer_ticked(
    before: Recorder,
    after: Recorder,
    rs: Seq<Records>,
    cleaned: bool,
    collected: bool,
    sample: ThreadSample,
) -> bool {
    &&& timed_out(
        before.spec_sub_recorders(),
        after.spec_sub_recorders(),
        before.spec_running(),
        rs,
        cleaned,
        sample,
    )
    &&& after.spec_running()
    &&& before.spec_running() ==> rs[0] == before.spec_records()
    &&& !before.spec_running() ==> rs[0].records@ == Map::<Arc<crate::TagInfos>, crate::Record>::empty()
        && rs[0].duration == duration_from_micros(0)
    &&& collected ==> after.spec_records().records@ == Map::<Arc<crate::TagInfos>, crate::Record>::empty()
        && after.spec_records().duration == duration_from_micros(0)
    &&& !collected ==> after.spec_records().records@ == rs.last().records@
        && after.spec_records().duration == rs.last().duration
        && after.spec_records().begin_unix_time_secs == rs.last().begin_unix_time_secs
    &&& !collected && before.spec_running() ==> after.spec_last_collect() == before.spec_last_collect()
}

/// While the recorder runs, a tick of its timer hands its first sub-recorder
/// the records held before the tick: nothing recorded is dropped.
pub proof fn lemma_running_timer_tick_keeps_records(
    before: Recorder,
    after: Recorder,
    rs: Seq<Records>,
    cleaned: bool,
    collected: bool,
    sample: ThreadSample,
)
    requires
        timer_ticked(before, after, rs, cleaned, collected, sample),
        before.spec_running(),
        before.spec_sub_recorders().len() > 0,
    ensures
        after.spec_sub_recorders()[0].sub.spec_log() == timed_out_log(
            before.spec_sub_recorders()[0].sub.spec_log(),
            false,
            before.spec_records(),
            cleaned,
            sample,
        ),
{
}

/// Until they are collected, the records carry over from one tick of the
/// timer to the next: the next tick hands the first sub-recorder the records
/// that the last one left at the tick before.
pub proof fn lemma_records_accumulate_between_collections(
    r0: Recorder,
    r1: Recorder,
    r2: Recorder,
    rs1: Seq<Records>,
    rs2: Seq<Records>,
    cleaned1: bool,
    cleaned2: bool,
    collected2: bool,
    s1: ThreadSample,
    s2: ThreadSample,
)
    requires
        timer_ticked(r0, r1, rs1, cleaned1, false, s1),
        timer_ticked(r1, r2, rs2, cleaned2, collected2, s2),
    ensures
        rs2[0].records@ == rs1.last().records@,
        rs2[0].duration == rs1.last().duration,
        rs2[0].begin_unix_time_secs == rs1.last().begin_unix_time_secs,
{
}

/// Builds a [`Recorder`].
pub struct RecorderBuilder {
    collect_interval_ms: u64,
    cleanup_interval_second: u64,
    sub_recorders: Vec<SubRecorderSlot>,
}

impl RecorderBuilder {
    pub closed spec fn spec_collect_interval_ms(self) -> u64 {
        self.collect_interval_ms
    }

    pub closed spec fn spec_cleanup_interval_second(self) -> u64 {
        self.cleanup_interval_second
    }

    pub closed spec fn spec_sub_recorder_count(self) -> nat {
        self.sub_recorders@.len()
    }

    /// The sub-recorders, in the order in which they were added.
    pub closed spec fn spec_sub_recorders(self) -> Seq<SubRecorderSlot> {
        self.sub_recorders@
    }

    /// A builder for a recorder that collects every second, cleans up every
    /// fifteen minutes, and has no sub-recorder.
    pub fn new() -> (b: Self)
        ensures
            b.spec_collect_interval_ms() == DEFAULT_COLLECT_INTERVAL_MS,
            b.spec_cleanup_interval_second() == CLEANUP_INTERVAL_SECS,
            b.spec_sub_recorder_count() == 0,
    {
        RecorderBuilder {
            collect_interval_ms: DEFAULT_COLLECT_INTERVAL_MS,
            cleanup_interval_second: CLEANUP_INTERVAL_SECS,
            sub_recorders: Vec::new(),
        }
    }

    pub fn collect_interval_ms(self, collect_interval_ms: u64) -> (b: Self)
        ensures
            b.spec_collect_interval_ms() == collect_interval_ms,
            b.spec_cleanup_interval_second() == self.spec_cleanup_interval_second(),
            b.spec_sub_recorders() == self.spec_sub_recorders(),
    {
        RecorderBuilder { collect_interval_ms, ..self }
    }

    pub fn cleanup_interval_second(self, cleanup_interval_second: u64) -> (b: Self)
        ensures
            b.spec_collect_interval_ms() == self.spec_collect_interval_ms(),
            b.spec_cleanup_interval_second() == cleanup_interval_second,
            b.spec_sub_recorders() == self.spec_sub_recorders(),
    {
        RecorderBuilder { cleanup_interval_second, ..self }
    }

    pub fn add_sub_recorder(self, r: Box<dyn SubRecorder>) -> (b: Self)
        ensures
            b.spec_collect_interval_ms() == self.spec_collect_interval_ms(),
            b.spec_cleanup_interval_second() == self.spec_cleanup_interval_second(),
            b.spec_sub_recorder_count() == self.spec_sub_recorder_count() + 1,
            b.spec_sub_recorders() == self.spec_sub_recorders().push(SubRecorderSlot { sub: r }),
    {
        let mut sub_recorders = self.sub_recorders;
        let ghost before = sub_recorders@;
        let slot = SubRecorderSlot { sub: r };
        sub_recorders.push(slot);
        proof {
            // The slots hold trait objects, for which the axiom is invoked by hand.
            vstd::seq::axiom_seq_push_len(before, slot);
        }
        RecorderBuilder {
            collect_interval_ms: self.collect_interval_ms,
            cleanup_interval_second: self.cleanup_interval_second,
            sub_recorders,
        }
    }

    /// A stopped recorder with the builder's intervals and sub-recorders, no
    /// thread, no collector and no records, whose periods start now.
    pub fn build(self) -> (r: Recorder)
        ensures
            r.spec_collect_interval_ms() == self.spec_collect_interval_ms(),
            r.spec_cleanup_interval_second() == self.spec_cleanup_interval_second(),
            r.spec_sub_recorders() == self.spec_sub_recorders(),
            r.spec_sub_recorder_count() == self.spec_sub_recorder_count(),
            !r.spec_running(),
            r.spec_threads() == Map::<Pid, LocalStorage>::empty(),
            r.spec_collectors() == Map::<u64, Box<dyn Collector>>::empty(),
            r.spec_records().records@ == Map::<Arc<crate::TagInfos>, crate::Record>::empty(),
            r.spec_records().duration == duration_from_micros(0),
            r.spec_last_collect() == r.spec_last_cleanup(),
    {
        let now = instant_now();
        Recorder {
            collect_interval_ms: self.collect_interval_ms,
            last_collect: now,
            cleanup_interval_second: self.cleanup_interval_second,
            last_cleanup: now,
            running: false,
            records: Records::new(),
            thread_stores: HashMap::new(),
            sub_recorders: self.sub_recorders,
            collectors: HashMap::new(),
        }
    }
}

impl Default for RecorderBuilder {
    fn default() -> (b: Self)
        ensures
            b.spec_collect_interval_ms() == DEFAULT_COLLECT_INTERVAL_MS,
            b.spec_cleanup_interval_second() == CLEANUP_INTERVAL_SECS,
            b.spec_sub_recorder_count() == 0,
    {
        RecorderBuilder::new()
    }
}

} // verus!
