use std::collections::HashMap;
use std::collections::hash_map::RandomState;
use std::sync::Arc;

use vstd::prelude::*;
use vstd::std_specs::hash::{builds_valid_hashers, obeys_key_model};

use crate::local_storage::{LocalStorage, SharedTagInfos};
use crate::record::{Record, Records};
use crate::recorder::thread::{Pid, ThreadSample, ThreadStat};
use crate::recorder::{keys_of, map_capacity, shrink_map};
use crate::TagInfos;

use super::{SubRecorder, SubRecorderEvent};

verus! {

broadcast use vstd::std_specs::hash::group_hash_axioms;

/// Above this capacity, a map of fewer than half as many threads is shrunk.
pub const THREAD_STAT_LEN_THRESHOLD: usize = 500;

/// The CPU time, in whole milliseconds, that a thread used between two stats,
/// with `ticks_per_second` clock ticks in a second: none when the clock rate is
/// unknown or the time did not grow, and at most `u32::MAX`.
pub open spec fn spec_cpu_delta_ms(last: ThreadStat, cur: ThreadStat, ticks_per_second: u64) -> int {
    let ticks = cur.spec_total_ticks() - last.spec_total_ticks();
    if ticks_per_second == 0 || ticks <= 0 {
        0
    } else if ticks * 1000 / (ticks_per_second as int) > u32::MAX {
        u32::MAX as int
    } else {
        ticks * 1000 / (ticks_per_second as int)
    }
}

/// A thread whose CPU time did not change used no CPU time.
pub proof fn lemma_unchanged_stat_uses_nothing(stat: ThreadStat, ticks_per_second: u64)
    ensures
        spec_cpu_delta_ms(stat, stat, ticks_per_second) == 0,
{
}

/// The time counted never decreases as the new stat grows.
pub proof fn lemma_delta_grows_with_time(last: ThreadStat, cur: ThreadStat, later: ThreadStat, ticks_per_second: u64)
    requires
        cur.spec_total_ticks() <= later.spec_total_ticks(),
    ensures
        spec_cpu_delta_ms(last, cur, ticks_per_second) <= spec_cpu_delta_ms(last, later, ticks_per_second),
{
    let a = cur.spec_total_ticks() - last.spec_total_ticks();
    let b = later.spec_total_ticks() - last.spec_total_ticks();
    if ticks_per_second != 0 && a > 0 {
        assert(a * 1000 <= b * 1000) by (nonlinear_arith)
            requires
                a <= b,
        ;
        vstd::arithmetic::div_mod::lemma_div_is_ordered(a * 1000, b * 1000, ticks_per_second as int);
    }
}

/// One clock tick at the usual rate of a hundred ticks a second is ten
/// milliseconds.
pub proof fn lemma_one_tick_at_hundred_per_second()
    ensures
        spec_cpu_delta_ms(
            ThreadStat { s_time: 0, u_time: 0 },
            ThreadStat { s_time: 0, u_time: 1 },
            100,
        ) == 10,
{
}

/// Counting CPU time for a tag keeps every other tag's record, and adds the
/// time to the tag's record, starting from zero when it had none.
pub proof fn lemma_counting_adds(
    records: Map<Arc<TagInfos>, Record>,
    tag: Arc<TagInfos>,
    delta_ms: u32,
)
    ensures
        counted(records, tag, delta_ms).dom() == records.dom().insert(tag),
        forall|other: Arc<TagInfos>| #[trigger]
            records.contains_key(other) && other != tag ==> counted(records, tag, delta_ms)[other]
                == records[other],
        (if records.contains_key(tag) {
            records[tag].cpu_time as int
        } else {
            0
        }) + delta_ms <= u32::MAX ==> counted(records, tag, delta_ms)[tag].cpu_time == (if records.contains_key(tag) {
            records[tag].cpu_time as int
        } else {
            0
        }) + delta_ms,
{
}

pub fn cpu_delta_ms(last: &ThreadStat, cur: &ThreadStat, ticks_per_second: u64) -> (ms: u32)
    ensures
        ms == spec_cpu_delta_ms(*last, *cur, ticks_per_second),
{
    let ticks: i128 = cur.total_ticks() - last.total_ticks();
    if ticks_per_second == 0 || ticks <= 0 {
        return 0;
    }
    let tps: i128 = ticks_per_second as i128;
    assert(ticks * 1000 <= 0x4_0000_0000_0000_0000 * 1000) by (nonlinear_arith)
        requires
            ticks <= 0x4_0000_0000_0000_0000,
    ;
    let ms: i128 = ticks * 1000 / tps;
    if ms > u32::MAX as i128 {
        u32::MAX
    } else {
        assert(0 <= ms) by (nonlinear_arith)
            requires
                ticks > 0,
                tps > 0,
                ms == (ticks * 1000) as int / (tps as int),
        ;
        ms as u32
    }
}

/// What the records hold after `delta_ms` more CPU time is counted for `tag`:
/// the tag's record, a fresh one if it had none, grows by `delta_ms`. The
/// functions that count state this only under the model of a hash-map key,
/// which tags do not obey (see `count_cpu_time`).
pub open spec fn counted(
    records: Map<Arc<TagInfos>, Record>,
    tag: Arc<TagInfos>,
    delta_ms: u32,
) -> Map<Arc<TagInfos>, Record> {
    let before = if records.contains_key(tag) {
        records[tag]
    } else {
        Record { cpu_time: 0 }
    };
    let total = before.cpu_time + delta_ms;
    records.insert(
        tag,
        Record {
            cpu_time: if total > u32::MAX {
                u32::MAX
            } else {
                total as u32
            },
        },
    )
}

/// Counts `delta_ms` more CPU time for `tag`.
///
/// The clause on the record map holds only where tags obey the model of a
/// hash-map key. Tags do not: they compare equal by a name that can change
/// under them, which no specification can follow. So callers can rely on that
/// clause for nothing; it records the intended change.
pub fn count_cpu_time(records: &mut Records, tag: Arc<TagInfos>, delta_ms: u32)
    ensures
        obeys_key_model::<Arc<TagInfos>>() && builds_valid_hashers::<RandomState>()
            ==> final(records).records@ == counted(old(records).records@, tag, delta_ms),
        final(records).begin_unix_time_secs == old(records).begin_unix_time_secs,
        final(records).duration == old(records).duration,
{
    let before = match records.records.get(&tag) {
        Some(r) => *r,
        None => Record::default(),
    };
    records.records.insert(tag, before.add_cpu_time(delta_ms));
}

/// What one observed thread's part of a tick does to the records: when a tag
/// is attached and the sampled CPU time differs from the one last seen, the
/// time used in between is counted for the tag.
pub open spec fn thread_counted(
    records: Map<Arc<TagInfos>, Record>,
    tag: Option<Arc<TagInfos>>,
    last: ThreadStat,
    sample: ThreadSample,
    tid: Pid,
) -> Map<Arc<TagInfos>, Record> {
    if tag is Some && sample.stats@.contains_key(tid) && sample.stats@[tid] != last {
        counted(
            records,
            tag->0,
            spec_cpu_delta_ms(last, sample.stats@[tid], sample.ticks_per_second) as u32,
        )
    } else {
        records
    }
}

/// The CPU time kept for a thread after its part of a tick: the sampled one
/// when a tag is attached and the time could be read, else the one last seen.
pub open spec fn thread_stat_after(
    tag: Option<Arc<TagInfos>>,
    last: ThreadStat,
    sample: ThreadSample,
    tid: Pid,
) -> ThreadStat {
    if tag is Some && sample.stats@.contains_key(tid) {
        sample.stats@[tid]
    } else {
        last
    }
}

/// The records after the threads `tids` took their part of a tick, in that
/// order, the `k`-th with the tag `tags[k]` attached, `stats` holding the CPU
/// times last seen.
pub open spec fn ticked_records(
    records: Map<Arc<TagInfos>, Record>,
    tids: Seq<Pid>,
    tags: Seq<Option<Arc<TagInfos>>>,
    stats: Map<Pid, ThreadStat>,
    sample: ThreadSample,
) -> Map<Arc<TagInfos>, Record>
    decreases tids.len(),
{
    if tids.len() == 0 {
        records
    } else {
        let k = tids.len() - 1;
        thread_counted(
            ticked_records(records, tids.drop_last(), tags.take(k), stats, sample),
            tags[k],
            stats[tids[k]],
            sample,
            tids[k],
        )
    }
}

/// A tick of the CPU recorder from `before` to `after` with `sample` took the
/// observed threads in the order `tids`, once each, the `k`-th with the tag
/// `tags[k]` attached: each thread keeps the CPU time that `thread_stat_after`
/// gives, and, where tags obey the model of a hash-map key, the records go
/// from `rb` to `ra` as `ticked_records` says.
pub open spec fn ticked_threads(
    before: CPURecorder,
    after: CPURecorder,
    rb: Map<Arc<TagInfos>, Record>,
    ra: Map<Arc<TagInfos>, Record>,
    sample: ThreadSample,
    tids: Seq<Pid>,
    tags: Seq<Option<Arc<TagInfos>>>,
) -> bool {
    &&& tids.to_set() == before.stats().dom()
    &&& tids.no_duplicates()
    &&& tags.len() == tids.len()
    &&& after.stats().dom() == before.stats().dom()
    &&& forall|k: int| #![trigger tids[k]]
        0 <= k < tids.len() ==> after.stats()[tids[k]] == thread_stat_after(
            tags[k],
            before.stats()[tids[k]],
            sample,
            tids[k],
        )
    &&& obeys_key_model::<Arc<TagInfos>>() && builds_valid_hashers::<RandomState>() ==> ra
        == ticked_records(rb, tids, tags, before.stats(), sample)
}

/// A tick counts, for an observed thread with a tag attached whose CPU time
/// changed, the CPU time used since the time last seen: with that thread alone
/// observed, its tag's record grows by the milliseconds between its last seen
/// and its sampled CPU time, and that sampled time is kept.
pub proof fn lemma_tick_counts_since_last_seen(
    before: CPURecorder,
    after: CPURecorder,
    rb: Map<Arc<TagInfos>, Record>,
    ra: Map<Arc<TagInfos>, Record>,
    sample: ThreadSample,
    tids: Seq<Pid>,
    tags: Seq<Option<Arc<TagInfos>>>,
    tid: Pid,
)
    requires
        ticked_threads(before, after, rb, ra, sample, tids, tags),
        before.stats().dom() == set![tid],
        after.stats()[tid] != before.stats()[tid],
        obeys_key_model::<Arc<TagInfos>>(),
        builds_valid_hashers::<RandomState>(),
    ensures
        sample.stats@.contains_key(tid),
        after.stats()[tid] == sample.stats@[tid],
        tags[0] is Some,
        ra == counted(
            rb,
            tags[0]->0,
            spec_cpu_delta_ms(before.stats()[tid], sample.stats@[tid], sample.ticks_per_second) as u32,
        ),
{
    tids.unique_seq_to_set();
    assert(set![tid].len() == 1);
    assert(tids.len() == 1);
    assert(tids.to_set().contains(tids[0]));
    assert(tids[0] == tid);
    assert(tids.drop_last().len() == 0);
    assert(ticked_records(rb, tids.drop_last(), tags.take(0), before.stats(), sample) == rb);
}

/// Two ticks that each find a new CPU time for the one observed thread count
/// each interval once: the first the time up to the first sample, the second
/// only the time from the first sample to the second.
pub proof fn lemma_ticks_count_each_interval_once(
    r0: CPURecorder,
    r1: CPURecorder,
    r2: CPURecorder,
    m0: Map<Arc<TagInfos>, Record>,
    m1: Map<Arc<TagInfos>, Record>,
    m2: Map<Arc<TagInfos>, Record>,
    s1: ThreadSample,
    s2: ThreadSample,
    tids1: Seq<Pid>,
    tags1: Seq<Option<Arc<TagInfos>>>,
    tids2: Seq<Pid>,
    tags2: Seq<Option<Arc<TagInfos>>>,
    tid: Pid,
)
    requires
        ticked_threads(r0, r1, m0, m1, s1, tids1, tags1),
        ticked_threads(r1, r2, m1, m2, s2, tids2, tags2),
        r0.stats().dom() == set![tid],
        r1.stats()[tid] != r0.stats()[tid],
        r2.stats()[tid] != r1.stats()[tid],
        obeys_key_model::<Arc<TagInfos>>(),
        builds_valid_hashers::<RandomState>(),
    ensures
        m2 == counted(
            counted(
                m0,
                tags1[0]->0,
                spec_cpu_delta_ms(r0.stats()[tid], s1.stats@[tid], s1.ticks_per_second) as u32,
            ),
            tags2[0]->0,
            spec_cpu_delta_ms(s1.stats@[tid], s2.stats@[tid], s2.ticks_per_second) as u32,
        ),
{
    lemma_tick_counts_since_last_seen(r0, r1, m0, m1, s1, tids1, tags1, tid);
    lemma_tick_counts_since_last_seen(r1, r2, m1, m2, s2, tids2, tags2, tid);
}

/// The per-thread data of the CPU recorder: the slot that holds the thread's
/// tag, and the thread's CPU time when last seen.
struct ThreadStatEntry {
    attached_tag: SharedTagInfos,
    stat: ThreadStat,
}

/// A [`SubRecorder`] that collects CPU usage at each tick: the CPU time that a
/// thread used since its last tick is counted for the tag attached to it.
pub struct CPURecorder {
    thread_stats: HashMap<Pid, ThreadStatEntry>,
    log: Ghost<Seq<SubRecorderEvent>>,
}

impl CPURecorder {
    /// A recorder that observes no thread yet.
    pub fn new() -> (r: Self)
        ensures
            r.stats() == Map::<Pid, ThreadStat>::empty(),
            r.slots() == Map::<Pid, SharedTagInfos>::empty(),
            r.spec_log() == Seq::<SubRecorderEvent>::empty(),
    {
        CPURecorder { thread_stats: HashMap::new(), log: Ghost(Seq::empty()) }
    }

    /// The last seen CPU time of each observed thread.
    pub closed spec fn stats(self) -> Map<Pid, ThreadStat> {
        self.thread_stats@.map_values(|e: ThreadStatEntry| e.stat)
    }

    /// The slot that holds each observed thread's tag.
    pub closed spec fn slots(self) -> Map<Pid, SharedTagInfos> {
        self.thread_stats@.map_values(|e: ThreadStatEntry| e.attached_tag)
    }

    /// The number of observed threads.
    pub fn len(&self) -> (n: usize)
        ensures
            n == self.stats().len(),
    {
        assert(self.stats().dom() =~= self.thread_stats@.dom());
        self.thread_stats.len()
    }

    /// The last seen CPU time of the thread `tid`.
    pub fn stat_of(&self, tid: Pid) -> (s: Option<ThreadStat>)
        ensures
            s == if self.stats().contains_key(tid) {
                Some(self.stats()[tid])
            } else {
                None
            },
    {
        match self.thread_stats.get(&tid) {
            Some(e) => Some(e.stat),
            None => None,
        }
    }
}

impl CPURecorder {
    /// One thread's part of a tick, with `tag` the tag attached to the
    /// observed thread `tid`: when a tag is attached and the thread's CPU time
    /// was sampled, the time used since the last tick is counted for the tag
    /// (if the time changed) and the sampled time is kept. Otherwise nothing
    /// changes. The record map changes only when the thread's CPU time did.
    ///
    /// The clause on how the record map changes holds only where tags obey the
    /// model of a hash-map key, which they do not (see `count_cpu_time`).
    pub fn observe_thread(
        &mut self,
        records: &mut Records,
        tid: Pid,
        tag: Option<Arc<TagInfos>>,
        sample: &ThreadSample,
    )
        requires
            old(self).stats().contains_key(tid),
        ensures
            ({
                let last = old(self).stats()[tid];
                if tag is Some && sample.stats@.contains_key(tid) {
                    let cur = sample.stats@[tid];
                    &&& final(self).stats() == old(self).stats().insert(tid, cur)
                    &&& obeys_key_model::<Arc<TagInfos>>() && builds_valid_hashers::<RandomState>()
                        ==> final(records).records@ == if last == cur {
                        old(records).records@
                    } else {
                        counted(
                            old(records).records@,
                            tag->0,
                            spec_cpu_delta_ms(last, cur, sample.ticks_per_second) as u32,
                        )
                    }
                } else {
                    &&& final(self).stats() == old(self).stats()
                    &&& final(records).records@ == old(records).records@
                }
            }),
            final(self).stats()[tid] == old(self).stats()[tid] ==> final(records).records@ == old(records).records@,
            final(self).slots() == old(self).slots(),
            final(self).spec_log() == old(self).spec_log(),
            final(records).begin_unix_time_secs == old(records).begin_unix_time_secs,
            final(records).duration == old(records).duration,
    {
        let (slot, last) = match self.thread_stats.get(&tid) {
            Some(e) => (e.attached_tag.clone(), e.stat),
            None => {
                return;
            },
        };
        if let Some(tag) = tag {
            if let Some(cur) = sample.stats.get(&tid) {
                let cur: ThreadStat = *cur;
                if last != cur {
                    let delta = cpu_delta_ms(&last, &cur, sample.ticks_per_second);
                    count_cpu_time(records, tag, delta);
                }
                let ghost before = self.stats();
                let ghost slots_before = self.slots();
                self.thread_stats.insert(tid, ThreadStatEntry { attached_tag: slot, stat: cur });
                assert(self.stats() =~= before.insert(tid, cur));
                assert(self.slots() =~= slots_before);
            }
        }
    }
}

impl Default for CPURecorder {
    fn default() -> (r: Self)
        ensures
            r.stats() == Map::<Pid, ThreadStat>::empty(),
    {
        CPURecorder::new()
    }
}

impl SubRecorder for CPURecorder {
    closed spec fn spec_log(&self) -> Seq<SubRecorderEvent> {
        self.log@
    }

    /// For each observed thread that has a tag attached and whose CPU time
    /// could be read, the time used since its last tick is counted for the
    /// tag, and the new CPU time is kept. Other threads are left as they were.
    fn tick(&mut self, records: &mut Records, sample: &ThreadSample)
        ensures
            final(self).stats().dom() == old(self).stats().dom(),
            forall|tid: Pid| #[trigger]
                old(self).stats().contains_key(tid) ==> final(self).stats()[tid] == old(self).stats()[tid] || (sample.stats@.contains_key(tid) && final(self).stats()[tid]
                    == sample.stats@[tid]),
            final(self).stats() == old(self).stats() ==> final(records).records@ == old(records).records@,
            exists|tids: Seq<Pid>, tags: Seq<Option<Arc<TagInfos>>>| #[trigger]
                ticked_threads(
                    *old(self),
                    *final(self),
                    old(records).records@,
                    final(records).records@,
                    *sample,
                    tids,
                    tags,
                ),
            final(self).slots() == old(self).slots(),
            final(records).begin_unix_time_secs == old(records).begin_unix_time_secs,
            final(records).duration == old(records).duration,
    {
        let ghost records_before = *records;
        let ghost mut tags: Seq<Option<Arc<TagInfos>>> = Seq::empty();
        let tids = keys_of(&self.thread_stats);
        let ghost start = self.stats();
        let ghost start_records = records.records@;
        let mut i: usize = 0;
        assert(self.stats().dom() =~= self.thread_stats@.dom());
        while i < tids.len()
            invariant
                i <= tids.len(),
                tids@.to_set() == start.dom(),
                tids@.no_duplicates(),
                self.stats().dom() == start.dom(),
                self.slots() == old(self).slots(),
                forall|tid: Pid| #[trigger]
                    start.contains_key(tid) ==> self.stats()[tid] == start[tid] || (
                    sample.stats@.contains_key(tid) && self.stats()[tid] == sample.stats@[tid]),
                forall|j: int| #![trigger tids@[j]]
                    i <= j < tids@.len() ==> self.stats()[tids@[j]] == start[tids@[j]],
                records.records@ == start_records || exists|j: int| #![trigger tids@[j]]
                    0 <= j < i && self.stats()[tids@[j]] != start[tids@[j]],
                records.begin_unix_time_secs == old(records).begin_unix_time_secs,
                records.duration == old(records).duration,
                self.log == old(self).log,
                tags.len() == i,
                forall|k: int| #![trigger tids@[k]]
                    0 <= k < i ==> self.stats()[tids@[k]] == thread_stat_after(
                        tags[k],
                        start[tids@[k]],
                        *sample,
                        tids@[k],
                    ),
                obeys_key_model::<Arc<TagInfos>>() && builds_valid_hashers::<RandomState>()
                    ==> records.records@ == ticked_records(
                    start_records,
                    tids@.take(i as int),
                    tags,
                    start,
                    *sample,
                ),
            decreases tids.len() - i,
        {
            let tid = tids[i];
            assert(start.dom().contains(tid)) by {
                assert(tids@.to_set().contains(tids@[i as int]));
            }
            let ghost records_at = records.records@;
            let ghost stats_at = self.stats();
            let ghost mut g_tag: Option<Arc<TagInfos>> = None;
            let slot = match self.thread_stats.get(&tid) {
                Some(e) => Some(e.attached_tag.clone()),
                None => None,
            };
            if let Some(slot) = slot {
                // The tag attached now; its thread may change it at any time.
                let tag = slot.load_full();
                proof {
                    g_tag = tag;
                }
                let ghost before = self.stats();
                let ghost records_before = records.records@;
                self.observe_thread(records, tid, tag, sample);
                assert forall|t: Pid| #[trigger] start.contains_key(t) implies self.stats()[t]
                    == start[t] || (sample.stats@.contains_key(t) && self.stats()[t]
                    == sample.stats@[t]) by {
                    if t != tid {
                        assert(self.stats()[t] == before[t]);
                    }
                }
                assert forall|j: int| #![trigger tids@[j]]
                    i + 1 <= j < tids@.len() implies self.stats()[tids@[j]] == start[tids@[j]] by {
                    assert(tids@[j] != tids@[i as int]);
                    assert(self.stats()[tids@[j]] == before[tids@[j]]);
                }
                proof {
                if !(records.records@ == start_records) {
                    if records.records@ == records_before {
                        let j = choose|j: int| #![trigger tids@[j]]
                            0 <= j < i && before[tids@[j]] != start[tids@[j]];
                        assert(tids@[j] != tids@[i as int]);
                        assert(self.stats()[tids@[j]] == before[tids@[j]]);
                        assert(self.stats()[tids@[j]] != start[tids@[j]]);
                    } else {
                        assert(before[tid] == start[tid]);
                        assert(self.stats()[tids@[i as int]] != start[tids@[i as int]]);
                    }
                }
                }
            }
            proof {
                let tags_next = tags.push(g_tag);
                assert(tids@.take(i + 1).drop_last() =~= tids@.take(i as int));
                assert(tags_next.take(i as int) =~= tags);
                assert(stats_at[tid] == start[tid]);
                assert(ticked_records(start_records, tids@.take(i + 1), tags_next, start, *sample)
                    == thread_counted(
                    ticked_records(start_records, tids@.take(i as int), tags, start, *sample),
                    g_tag,
                    start[tid],
                    *sample,
                    tid,
                ));
                assert forall|k: int| #![trigger tids@[k]] 0 <= k < i + 1 implies self.stats()[tids@[k]]
                    == thread_stat_after(tags_next[k], start[tids@[k]], *sample, tids@[k]) by {
                    if k < i {
                        assert(tids@[k] != tid);
                        assert(self.stats()[tids@[k]] == stats_at[tids@[k]]);
                    }
                }
                tags = tags_next;
            }
            i = i + 1;
        }
        assert(tids@.take(tids@.len() as int) =~= tids@);
        assert(ticked_threads(
            *old(self),
            *self,
            old(records).records@,
            records.records@,
            *sample,
            tids@,
            tags,
        ));
        let ghost ticked = *self;
        self.log = Ghost(self.log@.push(SubRecorderEvent::Tick(records_before, *sample)));
        assert(self.stats() =~= ticked.stats());
        assert(ticked_threads(
            *old(self),
            *self,
            old(records).records@,
            records.records@,
            *sample,
            tids@,
            tags,
        ));
        proof {
            if self.stats() == start {
                if !(records.records@ == start_records) {
                    let j = choose|j: int| #![trigger tids@[j]]
                        0 <= j < tids@.len() && self.stats()[tids@[j]] != start[tids@[j]];
                    assert(false);
                }
            }
        }
    }

    /// Shrinks the map of threads when it holds far fewer threads than it has
    /// room for; the observed threads stay as they were.
    fn clean_up(&mut self)
        ensures
            final(self).stats() == old(self).stats(),
            final(self).slots() == old(self).slots(),
    {
        if map_capacity(&self.thread_stats) > THREAD_STAT_LEN_THRESHOLD && self.thread_stats.len()
            < THREAD_STAT_LEN_THRESHOLD / 2 {
            shrink_map(&mut self.thread_stats, THREAD_STAT_LEN_THRESHOLD);
        }
        self.log = Ghost(self.log@.push(SubRecorderEvent::CleanUp));
    }

    /// Nothing is read while paused: only the hook is recorded.
    fn pause(&mut self) {
        self.log = Ghost(self.log@.push(SubRecorderEvent::Pause));
    }

    /// Takes the current CPU time of every observed thread as its last seen
    /// time: the sampled one, or zero for a thread that could not be read.
    fn resume(&mut self, sample: &ThreadSample)
        ensures
            final(self).slots() == old(self).slots(),
            final(self).stats().dom() == old(self).stats().dom(),
            forall|tid: Pid| #[trigger]
                old(self).stats().contains_key(tid) ==> final(self).stats()[tid] == resumed_stat(
                    sample.stats@,
                    tid,
                ),
    {
        let tids = keys_of(&self.thread_stats);
        let ghost start = self.stats();
        let mut i: usize = 0;
        while i < tids.len()
            invariant
                i <= tids.len(),
                tids@.to_set() == start.dom(),
                tids@.no_duplicates(),
                self.stats().dom() == start.dom(),
                self.slots() == old(self).slots(),
                self.log == old(self).log,
                forall|j: int| #![trigger tids@[j]]
                    0 <= j < i ==> self.stats()[tids@[j]] == resumed_stat(sample.stats@, tids@[j]),
            decreases tids.len() - i,
        {
            let tid = tids[i];
            assert(self.stats().dom().contains(tid)) by {
                assert(tids@.to_set().contains(tids@[i as int]));
            }
            let slot = match self.thread_stats.get(&tid) {
                Some(e) => Some(e.attached_tag.clone()),
                None => None,
            };
            if let Some(slot) = slot {
                let stat = match sample.stats.get(&tid) {
                    Some(s) => *s,
                    None => ThreadStat::default(),
                };
                let ghost before = self.stats();
                let ghost slots_before = self.slots();
                self.thread_stats.insert(tid, ThreadStatEntry { attached_tag: slot, stat });
                assert(self.stats() =~= before.insert(tid, stat));
                assert(self.slots() =~= slots_before);
                assert forall|j: int| #![trigger tids@[j]]
                    0 <= j < i + 1 implies self.stats()[tids@[j]] == resumed_stat(sample.stats@, tids@[j]) by {
                    if j < i {
                        assert(tids@[j] != tids@[i as int]);
                    }
                }
            }
            i = i + 1;
        }
        assert forall|tid: Pid| #[trigger] start.contains_key(tid) implies self.stats()[tid]
            == resumed_stat(sample.stats@, tid) by {
            assert(tids@.to_set().contains(tid));
            let j = choose|j: int| 0 <= j < tids@.len() && tids@[j] == tid;
            assert(tids@[j] == tid);
        }
        self.log = Ghost(self.log@.push(SubRecorderEvent::Resume(*sample)));
    }

    /// Starts observing the thread `id`, whose tag is in `store`, with no CPU
    /// time seen yet.
    fn on_thread_created(&mut self, id: Pid, store: &LocalStorage)
        ensures
            final(self).stats() == old(self).stats().insert(id, ThreadStat { s_time: 0, u_time: 0 }),
            final(self).slots() == old(self).slots().insert(id, store.attached_tag),
    {
        let ghost before = self.stats();
        let ghost slots_before = self.slots();
        self.thread_stats.insert(
            id,
            ThreadStatEntry { attached_tag: store.attached_tag.clone(), stat: ThreadStat::default() },
        );
        assert(self.stats() =~= before.insert(id, ThreadStat { s_time: 0, u_time: 0 }));
        assert(self.slots() =~= slots_before.insert(id, store.attached_tag));
        self.log = Ghost(self.log@.push(SubRecorderEvent::ThreadCreated(id, *store)));
    }
}

/// The CPU time that `resume` takes for the thread `tid`.
pub open spec fn resumed_stat(stats: Map<Pid, ThreadStat>, tid: Pid) -> ThreadStat {
    if stats.contains_key(tid) {
        stats[tid]
    } else {
        ThreadStat { s_time: 0, u_time: 0 }
    }
}

} // verus!
