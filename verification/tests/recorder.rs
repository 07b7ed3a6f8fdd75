use std::collections::{HashMap, HashSet};
use std::sync::atomic::{AtomicUsize, Ordering};
use std::sync::{Arc, Mutex};
use std::time::{Duration, Instant};

use resource_metering::local_storage::{LocalStorage, LocalStorageRef, SharedTagInfos};
use resource_metering::recorder::sub_recorder::cpu_recorder::{count_cpu_time, cpu_delta_ms};
use resource_metering::recorder::sub_recorder::{CPURecorder, SubRecorder};
use resource_metering::recorder::thread::{parse_thread_stat, Pid, ThreadSample, ThreadStat};
use resource_metering::recorder::{CollectorGuard, CollectorRegHandle};
use resource_metering::worker::{new_scheduler, ScheduleError};
use resource_metering::recorder::{
    CollectorID, CollectorReg, RecorderBuilder, Task, CLEANUP_INTERVAL_SECS,
};
use resource_metering::{Collector, Record, Records, TagInfos};

#[derive(Clone, Default)]
struct MockSubRecorder {
    tick_count: Arc<AtomicUsize>,
    resume_count: Arc<AtomicUsize>,
    thread_created_count: Arc<AtomicUsize>,
    pause_count: Arc<AtomicUsize>,
    clean_up_count: Arc<AtomicUsize>,
}

impl SubRecorder for MockSubRecorder {
    fn tick(&mut self, records: &mut Records, _sample: &ThreadSample) {
        self.tick_count.fetch_add(1, Ordering::SeqCst);
        let tag = TagInfos::default();
        records.records.entry(Arc::new(tag)).or_default().cpu_time = 1;
    }

    fn clean_up(&mut self) {
        self.clean_up_count.fetch_add(1, Ordering::SeqCst);
    }

    fn pause(&mut self) {
        self.pause_count.fetch_add(1, Ordering::SeqCst);
    }

    fn resume(&mut self, _sample: &ThreadSample) {
        self.resume_count.fetch_add(1, Ordering::SeqCst);
    }

    fn on_thread_created(&mut self, _id: Pid, _store: &LocalStorage) {
        self.thread_created_count.fetch_add(1, Ordering::SeqCst);
    }
}

#[derive(Clone, Default)]
struct MockCollector {
    records: Arc<Mutex<Option<Arc<Records>>>>,
}

impl Collector for MockCollector {
    fn collect(&self, records: Arc<Records>) {
        *self.records.lock().unwrap() = Some(records);
    }
}

/// Waits until more than `d` has passed, in whole milliseconds.
fn wait(d: Duration) {
    let start = Instant::now();
    while start.elapsed().as_millis() <= d.as_millis() {
        std::hint::spin_loop();
    }
}

fn counts(s: &MockSubRecorder) -> (usize, usize, usize, usize) {
    (
        s.pause_count.load(Ordering::SeqCst),
        s.resume_count.load(Ordering::SeqCst),
        s.tick_count.load(Ordering::SeqCst),
        s.thread_created_count.load(Ordering::SeqCst),
    )
}

#[test]
fn test_recorder_basic() {
    let sample = ThreadSample::empty(100);
    let sub_recorder = MockSubRecorder::default();
    let mut recorder = RecorderBuilder::default()
        .collect_interval_ms(20)
        .add_sub_recorder(Box::new(sub_recorder.clone()))
        .build();

    // register a new thread
    recorder.run(Task::ThreadReg(LocalStorageRef {
        id: 0,
        storage: LocalStorage::default(),
    }));
    recorder.on_timeout(&sample);
    assert!(recorder.thread_count() > 0);
    assert_eq!(counts(&sub_recorder), (0, 0, 0, 1));

    // register a collector
    let collector = MockCollector::default();
    recorder.run(Task::CollectorReg(CollectorReg::Register {
        id: CollectorID(1),
        collector: Box::new(collector.clone()),
    }));
    recorder.on_timeout(&sample);
    assert_eq!(counts(&sub_recorder), (0, 1, 1, 1));

    // trigger collection
    wait(Duration::from_millis(recorder.collect_interval_ms()));
    recorder.on_timeout(&sample);
    assert_eq!(counts(&sub_recorder), (0, 1, 2, 1));
    let records = { collector.records.lock().unwrap().take().unwrap() };
    assert_eq!(records.records.len(), 1);
    assert_eq!(records.records.values().next().unwrap().cpu_time, 1);

    // deregister collector
    recorder.run(Task::CollectorReg(CollectorReg::Deregister {
        id: CollectorID(1),
    }));
    recorder.on_timeout(&sample);
    assert_eq!(counts(&sub_recorder), (1, 1, 2, 1));

    // nothing happens
    recorder.on_timeout(&sample);
    assert_eq!(counts(&sub_recorder), (1, 1, 2, 1));
}

#[test]
fn recorder_builder_defaults() {
    let recorder = RecorderBuilder::default().build();
    assert_eq!(recorder.collect_interval_ms(), 1000);
    assert_eq!(recorder.cleanup_interval_second(), 15 * 60);
    assert_eq!(CLEANUP_INTERVAL_SECS, 900);
    assert!(!recorder.is_running());
    assert_eq!(recorder.thread_count(), 0);
    assert_eq!(recorder.collector_count(), 0);
    let recorder = RecorderBuilder::default()
        .collect_interval_ms(5)
        .cleanup_interval_second(7)
        .build();
    assert_eq!(recorder.collect_interval_ms(), 5);
    assert_eq!(recorder.cleanup_interval_second(), 7);
}

#[test]
fn register_then_deregister_leaves_no_collector() {
    let mut recorder = RecorderBuilder::default().build();
    recorder.handle_collector_registration(CollectorReg::Register {
        id: CollectorID(3),
        collector: Box::new(MockCollector::default()),
    });
    assert!(recorder.has_collector(CollectorID(3)));
    assert_eq!(recorder.collector_count(), 1);
    // deregistering an unknown id changes nothing
    recorder.handle_collector_registration(CollectorReg::Deregister { id: CollectorID(4) });
    assert_eq!(recorder.collector_count(), 1);
    recorder.handle_collector_registration(CollectorReg::Deregister { id: CollectorID(3) });
    assert!(!recorder.has_collector(CollectorID(3)));
    assert_eq!(recorder.collector_count(), 0);
}

#[test]
fn timeout_runs_exactly_while_collectors_exist() {
    let sample = ThreadSample::empty(100);
    let mut recorder = RecorderBuilder::default().build();
    recorder.on_timeout(&sample);
    assert!(!recorder.is_running());
    recorder.run(Task::CollectorReg(CollectorReg::Register {
        id: CollectorID(9),
        collector: Box::new(MockCollector::default()),
    }));
    recorder.on_timeout(&sample);
    assert!(recorder.is_running());
    recorder.on_timeout(&sample);
    assert!(recorder.is_running());
    recorder.run(Task::CollectorReg(CollectorReg::Deregister { id: CollectorID(9) }));
    recorder.on_timeout(&sample);
    assert!(!recorder.is_running());
}

#[test]
fn pause_and_resume_are_idempotent() {
    let sample = ThreadSample::empty(100);
    let sub = MockSubRecorder::default();
    let mut recorder = RecorderBuilder::default()
        .add_sub_recorder(Box::new(sub.clone()))
        .build();
    recorder.pause();
    assert_eq!(counts(&sub), (0, 0, 0, 0));
    recorder.resume(&sample);
    recorder.resume(&sample);
    assert_eq!(counts(&sub), (0, 1, 0, 0));
    assert!(recorder.is_running());
    recorder.pause();
    recorder.pause();
    assert_eq!(counts(&sub), (1, 1, 0, 0));
    assert!(!recorder.is_running());
}

#[test]
fn collection_is_due_only_after_the_interval() {
    let sample = ThreadSample::empty(100);
    let sub = MockSubRecorder::default();
    let collector = MockCollector::default();
    let mut recorder = RecorderBuilder::default()
        .collect_interval_ms(50)
        .add_sub_recorder(Box::new(sub.clone()))
        .build();
    recorder.run(Task::CollectorReg(CollectorReg::Register {
        id: CollectorID(1),
        collector: Box::new(collector.clone()),
    }));
    recorder.resume(&sample);
    // nothing recorded yet: nothing is handed out, due or not
    assert!(!recorder.collect_if_due(10, Duration::from_millis(10), Instant::now()));
    assert!(!recorder.collect_if_due(51, Duration::from_millis(51), Instant::now()));
    recorder.tick(&sample);
    // recorded, but the interval has not passed
    assert!(!recorder.collect_if_due(50, Duration::from_millis(50), Instant::now()));
    assert!(collector.records.lock().unwrap().is_none());
    // recorded and due
    assert!(recorder.collect_if_due(51, Duration::from_millis(51), Instant::now()));
    let records = collector.records.lock().unwrap().take().unwrap();
    assert_eq!(records.duration, Duration::from_millis(51));
    assert_eq!(records.records.len(), 1);
    // the records started anew
    assert!(!recorder.collect_if_due(51, Duration::from_millis(51), Instant::now()));
}

#[test]
fn clean_up_forgets_dead_threads_when_due() {
    let mut recorder = RecorderBuilder::default().cleanup_interval_second(10).build();
    for id in [1, 2, 3] {
        recorder.run(Task::ThreadReg(LocalStorageRef {
            id,
            storage: LocalStorage::default(),
        }));
    }
    let alive: HashSet<Pid> = [1, 3].into_iter().collect();
    // not due: nothing changes
    assert!(!recorder.clean_up_if_due(10, &Some(alive.clone()), Instant::now()));
    assert_eq!(recorder.thread_count(), 3);
    // due, but the live threads are unknown
    assert!(recorder.clean_up_if_due(11, &None, Instant::now()));
    assert_eq!(recorder.thread_count(), 3);
    // due, with the live threads
    assert!(recorder.clean_up_if_due(11, &Some(alive), Instant::now()));
    assert_eq!(recorder.thread_count(), 2);
    assert!(recorder.observes_thread(1));
    assert!(!recorder.observes_thread(2));
    assert!(recorder.observes_thread(3));
    let mut ids = recorder.thread_ids();
    ids.sort();
    assert_eq!(ids, vec![1, 3]);
}

#[test]
fn task_names() {
    let t = Task::ThreadReg(LocalStorageRef { id: 1, storage: LocalStorage::default() });
    assert_eq!(t.name(), "NewThread");
    let t = Task::CollectorReg(CollectorReg::Deregister { id: CollectorID(1) });
    assert_eq!(t.name(), "CollectorReg");
}

fn stat(s: i64, u: i64) -> ThreadStat {
    ThreadStat { s_time: s, u_time: u }
}

#[test]
fn cpu_recorder_test_record() {
    let info = Arc::new(TagInfos::default());
    let store = LocalStorage {
        attached_tag: SharedTagInfos::new(info),
        ..Default::default()
    };
    let mut recorder = CPURecorder::default();
    let tid: Pid = 7;
    recorder.on_thread_created(tid, &store);
    assert_eq!(recorder.stat_of(tid), Some(stat(0, 0)));
    let mut stats = HashMap::new();
    stats.insert(tid, stat(3, 4));
    let sample = ThreadSample { ticks_per_second: 100, stats, alive: None };
    let mut records = Records::default();
    recorder.tick(&mut records, &sample);
    assert!(!records.records.is_empty());
    records
        .records
        .values()
        .for_each(|record| assert!(record.cpu_time > 0));
    assert_eq!(records.records.values().next().unwrap().cpu_time, 70);
    assert_eq!(recorder.stat_of(tid), Some(stat(3, 4)));
}

#[test]
fn cpu_recorder_skips_threads_without_tag_or_stat() {
    let mut recorder = CPURecorder::default();
    let untagged = LocalStorage::default();
    let tagged = LocalStorage {
        attached_tag: SharedTagInfos::new(Arc::new(TagInfos::new(Some("a".to_string())))),
        ..Default::default()
    };
    recorder.on_thread_created(1, &untagged);
    recorder.on_thread_created(2, &tagged);
    let mut stats = HashMap::new();
    stats.insert(1, stat(5, 5));
    // thread 2 could not be read
    let sample = ThreadSample { ticks_per_second: 100, stats, alive: None };
    let mut records = Records::default();
    recorder.tick(&mut records, &sample);
    assert!(records.records.is_empty());
    assert_eq!(recorder.stat_of(1), Some(stat(0, 0)));
    assert_eq!(recorder.stat_of(2), Some(stat(0, 0)));
    assert_eq!(recorder.len(), 2);
}

#[test]
fn cpu_recorder_accumulates_per_tag() {
    let tag = Arc::new(TagInfos::new(Some("t".to_string())));
    let store = LocalStorage {
        attached_tag: SharedTagInfos::new(tag.clone()),
        ..Default::default()
    };
    let mut recorder = CPURecorder::default();
    recorder.on_thread_created(1, &store);
    recorder.on_thread_created(2, &store);
    let mut stats = HashMap::new();
    stats.insert(1, stat(1, 0));
    stats.insert(2, stat(0, 2));
    let sample = ThreadSample { ticks_per_second: 100, stats, alive: None };
    let mut records = Records::default();
    recorder.tick(&mut records, &sample);
    assert_eq!(records.records.len(), 1);
    assert_eq!(records.records.get(&tag).unwrap().cpu_time, 30);
    // the same stats again: nothing more is counted
    recorder.tick(&mut records, &sample);
    assert_eq!(records.records.get(&tag).unwrap().cpu_time, 30);
}

#[test]
fn cpu_recorder_resume_takes_sampled_or_zero() {
    let mut recorder = CPURecorder::default();
    recorder.on_thread_created(1, &LocalStorage::default());
    recorder.on_thread_created(2, &LocalStorage::default());
    let mut stats = HashMap::new();
    stats.insert(1, stat(8, 9));
    stats.insert(5, stat(1, 1));
    let sample = ThreadSample { ticks_per_second: 100, stats, alive: None };
    recorder.resume(&sample);
    assert_eq!(recorder.stat_of(1), Some(stat(8, 9)));
    assert_eq!(recorder.stat_of(2), Some(stat(0, 0)));
    assert_eq!(recorder.stat_of(5), None);
    recorder.clean_up();
    assert_eq!(recorder.len(), 2);
}

#[test]
fn cpu_delta_in_milliseconds() {
    assert_eq!(cpu_delta_ms(&stat(0, 0), &stat(0, 1), 100), 10);
    assert_eq!(cpu_delta_ms(&stat(1, 1), &stat(2, 3), 100), 30);
    assert_eq!(cpu_delta_ms(&stat(0, 0), &stat(1, 0), 1000), 1);
    assert_eq!(cpu_delta_ms(&stat(0, 0), &stat(1, 0), 3), 333);
    // no clock rate, or time that did not grow
    assert_eq!(cpu_delta_ms(&stat(0, 0), &stat(1, 0), 0), 0);
    assert_eq!(cpu_delta_ms(&stat(5, 5), &stat(1, 1), 100), 0);
    assert_eq!(cpu_delta_ms(&stat(5, 5), &stat(5, 5), 100), 0);
    // held at u32::MAX
    assert_eq!(cpu_delta_ms(&stat(0, 0), &stat(i64::MAX, i64::MAX), 1), u32::MAX);
}

#[test]
fn counting_cpu_time() {
    let a = Arc::new(TagInfos::new(Some("a".to_string())));
    let b = Arc::new(TagInfos::new(Some("b".to_string())));
    let mut records = Records::default();
    count_cpu_time(&mut records, a.clone(), 5);
    count_cpu_time(&mut records, a.clone(), 7);
    count_cpu_time(&mut records, b.clone(), u32::MAX);
    count_cpu_time(&mut records, b.clone(), 1);
    assert_eq!(records.records.get(&a).unwrap().cpu_time, 12);
    assert_eq!(records.records.get(&b).unwrap().cpu_time, u32::MAX);
    // tags with the same name share a record
    let a2 = Arc::new(TagInfos::new(Some("a".to_string())));
    count_cpu_time(&mut records, a2, 1);
    assert_eq!(records.records.get(&a).unwrap().cpu_time, 13);
    assert_eq!(records.records.len(), 2);
}

#[test]
fn records_start_empty() {
    let r = Records::default();
    assert!(r.records.is_empty());
    assert!(r.is_empty());
    assert_eq!(r.duration, Duration::default());
    assert!(r.begin_unix_time_secs > 0);
    assert_eq!(Record::default().cpu_time, 0);
    assert_eq!(Record { cpu_time: 4 }.add_cpu_time(6).cpu_time, 10);
    assert_eq!(Record { cpu_time: u32::MAX - 1 }.add_cpu_time(6).cpu_time, u32::MAX);
}

#[test]
fn observing_one_thread() {
    let tag = Arc::new(TagInfos::new(Some("q".to_string())));
    let mut recorder = CPURecorder::default();
    recorder.on_thread_created(4, &LocalStorage::default());
    let mut stats = HashMap::new();
    stats.insert(4, stat(0, 5));
    let sample = ThreadSample { ticks_per_second: 100, stats, alive: None };
    let mut records = Records::default();
    // no tag attached: nothing changes
    recorder.observe_thread(&mut records, 4, None, &sample);
    assert_eq!(recorder.stat_of(4), Some(stat(0, 0)));
    assert!(records.records.is_empty());
    // a tag attached: 5 ticks are 50 ms
    recorder.observe_thread(&mut records, 4, Some(tag.clone()), &sample);
    assert_eq!(recorder.stat_of(4), Some(stat(0, 5)));
    assert_eq!(records.records.get(&tag).unwrap().cpu_time, 50);
    // a thread that could not be read keeps its last time
    let empty = ThreadSample::empty(100);
    recorder.observe_thread(&mut records, 4, Some(tag.clone()), &empty);
    assert_eq!(recorder.stat_of(4), Some(stat(0, 5)));
    assert_eq!(records.records.get(&tag).unwrap().cpu_time, 50);
}

#[test]
fn tick_interval_is_ninety_nine_hertz() {
    let recorder = RecorderBuilder::default().build();
    assert_eq!(recorder.get_interval(), Duration::from_micros(10_101));
}

#[test]
fn parsing_a_stat_line() {
    let line = b"1234 (my (odd) thread) S 1 1234 1234 0 -1 4194560 1000 0 0 0 57 23 0 0 20 0 1 0 100 0 0\n";
    assert_eq!(parse_thread_stat(line), Some(stat(23, 57)));
    // blanks of several kinds between the fields
    let line = b"7 (t) R  1\t2 3 4 5 6 7 8 9 10 11 12\n";
    assert_eq!(parse_thread_stat(line), Some(stat(12, 11)));
    // no closing parenthesis, too few fields, a field that is not a count
    assert_eq!(parse_thread_stat(b"1 t S 1 2 3 4 5 6 7 8 9 10 11 12"), None);
    assert_eq!(parse_thread_stat(b"1 (t) S 1 2 3"), None);
    assert_eq!(parse_thread_stat(b"1 (t) S 1 2 3 4 5 6 7 8 9 10 -11 12"), None);
    // a count too large for an i64
    assert_eq!(parse_thread_stat(b"1 (t) S 1 2 3 4 5 6 7 8 9 10 9223372036854775808 11"), None);
    assert_eq!(
        parse_thread_stat(b"1 (t) S 1 2 3 4 5 6 7 8 9 10 9223372036854775807 0"),
        Some(stat(0, i64::MAX))
    );
}

#[test]
fn full_queue_still_deregisters() {
    let (scheduler, _receiver) = new_scheduler::<Task>(Arc::new(AtomicUsize::new(0)), 1);
    let handle = CollectorRegHandle::new(scheduler);
    let mut guard = handle.register(Box::new(MockCollector::default()), CollectorID(2));
    // the queue holds the registration and is full, yet the deregistration is sent
    assert!(guard.deregister());
}

#[test]
fn fresh_period_has_no_duration() {
    let sample = ThreadSample::empty(100);
    let sub = MockSubRecorder::default();
    let collector = MockCollector::default();
    let mut recorder = RecorderBuilder::default()
        .collect_interval_ms(5)
        .add_sub_recorder(Box::new(sub.clone()))
        .build();
    recorder.run(Task::CollectorReg(CollectorReg::Register {
        id: CollectorID(1),
        collector: Box::new(collector.clone()),
    }));
    recorder.resume(&sample);
    recorder.tick(&sample);
    assert!(recorder.collect_if_due(6, Duration::from_millis(6), Instant::now()));
    recorder.tick(&sample);
    assert!(recorder.collect_if_due(7, Duration::from_millis(7), Instant::now()));
    let records = collector.records.lock().unwrap().take().unwrap();
    assert_eq!(records.duration, Duration::from_millis(7));
}

#[test]
fn cpu_recorder_without_threads_leaves_records() {
    let mut recorder = CPURecorder::default();
    let mut records = Records::default();
    recorder.tick(&mut records, &ThreadSample::empty(100));
    assert!(records.records.is_empty());
}

#[test]
fn clean_up_runs_every_sub_recorder_and_restarts_the_period() {
    let sub1 = MockSubRecorder::default();
    let sub2 = MockSubRecorder::default();
    let mut recorder = RecorderBuilder::default()
        .cleanup_interval_second(1)
        .add_sub_recorder(Box::new(sub1.clone()))
        .add_sub_recorder(Box::new(sub2.clone()))
        .build();
    assert!(!recorder.clean_up_if_due(1, &None, Instant::now()));
    assert_eq!(sub1.clean_up_count.load(Ordering::SeqCst), 0);
    assert!(recorder.clean_up_if_due(2, &None, Instant::now()));
    assert_eq!(sub1.clean_up_count.load(Ordering::SeqCst), 1);
    assert_eq!(sub2.clean_up_count.load(Ordering::SeqCst), 1);
    // the period restarted now: a clean-up through the clock is not due
    let sample = ThreadSample::empty(100);
    recorder.clean_up(&sample);
    assert_eq!(sub1.clean_up_count.load(Ordering::SeqCst), 1);
}

#[test]
fn resuming_at_an_instant() {
    let sample = ThreadSample::empty(100);
    let sub = MockSubRecorder::default();
    let mut recorder = RecorderBuilder::default()
        .collect_interval_ms(10_000)
        .add_sub_recorder(Box::new(sub.clone()))
        .build();
    recorder.resume_at(Instant::now(), &sample);
    assert!(recorder.is_running());
    assert_eq!(counts(&sub), (0, 1, 0, 0));
    // running already: nothing more
    recorder.resume_at(Instant::now(), &sample);
    assert_eq!(counts(&sub), (0, 1, 0, 0));
    // the period started just now, so a tick does not collect
    recorder.tick(&sample);
    assert_eq!(counts(&sub), (0, 1, 1, 0));
}

#[test]
fn registration_guard_follows_the_outcome() {
    let (scheduler, _receiver) = new_scheduler::<Task>(Arc::new(AtomicUsize::new(0)), 4);
    let ok: Result<(), ScheduleError<Task>> = Ok(());
    let g = CollectorGuard::for_registration(CollectorID(3), &ok, &scheduler);
    assert_eq!(g.id(), CollectorID(3));
    let mut g = g;
    assert!(g.deregister());
    let full: Result<(), ScheduleError<Task>> =
        Err(ScheduleError::Full(Task::CollectorReg(CollectorReg::Deregister { id: CollectorID(3) })));
    let mut g = CollectorGuard::for_registration(CollectorID(4), &full, &scheduler);
    assert!(!g.deregister());
}
