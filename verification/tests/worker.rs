use std::sync::atomic::{AtomicUsize, Ordering};
use std::sync::Arc;
use std::time::Duration;

use resource_metering::local_storage::{LocalStorage, MAX_THREAD_REGISTER_RETRY};
use resource_metering::recorder::{CollectorID, CollectorRegHandle, Task};
use resource_metering::util::now_unix_time;
use resource_metering::worker::{handle_msg, new_scheduler, Builder, Msg, Runnable, ScheduleError};
use resource_metering::{Collector, ObserverTag, ObserverTagFactory, Records, TagInfos};

struct CountingRunner {
    runs: Vec<i32>,
    timeouts: usize,
}

impl Runnable for CountingRunner {
    type Task = i32;

    fn run(&mut self, task: i32) {
        self.runs.push(task);
    }

    fn on_timeout(&mut self) {
        self.timeouts += 1;
    }

    fn get_interval(&self) -> Duration {
        Duration::from_millis(100)
    }
}

#[test]
fn worker_handles_tasks_and_timeouts() {
    let counter = Arc::new(AtomicUsize::new(0));
    let (scheduler, _receiver) = new_scheduler::<i32>(counter.clone(), 8);
    assert!(scheduler.schedule(42).is_ok());
    assert_eq!(counter.load(Ordering::SeqCst), 1);
    let mut runner = CountingRunner { runs: vec![], timeouts: 0 };
    assert!(handle_msg(&mut runner, &counter, Msg::Task(42)));
    assert_eq!(counter.load(Ordering::SeqCst), 0);
    for _ in 0..9 {
        assert!(!handle_msg(&mut runner, &counter, Msg::Timeout));
    }
    assert_eq!(runner.runs, vec![42]);
    assert_eq!(runner.timeouts, 9);
    assert_eq!(runner.get_interval(), Duration::from_millis(100));
}

#[test]
fn schedule_respects_capacity() {
    let counter = Arc::new(AtomicUsize::new(0));
    let (scheduler, _receiver) = new_scheduler::<i32>(counter.clone(), 2);
    assert_eq!(scheduler.schedule(1), Ok(()));
    assert_eq!(scheduler.schedule(2), Ok(()));
    assert_eq!(scheduler.schedule(3), Err(ScheduleError::Full(3)));
    assert_eq!(counter.load(Ordering::SeqCst), 2);
    // forced scheduling ignores the capacity
    assert_eq!(scheduler.schedule_force(4), Ok(()));
    assert_eq!(counter.load(Ordering::SeqCst), 3);
    // a clone shares the counter
    let other = scheduler.clone();
    assert_eq!(other.schedule(5), Err(ScheduleError::Full(5)));
}

#[test]
fn zero_capacity_is_always_full() {
    let counter = Arc::new(AtomicUsize::new(0));
    let (scheduler, _receiver) = new_scheduler::<&str>(counter.clone(), 0);
    assert_eq!(scheduler.schedule("t"), Err(ScheduleError::Full("t")));
    assert_eq!(counter.load(Ordering::SeqCst), 0);
}

#[test]
fn stopped_scheduler_hands_the_task_back() {
    let counter = Arc::new(AtomicUsize::new(0));
    let (scheduler, receiver) = new_scheduler::<i32>(counter.clone(), 10);
    scheduler._stop();
    assert_eq!(scheduler.schedule(7), Err(ScheduleError::Stopped(7)));
    assert_eq!(counter.load(Ordering::SeqCst), 0);
    drop(receiver);
    assert_eq!(scheduler.schedule_force(8), Err(ScheduleError::Stopped(8)));
    assert_eq!(counter.load(Ordering::SeqCst), 0);
}

#[test]
fn schedule_error_messages() {
    assert_eq!(ScheduleError::Stopped(1).message(), "scheduler channel has been closed");
    assert_eq!(ScheduleError::Full(1).message(), "scheduler channel is full");
}

#[test]
fn builder_defaults() {
    let b = Builder::new("test-worker-timer");
    assert_eq!(b.thread_count(), 1);
    assert_eq!(b.get_pending_capacity(), usize::MAX);
    let b = b.pending_capacity(256);
    assert_eq!(b.get_pending_capacity(), 256);
    let (name, threads, cap) = b.into_parts();
    assert_eq!(name, "test-worker-timer");
    assert_eq!((threads, cap), (1, 256));
}

fn factory(capacity: usize) -> (ObserverTagFactory, futures::channel::mpsc::UnboundedReceiver<Msg<Task>>) {
    let (scheduler, receiver) = new_scheduler::<Task>(Arc::new(AtomicUsize::new(0)), capacity);
    (ObserverTagFactory::new(scheduler), receiver)
}

#[test]
fn test_attach() {
    let (observer_tag_factory, _receiver) = factory(256);
    let tag = ObserverTag::from_parts(Arc::new(TagInfos::default()), observer_tag_factory);
    let mut ls = LocalStorage::default();
    {
        let guard = tag.attach(&mut ls, 1);
        let local_tag = ls.attached_tag.swap(None);
        assert!(local_tag.is_some());
        let tag_infos = local_tag.unwrap();
        assert_eq!(tag_infos, *tag.infos());
        assert!(ls.attached_tag.swap(Some(tag_infos)).is_none());
        assert!(guard.release(&mut ls));
        // what the guard's owner does when a tag was attached
        assert!(ls.attached_tag.swap(None).is_some());
    }
    let local_tag = ls.attached_tag.swap(None);
    assert!(local_tag.is_none());
    assert!(!ls.is_set);
    assert!(ls.registered);
}

#[test]
fn attachments_do_not_nest() {
    let (f, _receiver) = factory(256);
    let first = f.new_tag("first");
    let second = f.new_tag("second");
    let mut ls = LocalStorage::default();
    let _g1 = first.attach(&mut ls, 1);
    // a second tag is not attached over the first
    assert!(!ls.attach_tag(second.infos().clone()));
    let attached = ls.attached_tag.load_full().unwrap();
    assert_eq!(attached.name(), Some("first".to_string()));
    // load_full leaves the tag in place
    assert!(ls.attached_tag.load_full().is_some());
}

#[test]
fn registration_is_retried_a_bounded_number_of_times() {
    // a scheduler without capacity refuses every registration
    let (f, _receiver) = factory(0);
    let tag = f.new_tag("t");
    let mut ls = LocalStorage::default();
    for attempt in 1..=MAX_THREAD_REGISTER_RETRY {
        let g = tag.attach(&mut ls, 3);
        assert!(!ls.registered);
        assert_eq!(ls.register_failed_times, attempt);
        assert!(g.release(&mut ls));
        ls.attached_tag.swap(None);
    }
    let _g = tag.attach(&mut ls, 3);
    assert_eq!(ls.register_failed_times, MAX_THREAD_REGISTER_RETRY);
    assert!(ls.is_set);
}

#[test]
fn registration_outcomes() {
    let mut ls = LocalStorage::default();
    assert!(ls.needs_registration());
    ls.record_registration(false);
    assert_eq!(ls.register_failed_times, 1);
    ls.record_registration(true);
    assert!(ls.registered);
    assert!(!ls.needs_registration());
    assert_eq!(ls.register_failed_times, 1);
    assert!(ls.attach_tag(Arc::new(TagInfos::default())));
    assert!(!ls.attach_tag(Arc::new(TagInfos::default())));
    assert!(ls.detach_tag());
    assert!(!ls.detach_tag());
}

#[test]
fn tags_compare_by_name() {
    let (f, _receiver) = factory(1);
    let tag = f.new_tag("x");
    assert_eq!(tag.infos().name(), Some("x".to_string()));
    tag.update("y");
    assert_eq!(tag.infos().name(), Some("y".to_string()));
    assert_eq!(**tag.infos(), TagInfos::new(Some("y".to_string())));
    assert_ne!(TagInfos::default(), TagInfos::new(Some("y".to_string())));
    assert_eq!(TagInfos::default(), TagInfos::new(None));
}

struct NoopCollector;

impl Collector for NoopCollector {
    fn collect(&self, _records: Arc<Records>) {}
}

#[test]
fn collector_registration_guard() {
    let (scheduler, _receiver) = new_scheduler::<Task>(Arc::new(AtomicUsize::new(0)), 4);
    let handle = CollectorRegHandle::new(scheduler);
    let mut guard = handle.register(Box::new(NoopCollector), CollectorID(5));
    assert_eq!(guard.id(), CollectorID(5));
    assert!(guard.deregister());
    assert!(!guard.deregister());

    let (scheduler, _receiver) = new_scheduler::<Task>(Arc::new(AtomicUsize::new(0)), 0);
    let handle = CollectorRegHandle::new(scheduler);
    let mut guard = handle.register(Box::new(NoopCollector), CollectorID(6));
    assert!(!guard.deregister());
}

#[test]
fn unix_time_is_after_the_epoch() {
    let d = now_unix_time().unwrap();
    assert!(d.as_secs() > 1_600_000_000);
}

#[test]
fn schedule_with_given_pending_count() {
    let counter = Arc::new(AtomicUsize::new(0));
    let (scheduler, _receiver) = new_scheduler::<u8>(counter.clone(), 3);
    // the caller counts each task before it asks
    counter.fetch_add(1, Ordering::SeqCst);
    assert_eq!(scheduler.schedule_with_pending(3, 1), Err(ScheduleError::Full(1)));
    counter.fetch_add(1, Ordering::SeqCst);
    assert_eq!(scheduler.schedule_with_pending(9, 2), Err(ScheduleError::Full(2)));
    assert_eq!(counter.load(Ordering::SeqCst), 0);
    counter.fetch_add(1, Ordering::SeqCst);
    assert_eq!(scheduler.schedule_with_pending(2, 3), Ok(()));
    assert_eq!(counter.load(Ordering::SeqCst), 1);
    assert!(scheduler.send_timeout());
    assert_eq!(counter.load(Ordering::SeqCst), 1);
}
