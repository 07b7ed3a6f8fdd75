use std::sync::atomic::AtomicUsize;
use std::sync::Arc;
use std::time::Duration;

use futures::channel::mpsc::{UnboundedReceiver, UnboundedSender};
use vstd::prelude::*;

verus! {

#[verifier::external_type_specification]
#[verifier::external_body]
#[verifier::reject_recursive_types(T)]
pub struct ExUnboundedSender<T>(UnboundedSender<T>);

#[verifier::external_type_specification]
#[verifier::external_body]
#[verifier::reject_recursive_types(T)]
pub struct ExUnboundedReceiver<T>(UnboundedReceiver<T>);

/// Calls `futures::channel::mpsc::unbounded`, which creates a fresh open channel
/// and hands out its two ends. Nothing is claimed about the ends.
#[verifier::external_body]
fn open_channel<T>() -> (UnboundedSender<T>, UnboundedReceiver<T>) {
    futures::channel::mpsc::unbounded()
}

/// Calls `UnboundedSender::unbounded_send`. Whether the send succeeds depends on
/// whether the receiving end is still open, which this library cannot see; the
/// claim is only that a refused message comes back unchanged
/// (`TrySendError::into_inner` returns the value that was passed in).
/// The crate asserts internally that its message counter does not overflow;
/// that limit is not stated here.
#[verifier::external_body]
fn send_message<T>(sender: &UnboundedSender<T>, msg: T) -> (r: Result<(), T>)
    ensures
        r matches Err(m) ==> m == msg,
{
    match sender.unbounded_send(msg) {
        Ok(()) => Ok(()),
        Err(e) => Err(e.into_inner()),
    }
}

/// Calls `UnboundedSender::close_channel`, which closes the channel for every
/// sender. Nothing is claimed about the result.
#[verifier::external_body]
fn close_sender<T>(sender: &UnboundedSender<T>) {
    sender.close_channel()
}

/// Calls `<UnboundedSender as Clone>::clone`, which registers one more sender
/// on the same channel. The crate panics when the number of senders reaches its
/// internal maximum; that limit is not stated here.
#[verifier::external_body]
fn clone_sender<T>(sender: &UnboundedSender<T>) -> UnboundedSender<T> {
    sender.clone()
}

/// The trait that a runner of a worker implements: the worker hands it each
/// task, and calls `on_timeout` at every tick of its timer.
pub trait Runnable: Send {
    type Task: Send;

    fn run(&mut self, task: Self::Task);

    fn on_timeout(&mut self);

    fn get_interval(&self) -> Duration;

    fn shutdown(&mut self) {
    }
}

/// The events that reach a worker: a task, or a tick of its timer.
pub enum Msg<T> {
    Task(T),
    Timeout,
}

/// Why a task was not scheduled; the task is handed back.
#[derive(PartialEq, Eq, Debug)]
pub enum ScheduleError<T> {
    Stopped(T),
    Full(T),
}

impl<T> ScheduleError<T> {
    /// The task that could not be scheduled.
    pub open spec fn task(self) -> T {
        match self {
            ScheduleError::Stopped(t) => t,
            ScheduleError::Full(t) => t,
        }
    }

    /// The text that describes the error.
    pub fn message(&self) -> (s: &'static str)
        ensures
            self is Stopped ==> s@ == "scheduler channel has been closed"@,
            self is Full ==> s@ == "scheduler channel is full"@,
    {
        match self {
            ScheduleError::Stopped(_) => "scheduler channel has been closed",
            ScheduleError::Full(_) => "scheduler channel is full",
        }
    }
}

/// What every outcome of scheduling `task` satisfies: success, or an error
/// that hands `task` back.
pub open spec fn hands_back<T>(r: Result<(), ScheduleError<T>>, task: T) -> bool {
    r matches Err(e) ==> e.task() == task
}

/// `Scheduler` dispatches tasks to a worker: it counts the pending tasks and
/// sends each one down the worker's channel.
#[verifier::reject_recursive_types(T)]
pub struct Scheduler<T> {
    task_counter: Arc<AtomicUsize>,
    task_sender: UnboundedSender<Msg<T>>,
    pending_capacity: usize,
}

impl<T> Scheduler<T> {
    pub closed spec fn capacity(self) -> usize {
        self.pending_capacity
    }

    /// The counter of pending tasks that this scheduler shares.
    pub closed spec fn spec_counter(self) -> Arc<AtomicUsize> {
        self.task_counter
    }

    pub fn new(
        task_counter: Arc<AtomicUsize>,
        task_sender: UnboundedSender<Msg<T>>,
        pending_capacity: usize,
    ) -> (s: Self)
        ensures
            s.capacity() == pending_capacity,
            s.spec_counter() == task_counter,
    {
        Scheduler { task_counter, task_sender, pending_capacity }
    }

    /// Schedules a task to run.
    ///
    /// If the worker is stopped or the number of pending tasks has reached the
    /// capacity, an error that holds the task is returned. The task is counted
    /// before the capacity is checked, so that the tasks admitted never exceed
    /// the capacity however many threads schedule at once.
    pub fn schedule(&self, task: T) -> (r: Result<(), ScheduleError<T>>)
        ensures
            hands_back(r, task),
            self.capacity() == 0 ==> r == Err::<(), ScheduleError<T>>(ScheduleError::Full(task)),
    {
        let pending = self.task_counter.fetch_add(1, std::sync::atomic::Ordering::SeqCst);
        self.schedule_with_pending(pending, task)
    }

    /// Schedules a task that has just been counted as pending, `pending`
    /// other tasks having been pending before it: with as many as the capacity
    /// or more, it is uncounted again and comes back in `Full`; otherwise it is
    /// sent as `schedule_force` sends it.
    pub fn schedule_with_pending(&self, pending: usize, task: T) -> (r: Result<
        (),
        ScheduleError<T>,
    >)
        ensures
            hands_back(r, task),
            pending >= self.capacity() ==> r == Err::<(), ScheduleError<T>>(ScheduleError::Full(task)),
            pending < self.capacity() ==> !(r matches Err(ScheduleError::Full(_))),
    {
        if pending >= self.pending_capacity {
            self.task_counter.fetch_sub(1, std::sync::atomic::Ordering::SeqCst);
            return Err(ScheduleError::Full(task));
        }
        self.send_counted(task)
    }

    /// Schedules a task to run, whatever the number of pending tasks.
    ///
    /// Only a stopped worker refuses it: the task comes back in `Stopped`.
    pub fn schedule_force(&self, task: T) -> (r: Result<(), ScheduleError<T>>)
        ensures
            hands_back(r, task),
            !(r matches Err(ScheduleError::Full(_))),
    {
        self.task_counter.fetch_add(1, std::sync::atomic::Ordering::SeqCst);
        self.send_counted(task)
    }

    /// Sends a task that is counted as pending; a task that the stopped worker
    /// refuses is uncounted and comes back in `Stopped`.
    fn send_counted(&self, task: T) -> (r: Result<(), ScheduleError<T>>)
        ensures
            hands_back(r, task),
            !(r matches Err(ScheduleError::Full(_))),
    {
        match send_message(&self.task_sender, Msg::Task(task)) {
            Ok(()) => Ok(()),
            Err(msg) => {
                self.task_counter.fetch_sub(1, std::sync::atomic::Ordering::SeqCst);
                match msg {
                    Msg::Task(t) => Err(ScheduleError::Stopped(t)),
                    Msg::Timeout => Ok(()),
                }
            },
        }
    }

    /// Sends a tick of the timer to the worker. Returns whether it was sent;
    /// ticks are not counted as pending tasks.
    pub fn send_timeout(&self) -> bool {
        send_message(&self.task_sender, Msg::Timeout).is_ok()
    }

    /// Closes the channel: every later scheduling fails with `Stopped`.
    pub fn _stop(&self) {
        close_sender(&self.task_sender)
    }
}

impl<T> Clone for Scheduler<T> {
    /// A second handle on the same channel and counter, with the same capacity.
    fn clone(&self) -> (s: Self)
        ensures
            s.capacity() == self.capacity(),
            s.spec_counter() == self.spec_counter(),
    {
        Scheduler {
            task_counter: Arc::clone(&self.task_counter),
            task_sender: clone_sender(&self.task_sender),
            pending_capacity: self.pending_capacity,
        }
    }
}

/// A fresh channel, and a scheduler that sends into it with the given counter
/// and capacity; the receiving end is for the worker's loop.
pub fn new_scheduler<T>(task_counter: Arc<AtomicUsize>, pending_capacity: usize) -> (r: (
    Scheduler<T>,
    UnboundedReceiver<Msg<T>>,
))
    ensures
        r.0.capacity() == pending_capacity,
        r.0.spec_counter() == task_counter,
{
    let (sender, receiver) = open_channel();
    (Scheduler::new(task_counter, sender, pending_capacity), receiver)
}

/// What the worker's loop does with one event: a task goes to `run`, after
/// which it no longer counts as pending; a tick of the timer goes to
/// `on_timeout`. Returns whether the event was a task.
pub fn handle_msg<R: Runnable>(runner: &mut R, task_counter: &AtomicUsize, msg: Msg<R::Task>) -> (r:
    bool)
    ensures
        r == (msg is Task),
{
    match msg {
        Msg::Task(task) => {
            runner.run(task);
            task_counter.fetch_sub(1, std::sync::atomic::Ordering::SeqCst);
            true
        },
        Msg::Timeout => {
            runner.on_timeout();
            false
        },
    }
}

/// Builds a worker with the given parameters.
pub struct Builder<S> {
    name: S,
    thread_count: usize,
    pending_capacity: usize,
}

impl<S> Builder<S> {
    pub closed spec fn spec_name(self) -> S {
        self.name
    }

    pub closed spec fn spec_thread_count(self) -> usize {
        self.thread_count
    }

    pub closed spec fn spec_pending_capacity(self) -> usize {
        self.pending_capacity
    }

    /// A builder for one thread and no limit on the pending tasks.
    pub fn new(name: S) -> (b: Self)
        ensures
            b.spec_name() == name,
            b.spec_thread_count() == 1,
            b.spec_pending_capacity() == usize::MAX,
    {
        Builder { name, thread_count: 1, pending_capacity: usize::MAX }
    }

    /// Pending tasks won't exceed `pending_capacity`.
    pub fn pending_capacity(self, pending_capacity: usize) -> (b: Self)
        ensures
            b.spec_name() == self.spec_name(),
            b.spec_thread_count() == self.spec_thread_count(),
            b.spec_pending_capacity() == pending_capacity,
    {
        Builder { pending_capacity, ..self }
    }

    pub fn thread_count(&self) -> (n: usize)
        ensures
            n == self.spec_thread_count(),
    {
        self.thread_count
    }

    pub fn get_pending_capacity(&self) -> (n: usize)
        ensures
            n == self.spec_pending_capacity(),
    {
        self.pending_capacity
    }

    /// The builder's parts: the name, the number of threads and the capacity.
    pub fn into_parts(self) -> (r: (S, usize, usize))
        ensures
            r == (self.spec_name(), self.spec_thread_count(), self.spec_pending_capacity()),
    {
        (self.name, self.thread_count, self.pending_capacity)
    }
}

} // verus!
