//! The run queue that hands task steps to the nginx event loop.
//!
//! The queue is a `VecDeque` whose content is known exactly, so that the
//! order in which steps are drained can be proved. Threads other than the
//! event loop reach it through a lock held by the runtime; a cross-thread
//! channel would do the same work, but what such a channel holds changes
//! under other threads and could not be stated of it.
use std::collections::VecDeque;
use vstd::prelude::*;

verus! {

/// What to do with a task step handed to `Scheduler::schedule`.
pub enum ScheduleAction<R> {
    /// The caller is the event-loop thread: run the step now, in line.
    RunNow(R),
    /// The step was queued: interrupt the event loop so that it drains the queue.
    Notify,
}

/// The scheduler: a queue of runnable steps waiting for the event loop, and
/// the identity of the event-loop thread once it is known.
pub struct Scheduler<R> {
    main_tid: Option<u64>,
    queue: VecDeque<R>,
}

impl<R> Scheduler<R> {
    /// The event-loop thread, once recorded.
    pub closed spec fn spec_main_tid(&self) -> Option<u64> {
        self.main_tid
    }

    /// The queued steps, oldest first.
    pub closed spec fn spec_queue(&self) -> Seq<R> {
        self.queue@
    }

    /// Whether `tid` is the recorded event-loop thread.
    pub open spec fn is_event_thread(&self, tid: u64) -> bool {
        self.spec_main_tid() == Some(tid)
    }

    /// Creates a scheduler with an empty queue and no event-loop thread yet.
    pub fn new() -> (r: Self)
        ensures
            r.spec_main_tid().is_none(),
            r.spec_queue() == Seq::<R>::empty(),
    {
        Scheduler { main_tid: None, queue: VecDeque::new() }
    }

    /// Is thread `tid` the event-loop thread? Until that thread is known,
    /// every thread is treated as another one.
    pub fn on_event_thread(&self, tid: u64) -> (r: bool)
        ensures
            r == self.is_event_thread(tid),
    {
        match self.main_tid {
            Some(main) => main == tid,
            None => false,
        }
    }

    /// Hands a task step to the scheduler from thread `tid`. On the
    /// event-loop thread the step is handed back to be run at once and the
    /// queue is not touched; from any other thread it is queued, and the
    /// event loop must be notified.
    pub fn schedule(&mut self, runnable: R, tid: u64) -> (r: ScheduleAction<R>)
        ensures
            final(self).spec_main_tid() == old(self).spec_main_tid(),
            old(self).is_event_thread(tid) ==> r == ScheduleAction::RunNow(runnable)
                && final(self).spec_queue() == old(self).spec_queue(),
            !old(self).is_event_thread(tid) ==> r == ScheduleAction::<R>::Notify
                && final(self).spec_queue() == old(self).spec_queue().push(runnable),
    {
        if self.on_event_thread(tid) {
            ScheduleAction::RunNow(runnable)
        } else {
            self.queue.push_back(runnable);
            ScheduleAction::Notify
        }
    }

    /// Entry of the event loop's notification handler, on thread `tid`: the
    /// first call records `tid` as the event-loop thread, which never changes
    /// afterwards. The handler then drains the queue with `next_runnable`.
    pub fn notify_handler(&mut self, tid: u64)
        ensures
            old(self).spec_main_tid().is_some() ==> final(self).spec_main_tid() == old(self).spec_main_tid(),
            old(self).spec_main_tid().is_none() ==> final(self).spec_main_tid() == Some(tid),
            final(self).spec_queue() == old(self).spec_queue(),
    {
        if self.main_tid.is_none() {
            self.main_tid = Some(tid);
        }
    }

    /// Takes the oldest queued step, if any.
    pub fn next_runnable(&mut self) -> (r: Option<R>)
        ensures
            final(self).spec_main_tid() == old(self).spec_main_tid(),
            old(self).spec_queue().len() == 0 ==> r.is_none() && final(self).spec_queue() == old(self).spec_queue(),
            old(self).spec_queue().len() > 0 ==> r == Some(old(self).spec_queue()[0])
                && final(self).spec_queue() == old(self).spec_queue().drop_first(),
    {
        self.queue.pop_front()
    }

    /// Number of queued steps.
    pub fn len(&self) -> (r: usize)
        ensures
            r == self.spec_queue().len(),
    {
        self.queue.len()
    }

    /// Whether no step is queued.
    pub fn is_empty(&self) -> (r: bool)
        ensures
            r == (self.spec_queue().len() == 0),
    {
        self.queue.len() == 0
    }
}

/// The steps that `n` calls of `next_runnable` take from queue `q`, in order.
pub open spec fn drain_seq<R>(q: Seq<R>, n: nat) -> Seq<R>
    decreases n,
{
    if n == 0 || q.len() == 0 {
        Seq::empty()
    } else {
        seq![q[0]].add(drain_seq(q.drop_first(), (n - 1) as nat))
    }
}

/// Draining a queue to exhaustion takes every queued step exactly once, in
/// the order they were queued.
pub proof fn lemma_drain_takes_each_once<R>(q: Seq<R>)
    ensures
        drain_seq(q, q.len()) == q,
    decreases q.len(),
{
    if q.len() > 0 {
        lemma_drain_takes_each_once(q.drop_first());
        assert(drain_seq(q, q.len()) =~= q);
    }
}

/// A step scheduled from a thread other than the event-loop thread is not
/// run in line: it is queued behind the steps already waiting, and draining
/// the queue runs it exactly once, after them.
pub proof fn lemma_off_thread_wake_drained_once<R>(q: Seq<R>, r: R)
    ensures
        drain_seq(q.push(r), q.len() + 1) == q.push(r),
        drain_seq(q.push(r), q.len() + 1).len() == q.len() + 1,
        drain_seq(q.push(r), q.len() + 1).last() == r,
{
    lemma_drain_takes_each_once(q.push(r));
}

} // verus!
