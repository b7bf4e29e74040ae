//! A model of the lifecycle of a spawned computation, as seen by its
//! handle and by the steps the scheduler runs.
//!
//! The runtime does not run this code: it delegates the lifecycle to the
//! task library it spawns with (async-task), whose handle and steps keep
//! this state themselves. The model states the behaviour the runtime relies
//! on from that library, and the laws below prove it consistent: a
//! computation finishes exactly once it yields its value, never has two
//! steps at once, and never runs again once its handle is dropped.
use vstd::prelude::*;

use crate::scheduler::{ScheduleAction, Scheduler};
use crate::sleep::Sleep;
use crate::subrequest::AsyncSubRequest;

verus! {

/// The modelled state of a spawned computation with result type `T`.
///
/// At most one step of it exists at a time (`scheduled`), and it is never
/// stepped twice at once (`running`): a wake that arrives while a step runs
/// is remembered (`woken`) and turned into a new step once that one ends.
pub struct TaskState<T> {
    pub scheduled: bool,
    pub running: bool,
    pub woken: bool,
    pub output: Option<T>,
    pub cancelled: bool,
}

/// Something that happens to a spawned computation.
pub enum TaskEvent<T> {
    /// A waker of the computation was used.
    Wake,
    /// The scheduler starts running its step.
    BeginRun,
    /// The step ended: with the final value, or suspended (`None`).
    EndRun(Option<T>),
    /// The handle was dropped.
    Cancel,
}

impl<T> TaskState<T> {
    /// The state is consistent: a step is never both queued and running,
    /// a finished computation has no step, and a wake is only remembered
    /// while a step runs.
    pub open spec fn wf(self) -> bool {
        &&& !(self.scheduled && self.running)
        &&& self.output.is_some() ==> !self.scheduled && !self.running
        &&& self.woken ==> self.running
    }

    /// Whether the computation has produced its final value.
    pub open spec fn finished(self) -> bool {
        self.output.is_some()
    }

    /// Whether `event` may happen in this state: a step begins only when one
    /// was scheduled, and ends only while it runs.
    pub open spec fn accepts(self, event: TaskEvent<T>) -> bool {
        match event {
            TaskEvent::BeginRun => self.scheduled,
            TaskEvent::EndRun(_) => self.running,
            _ => true,
        }
    }

    /// The state after a wake, and whether a new step must be scheduled.
    pub open spec fn wake_spec(self) -> (Self, bool) {
        if self.cancelled || self.output.is_some() || self.scheduled {
            (self, false)
        } else if self.running {
            (TaskState { woken: true, ..self }, false)
        } else {
            (TaskState { scheduled: true, ..self }, true)
        }
    }

    /// The state when a step begins, and whether the computation is polled:
    /// a cancelled one is dropped instead.
    pub open spec fn begin_run_spec(self) -> (Self, bool) {
        if self.cancelled {
            (TaskState { scheduled: false, ..self }, false)
        } else {
            (TaskState { scheduled: false, running: true, ..self }, true)
        }
    }

    /// The state when a step ends with `outcome`, and whether another step
    /// must be scheduled.
    pub open spec fn end_run_spec(self, outcome: Option<T>) -> (Self, bool) {
        match outcome {
            Some(v) => (TaskState { running: false, woken: false, output: Some(v), ..self }, false),
            None => if self.woken && !self.cancelled {
                (TaskState { running: false, woken: false, scheduled: true, ..self }, true)
            } else {
                (TaskState { running: false, woken: false, ..self }, false)
            },
        }
    }

    /// The state once the handle is dropped.
    pub open spec fn cancel_spec(self) -> Self {
        TaskState { cancelled: true, ..self }
    }

    /// The state after `event`.
    pub open spec fn step(self, event: TaskEvent<T>) -> Self {
        match event {
            TaskEvent::Wake => self.wake_spec().0,
            TaskEvent::BeginRun => self.begin_run_spec().0,
            TaskEvent::EndRun(o) => self.end_run_spec(o).0,
            TaskEvent::Cancel => self.cancel_spec(),
        }
    }

    /// A freshly spawned computation: its first step is scheduled at once.
    pub fn spawn() -> (r: Self)
        ensures
            r.wf(),
            r.scheduled,
            !r.running,
            !r.woken,
            r.output.is_none(),
            !r.cancelled,
    {
        TaskState { scheduled: true, running: false, woken: false, output: None, cancelled: false }
    }

    /// A waker of the computation was used. Returns whether a new step must
    /// be handed to the scheduler; a computation that already has a step, is
    /// finished or was cancelled gets none.
    pub fn wake(&mut self) -> (r: bool)
        requires
            old(self).wf(),
        ensures
            final(self).wf(),
            (*final(self), r) == old(self).wake_spec(),
    {
        if self.cancelled || self.output.is_some() || self.scheduled {
            false
        } else if self.running {
            self.woken = true;
            false
        } else {
            self.scheduled = true;
            true
        }
    }

    /// The scheduler starts running the scheduled step. Returns whether the
    /// computation is to be polled; a cancelled computation is not, and no
    /// part of it runs again.
    pub fn begin_run(&mut self) -> (r: bool)
        requires
            old(self).wf(),
            old(self).scheduled,
        ensures
            final(self).wf(),
            (*final(self), r) == old(self).begin_run_spec(),
    {
        self.scheduled = false;
        if self.cancelled {
            false
        } else {
            self.running = true;
            true
        }
    }

    /// The running step ended with `outcome`: the final value, or `None`
    /// when the computation suspended. Returns whether another step must be
    /// handed to the scheduler (it was woken while running).
    pub fn end_run(&mut self, outcome: Option<T>) -> (r: bool)
        requires
            old(self).wf(),
            old(self).running,
        ensures
            final(self).wf(),
            (*final(self), r) == old(self).end_run_spec(outcome),
    {
        self.running = false;
        let again = self.woken && !self.cancelled && outcome.is_none();
        self.woken = false;
        match outcome {
            Some(v) => {
                self.output = Some(v);
            },
            None => {
                if again {
                    self.scheduled = true;
                }
            },
        }
        again
    }

    /// The handle was dropped: the computation is cancelled at its current
    /// suspension point.
    pub fn cancel(&mut self)
        requires
            old(self).wf(),
        ensures
            final(self).wf(),
            *final(self) == old(self).cancel_spec(),
    {
        self.cancelled = true;
    }

    /// Whether the computation has produced its final value.
    pub fn is_finished(&self) -> (r: bool)
        ensures
            r == self.finished(),
    {
        self.output.is_some()
    }

    /// Takes the final value out of a finished computation, consuming its handle.
    pub fn join(self) -> (r: T)
        requires
            self.finished(),
        ensures
            Some(r) == self.output,
    {
        self.output.unwrap()
    }
}

/// A computation has at most one step at a time: a wake creates a step
/// only when none is queued or running, and no event leads to a step that
/// is both queued and running.
pub proof fn lemma_single_stepper<T>(s: TaskState<T>, event: TaskEvent<T>)
    requires
        s.wf(),
        s.accepts(event),
    ensures
        s.wake_spec().1 ==> !s.scheduled && !s.running,
        s.wake_spec().1 ==> s.wake_spec().0.scheduled && !s.wake_spec().0.running,
        !(s.step(event).scheduled && s.step(event).running),
{
}

/// `is_finished` becomes true exactly when a step ends with the final
/// value, and stays true whatever happens afterwards.
pub proof fn lemma_finished_exactly_after_output<T>(s: TaskState<T>, event: TaskEvent<T>)
    requires
        s.wf(),
        s.accepts(event),
    ensures
        s.step(event).wf(),
        s.finished() ==> s.step(event).finished(),
        s.finished() ==> s.step(event).output == s.output,
        !s.finished() && s.step(event).finished() ==> event matches TaskEvent::EndRun(Some(_)),
        event matches TaskEvent::EndRun(Some(_)) ==> s.step(event).finished(),
{
}

/// `is_finished` holds after a run of events exactly when some event in it
/// delivered the final value.
pub proof fn lemma_finished_iff_output_delivered<T>(s: TaskState<T>, events: Seq<TaskEvent<T>>)
    requires
        s.wf(),
        !s.finished(),
        run_accepted(s, events),
    ensures
        run_events(s, events).wf(),
        run_events(s, events).finished() <==> exists|i: int|
            0 <= i < events.len() && #[trigger] events[i] matches TaskEvent::EndRun(Some(_)),
    decreases events.len(),
{
    if events.len() > 0 {
        let s1 = s.step(events[0]);
        lemma_finished_exactly_after_output(s, events[0]);
        if s1.finished() {
            lemma_finished_stays(s1, events.drop_first());
        } else {
            lemma_finished_iff_output_delivered(s1, events.drop_first());
            if run_events(s, events).finished() {
                let i = choose|i: int|
                    0 <= i < events.drop_first().len() && #[trigger] events.drop_first()[i] matches TaskEvent::EndRun(Some(_));
                assert(events[i + 1] == events.drop_first()[i]);
            } else {
                assert forall|i: int| 0 <= i < events.len() implies !(#[trigger] events[i] matches TaskEvent::EndRun(Some(_))) by {
                    if i > 0 {
                        assert(events[i] == events.drop_first()[i - 1]);
                    }
                }
            }
        }
    }
}

/// A finished computation stays finished, with the same value, whatever happens.
pub proof fn lemma_finished_stays<T>(s: TaskState<T>, events: Seq<TaskEvent<T>>)
    requires
        s.wf(),
        s.finished(),
        run_accepted(s, events),
    ensures
        run_events(s, events).wf(),
        run_events(s, events).finished(),
        run_events(s, events).output == s.output,
    decreases events.len(),
{
    if events.len() > 0 {
        lemma_finished_exactly_after_output(s, events[0]);
        lemma_finished_stays(s.step(events[0]), events.drop_first());
    }
}

/// Once the handle is dropped, no event makes the computation run again:
/// no wake schedules a step, a scheduled step does not poll it, and the
/// cancellation is never undone.
pub proof fn lemma_cancelled_never_runs<T>(s: TaskState<T>, event: TaskEvent<T>)
    requires
        s.wf(),
        s.accepts(event),
    ensures
        ({
            let c = s.cancel_spec();
            &&& c.step(event).cancelled
            &&& !c.wake_spec().1
            &&& !c.begin_run_spec().1
            &&& c.accepts(TaskEvent::EndRun(None)) ==> !c.end_run_spec(None).1
        }),
{
}

/// The state after a run of events.
pub open spec fn run_events<T>(s: TaskState<T>, events: Seq<TaskEvent<T>>) -> TaskState<T>
    decreases events.len(),
{
    if events.len() == 0 {
        s
    } else {
        run_events(s.step(events[0]), events.drop_first())
    }
}

/// Every event in the run may happen in the state it meets.
pub open spec fn run_accepted<T>(s: TaskState<T>, events: Seq<TaskEvent<T>>) -> bool
    decreases events.len(),
{
    if events.len() == 0 {
        true
    } else {
        s.accepts(events[0]) && run_accepted(s.step(events[0]), events.drop_first())
    }
}

/// The model of spawning: a computation whose first step is `first_step`,
/// handed to the scheduler from thread `tid`: on the event-loop thread that step is to
/// run at once, from any other thread it is queued.
pub fn spawn<T, R>(scheduler: &mut Scheduler<R>, first_step: R, tid: u64) -> (r: (TaskState<T>, ScheduleAction<R>))
    ensures
        r.0 == (TaskState::<T> { scheduled: true, running: false, woken: false, output: None, cancelled: false }),
        final(scheduler).spec_main_tid() == old(scheduler).spec_main_tid(),
        old(scheduler).is_event_thread(tid) ==> r.1 == ScheduleAction::RunNow(first_step)
            && final(scheduler).spec_queue() == old(scheduler).spec_queue(),
        !old(scheduler).is_event_thread(tid) ==> r.1 == ScheduleAction::<R>::Notify
            && final(scheduler).spec_queue() == old(scheduler).spec_queue().push(first_step),
{
    let task = TaskState::spawn();
    let action = scheduler.schedule(first_step, tid);
    (task, action)
}

/// A timer or subrequest completion that arrives after an unfinished
/// task's handle was dropped resumes nothing: waking the task schedules no
/// step and changes nothing, a step already queued does not poll it, and
/// the subrequest's shared state, detached when its future was dropped
/// with the task, records nothing, wakes nothing and keeps no waker.
pub proof fn lemma_late_completion_after_cancel<T, W>(
    task: TaskState<T>,
    timer: Sleep<W>,
    sr: AsyncSubRequest<W>,
    rc: isize,
)
    requires
        task.wf(),
        !task.finished(),
    ensures
        ({
            let c = task.cancel_spec();
            let fired = timer.fire_spec();
            let d = sr.detach_spec();
            &&& c.wf()
            &&& !c.finished()
            &&& c.wake_spec() == (c, false)
            &&& !c.begin_run_spec().1
            &&& fired.0.waker.is_none()
            &&& !fired.0.timer_set
            &&& d.complete_spec(rc) == (d, None::<W>)
            &&& d.waker.is_none()
        }),
{
}

} // verus!
