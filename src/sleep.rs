//! A future that resumes its task once an nginx timer fires.
use vstd::prelude::*;

verus! {

/// The state of a timer future. `W` is the waker of the awaiting task.
pub struct Sleep<W> {
    /// The delay, in milliseconds.
    pub duration: usize,
    /// A timer is registered with the event loop and has not fired.
    pub timer_set: bool,
    /// The timer has fired.
    pub fired: bool,
    /// The waker of the most recent poll.
    pub waker: Option<W>,
}

/// What a poll of a timer future yields.
#[derive(PartialEq, Eq, Structural, Clone, Copy, Debug)]
pub enum SleepPoll {
    /// Not yet: with `register`, the timer must now be added to the event
    /// loop for the duration.
    Pending { register: bool },
    Ready,
}

impl<W> Sleep<W> {
    /// The state after a poll with waker `w`, and what the poll yields.
    pub open spec fn poll_spec(self, w: W) -> (Self, SleepPoll) {
        if self.fired {
            (self, SleepPoll::Ready)
        } else {
            (Sleep { timer_set: true, waker: Some(w), ..self }, SleepPoll::Pending { register: !self.timer_set })
        }
    }

    /// The state after the timer fires, and the waker to wake.
    pub open spec fn fire_spec(self) -> (Self, Option<W>) {
        (Sleep { timer_set: false, fired: true, waker: None, ..self }, self.waker)
    }

    /// Creates a timer future for `duration` milliseconds; no timer is
    /// registered before the first poll.
    pub fn new(duration: usize) -> (r: Self)
        ensures
            r.duration == duration,
            !r.timer_set,
            !r.fired,
            r.waker.is_none(),
    {
        Sleep { duration, timer_set: false, fired: false, waker: None }
    }

    /// Polls the timer future. The first poll asks for the timer to be
    /// registered; every pending poll keeps the latest waker; once the timer
    /// has fired the future is ready.
    pub fn poll(&mut self, w: W) -> (r: SleepPoll)
        ensures
            (*final(self), r) == old(self).poll_spec(w),
    {
        if self.fired {
            SleepPoll::Ready
        } else {
            let register = !self.timer_set;
            self.timer_set = true;
            self.waker = Some(w);
            SleepPoll::Pending { register }
        }
    }

    /// The event loop fired the timer: the future becomes ready and the
    /// waker of the latest poll is handed back to be woken. The timer counts
    /// as no longer registered before anything is woken.
    pub fn fire(&mut self) -> (r: Option<W>)
        ensures
            (*final(self), r) == old(self).fire_spec(),
    {
        self.timer_set = false;
        self.fired = true;
        self.waker.take()
    }

    /// The future is dropped: returns whether its timer must be removed
    /// from the event loop. A timer that fired, including one whose fire
    /// path is dropping the future, is not removed again.
    pub fn cancel(&self) -> (r: bool)
        ensures
            r == self.timer_set,
    {
        self.timer_set
    }
}

/// A timer future that fired is ready at every later poll, and its drop
/// removes no timer.
pub proof fn lemma_fired_timer_stays_ready<W>(s: Sleep<W>, w: W)
    ensures
        ({
            let f = s.fire_spec().0;
            &&& f.poll_spec(w).1 == SleepPoll::Ready
            &&& f.poll_spec(w).0 == f
            &&& !f.timer_set
        }),
{
}

/// However often a timer future is polled, its timer is registered once.
pub proof fn lemma_timer_registered_once<W>(s: Sleep<W>, w1: W, w2: W)
    requires
        !s.fired,
    ensures
        s.poll_spec(w1).0.poll_spec(w2).1 == (SleepPoll::Pending { register: false }),
        s.poll_spec(w1).0.timer_set,
{
}

} // verus!
