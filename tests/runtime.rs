use ngx::{
    again_status, handler, handler_status, spawn, AsyncHandlerError, AsyncRequestContext,
    AsyncSubRequest, AsyncSubRequestBuilder, AsyncSubRequestError, HandlerStep, ScheduleAction,
    Scheduler, Sleep, SleepPoll, SubRequestIssue, SubRequestPoll, TaskState, NGX_AGAIN, NGX_ERROR,
    NGX_HTTP_SUBREQUEST_BACKGROUND, NGX_HTTP_SUBREQUEST_IN_MEMORY, NGX_HTTP_SUBREQUEST_WAITED,
    NGX_OK,
};

const REACTOR: u64 = 1;
const WORKER: u64 = 2;

#[test]
fn schedule_on_reactor_runs_inline() {
    let mut sched: Scheduler<u32> = Scheduler::new();
    sched.notify_handler(REACTOR);
    assert!(sched.on_event_thread(REACTOR));
    match sched.schedule(5, REACTOR) {
        ScheduleAction::RunNow(r) => assert_eq!(r, 5),
        ScheduleAction::Notify => panic!("deferred on the reactor thread"),
    }
    assert!(sched.is_empty());
}

#[test]
fn schedule_before_reactor_known_is_deferred() {
    let mut sched: Scheduler<u32> = Scheduler::new();
    assert!(!sched.on_event_thread(REACTOR));
    assert!(matches!(sched.schedule(5, REACTOR), ScheduleAction::Notify));
    assert_eq!(sched.len(), 1);
}

#[test]
fn off_thread_wakes_drain_once_in_order() {
    let mut sched: Scheduler<u32> = Scheduler::new();
    sched.notify_handler(REACTOR);
    assert!(matches!(sched.schedule(10, WORKER), ScheduleAction::Notify));
    assert!(matches!(sched.schedule(11, WORKER), ScheduleAction::Notify));
    assert!(matches!(sched.schedule(12, WORKER), ScheduleAction::Notify));
    sched.notify_handler(REACTOR);
    let mut ran = Vec::new();
    while let Some(r) = sched.next_runnable() {
        ran.push(r);
    }
    assert_eq!(ran, vec![10, 11, 12]);
    assert_eq!(sched.next_runnable(), None);
}

#[test]
fn reactor_identity_never_changes() {
    let mut sched: Scheduler<u32> = Scheduler::new();
    sched.notify_handler(REACTOR);
    sched.notify_handler(WORKER);
    assert!(sched.on_event_thread(REACTOR));
    assert!(!sched.on_event_thread(WORKER));
}

#[test]
fn spawn_first_step_inline_on_reactor() {
    let mut sched: Scheduler<u32> = Scheduler::new();
    sched.notify_handler(REACTOR);
    let (task, action) = spawn::<i32, u32>(&mut sched, 3, REACTOR);
    assert!(matches!(action, ScheduleAction::RunNow(3)));
    assert!(task.scheduled);
    assert!(!task.is_finished());
    assert!(sched.is_empty());
}

#[test]
fn spawn_off_reactor_is_queued() {
    let mut sched: Scheduler<u32> = Scheduler::new();
    sched.notify_handler(REACTOR);
    let (_task, action) = spawn::<i32, u32>(&mut sched, 3, WORKER);
    assert!(matches!(action, ScheduleAction::Notify));
    assert_eq!(sched.next_runnable(), Some(3));
}

#[test]
fn is_finished_only_after_final_value() {
    let mut task: TaskState<i32> = TaskState::spawn();
    assert!(!task.is_finished());
    assert!(task.begin_run());
    assert!(!task.is_finished());
    assert!(!task.end_run(None));
    assert!(!task.is_finished());
    assert!(task.wake());
    assert!(task.begin_run());
    assert!(!task.end_run(Some(9)));
    assert!(task.is_finished());
    assert!(!task.wake());
    task.cancel();
    assert!(task.is_finished());
    assert_eq!(task.join(), 9);
}

#[test]
fn wake_while_running_reschedules_once() {
    let mut task: TaskState<i32> = TaskState::spawn();
    assert!(!task.wake());
    assert!(task.begin_run());
    assert!(!task.wake());
    assert!(!task.wake());
    assert!(task.end_run(None));
    assert!(task.scheduled);
    assert!(!task.wake());
}

#[test]
fn cancelled_task_never_runs_again() {
    let mut task: TaskState<i32> = TaskState::spawn();
    assert!(task.begin_run());
    assert!(!task.end_run(None));
    task.cancel();
    assert!(!task.wake());
    assert!(!task.is_finished());
    let mut queued: TaskState<i32> = TaskState::spawn();
    queued.cancel();
    assert!(!queued.begin_run());
}

#[test]
fn timer_registers_once_and_fires() {
    let mut timer: Sleep<u32> = Sleep::new(0);
    assert_eq!(timer.poll(1), SleepPoll::Pending { register: true });
    assert_eq!(timer.poll(2), SleepPoll::Pending { register: false });
    assert_eq!(timer.fire(), Some(2));
    assert_eq!(timer.poll(3), SleepPoll::Ready);
    assert!(!timer.cancel());
}

#[test]
fn dropping_registered_timer_removes_it() {
    let mut timer: Sleep<u32> = Sleep::new(250);
    assert_eq!(timer.duration, 250);
    assert!(!Sleep::<u32>::new(1).cancel());
    assert_eq!(timer.poll(1), SleepPoll::Pending { register: true });
    assert!(timer.cancel());
}

#[test]
fn timer_fired_after_cancel_resumes_nothing() {
    let mut task: TaskState<i32> = TaskState::spawn();
    let mut timer: Sleep<u32> = Sleep::new(0);
    assert!(task.begin_run());
    assert_eq!(timer.poll(7), SleepPoll::Pending { register: true });
    assert!(!task.end_run(None));
    task.cancel();
    let waker = timer.fire();
    assert_eq!(waker, Some(7));
    assert!(!task.wake());
    assert!(!task.scheduled);
}

#[test]
fn subrequest_builder_options() {
    let b = AsyncSubRequestBuilder::new("/auth").args("a=1").in_memory().waited();
    assert_eq!(b.uri(), "/auth");
    assert_eq!(b.arguments(), Some("a=1"));
    assert_eq!(b.flags(), NGX_HTTP_SUBREQUEST_IN_MEMORY | NGX_HTTP_SUBREQUEST_WAITED);
    let bg = AsyncSubRequestBuilder::new("/x").background();
    assert_eq!(bg.arguments(), None);
    assert_eq!(bg.flags(), NGX_HTTP_SUBREQUEST_BACKGROUND);
    assert_eq!(AsyncSubRequestBuilder::new("/y").flags(), 0);
}

fn issue(state: bool, uri: bool, args: bool, post: bool, rc: isize) -> SubRequestIssue {
    SubRequestIssue {
        state_allocated: state,
        uri_allocated: uri,
        args_allocated: args,
        post_allocated: post,
        rc,
        subrequest: 40,
    }
}

fn build_error(b: &AsyncSubRequestBuilder, i: SubRequestIssue) -> Option<AsyncSubRequestError> {
    let r: Result<AsyncSubRequest<u32>, AsyncSubRequestError> = b.build(&i);
    r.err()
}

#[test]
fn subrequest_build_outcomes() {
    let b = AsyncSubRequestBuilder::new("/auth");
    let ok: Result<AsyncSubRequest<u32>, AsyncSubRequestError> = b.build(&issue(true, true, false, true, NGX_OK));
    let sr = ok.ok().unwrap();
    assert_eq!(sr.sr, Some(40));
    assert!(!sr.is_complete());
    assert_eq!(build_error(&b, issue(true, true, true, true, NGX_ERROR)), Some(AsyncSubRequestError::CreationFailed));
}

#[test]
fn subrequest_build_first_failed_step_decides() {
    let plain = AsyncSubRequestBuilder::new("/auth");
    let with_args = AsyncSubRequestBuilder::new("/auth").args("a=1");
    assert_eq!(build_error(&plain, issue(false, false, false, false, NGX_ERROR)), Some(AsyncSubRequestError::RequestAllocFailed));
    assert_eq!(build_error(&plain, issue(true, false, false, false, NGX_ERROR)), Some(AsyncSubRequestError::UriAllocFailed));
    assert_eq!(build_error(&with_args, issue(true, true, false, false, NGX_ERROR)), Some(AsyncSubRequestError::ArgsAllocFailed));
    assert_eq!(build_error(&plain, issue(true, true, false, false, NGX_ERROR)), Some(AsyncSubRequestError::PostRequestAllocFailed));
    assert_eq!(build_error(&with_args, issue(true, true, true, false, NGX_OK)), Some(AsyncSubRequestError::PostRequestAllocFailed));
    assert_eq!(build_error(&plain, issue(true, true, false, true, NGX_OK)), None);
}

#[test]
fn subrequest_resolves_after_completion() {
    let mut sr: AsyncSubRequest<u32> = AsyncSubRequest::new(Some(40));
    assert!(matches!(sr.poll(1), SubRequestPoll::Pending));
    assert_eq!(sr.complete(200), Some(1));
    match sr.poll(2) {
        SubRequestPoll::Ready(rc, out) => {
            assert_eq!(rc, 200);
            assert_eq!(out, Some(40));
        }
        SubRequestPoll::Pending => panic!("still pending after completion"),
    }
}

#[test]
fn subrequest_not_started_resolves_to_error() {
    let mut sr: AsyncSubRequest<u32> = AsyncSubRequest::new(None);
    match sr.poll(1) {
        SubRequestPoll::Ready(rc, out) => {
            assert_eq!(rc, NGX_ERROR);
            assert_eq!(out, None);
        }
        SubRequestPoll::Pending => panic!("a subrequest that never started is pending"),
    }
}

#[test]
fn subrequest_wakes_latest_waker_only() {
    let mut sr: AsyncSubRequest<u32> = AsyncSubRequest::new(Some(40));
    assert!(matches!(sr.poll(1), SubRequestPoll::Pending));
    assert!(matches!(sr.poll(2), SubRequestPoll::Pending));
    assert_eq!(sr.complete(0), Some(2));
    assert_eq!(sr.waker, None);
}

#[test]
fn subrequest_completion_before_poll_wakes_nothing() {
    let mut sr: AsyncSubRequest<u32> = AsyncSubRequest::new(Some(40));
    assert_eq!(sr.complete(0), None);
    assert!(matches!(sr.poll(1), SubRequestPoll::Ready(0, Some(40))));
}

#[test]
fn orphaned_subrequest_dropped_with_task() {
    let mut task: TaskState<i32> = TaskState::spawn();
    let mut sr: AsyncSubRequest<u32> = AsyncSubRequest::new(Some(40));
    assert!(task.begin_run());
    assert!(matches!(sr.poll(5), SubRequestPoll::Pending));
    assert!(!task.end_run(None));
    task.cancel();
    sr.detach();
    assert_eq!(sr.waker, None);
    assert!(!task.wake());
    assert_eq!(sr.complete(0), None);
    assert!(!sr.is_complete());
    assert_eq!(sr.complete(1), None);
}

#[test]
fn adapter_zero_timer_returns_42() {
    let mut sched: Scheduler<u32> = Scheduler::new();
    sched.notify_handler(REACTOR);
    let mut slot: Option<AsyncRequestContext<u32>> = None;

    let (mut task, action) = spawn::<isize, u32>(&mut sched, 7, REACTOR);
    assert!(matches!(action, ScheduleAction::RunNow(7)));
    let mut timer: Sleep<u32> = Sleep::new(0);
    assert!(task.begin_run());
    assert_eq!(timer.poll(7), SleepPoll::Pending { register: true });
    assert!(!task.end_run(None));

    let step = handler(&mut slot, Some(7), task.is_finished());
    assert!(matches!(step, Ok(HandlerStep::Again)));
    assert_eq!(again_status(), NGX_AGAIN);
    assert!(slot.is_some());

    assert_eq!(timer.fire(), Some(7));
    assert!(task.wake());
    assert!(matches!(sched.schedule(7, REACTOR), ScheduleAction::RunNow(7)));
    assert!(task.begin_run());
    assert_eq!(timer.poll(7), SleepPoll::Ready);
    assert!(!task.end_run(Some(42)));

    match handler(&mut slot, None, task.is_finished()) {
        Ok(HandlerStep::Join(l)) => assert_eq!(l, 7),
        _ => panic!("finished task not joined"),
    }
    assert_eq!(handler_status(Ok(task.join())), 42);
    assert!(slot.is_none());
}

#[test]
fn adapter_sequential_requests_start_fresh() {
    let mut first: Option<AsyncRequestContext<u32>> = None;
    assert!(matches!(handler(&mut first, Some(1), false), Ok(HandlerStep::Again)));
    assert!(matches!(handler(&mut first, None, true), Ok(HandlerStep::Join(1))));
    assert!(first.is_none());

    let mut second: Option<AsyncRequestContext<u32>> = None;
    assert!(matches!(handler(&mut second, Some(2), false), Ok(HandlerStep::Again)));
    match &second {
        Some(ctx) => assert_eq!(ctx.launcher, Some(2)),
        None => panic!("no context for the second request"),
    }
    assert!(matches!(handler(&mut second, None, true), Ok(HandlerStep::Join(2))));
    assert!(second.is_none());
}

#[test]
fn adapter_reuses_existing_context() {
    let mut slot: Option<AsyncRequestContext<u32>> = None;
    assert!(matches!(handler(&mut slot, Some(1), false), Ok(HandlerStep::Again)));
    assert!(matches!(handler(&mut slot, None, false), Ok(HandlerStep::Again)));
    match &slot {
        Some(ctx) => assert_eq!(ctx.launcher, Some(1)),
        None => panic!("context lost while running"),
    }
}

#[test]
fn adapter_task_finished_on_first_call() {
    let mut slot: Option<AsyncRequestContext<u32>> = None;
    assert!(matches!(handler(&mut slot, Some(4), true), Ok(HandlerStep::Join(4))));
    assert!(slot.is_none());
}

#[test]
fn adapter_allocation_failure() {
    let mut slot: Option<AsyncRequestContext<u32>> = None;
    let r = handler(&mut slot, None, false);
    assert!(matches!(r, Err(AsyncHandlerError::ContextCreationFailed)));
    assert!(slot.is_none());
    assert_eq!(handler_status(Err(AsyncHandlerError::ContextCreationFailed)), NGX_ERROR);
}

#[test]
fn adapter_context_without_launcher() {
    let mut slot: Option<AsyncRequestContext<u32>> = Some(AsyncRequestContext { launcher: None });
    let r = handler(&mut slot, None, false);
    assert!(matches!(r, Err(AsyncHandlerError::NoAsyncLauncher)));
    assert!(slot.is_some());
}

#[test]
fn error_messages() {
    assert_eq!(AsyncHandlerError::ContextCreationFailed.message(), "AsyncHandler: Context creation failed");
    assert_eq!(AsyncHandlerError::NoAsyncLauncher.message(), "AsyncHandler: No async launcher available");
    assert_eq!(AsyncHandlerError::ContextDeletionFailed.message(), "AsyncHandler: Context deletion failed");
    assert_eq!(AsyncSubRequestError::UriAllocFailed.message(), "URI allocation failed");
    assert_eq!(AsyncSubRequestError::CreationFailed.message(), "Subrequest creation failed");
}
