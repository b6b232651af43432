use quickjs_runtime::eserror::EsError;
use quickjs_runtime::esruntime::{job_report, sync_result, DrainStep, EsRuntime, JobOutcome, WaitOutcome};
use quickjs_runtime::esruntimebuilder::EsRuntimeBuilder;
use quickjs_runtime::eventqueue::{EventQueue, WorkerPhase};

#[test]
fn new_queue_is_empty_and_idle() {
    let q: EventQueue<u32> = EventQueue::new();
    assert_eq!(q.len(), 0);
    assert_eq!(q.submitted(), 0);
    assert_eq!(q.started(), 0);
    assert_eq!(q.completed(), 0);
    assert_eq!(q.phase(), WorkerPhase::Idle);
}

#[test]
fn tickets_count_up_from_zero() {
    let mut q: EventQueue<&str> = EventQueue::new();
    assert_eq!(q.submit("a"), Ok(0));
    assert_eq!(q.submit("b"), Ok(1));
    assert_eq!(q.submit("c"), Ok(2));
    assert_eq!(q.len(), 3);
    assert_eq!(q.submitted(), 3);
}

#[test]
fn jobs_begin_in_submission_order() {
    let mut q: EventQueue<&str> = EventQueue::new();
    q.submit("first").unwrap();
    q.submit("second").unwrap();
    q.submit("third").unwrap();
    let mut seen: Vec<(u64, &str)> = Vec::new();
    while let Some(begun) = q.begin_next() {
        seen.push(begun);
        assert!(q.job_returned());
        assert!(!q.drain_step(false));
    }
    assert_eq!(seen, vec![(0, "first"), (1, "second"), (2, "third")]);
    assert_eq!(q.completed(), 3);
}

#[test]
fn begin_on_empty_queue_gives_nothing() {
    let mut q: EventQueue<u8> = EventQueue::new();
    assert_eq!(q.begin_next(), None);
    assert_eq!(q.phase(), WorkerPhase::Idle);
    assert_eq!(q.started(), 0);
}

#[test]
fn no_job_begins_while_another_executes() {
    let mut q: EventQueue<u8> = EventQueue::new();
    q.submit(1).unwrap();
    q.submit(2).unwrap();
    assert_eq!(q.begin_next(), Some((0, 1)));
    assert_eq!(q.phase(), WorkerPhase::Executing);
    assert_eq!(q.begin_next(), None);
    assert_eq!(q.len(), 1);
    assert_eq!(q.started(), 1);
}

#[test]
fn no_job_begins_before_the_promise_drain_is_done() {
    let mut q: EventQueue<u8> = EventQueue::new();
    q.submit(1).unwrap();
    q.submit(2).unwrap();
    q.begin_next().unwrap();
    assert!(q.job_returned());
    assert_eq!(q.phase(), WorkerPhase::Draining);
    assert_eq!(q.begin_next(), None);
    assert!(q.drain_step(true));
    assert_eq!(q.begin_next(), None);
    assert!(q.drain_step(true));
    assert_eq!(q.completed(), 0);
    assert!(!q.drain_step(false));
    assert_eq!(q.completed(), 1);
    assert_eq!(q.phase(), WorkerPhase::Idle);
    assert_eq!(q.begin_next(), Some((1, 2)));
}

#[test]
fn a_begun_job_means_all_earlier_jobs_completed() {
    let mut q: EventQueue<u32> = EventQueue::new();
    for job in 0..5u32 {
        q.submit(job).unwrap();
    }
    for _ in 0..5 {
        let (ticket, _job) = q.begin_next().unwrap();
        assert_eq!(q.completed(), ticket);
        assert_eq!(q.started(), ticket + 1);
        q.job_returned();
        q.drain_step(true);
        assert_eq!(q.completed(), ticket);
        q.drain_step(false);
        assert_eq!(q.completed(), ticket + 1);
    }
}

#[test]
fn steps_out_of_turn_change_nothing() {
    let mut q: EventQueue<u8> = EventQueue::new();
    assert!(!q.job_returned());
    assert!(!q.drain_step(true));
    assert!(!q.drain_step(false));
    assert_eq!(q.phase(), WorkerPhase::Idle);
    assert_eq!(q.completed(), 0);
    q.submit(1).unwrap();
    q.begin_next().unwrap();
    assert!(!q.drain_step(false));
    assert_eq!(q.phase(), WorkerPhase::Executing);
    assert_eq!(q.completed(), 0);
}

#[test]
fn fault_hands_back_waiting_jobs_in_order() {
    let mut q: EventQueue<&str> = EventQueue::new();
    q.submit("run").unwrap();
    q.submit("wait1").unwrap();
    q.submit("wait2").unwrap();
    q.begin_next().unwrap();
    let abandoned = q.fault();
    assert_eq!(abandoned.into_iter().collect::<Vec<&str>>(), vec!["wait1", "wait2"]);
    assert_eq!(q.phase(), WorkerPhase::Dead);
    assert_eq!(q.len(), 0);
    assert_eq!(q.started(), 1);
    assert_eq!(q.completed(), 0);
    assert_eq!(q.submitted(), 3);
}

#[test]
fn dead_worker_accepts_nothing() {
    let mut q: EventQueue<u8> = EventQueue::new();
    q.fault();
    assert_eq!(q.submit(1), Err(EsError::WorkerPanicked));
    assert_eq!(q.submitted(), 0);
    assert_eq!(q.begin_next(), None);
    assert!(!q.job_returned());
    assert!(!q.drain_step(false));
}

#[test]
fn runtime_hands_out_token_with_the_job() {
    let mut rt: EsRuntime<&str> = EsRuntimeBuilder::new().build();
    assert_eq!(rt.submit("a"), Ok(0));
    assert_eq!(rt.submit("b"), Ok(1));
    let (token, job) = rt.begin_job().unwrap();
    assert_eq!(token.ticket(), 0);
    assert_eq!(job, "a");
    assert!(rt.begin_job().is_none());
    assert!(rt.job_returned(token));
    assert_eq!(rt.drain_step(true, 1), DrainStep::RunReaction);
    assert_eq!(rt.drain_step(false, 2), DrainStep::Complete { collect: false });
    let (token, job) = rt.begin_job().unwrap();
    assert_eq!(token.ticket(), 1);
    assert_eq!(job, "b");
}

#[test]
fn stale_token_changes_nothing() {
    let mut one: EsRuntime<u8> = EsRuntimeBuilder::new().build();
    let mut other: EsRuntime<u8> = EsRuntimeBuilder::new().build();
    one.submit(1).unwrap();
    one.submit(2).unwrap();
    other.submit(3).unwrap();
    let (first, _) = one.begin_job().unwrap();
    assert!(one.job_returned(first));
    one.drain_step(false, 0);
    let (_second, _) = one.begin_job().unwrap();
    let (foreign, _) = other.begin_job().unwrap();
    assert_eq!(foreign.ticket(), 0);
    assert!(!one.job_returned(foreign));
    assert_eq!(one.queue().phase(), WorkerPhase::Executing);
}

#[test]
fn drain_step_outside_a_drain() {
    let mut rt: EsRuntime<u8> = EsRuntimeBuilder::new().gc_threshold(0).build();
    assert_eq!(rt.drain_step(false, 10), DrainStep::NotDraining);
    assert_eq!(rt.collections_run(), 0);
}

#[test]
fn timeout_leaves_the_queue_healthy() {
    let mut rt: EsRuntime<&str> = EsRuntimeBuilder::new().build();
    assert_eq!(rt.submit("slow"), Ok(0));
    let (token, _job) = rt.begin_job().unwrap();
    let waited: Result<i32, EsError> = sync_result(WaitOutcome::TimedOut);
    assert_eq!(waited, Err(EsError::Timeout));
    assert!(!rt.is_dead());
    assert_eq!(rt.queue().phase(), WorkerPhase::Executing);
    assert_eq!(rt.submit("quick"), Ok(1));
    assert!(rt.begin_job().is_none());
    assert!(rt.job_returned(token));
    assert_eq!(rt.drain_step(false, 5), DrainStep::Complete { collect: false });
    let (token, job) = rt.begin_job().unwrap();
    assert_eq!(job, "quick");
    assert!(rt.job_returned(token));
    assert_eq!(rt.drain_step(false, 6), DrainStep::Complete { collect: false });
    let report = job_report(JobOutcome::Returned(5));
    assert_eq!(sync_result(WaitOutcome::Delivered(report)), Ok(5));
    assert_eq!(rt.queue().completed(), 2);
}

#[test]
fn job_reports() {
    assert_eq!(job_report(JobOutcome::Returned(7u8)), Ok(7));
    assert_eq!(job_report::<u8>(JobOutcome::Panicked), Err(EsError::JobPanicked));
    assert_eq!(job_report::<u8>(JobOutcome::EngineFault), Err(EsError::WorkerPanicked));
}

#[test]
fn sync_results() {
    assert_eq!(sync_result(WaitOutcome::Delivered(Ok(3u8))), Ok(3));
    assert_eq!(
        sync_result::<u8>(WaitOutcome::Delivered(Err(EsError::JobPanicked))),
        Err(EsError::JobPanicked)
    );
    assert_eq!(sync_result::<u8>(WaitOutcome::TimedOut), Err(EsError::Timeout));
    assert_eq!(sync_result::<u8>(WaitOutcome::Disconnected), Err(EsError::WorkerPanicked));
}

#[test]
fn panicked_job_does_not_stop_the_worker() {
    let mut rt: EsRuntime<u8> = EsRuntimeBuilder::new().build();
    rt.submit(1).unwrap();
    rt.submit(2).unwrap();
    let (token, _) = rt.begin_job().unwrap();
    assert_eq!(job_report::<u8>(JobOutcome::Panicked), Err(EsError::JobPanicked));
    assert!(rt.job_returned(token));
    assert_eq!(rt.drain_step(false, 0), DrainStep::Complete { collect: false });
    assert!(!rt.is_dead());
    assert!(rt.begin_job().is_some());
}

#[test]
fn engine_fault_is_terminal() {
    let mut rt: EsRuntime<u8> = EsRuntimeBuilder::new().build();
    rt.submit(1).unwrap();
    rt.submit(2).unwrap();
    rt.submit(3).unwrap();
    let (_token, _) = rt.begin_job().unwrap();
    let abandoned = rt.fault();
    assert_eq!(abandoned.into_iter().collect::<Vec<u8>>(), vec![2, 3]);
    assert!(rt.is_dead());
    assert_eq!(rt.submit(4), Err(EsError::WorkerPanicked));
    assert_eq!(rt.try_submit(5), Some(Err(EsError::WorkerPanicked)));
    assert!(rt.begin_job().is_none());
    assert!(EsError::WorkerPanicked.terminal());
}

#[test]
fn try_submit_accepts_like_submit() {
    let mut rt: EsRuntime<u8> = EsRuntimeBuilder::new().build();
    assert_eq!(rt.try_submit(1), Some(Ok(0)));
    assert_eq!(rt.try_submit(2), Some(Ok(1)));
    assert_eq!(rt.queue().len(), 2);
}
