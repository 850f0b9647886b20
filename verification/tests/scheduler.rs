use prover_service::pipeline::{Pipeline, PipelineError};
use prover_service::scheduler::{
    AddServiceResult, Event, Reply, Scheduler, SchedulerError, ServiceRegistry, ServiceStatus,
    TakeTaskResult,
};

fn s(text: &str) -> String {
    text.to_string()
}

fn pipeline() -> Pipeline {
    Pipeline::new(s("/tmp"), s("evm"))
}

#[test]
fn registry_sets_and_reads_status() {
    let mut r = ServiceRegistry::new();
    assert_eq!(r.len(), 0);
    assert_eq!(r.status(&s("w")), None);
    r.set(s("w"), ServiceStatus::Idle);
    assert!(r.contains(&s("w")));
    assert_eq!(r.status(&s("w")), Some(ServiceStatus::Idle));
    r.set(s("w"), ServiceStatus::Busy(s("k")));
    assert_eq!(r.status(&s("w")), Some(ServiceStatus::Busy(s("k"))));
    assert_eq!(r.len(), 1);
}

#[test]
fn add_service_registers_an_idle_worker() {
    let mut sched = Scheduler::new();
    assert_eq!(sched.service_count(), 0);
    assert_eq!(sched.add_service(s("w1")), AddServiceResult::Success(s("w1")));
    assert_eq!(sched.service_count(), 1);
    assert_eq!(sched.service_status(&s("w1")), Some(ServiceStatus::Idle));
}

#[test]
fn add_service_twice_is_a_no_op() {
    let mut sched = Scheduler::new();
    let mut p = pipeline();
    sched.add_service(s("w1"));
    sched.add_service(s("w2"));
    assert_eq!(sched.service_count(), 2);

    assert_eq!(sched.add_service(s("w1")), AddServiceResult::Success(s("w1")));
    assert_eq!(sched.service_count(), 2);
    assert_eq!(sched.service_status(&s("w1")), Some(ServiceStatus::Idle));

    // a busy worker that announces itself again stays busy
    p.submit_batch(s("t"), s("0")).unwrap();
    assert!(matches!(
        sched.take_task(&mut p, s("w1")),
        TakeTaskResult::Success(_)
    ));
    let reply = sched.handle_event(&mut p, Event::AddService { service_id: s("w1") });
    assert_eq!(
        reply,
        Ok(Reply::AddService(AddServiceResult::Success(s("w1"))))
    );
    assert_eq!(sched.service_count(), 2);
    assert_eq!(
        sched.service_status(&s("w1")),
        Some(ServiceStatus::Busy(s("t_chunk_0")))
    );
}

#[test]
fn add_service_rejects_an_empty_id() {
    let mut sched = Scheduler::new();
    assert_eq!(sched.add_service(s("")), AddServiceResult::Fail(s("")));
    assert_eq!(sched.service_count(), 0);
}

#[test]
fn take_task_without_work_fails_with_the_worker_id() {
    let mut sched = Scheduler::new();
    let mut p = pipeline();
    sched.add_service(s("w1"));
    assert_eq!(sched.take_task(&mut p, s("w1")), TakeTaskResult::Fail(s("w1")));
    assert_eq!(sched.service_status(&s("w1")), Some(ServiceStatus::Idle));
}

#[test]
fn take_task_of_an_unknown_worker_fails() {
    let mut sched = Scheduler::new();
    let mut p = pipeline();
    p.submit_batch(s("t"), s("0")).unwrap();
    assert_eq!(
        sched.take_task(&mut p, s("stranger")),
        TakeTaskResult::Fail(s("stranger"))
    );
    assert!(p.is_queued(&s("t_chunk_0")));
    assert_eq!(sched.service_count(), 0);
}

#[test]
fn take_task_hands_out_the_context_and_marks_busy() {
    let mut sched = Scheduler::new();
    let mut p = pipeline();
    sched.add_service(s("w1"));
    p.submit_batch(s("t"), s("5")).unwrap();
    match sched.take_task(&mut p, s("w1")) {
        TakeTaskResult::Success(ctx) => {
            assert_eq!(ctx.task_id, "t");
            assert_eq!(ctx.chunk_id, "5");
            assert_eq!(ctx.basedir, "/tmp");
            assert_eq!(ctx.task_name, "evm");
        }
        TakeTaskResult::Fail(id) => panic!("no task for {}", id),
    }
    assert_eq!(
        sched.service_status(&s("w1")),
        Some(ServiceStatus::Busy(s("t_chunk_5")))
    );
    assert!(!p.is_queued(&s("t_chunk_5")));
}

#[test]
fn one_task_goes_to_exactly_one_of_two_workers() {
    for order in [["w1", "w2"], ["w2", "w1"]] {
        let mut sched = Scheduler::new();
        let mut p = pipeline();
        sched.add_service(s("w1"));
        sched.add_service(s("w2"));
        p.submit_batch(s("t"), s("0")).unwrap();

        let first = sched.take_task(&mut p, s(order[0]));
        let second = sched.take_task(&mut p, s(order[1]));
        assert!(matches!(first, TakeTaskResult::Success(_)));
        assert_eq!(second, TakeTaskResult::Fail(s(order[1])));
        assert_eq!(
            sched.service_status(&s(order[0])),
            Some(ServiceStatus::Busy(s("t_chunk_0")))
        );
        assert_eq!(sched.service_status(&s(order[1])), Some(ServiceStatus::Idle));
    }
}

#[test]
fn a_busy_worker_gets_no_second_task() {
    let mut sched = Scheduler::new();
    let mut p = pipeline();
    sched.add_service(s("w1"));
    p.submit_batch(s("t"), s("0")).unwrap();
    p.submit_batch(s("t"), s("1")).unwrap();

    assert!(matches!(
        sched.take_task(&mut p, s("w1")),
        TakeTaskResult::Success(_)
    ));
    assert_eq!(sched.take_task(&mut p, s("w1")), TakeTaskResult::Fail(s("w1")));
    assert!(p.is_queued(&s("t_chunk_1")));
    assert_eq!(
        sched.service_status(&s("w1")),
        Some(ServiceStatus::Busy(s("t_chunk_0")))
    );

    // after its result it is idle and gets the next task
    assert!(sched.task_result(&mut p, s("w1"), s("proof0")));
    assert_eq!(sched.service_status(&s("w1")), Some(ServiceStatus::Idle));
    match sched.take_task(&mut p, s("w1")) {
        TakeTaskResult::Success(ctx) => assert_eq!(ctx.chunk_id, "1"),
        TakeTaskResult::Fail(id) => panic!("no task for {}", id),
    }
}

#[test]
fn task_result_publishes_the_proof() {
    let mut sched = Scheduler::new();
    let mut p = pipeline();
    sched.add_service(s("w1"));
    let key = p.submit_batch(s("t"), s("0")).unwrap();
    sched.take_task(&mut p, s("w1"));
    assert_eq!(p.get_proof(key.clone(), 0), Err(PipelineError::NotReady));

    let reply = sched.handle_event(
        &mut p,
        Event::TaskResult {
            service_id: s("w1"),
            recursive_proof: s("the proof"),
        },
    );
    assert_eq!(reply, Ok(Reply::Nothing));
    assert_eq!(p.get_proof(key, 0), Ok(s("the proof")));
    assert_eq!(sched.service_status(&s("w1")), Some(ServiceStatus::Idle));
}

#[test]
fn task_result_of_an_idle_or_unknown_worker_changes_nothing() {
    let mut sched = Scheduler::new();
    let mut p = pipeline();
    sched.add_service(s("w1"));
    let key = p.submit_batch(s("t"), s("0")).unwrap();
    assert!(!sched.task_result(&mut p, s("w1"), s("x")));
    assert!(!sched.task_result(&mut p, s("nobody"), s("x")));
    assert_eq!(p.get_proof(key.clone(), 0), Err(PipelineError::NotReady));
    assert!(p.is_queued(&key));
    assert_eq!(sched.service_count(), 1);
}

#[test]
fn handle_event_dispatches_each_kind() {
    let mut sched = Scheduler::new();
    let mut p = pipeline();
    assert_eq!(
        sched.handle_event(&mut p, Event::AddService { service_id: s("w") }),
        Ok(Reply::AddService(AddServiceResult::Success(s("w"))))
    );
    assert_eq!(
        sched.handle_event(&mut p, Event::TakeTask { service_id: s("w") }),
        Ok(Reply::TakeTask(TakeTaskResult::Fail(s("w"))))
    );
    p.submit_batch(s("t"), s("0")).unwrap();
    let reply = sched.handle_event(&mut p, Event::TakeTask { service_id: s("w") });
    assert!(matches!(
        reply,
        Ok(Reply::TakeTask(TakeTaskResult::Success(_)))
    ));
}

#[test]
fn shutdown_fails_loudly_and_changes_nothing() {
    let mut sched = Scheduler::new();
    let mut p = pipeline();
    sched.add_service(s("w"));
    p.submit_batch(s("t"), s("0")).unwrap();
    assert_eq!(
        sched.handle_event(&mut p, Event::Shutdown),
        Err(SchedulerError::Unimplemented)
    );
    assert_eq!(sched.service_count(), 1);
    assert_eq!(sched.service_status(&s("w")), Some(ServiceStatus::Idle));
    assert!(p.is_queued(&s("t_chunk_0")));
}

#[test]
fn event_clone_is_equal() {
    let e = Event::TaskResult {
        service_id: s("w"),
        recursive_proof: s("p"),
    };
    assert_eq!(e.clone(), e);
    assert_eq!(ServiceStatus::Busy(s("k")).clone(), ServiceStatus::Busy(s("k")));
}
