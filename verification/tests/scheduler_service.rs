use prover_service::contexts::BatchContext;
use prover_service::pipeline::{Pipeline, PipelineError};
use prover_service::scheduler::{
    AddServiceResult, Event, Reply, Scheduler, ServiceStatus, TakeTaskResult,
};
use prover_service::scheduler_service::{
    add_service_event, drive, first_step, handle_gen_batch_proof_response,
    handle_get_proof_response, handle_get_status_response, handle_worker_message, next_step,
    on_add_service_result, on_take_task_result, take_task_event, task_result_event,
    BatchProverMessage, BatchProverRequest, CancelRequest, GenBatchProofRequest,
    GenBatchProofResponse, GetProofResponse, GetStatusResponse, SchedulerMessage,
    SchedulerResponse, SessionError, SessionOutcome, SessionStep,
};

fn s(text: &str) -> String {
    text.to_string()
}

fn task(task_id: &str, chunk_id: &str) -> SessionOutcome {
    SessionOutcome::Task(task_message(task_id, chunk_id))
}

fn no_task(service_id: &str) -> SessionOutcome {
    SessionOutcome::NoTask(s(service_id))
}

fn task_message(task_id: &str, chunk_id: &str) -> SchedulerMessage {
    SchedulerMessage {
        id: s("uid"),
        response: Some(SchedulerResponse::GenBatchProofRequest(GenBatchProofRequest {
            input: None,
            execute_task_id: s(task_id),
            chunk_id: s(chunk_id),
        })),
    }
}

#[test]
fn worker_messages_become_events() {
    assert_eq!(
        add_service_event(&GetStatusResponse { id: s("1"), prover_id: s("w") }),
        Event::AddService { service_id: s("w") }
    );
    assert_eq!(take_task_event(&s("w")), Event::TakeTask { service_id: s("w") });
    assert_eq!(
        task_result_event(&GetProofResponse { id: s("w"), recursive_proof: s("p") }),
        Event::TaskResult { service_id: s("w"), recursive_proof: s("p") }
    );
}

#[test]
fn replies_become_messages_or_signals() {
    assert_eq!(on_add_service_result(AddServiceResult::Success(s("w"))), Ok(s("w")));
    assert_eq!(
        on_add_service_result(AddServiceResult::Fail(s("w"))),
        Err(SessionError::AddServiceFailed(s("w")))
    );
    let ctx = BatchContext::new("/tmp", "task", "evm", "4", String::new(), 0);
    assert_eq!(on_take_task_result(TakeTaskResult::Success(ctx)), task("task", "4"));
    assert_eq!(on_take_task_result(TakeTaskResult::Fail(s("w"))), no_task("w"));
}

#[test]
fn status_response_registers_and_takes_a_task() {
    let mut sched = Scheduler::new();
    let mut p = Pipeline::new(s("/tmp"), s("evm"));
    p.submit_batch(s("task"), s("0")).unwrap();
    let res = handle_get_status_response(
        GetStatusResponse { id: s("1"), prover_id: s("w1") },
        &mut sched,
        &mut p,
    );
    assert_eq!(res, Ok(task("task", "0")));
    assert_eq!(
        sched.service_status(&s("w1")),
        Some(ServiceStatus::Busy(s("task_chunk_0")))
    );
}

#[test]
fn status_response_without_work_registers_and_keeps_the_session() {
    let mut sched = Scheduler::new();
    let mut p = Pipeline::new(s("/tmp"), s("evm"));
    let res = handle_get_status_response(
        GetStatusResponse { id: s("1"), prover_id: s("w1") },
        &mut sched,
        &mut p,
    );
    assert_eq!(res, Ok(no_task("w1")));
    assert_eq!(sched.service_status(&s("w1")), Some(ServiceStatus::Idle));
    assert_eq!(sched.service_count(), 1);

    // the worker asks again later and gets the task that came in between
    p.submit_batch(s("task"), s("0")).unwrap();
    assert_eq!(
        handle_gen_batch_proof_response(s("w1"), &mut sched, &mut p),
        task("task", "0")
    );
}

#[test]
fn announcing_again_is_answered_with_success() {
    let mut sched = Scheduler::new();
    let mut p = Pipeline::new(s("/tmp"), s("evm"));
    sched.add_service(s("w1"));
    sched.add_service(s("w2"));
    p.submit_batch(s("task"), s("0")).unwrap();
    handle_gen_batch_proof_response(s("w1"), &mut sched, &mut p);

    // a busy worker and an idle worker announce themselves again
    for (w, status) in [
        ("w1", ServiceStatus::Busy(s("task_chunk_0"))),
        ("w2", ServiceStatus::Idle),
    ] {
        let res = handle_get_status_response(
            GetStatusResponse { id: s("1"), prover_id: s(w) },
            &mut sched,
            &mut p,
        );
        assert_eq!(res, Ok(no_task(w)));
        assert_eq!(sched.service_count(), 2);
        assert_eq!(sched.service_status(&s(w)), Some(status));
    }
}

#[test]
fn status_response_with_empty_id_is_turned_down() {
    let mut sched = Scheduler::new();
    let mut p = Pipeline::new(s("/tmp"), s("evm"));
    p.submit_batch(s("task"), s("0")).unwrap();
    let res = handle_get_status_response(
        GetStatusResponse { id: s("1"), prover_id: s("") },
        &mut sched,
        &mut p,
    );
    assert_eq!(res, Err(SessionError::AddServiceFailed(s(""))));
    assert_eq!(sched.service_count(), 0);
    assert!(p.is_queued(&s("task_chunk_0")));
}

#[test]
fn batch_proof_response_takes_a_task() {
    let mut sched = Scheduler::new();
    let mut p = Pipeline::new(s("/tmp"), s("evm"));
    sched.add_service(s("w1"));
    // nothing to do yet: no error, the worker stays idle and registered
    assert_eq!(
        handle_gen_batch_proof_response(s("w1"), &mut sched, &mut p),
        no_task("w1")
    );
    assert_eq!(sched.service_status(&s("w1")), Some(ServiceStatus::Idle));
    assert_eq!(sched.service_count(), 1);
    p.submit_batch(s("task"), s("7")).unwrap();
    assert_eq!(
        handle_gen_batch_proof_response(s("w1"), &mut sched, &mut p),
        task("task", "7")
    );
    // a worker that is not registered gets nothing either
    p.submit_batch(s("task"), s("8")).unwrap();
    assert_eq!(
        handle_gen_batch_proof_response(s("stranger"), &mut sched, &mut p),
        no_task("stranger")
    );
    assert!(p.is_queued(&s("task_chunk_8")));
}

#[test]
fn proof_response_publishes_and_takes_the_next_task() {
    let mut sched = Scheduler::new();
    let mut p = Pipeline::new(s("/tmp"), s("evm"));
    sched.add_service(s("w1"));
    let k0 = p.submit_batch(s("task"), s("0")).unwrap();
    p.submit_batch(s("task"), s("1")).unwrap();
    assert_eq!(
        handle_gen_batch_proof_response(s("w1"), &mut sched, &mut p),
        task("task", "0")
    );

    let res = handle_get_proof_response(
        GetProofResponse { id: s("w1"), recursive_proof: s("proof0") },
        &mut sched,
        &mut p,
    );
    assert_eq!(res, task("task", "1"));
    assert_eq!(p.get_proof(k0, 0), Ok(s("proof0")));
    assert_eq!(
        sched.service_status(&s("w1")),
        Some(ServiceStatus::Busy(s("task_chunk_1")))
    );

    // the last proof leaves the worker idle, with nothing to do yet
    let res = handle_get_proof_response(
        GetProofResponse { id: s("w1"), recursive_proof: s("proof1") },
        &mut sched,
        &mut p,
    );
    assert_eq!(res, no_task("w1"));
    assert_eq!(p.get_proof(s("task_chunk_1"), 0), Ok(s("proof1")));
    assert_eq!(sched.service_status(&s("w1")), Some(ServiceStatus::Idle));
}

#[test]
fn worker_message_dispatch() {
    let mut sched = Scheduler::new();
    let mut p = Pipeline::new(s("/tmp"), s("evm"));
    p.submit_batch(s("task"), s("0")).unwrap();
    p.submit_batch(s("task"), s("1")).unwrap();

    let empty = BatchProverMessage { id: s("0"), request: None };
    assert_eq!(
        handle_worker_message(empty, &mut sched, &mut p),
        Ok(SessionOutcome::Nothing)
    );

    let hello = BatchProverMessage {
        id: s("1"),
        request: Some(BatchProverRequest::GetStatusResponse(GetStatusResponse {
            id: s("1"),
            prover_id: s("w"),
        })),
    };
    assert_eq!(
        handle_worker_message(hello, &mut sched, &mut p),
        Ok(task("task", "0"))
    );

    let again = BatchProverMessage {
        id: s("2"),
        request: Some(BatchProverRequest::GenBatchProofResponse(GenBatchProofResponse {
            id: s("w"),
        })),
    };
    assert_eq!(
        handle_worker_message(again, &mut sched, &mut p),
        Ok(no_task("w"))
    );

    let proof = BatchProverMessage {
        id: s("3"),
        request: Some(BatchProverRequest::GetProofResponse(GetProofResponse {
            id: s("w"),
            recursive_proof: s("pp"),
        })),
    };
    assert_eq!(
        handle_worker_message(proof, &mut sched, &mut p),
        Ok(task("task", "1"))
    );
    assert_eq!(p.get_proof(s("task_chunk_0"), 0), Ok(s("pp")));
    assert_eq!(p.get_proof(s("task_chunk_1"), 0), Err(PipelineError::NotReady));
}

#[test]
fn cancel_request_fails_loudly() {
    let mut sched = Scheduler::new();
    let mut p = Pipeline::new(s("/tmp"), s("evm"));
    sched.add_service(s("w"));
    p.submit_batch(s("task"), s("0")).unwrap();
    let cancel = BatchProverMessage {
        id: s("9"),
        request: Some(BatchProverRequest::CancelRequest(CancelRequest {})),
    };
    assert_eq!(
        handle_worker_message(cancel, &mut sched, &mut p),
        Err(SessionError::Unimplemented)
    );
    assert_eq!(sched.service_status(&s("w")), Some(ServiceStatus::Idle));
    assert!(p.is_queued(&s("task_chunk_0")));
}

#[test]
fn first_steps_of_a_session() {
    assert_eq!(
        first_step(BatchProverMessage { id: s("0"), request: None }),
        SessionStep::Skip
    );
    assert_eq!(
        first_step(BatchProverMessage {
            id: s("1"),
            request: Some(BatchProverRequest::CancelRequest(CancelRequest {})),
        }),
        SessionStep::Close(SessionError::Unimplemented)
    );
    assert_eq!(
        first_step(BatchProverMessage {
            id: s("2"),
            request: Some(BatchProverRequest::GetStatusResponse(GetStatusResponse {
                id: s("2"),
                prover_id: s("w"),
            })),
        }),
        SessionStep::Ask(Event::AddService { service_id: s("w") })
    );
    assert_eq!(
        first_step(BatchProverMessage {
            id: s("3"),
            request: Some(BatchProverRequest::GenBatchProofResponse(GenBatchProofResponse {
                id: s("w"),
            })),
        }),
        SessionStep::Ask(Event::TakeTask { service_id: s("w") })
    );
    assert_eq!(
        first_step(BatchProverMessage {
            id: s("4"),
            request: Some(BatchProverRequest::GetProofResponse(GetProofResponse {
                id: s("w"),
                recursive_proof: s("p"),
            })),
        }),
        SessionStep::Tell(Event::TaskResult { service_id: s("w"), recursive_proof: s("p") })
    );
}

#[test]
fn next_steps_of_a_session() {
    let add = Event::AddService { service_id: s("w") };
    let take = Event::TakeTask { service_id: s("w") };
    let result = Event::TaskResult { service_id: s("w"), recursive_proof: s("p") };

    assert_eq!(
        next_step(&add, Reply::AddService(AddServiceResult::Success(s("w")))),
        SessionStep::Ask(Event::TakeTask { service_id: s("w") })
    );
    assert_eq!(
        next_step(&add, Reply::AddService(AddServiceResult::Fail(s("w")))),
        SessionStep::Close(SessionError::AddServiceFailed(s("w")))
    );
    let ctx = BatchContext::new("/tmp", "task", "evm", "4", String::new(), 0);
    assert_eq!(
        next_step(&take, Reply::TakeTask(TakeTaskResult::Success(ctx))),
        SessionStep::Respond(task_message("task", "4"))
    );
    assert_eq!(
        next_step(&take, Reply::TakeTask(TakeTaskResult::Fail(s("w")))),
        SessionStep::NoTask(s("w"))
    );
    assert_eq!(
        next_step(&result, Reply::Nothing),
        SessionStep::Ask(Event::TakeTask { service_id: s("w") })
    );
    // an answer that does not fit the event ends the session
    assert_eq!(
        next_step(&add, Reply::Nothing),
        SessionStep::Close(SessionError::UnexpectedReply)
    );
    assert_eq!(
        next_step(&take, Reply::AddService(AddServiceResult::Success(s("w")))),
        SessionStep::Close(SessionError::UnexpectedReply)
    );
    assert_eq!(
        next_step(&Event::Shutdown, Reply::Nothing),
        SessionStep::Close(SessionError::UnexpectedReply)
    );
}

#[test]
fn driving_a_session_step_by_step() {
    let mut sched = Scheduler::new();
    let mut p = Pipeline::new(s("/tmp"), s("evm"));
    p.submit_batch(s("task"), s("0")).unwrap();

    let step = SessionStep::Ask(Event::AddService { service_id: s("w") });
    let step = drive(step, &mut sched, &mut p);
    assert_eq!(step, SessionStep::Ask(Event::TakeTask { service_id: s("w") }));
    assert_eq!(sched.service_status(&s("w")), Some(ServiceStatus::Idle));

    let step = drive(step, &mut sched, &mut p);
    assert_eq!(step, SessionStep::Respond(task_message("task", "0")));

    // a step that sends nothing stays as it is
    let step = drive(step, &mut sched, &mut p);
    assert_eq!(step, SessionStep::Respond(task_message("task", "0")));
    assert_eq!(drive(SessionStep::Skip, &mut sched, &mut p), SessionStep::Skip);

    let step = drive(
        SessionStep::Tell(Event::TaskResult { service_id: s("w"), recursive_proof: s("pp") }),
        &mut sched,
        &mut p,
    );
    assert_eq!(step, SessionStep::Ask(Event::TakeTask { service_id: s("w") }));
    assert_eq!(p.get_proof(s("task_chunk_0"), 0), Ok(s("pp")));

    assert_eq!(
        drive(SessionStep::Ask(Event::Shutdown), &mut sched, &mut p),
        SessionStep::Close(SessionError::Unimplemented)
    );
}

#[test]
fn a_step_without_a_task_sends_nothing_and_stays() {
    let mut sched = Scheduler::new();
    let mut p = Pipeline::new(s("/tmp"), s("evm"));
    sched.add_service(s("w"));
    let step = drive(
        SessionStep::Ask(Event::TakeTask { service_id: s("w") }),
        &mut sched,
        &mut p,
    );
    assert_eq!(step, SessionStep::NoTask(s("w")));
    assert_eq!(drive(step, &mut sched, &mut p), SessionStep::NoTask(s("w")));
    assert_eq!(sched.service_status(&s("w")), Some(ServiceStatus::Idle));
}

#[test]
fn session_error_messages() {
    assert_eq!(
        SessionError::AddServiceFailed(s("w7")).message(),
        "Failed to add service: w7"
    );
    assert_eq!(
        SessionError::AddServiceFailed(s("")).message(),
        "Failed to add service: "
    );
    assert_eq!(SessionError::Unimplemented.message(), "The request is not implemented");
    assert_eq!(
        SessionError::UnexpectedReply.message(),
        "The scheduler's answer does not fit the event"
    );
}
