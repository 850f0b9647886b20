use prover_service::messages::{
    Batch, BatchProofResult, ChunkProof, GenAggregatedProofRequest, GenAggregatedProofResponse,
    GenBatchProofRequest, GenBatchProofResponse, GenFinalProofRequest, GenFinalProofResponse,
    GetStatusRequest, GetStatusResponse, GetStatusResultCode, ProofResultCode, ProverRequest,
    ProverResponse, ProverState, ProverStatus, RequestKind, RequestType, ResponseType,
};
use prover_service::pipeline::{Pipeline, PipelineError, PipelineStatus};
use prover_service::polling::{aggregated_proof_timing, PollTiming, Poller};
use prover_service::prover_service::{
    error_response, failure_response, request_kind, status_response, untyped_request_response,
    PollOutcome, ProverRequestHandler, RequestError,
};
use prover_service::scheduler::{Event, Reply, Scheduler, TakeTaskResult};
use prover_service::stage::StageKind;

fn s(text: &str) -> String {
    text.to_string()
}

/// Puts the proof of one chunk into the pipeline and brings it to done.
fn done_chunk(p: &mut Pipeline, task: &str, chunk: &str) -> String {
    let key = p.submit_batch(s(task), s(chunk)).unwrap();
    assert_eq!(p.take_task(StageKind::Batch).unwrap().key, key);
    assert!(p.complete(&key, format!("proof of {}", key)));
    key
}

/// A pipeline that holds two chunk proofs that are done, and a request to
/// aggregate them.
fn two_proofs() -> (Pipeline, GenAggregatedProofRequest) {
    let mut p = Pipeline::new(s("/tmp"), s("evm"));
    let p1 = done_chunk(&mut p, "p", "1");
    let p2 = done_chunk(&mut p, "p", "2");
    let request = GenAggregatedProofRequest {
        recursive_proof_1: p1,
        recursive_proof_2: p2,
    };
    (p, request)
}

/// A pipeline that holds an aggregated proof that is done, and a request
/// for its final proof.
fn aggregated_proof() -> (Pipeline, GenFinalProofRequest) {
    let (mut p, request) = two_proofs();
    let agg = p
        .submit_aggregate(request.recursive_proof_1, request.recursive_proof_2)
        .unwrap();
    assert_eq!(p.take_task(StageKind::Aggregate).unwrap().key, agg);
    assert!(p.complete(&agg, s("aggregated")));
    let request = GenFinalProofRequest {
        recursive_proof: agg,
        curve_name: s("BN128"),
        aggregator_addr: s("0xfeed"),
    };
    (p, request)
}

fn batch_request(blocks: Vec<u64>) -> GenBatchProofRequest {
    GenBatchProofRequest {
        batch: Some(Batch { block_number: blocks }),
    }
}

#[test]
fn result_codes() {
    assert_eq!(GetStatusResultCode::Unspecified.code(), 0);
    assert_eq!(GetStatusResultCode::Success.code(), 1);
    assert_eq!(GetStatusResultCode::Fail.code(), 2);
    assert_eq!(ProofResultCode::Unspecified.code(), 0);
    assert_eq!(ProofResultCode::CompletedOk.code(), 1);
    assert_eq!(ProofResultCode::Error.code(), 2);
    assert_eq!(ProofResultCode::CompletedError.code(), 3);
    assert_eq!(ProofResultCode::InternalError.code(), 4);
    assert_eq!(ProverState::Unspecified.code(), 0);
    assert_eq!(ProverState::Booting.code(), 1);
    assert_eq!(ProverState::Computing.code(), 2);
    assert_eq!(ProverState::Idle.code(), 3);
    assert_eq!(ProverState::Halt.code(), 4);
}

#[test]
fn error_messages() {
    assert_eq!(RequestError::BatchEmpty.message(), "Batch is empty");
    assert_eq!(RequestError::BlockListEmpty.message(), "Block List is empty");
    assert_eq!(
        RequestError::Rejected(RequestKind::GenBatchProof, PipelineError::QueueFull).message(),
        "Failed to generate batch proof: QueueFull"
    );
    assert_eq!(
        RequestError::Rejected(RequestKind::GenAggregatedProof, PipelineError::InvalidTask)
            .message(),
        "Failed to generate aggregated proof: InvalidTask"
    );
    assert_eq!(
        RequestError::Rejected(RequestKind::GenFinalProof, PipelineError::NotReady).message(),
        "Failed to generate final proof: NotReady"
    );
    assert_eq!(
        RequestError::Timeout(RequestKind::GenBatchProof).message(),
        "generate batch proof timeout"
    );
    assert_eq!(
        RequestError::Timeout(RequestKind::GenAggregatedProof).message(),
        "generate aggregated proof timeout"
    );
    assert_eq!(
        RequestError::Timeout(RequestKind::GenFinalProof).message(),
        "generate final proof timeout"
    );
    assert_eq!(
        RequestError::Timeout(RequestKind::GetStatus).message(),
        "generate status proof timeout"
    );
}

#[test]
fn request_kinds() {
    let none = ProverRequest { id: s("1"), request_type: None };
    assert_eq!(request_kind(&none), None);
    let status = ProverRequest {
        id: s("2"),
        request_type: Some(RequestType::GetStatus(GetStatusRequest {})),
    };
    assert_eq!(request_kind(&status), Some(RequestKind::GetStatus));
    let batch = ProverRequest {
        id: s("3"),
        request_type: Some(RequestType::GenBatchProof(batch_request(vec![1]))),
    };
    assert_eq!(request_kind(&batch), Some(RequestKind::GenBatchProof));
    let agg = ProverRequest {
        id: s("4"),
        request_type: Some(RequestType::GenAggregatedProof(GenAggregatedProofRequest {
            recursive_proof_1: s("a"),
            recursive_proof_2: s("b"),
        })),
    };
    assert_eq!(request_kind(&agg), Some(RequestKind::GenAggregatedProof));
    let fin = ProverRequest {
        id: s("5"),
        request_type: Some(RequestType::GenFinalProof(GenFinalProofRequest {
            recursive_proof: s("a"),
            curve_name: s("BN128"),
            aggregator_addr: s("0x1"),
        })),
    };
    assert_eq!(request_kind(&fin), Some(RequestKind::GenFinalProof));
}

#[test]
fn failure_responses_carry_code_and_message() {
    assert_eq!(
        failure_response(s("r1"), RequestKind::GetStatus, s("boom")),
        ProverResponse {
            id: s("r1"),
            response_type: Some(ResponseType::GetStatus(GetStatusResponse {
                id: s(""),
                result_code: GetStatusResultCode::Fail,
                status: ProverState::Idle,
                prover_status: None,
                error_message: s("boom"),
            })),
        }
    );
    assert_eq!(
        failure_response(s("r2"), RequestKind::GenBatchProof, s("boom")),
        ProverResponse {
            id: s("r2"),
            response_type: Some(ResponseType::GenBatchProof(GenBatchProofResponse {
                id: s(""),
                result_code: ProofResultCode::CompletedError,
                batch_proof_result: None,
                error_message: s("boom"),
            })),
        }
    );
    assert_eq!(
        failure_response(s("r3"), RequestKind::GenAggregatedProof, s("boom")),
        ProverResponse {
            id: s("r3"),
            response_type: Some(ResponseType::GenAggregatedProof(
                GenAggregatedProofResponse {
                    id: s(""),
                    result_code: ProofResultCode::CompletedError,
                    result_string: s(""),
                    error_message: s("boom"),
                }
            )),
        }
    );
    assert_eq!(
        failure_response(s("r4"), RequestKind::GenFinalProof, s("boom")),
        ProverResponse {
            id: s("r4"),
            response_type: Some(ResponseType::GenFinalProof(GenFinalProofResponse {
                id: s(""),
                result_code: ProofResultCode::CompletedError,
                result_string: s(""),
                final_proof: None,
                error_message: s("boom"),
            })),
        }
    );
}

#[test]
fn error_response_never_leaves_code_and_message_empty() {
    let resp = error_response(
        s("r"),
        RequestKind::GenBatchProof,
        RequestError::Timeout(RequestKind::GenBatchProof),
    );
    match resp.response_type {
        Some(ResponseType::GenBatchProof(r)) => {
            assert_ne!(r.result_code.code(), 0);
            assert_eq!(r.error_message, "generate batch proof timeout");
        }
        other => panic!("unexpected response {:?}", other),
    }
}

#[test]
fn status_request_reports_idle_whenever_the_status_is_read() {
    let handler = ProverRequestHandler::new();
    let mut p = Pipeline::new(s("/tmp"), s("evm"));
    let expected = |id: &str, status: ProverState| ProverResponse {
        id: s(id),
        response_type: Some(ResponseType::GetStatus(GetStatusResponse {
            id: s(""),
            result_code: GetStatusResultCode::Success,
            status,
            prover_status: Some(ProverStatus {
                last_computed_request_id: s(""),
                last_computed_end_time: 0,
                current_computing_request_id: s(""),
                current_computing_start_time: 0,
                version_proto: s(""),
                version_server: s(""),
                pending_request_queue_ids: vec![],
                prover_name: s(""),
                prover_id: s(""),
                number_of_cores: 0,
                total_memory: 0,
                free_memory: 0,
                fork_id: 0,
            }),
            error_message: s(""),
        })),
    };
    let idle = handler.handle_get_status_request(&p, s("m1"), GetStatusRequest {});
    assert_eq!(idle, expected("m1", ProverState::Idle));

    // tasks that wait do not change the answer, and the query changes nothing
    p.submit_batch(s("t"), s("0")).unwrap();
    assert_eq!(p.status(), PipelineStatus::Busy);
    let busy = handler.handle_get_status_request(&p, s("m2"), GetStatusRequest {});
    assert_eq!(busy, expected("m2", ProverState::Idle));
    assert_eq!(p.status(), PipelineStatus::Busy);
    assert_eq!(p.pending(StageKind::Batch), 1);
}

#[test]
fn status_response_tells_whether_the_status_could_be_read() {
    for read in [Ok(PipelineStatus::Idle), Ok(PipelineStatus::Busy)] {
        match status_response(s("m"), read).response_type {
            Some(ResponseType::GetStatus(r)) => {
                assert_eq!(r.status, ProverState::Idle);
                assert_eq!(r.result_code, GetStatusResultCode::Success);
                assert_eq!(r.error_message, "");
                assert!(r.prover_status.is_some());
            }
            other => panic!("unexpected response {:?}", other),
        }
    }
    for e in [PipelineError::QueueFull, PipelineError::InvalidTask, PipelineError::NotReady] {
        let resp = status_response(s("m"), Err(e));
        assert_eq!(resp.id, "m");
        match resp.response_type {
            Some(ResponseType::GetStatus(r)) => {
                assert_eq!(r.status, ProverState::Unspecified);
                assert_eq!(r.result_code, GetStatusResultCode::Success);
                assert_eq!(r.error_message, "");
                assert!(r.prover_status.is_some());
            }
            other => panic!("unexpected response {:?}", other),
        }
    }
}

#[test]
fn request_without_a_kind_is_answered_with_an_error() {
    assert_eq!(RequestError::RequestTypeEmpty.message(), "Request type is empty");
    assert_eq!(
        untyped_request_response(s("r9")),
        ProverResponse {
            id: s("r9"),
            response_type: Some(ResponseType::GetStatus(GetStatusResponse {
                id: s(""),
                result_code: GetStatusResultCode::Fail,
                status: ProverState::Idle,
                prover_status: None,
                error_message: s("Request type is empty"),
            })),
        }
    );
}

#[test]
fn batch_request_needs_a_batch_and_a_block() {
    let handler = ProverRequestHandler::new();
    assert_eq!(
        handler.check_gen_batch_proof_request(&GenBatchProofRequest { batch: None }),
        Err(RequestError::BatchEmpty)
    );
    assert_eq!(
        handler.check_gen_batch_proof_request(&batch_request(vec![])),
        Err(RequestError::BlockListEmpty)
    );
    assert_eq!(
        handler.check_gen_batch_proof_request(&batch_request(vec![100])),
        Ok(100)
    );
    // only the first listed block is used
    assert_eq!(
        handler.check_gen_batch_proof_request(&batch_request(vec![7, 8, 9])),
        Ok(7)
    );
    assert_eq!(
        handler.begin_gen_batch_proof(&GenBatchProofRequest { batch: None }),
        Err(RequestError::BatchEmpty)
    );
    assert_eq!(
        handler.begin_gen_batch_proof(&batch_request(vec![])),
        Err(RequestError::BlockListEmpty)
    );
}

#[test]
fn batch_job_gets_a_fresh_task_id() {
    let handler = ProverRequestHandler::new();
    let a = handler.begin_gen_batch_proof(&batch_request(vec![100])).unwrap();
    let b = handler.begin_gen_batch_proof(&batch_request(vec![100])).unwrap();
    assert_eq!(a.block_number, 100);
    assert_eq!(a.task_id.chars().count(), 36);
    assert_eq!(b.task_id.chars().count(), 36);
    assert_ne!(a.task_id, b.task_id);
    for (i, c) in a.task_id.chars().enumerate() {
        if i == 8 || i == 13 || i == 18 || i == 23 {
            assert_eq!(c, '-');
        } else {
            assert!(c.is_ascii_hexdigit() && !c.is_ascii_uppercase());
        }
    }
}

#[test]
fn batch_proof_of_three_chunks_completes_after_three_results() {
    let handler = ProverRequestHandler::new();
    let mut p = Pipeline::new(s("/tmp"), s("evm"));
    let mut sched = Scheduler::new();
    let request = batch_request(vec![100]);

    let job = handler.begin_gen_batch_proof(&request).unwrap();
    assert_eq!(job.block_number, 100);
    let task_id = job.task_id.clone();
    let mut poll = handler.submit_batch_chunks(&mut p, &task_id, 3).unwrap();

    // three keys, each not ready
    assert_eq!(poll.len(), 3);
    for i in 0..3usize {
        let key = format!("{}_chunk_{}", task_id, i);
        assert_eq!(poll.key(i), &key);
        assert_eq!(p.get_proof(key, 0), Err(PipelineError::NotReady));
    }

    let poller = Poller::start(PollTiming { interval_ms: 60000, timeout_ms: 3600000 }, 0);
    let msg_id = s("msg-1");
    assert_eq!(
        handler.poll_gen_batch_proof(&p, &msg_id, &task_id, &mut poll, &poller, 0),
        PollOutcome::Wait(60000)
    );

    // three workers take the chunks and report their proofs
    for w in ["w0", "w1", "w2"] {
        sched.add_service(s(w));
        assert!(matches!(
            sched.take_task(&mut p, s(w)),
            TakeTaskResult::Success(_)
        ));
    }
    for w in ["w1", "w0"] {
        let reply = sched.handle_event(
            &mut p,
            Event::TaskResult { service_id: s(w), recursive_proof: format!("proof of {}", w) },
        );
        assert_eq!(reply, Ok(Reply::Nothing));
    }
    assert_eq!(
        handler.poll_gen_batch_proof(&p, &msg_id, &task_id, &mut poll, &poller, 60000),
        PollOutcome::Wait(120000)
    );
    sched
        .handle_event(
            &mut p,
            Event::TaskResult { service_id: s("w2"), recursive_proof: s("proof of w2") },
        )
        .unwrap();

    let outcome = handler.poll_gen_batch_proof(&p, &msg_id, &task_id, &mut poll, &poller, 120000);
    let expected = ProverResponse {
        id: s("msg-1"),
        response_type: Some(ResponseType::GenBatchProof(GenBatchProofResponse {
            id: s(""),
            result_code: ProofResultCode::CompletedOk,
            batch_proof_result: Some(BatchProofResult {
                task_id: task_id.clone(),
                chunk_proofs: vec![
                    ChunkProof {
                        chunk_id: 0,
                        proof_key: format!("{}_chunk_0", task_id),
                        proof: s(""),
                    },
                    ChunkProof {
                        chunk_id: 1,
                        proof_key: format!("{}_chunk_1", task_id),
                        proof: s(""),
                    },
                    ChunkProof {
                        chunk_id: 2,
                        proof_key: format!("{}_chunk_2", task_id),
                        proof: s(""),
                    },
                ],
            }),
            error_message: s(""),
        })),
    };
    assert_eq!(outcome, PollOutcome::Done(expected));
    assert_eq!(p.get_proof(format!("{}_chunk_1", task_id), 0), Ok(s("proof of w1")));
}

#[test]
fn batch_proof_times_out_when_a_chunk_is_never_done() {
    let handler = ProverRequestHandler::new();
    let mut p = Pipeline::new(s("/tmp"), s("evm"));
    let task_id = s("task");
    let mut poll = handler.submit_batch_chunks(&mut p, &task_id, 2).unwrap();
    let poller = Poller::start(PollTiming { interval_ms: 10, timeout_ms: 50 }, 0);
    p.take_task(StageKind::Batch).unwrap();
    p.complete(&s("task_chunk_0"), s("p0"));

    let mut now = 0;
    loop {
        match handler.poll_gen_batch_proof(&p, &s("m"), &task_id, &mut poll, &poller, now) {
            PollOutcome::Wait(next) => now = next,
            PollOutcome::Failed(e) => {
                assert_eq!(e, RequestError::Timeout(RequestKind::GenBatchProof));
                break;
            }
            PollOutcome::Done(r) => panic!("unexpected answer {:?}", r),
        }
    }
    assert_eq!(now, 50);
    assert!(poll.is_done(0));
    assert!(!poll.is_done(1));
}

#[test]
fn batch_chunks_stop_at_the_first_refusal() {
    let handler = ProverRequestHandler::new();
    let mut p = Pipeline::with_limits(s("/tmp"), s("evm"), 2, 0);
    let res = handler.submit_batch_chunks(&mut p, &s("task"), 3);
    assert_eq!(
        res.err(),
        Some(RequestError::Rejected(RequestKind::GenBatchProof, PipelineError::QueueFull))
    );
    // the chunks accepted before the refusal stay queued
    assert_eq!(p.pending(StageKind::Batch), 2);
    assert!(p.is_queued(&s("task_chunk_0")));
    assert!(p.is_queued(&s("task_chunk_1")));

    let mut q = Pipeline::new(s("/tmp"), s("evm"));
    let res = handler.submit_batch_chunks(&mut q, &s(""), 3);
    assert_eq!(
        res.err(),
        Some(RequestError::Rejected(RequestKind::GenBatchProof, PipelineError::InvalidTask))
    );
    assert_eq!(q.pending(StageKind::Batch), 0);
}

#[test]
fn batch_of_no_chunks_is_answered_at_once() {
    let handler = ProverRequestHandler::new();
    let mut p = Pipeline::new(s("/tmp"), s("evm"));
    let mut poll = handler.submit_batch_chunks(&mut p, &s("task"), 0).unwrap();
    let poller = Poller::start(PollTiming { interval_ms: 10, timeout_ms: 50 }, 0);
    match handler.poll_gen_batch_proof(&p, &s("m"), &s("task"), &mut poll, &poller, 0) {
        PollOutcome::Done(resp) => match resp.response_type {
            Some(ResponseType::GenBatchProof(r)) => {
                assert_eq!(r.result_code, ProofResultCode::CompletedOk);
                assert_eq!(r.batch_proof_result.unwrap().chunk_proofs.len(), 0);
            }
            other => panic!("unexpected response {:?}", other),
        },
        other => panic!("unexpected outcome {:?}", other),
    }
}

#[test]
fn batch_chunks_beyond_nine_are_numbered_in_decimal() {
    let handler = ProverRequestHandler::new();
    let mut p = Pipeline::new(s("/tmp"), s("evm"));
    let poll = handler.submit_batch_chunks(&mut p, &s("t"), 12).unwrap();
    assert_eq!(poll.key(9), "t_chunk_9");
    assert_eq!(poll.key(10), "t_chunk_10");
    assert_eq!(poll.key(11), "t_chunk_11");
}

#[test]
fn aggregated_proof_without_any_result_times_out_after_thirty_minutes() {
    let handler = ProverRequestHandler::new();
    let (mut p, request) = two_proofs();
    let key = handler.begin_gen_aggregated_proof(&mut p, &request).unwrap();
    assert_eq!(key, "p_chunk_1_p_chunk_2_agg");

    let poller = Poller::start(aggregated_proof_timing(), 0);
    let mut now = 0;
    let mut looks = 0;
    let error = loop {
        match handler.poll_gen_aggregated_proof(&p, &s("m"), &key, &poller, now) {
            PollOutcome::Wait(next) => {
                assert!(next <= 30 * 60 * 1000);
                looks += 1;
                now = next;
            }
            PollOutcome::Failed(e) => break e,
            PollOutcome::Done(r) => panic!("unexpected answer {:?}", r),
        }
    };
    assert_eq!(now, 30 * 60 * 1000);
    assert_eq!(looks, 180);
    assert_eq!(error, RequestError::Timeout(RequestKind::GenAggregatedProof));

    let resp = error_response(s("m"), RequestKind::GenAggregatedProof, error);
    assert_eq!(
        resp,
        ProverResponse {
            id: s("m"),
            response_type: Some(ResponseType::GenAggregatedProof(
                GenAggregatedProofResponse {
                    id: s(""),
                    result_code: ProofResultCode::CompletedError,
                    result_string: s(""),
                    error_message: s("generate aggregated proof timeout"),
                }
            )),
        }
    );
}

#[test]
fn aggregated_proof_is_answered_with_the_artifact() {
    let handler = ProverRequestHandler::new();
    let (mut p, request) = two_proofs();
    let key = handler.begin_gen_aggregated_proof(&mut p, &request).unwrap();
    let poller = Poller::start(aggregated_proof_timing(), 0);
    assert_eq!(
        handler.poll_gen_aggregated_proof(&p, &s("m"), &key, &poller, 0),
        PollOutcome::Wait(10000)
    );
    p.take_task(StageKind::Aggregate).unwrap();
    assert!(p.complete(&key, s("aggregated artifact")));
    assert_eq!(
        handler.poll_gen_aggregated_proof(&p, &s("m"), &key, &poller, 10000),
        PollOutcome::Done(ProverResponse {
            id: s("m"),
            response_type: Some(ResponseType::GenAggregatedProof(
                GenAggregatedProofResponse {
                    id: s("p_chunk_1_p_chunk_2_agg"),
                    result_code: ProofResultCode::CompletedOk,
                    result_string: s("aggregated artifact"),
                    error_message: s(""),
                }
            )),
        })
    );
}

#[test]
fn aggregated_request_with_an_empty_proof_is_rejected() {
    let handler = ProverRequestHandler::new();
    let mut p = Pipeline::new(s("/tmp"), s("evm"));
    let request = GenAggregatedProofRequest {
        recursive_proof_1: s(""),
        recursive_proof_2: s("p2"),
    };
    let e = handler.begin_gen_aggregated_proof(&mut p, &request).unwrap_err();
    assert_eq!(
        e,
        RequestError::Rejected(RequestKind::GenAggregatedProof, PipelineError::InvalidTask)
    );
    assert_eq!(e.message(), "Failed to generate aggregated proof: InvalidTask");
    assert_eq!(p.pending(StageKind::Aggregate), 0);
}

#[test]
fn aggregated_request_over_proofs_that_are_not_done_is_rejected() {
    let handler = ProverRequestHandler::new();
    let mut p = Pipeline::new(s("/tmp"), s("evm"));
    let p1 = done_chunk(&mut p, "p", "1");
    let p2 = p.submit_batch(s("p"), s("2")).unwrap();
    for (a, b) in [(p1.clone(), p2.clone()), (p2, p1.clone()), (p1, s("unknown"))] {
        let request = GenAggregatedProofRequest { recursive_proof_1: a, recursive_proof_2: b };
        assert_eq!(
            handler.begin_gen_aggregated_proof(&mut p, &request),
            Err(RequestError::Rejected(
                RequestKind::GenAggregatedProof,
                PipelineError::InvalidTask
            ))
        );
    }
    assert_eq!(p.pending(StageKind::Aggregate), 0);
}

#[test]
fn final_proof_is_answered_without_proof_data() {
    let handler = ProverRequestHandler::new();
    let (mut p, request) = aggregated_proof();
    let key = handler.begin_gen_final_proof(&mut p, &request).unwrap();
    assert_eq!(key, "p_chunk_1_p_chunk_2_agg_final");
    let poller = Poller::start(PollTiming { interval_ms: 10, timeout_ms: 50 }, 0);
    assert_eq!(
        handler.poll_gen_final_proof(&p, &s("m"), &key, &poller, 0),
        PollOutcome::Wait(10)
    );
    p.take_task(StageKind::Final).unwrap();
    assert!(p.complete(&key, s("snark")));
    assert_eq!(
        handler.poll_gen_final_proof(&p, &s("m"), &key, &poller, 10),
        PollOutcome::Done(ProverResponse {
            id: s("m"),
            response_type: Some(ResponseType::GenFinalProof(GenFinalProofResponse {
                id: s("p_chunk_1_p_chunk_2_agg_final"),
                result_code: ProofResultCode::CompletedOk,
                result_string: s(""),
                final_proof: None,
                error_message: s(""),
            })),
        })
    );
}

#[test]
fn final_proof_times_out() {
    let handler = ProverRequestHandler::new();
    let (mut p, request) = aggregated_proof();
    let key = handler.begin_gen_final_proof(&mut p, &request).unwrap();
    let poller = Poller::start(PollTiming { interval_ms: 10, timeout_ms: 50 }, 0);
    assert_eq!(
        handler.poll_gen_final_proof(&p, &s("m"), &key, &poller, 49),
        PollOutcome::Wait(50)
    );
    assert_eq!(
        handler.poll_gen_final_proof(&p, &s("m"), &key, &poller, 50),
        PollOutcome::Failed(RequestError::Timeout(RequestKind::GenFinalProof))
    );
    let rejected = handler.begin_gen_final_proof(
        &mut p,
        &GenFinalProofRequest {
            recursive_proof: s(""),
            curve_name: s("BN128"),
            aggregator_addr: s("0xfeed"),
        },
    );
    assert_eq!(
        rejected,
        Err(RequestError::Rejected(RequestKind::GenFinalProof, PipelineError::InvalidTask))
    );
    let not_held = handler.begin_gen_final_proof(
        &mut p,
        &GenFinalProofRequest {
            recursive_proof: s("agg"),
            curve_name: s("BN128"),
            aggregator_addr: s("0xfeed"),
        },
    );
    assert_eq!(
        not_held,
        Err(RequestError::Rejected(RequestKind::GenFinalProof, PipelineError::InvalidTask))
    );
}
