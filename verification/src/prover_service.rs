//! The client-facing side of the service: what each request is checked for,
//! what it puts into the pipeline, and the single response that ends it.
//! Waiting is left to the caller, which wakes the handler when told to.

use crate::messages::{
    is_blank_prover_status, BatchProofResult, ChunkProof, GenAggregatedProofRequest,
    GenAggregatedProofResponse, GenBatchProofRequest, GenBatchProofResponse, GenFinalProofRequest,
    GenFinalProofResponse, GetStatusRequest, GetStatusResponse, GetStatusResultCode,
    ProofResultCode, ProverRequest, ProverResponse, ProverState, ProverStatus, RequestKind,
    ResponseType,
};
use crate::pipeline::{
    aggregate_task_id, lemma_batch_keys_unique, lemma_submit_keeps_inv, proof_key, Pipeline,
    PipelineError, PipelineStatus, PipelineView, StageTaskView,
};
use crate::polling::{poll_action, BatchPoll, PollAction, Poller};
use crate::proof_store::{pending_state, store_extends};
use crate::stage::{StageKind, StageView};
use crate::text::{
    decimal_digits, decimal_string, lemma_decimal_digits_injective, lemma_decimal_round_trip,
    lemma_same_prefix,
};
use vstd::prelude::*;
use vstd::string::*;

verus! {

/// Why a request failed.
#[derive(Clone, Copy, Debug, PartialEq, Eq, Structural)]
pub enum RequestError {
    /// A batch proof was asked for without a batch.
    BatchEmpty,
    /// A batch proof was asked for with a batch that lists no block.
    BlockListEmpty,
    /// The request says nothing of what it asks for.
    RequestTypeEmpty,
    /// The pipeline turned the request's task down.
    Rejected(RequestKind, PipelineError),
    /// The proofs were not done in time.
    Timeout(RequestKind),
}

/// The word for a kind of request in messages.
pub open spec fn kind_name(kind: RequestKind) -> Seq<char> {
    match kind {
        RequestKind::GetStatus => "status"@,
        RequestKind::GenBatchProof => "batch"@,
        RequestKind::GenAggregatedProof => "aggregated"@,
        RequestKind::GenFinalProof => "final"@,
    }
}

/// The message that tells a client why its request failed.
pub open spec fn error_text(e: RequestError) -> Seq<char> {
    match e {
        RequestError::BatchEmpty => "Batch is empty"@,
        RequestError::BlockListEmpty => "Block List is empty"@,
        RequestError::RequestTypeEmpty => "Request type is empty"@,
        RequestError::Rejected(kind, cause) => "Failed to generate "@ + kind_name(kind)
            + " proof: "@ + cause.spec_name(),
        RequestError::Timeout(kind) => "generate "@ + kind_name(kind) + " proof timeout"@,
    }
}

fn kind_word(kind: RequestKind) -> (s: &'static str)
    ensures
        s@ == kind_name(kind),
{
    match kind {
        RequestKind::GetStatus => "status",
        RequestKind::GenBatchProof => "batch",
        RequestKind::GenAggregatedProof => "aggregated",
        RequestKind::GenFinalProof => "final",
    }
}

impl RequestError {
    /// The message that tells a client why its request failed.
    pub fn message(&self) -> (s: String)
        ensures
            s@ == error_text(*self),
    {
        match self {
            RequestError::BatchEmpty => String::from_str("Batch is empty"),
            RequestError::BlockListEmpty => String::from_str("Block List is empty"),
            RequestError::RequestTypeEmpty => String::from_str("Request type is empty"),
            RequestError::Rejected(kind, cause) => String::from_str("Failed to generate ").concat(
                kind_word(*kind),
            ).concat(" proof: ").concat(cause.name()),
            RequestError::Timeout(kind) => String::from_str("generate ").concat(
                kind_word(*kind),
            ).concat(" proof timeout"),
        }
    }
}

/// No failure is without a cause: the message of every error has text.
pub proof fn lemma_error_text_not_empty(e: RequestError)
    ensures
        error_text(e).len() > 0,
{
    reveal_strlit("Batch is empty");
    reveal_strlit("Block List is empty");
    reveal_strlit("Request type is empty");
    reveal_strlit("Failed to generate ");
    reveal_strlit("generate ");
}

/// The response that ends a failed request of one kind: it carries the
/// request's id, the failure code of its kind, and the cause.
pub open spec fn is_failure_response(
    resp: ProverResponse,
    request_id: Seq<char>,
    kind: RequestKind,
    message: Seq<char>,
) -> bool {
    &&& resp.id@ == request_id
    &&& match kind {
        RequestKind::GetStatus => {
            &&& resp.response_type matches Some(ResponseType::GetStatus(r))
            &&& r.id@.len() == 0
            &&& r.result_code == GetStatusResultCode::Fail
            &&& r.status == ProverState::Idle
            &&& r.prover_status is None
            &&& r.error_message@ == message
        },
        RequestKind::GenBatchProof => {
            &&& resp.response_type matches Some(ResponseType::GenBatchProof(r))
            &&& r.id@.len() == 0
            &&& r.result_code == ProofResultCode::CompletedError
            &&& r.batch_proof_result is None
            &&& r.error_message@ == message
        },
        RequestKind::GenAggregatedProof => {
            &&& resp.response_type matches Some(ResponseType::GenAggregatedProof(r))
            &&& r.id@.len() == 0
            &&& r.result_code == ProofResultCode::CompletedError
            &&& r.result_string@.len() == 0
            &&& r.error_message@ == message
        },
        RequestKind::GenFinalProof => {
            &&& resp.response_type matches Some(ResponseType::GenFinalProof(r))
            &&& r.id@.len() == 0
            &&& r.result_code == ProofResultCode::CompletedError
            &&& r.result_string@.len() == 0
            &&& r.final_proof is None
            &&& r.error_message@ == message
        },
    }
}

/// The response to a status query.
pub open spec fn is_status_response(resp: ProverResponse, msg_id: Seq<char>, status: ProverState) -> bool {
    &&& resp.id@ == msg_id
    &&& resp.response_type matches Some(ResponseType::GetStatus(r))
    &&& r.id@.len() == 0
    &&& r.result_code == GetStatusResultCode::Success
    &&& r.status == status
    &&& r.prover_status matches Some(ps)
    &&& is_blank_prover_status(ps)
    &&& r.error_message@.len() == 0
}

/// The response that ends a batch request whose proofs are done: one chunk
/// proof for each key, numbered from zero, with the key and without the
/// proof's data.
pub open spec fn is_batch_response(
    resp: ProverResponse,
    msg_id: Seq<char>,
    task_id: Seq<char>,
    keys: Seq<Seq<char>>,
) -> bool {
    &&& resp.id@ == msg_id
    &&& resp.response_type matches Some(ResponseType::GenBatchProof(r))
    &&& r.id@.len() == 0
    &&& r.result_code == ProofResultCode::CompletedOk
    &&& r.error_message@.len() == 0
    &&& r.batch_proof_result matches Some(b)
    &&& b.task_id@ == task_id
    &&& b.chunk_proofs@.len() == keys.len()
    &&& forall|i: int|
        0 <= i < keys.len() ==> {
            &&& (#[trigger] b.chunk_proofs@[i]).chunk_id == i
            &&& b.chunk_proofs@[i].proof_key@ == keys[i]
            &&& b.chunk_proofs@[i].proof@.len() == 0
        }
}

/// The response that ends an aggregation request whose proof is done.
pub open spec fn is_aggregated_response(
    resp: ProverResponse,
    msg_id: Seq<char>,
    key: Seq<char>,
    artifact: Seq<char>,
) -> bool {
    &&& resp.id@ == msg_id
    &&& resp.response_type matches Some(ResponseType::GenAggregatedProof(r))
    &&& r.id@ == key
    &&& r.result_code == ProofResultCode::CompletedOk
    &&& r.result_string@ == artifact
    &&& r.error_message@.len() == 0
}

/// The response that ends a final request whose proof is done.
pub open spec fn is_final_response(resp: ProverResponse, msg_id: Seq<char>, key: Seq<char>) -> bool {
    &&& resp.id@ == msg_id
    &&& resp.response_type matches Some(ResponseType::GenFinalProof(r))
    &&& r.id@ == key
    &&& r.result_code == ProofResultCode::CompletedOk
    &&& r.result_string@.len() == 0
    &&& r.final_proof is None
    &&& r.error_message@.len() == 0
}

/// What a status query reports, given what reading the pipeline's status
/// gave: a prover whose status could be read is reported idle, whether or
/// not tasks wait in its queues; where the status could not be read, none
/// is reported.
pub open spec fn reported_state(read: Result<PipelineStatus, PipelineError>) -> ProverState {
    match read {
        Ok(_) => ProverState::Idle,
        Err(_) => ProverState::Unspecified,
    }
}

/// What a batch request is checked for before anything is queued: it names
/// a batch, and the batch lists a block. The first block is the one proved.
pub open spec fn batch_request_check(request: GenBatchProofRequest) -> Result<u64, RequestError> {
    match request.batch {
        None => Err(RequestError::BatchEmpty),
        Some(batch) => if batch.block_number@.len() == 0 {
            Err(RequestError::BlockListEmpty)
        } else {
            Ok(batch.block_number@[0])
        },
    }
}

/// The batch task of the `i`-th chunk of a task.
pub open spec fn chunk_stage(task_id: Seq<char>, i: nat) -> StageView {
    StageView::Batch(task_id, decimal_digits(i), Seq::empty())
}

/// The key under which the proof of the `i`-th chunk of a task is stored.
pub open spec fn chunk_key(task_id: Seq<char>, i: nat) -> Seq<char> {
    proof_key(chunk_stage(task_id, i))
}

/// Submitting the chunks `from` to `n - 1` of a task in order, up to the
/// first that the pipeline turns down: the pipeline afterwards, and the
/// refusal if there was one. Chunks accepted before a refusal stay queued.
pub open spec fn submit_chunks(v: PipelineView, task_id: Seq<char>, from: nat, n: nat) -> (
    PipelineView,
    Option<PipelineError>,
)
    decreases n - from,
{
    if from >= n {
        (v, None)
    } else {
        match v.submit_result(chunk_stage(task_id, from)) {
            Err(e) => (v, Some(e)),
            Ok(_) => submit_chunks(v.submit(chunk_stage(task_id, from)), task_id, from + 1, n),
        }
    }
}

/// A batch request that passed its check: the block to prove, and the id
/// drawn for its task.
#[derive(Debug, PartialEq, Eq)]
pub struct BatchJob {
    pub task_id: String,
    pub block_number: u64,
}

/// What a wake-up of a waiting request ends in.
#[derive(Debug, PartialEq, Eq)]
pub enum PollOutcome {
    /// Sleep until this time, then wake the request again.
    Wait(u64),
    /// The request is answered.
    Done(ProverResponse),
    /// The request failed.
    Failed(RequestError),
}

/// Whether `c` is a hexadecimal digit in lower case.
pub open spec fn is_lower_hex(c: char) -> bool {
    ||| c == '0'
    ||| c == '1'
    ||| c == '2'
    ||| c == '3'
    ||| c == '4'
    ||| c == '5'
    ||| c == '6'
    ||| c == '7'
    ||| c == '8'
    ||| c == '9'
    ||| c == 'a'
    ||| c == 'b'
    ||| c == 'c'
    ||| c == 'd'
    ||| c == 'e'
    ||| c == 'f'
}

/// The shape of a task id: 36 characters, hyphens as the ninth, fourteenth,
/// nineteenth and twenty-fourth, lower-case hexadecimal digits elsewhere.
pub open spec fn is_task_id(id: Seq<char>) -> bool {
    &&& id.len() == 36
    &&& forall|i: int|
        #![trigger id[i]]
        0 <= i < 36 ==> if i == 8 || i == 13 || i == 18 || i == 23 {
            id[i] == '-'
        } else {
            is_lower_hex(id[i])
        }
}

/// Draws the id of a new task with `uuid::Uuid::new_v4` and writes it with
/// the type's `Display`, which is the hyphenated lower-case form: 32
/// hexadecimal digits in groups of 8, 4, 4, 4 and 12 with hyphens between.
/// Nothing is claimed of the digits: they are random. The call fails only
/// where the system gives no random bytes.
#[verifier::external_body]
fn new_task_id() -> (id: String)
    ensures
        is_task_id(id@),
{
    uuid::Uuid::new_v4().to_string()
}

#[derive(Clone, Copy, Debug, Default)]
pub struct ProverRequestHandler {}

/// The kind of a request, if it has one. A request without a kind is
/// answered with `untyped_request_response`.
pub fn request_kind(request: &ProverRequest) -> (kind: Option<RequestKind>)
    ensures
        kind == match request.request_type {
            Some(t) => Some(t.spec_kind()),
            None => None,
        },
{
    match &request.request_type {
        Some(t) => Some(t.kind()),
        None => None,
    }
}

/// The response that ends a request that failed: the session stays open
/// and the client is told the cause.
pub fn failure_response(request_id: String, kind: RequestKind, error_message: String) -> (resp:
    ProverResponse)
    ensures
        is_failure_response(resp, request_id@, kind, error_message@),
{
    let response_type = match kind {
        RequestKind::GetStatus => ResponseType::GetStatus(
            GetStatusResponse {
                id: String::new(),
                result_code: GetStatusResultCode::Fail,
                status: ProverState::Idle,
                prover_status: None,
                error_message,
            },
        ),
        RequestKind::GenBatchProof => ResponseType::GenBatchProof(
            GenBatchProofResponse {
                id: String::new(),
                result_code: ProofResultCode::CompletedError,
                batch_proof_result: None,
                error_message,
            },
        ),
        RequestKind::GenAggregatedProof => ResponseType::GenAggregatedProof(
            GenAggregatedProofResponse {
                id: String::new(),
                result_code: ProofResultCode::CompletedError,
                result_string: String::new(),
                error_message,
            },
        ),
        RequestKind::GenFinalProof => ResponseType::GenFinalProof(
            GenFinalProofResponse {
                id: String::new(),
                result_code: ProofResultCode::CompletedError,
                result_string: String::new(),
                final_proof: None,
                error_message,
            },
        ),
    };
    ProverResponse { id: request_id, response_type: Some(response_type) }
}

/// The response that tells a client which error ended its request.
pub fn error_response(request_id: String, kind: RequestKind, error: RequestError) -> (resp:
    ProverResponse)
    ensures
        is_failure_response(resp, request_id@, kind, error_text(error)),
        error_text(error).len() > 0,
{
    proof {
        lemma_error_text_not_empty(error);
    }
    failure_response(request_id, kind, error.message())
}

/// The response to a status query, given what reading the pipeline's status
/// gave.
pub fn status_response(msg_id: String, read: Result<PipelineStatus, PipelineError>) -> (resp:
    ProverResponse)
    ensures
        is_status_response(resp, msg_id@, reported_state(read)),
{
    let status = match read {
        Ok(_) => ProverState::Idle,
        Err(_) => ProverState::Unspecified,
    };
    ProverResponse {
        id: msg_id,
        response_type: Some(
            ResponseType::GetStatus(
                GetStatusResponse {
                    id: String::new(),
                    result_code: GetStatusResultCode::Success,
                    status,
                    prover_status: Some(ProverStatus::blank()),
                    error_message: String::new(),
                },
            ),
        ),
    }
}

/// The response that ends a request that says nothing of what it asks for.
/// It has the shape of a failed status query, the one response that stands
/// for no proof, and tells the cause.
pub fn untyped_request_response(request_id: String) -> (resp: ProverResponse)
    ensures
        is_failure_response(
            resp,
            request_id@,
            RequestKind::GetStatus,
            error_text(RequestError::RequestTypeEmpty),
        ),
        error_text(RequestError::RequestTypeEmpty).len() > 0,
{
    error_response(request_id, RequestKind::GetStatus, RequestError::RequestTypeEmpty)
}

impl ProverRequestHandler {
    pub fn new() -> (h: Self)
        ensures
            h == (ProverRequestHandler {  }),
    {
        ProverRequestHandler {  }
    }

    /// Answers a status query. The pipeline's status is read, which cannot
    /// fail, so the prover is reported idle. The pipeline is not changed.
    pub fn handle_get_status_request(
        &self,
        pipeline: &Pipeline,
        msg_id: String,
        _request: GetStatusRequest,
    ) -> (resp: ProverResponse)
        ensures
            is_status_response(resp, msg_id@, ProverState::Idle),
    {
        status_response(msg_id, Ok(pipeline.status()))
    }

    /// Checks a batch request and gives the block to prove.
    pub fn check_gen_batch_proof_request(&self, request: &GenBatchProofRequest) -> (res: Result<
        u64,
        RequestError,
    >)
        ensures
            res == batch_request_check(*request),
    {
        match &request.batch {
            None => Err(RequestError::BatchEmpty),
            Some(batch) => {
                if batch.block_number.len() == 0 {
                    Err(RequestError::BlockListEmpty)
                } else {
                    Ok(batch.block_number[0])
                }
            },
        }
    }

    /// Opens a batch request: checks it and, if it passes, draws the id of
    /// its task. A request that fails its check draws nothing.
    pub fn begin_gen_batch_proof(&self, request: &GenBatchProofRequest) -> (res: Result<
        BatchJob,
        RequestError,
    >)
        ensures
            match res {
                Ok(job) => batch_request_check(*request) == Ok::<u64, RequestError>(
                    job.block_number,
                ) && is_task_id(job.task_id@),
                Err(e) => batch_request_check(*request) == Err::<u64, RequestError>(e),
            },
    {
        match self.check_gen_batch_proof_request(request) {
            Err(e) => Err(e),
            Ok(block_number) => Ok(BatchJob { task_id: new_task_id(), block_number }),
        }
    }

    /// Puts the chunks of a batch task into the pipeline, in order, and
    /// starts to wait for their proofs. The first chunk that the pipeline
    /// turns down fails the request; chunks accepted before it stay queued.
    pub fn submit_batch_chunks(&self, pipeline: &mut Pipeline, task_id: &String, cnt_chunks: usize) -> (res:
        Result<BatchPoll, RequestError>)
        requires
            old(pipeline).wf(),
        ensures
            final(pipeline).wf(),
            final(pipeline)@ == submit_chunks(old(pipeline)@, task_id@, 0, cnt_chunks as nat).0,
            store_extends(old(pipeline)@.store, final(pipeline)@.store),
            match res {
                Ok(poll) => {
                    &&& submit_chunks(old(pipeline)@, task_id@, 0, cnt_chunks as nat).1 is None
                    &&& poll.wf()
                    &&& poll@.keys == Seq::new(
                        cnt_chunks as nat,
                        |i: int| chunk_key(task_id@, i as nat),
                    )
                    &&& poll@.done == Seq::new(cnt_chunks as nat, |i: int| false)
                },
                Err(e) => {
                    &&& submit_chunks(old(pipeline)@, task_id@, 0, cnt_chunks as nat).1 matches Some(
                        cause,
                    )
                    &&& e == RequestError::Rejected(RequestKind::GenBatchProof, cause)
                },
            },
    {
        let mut keys: Vec<String> = Vec::new();
        let mut chunk_id: usize = 0;
        while chunk_id < cnt_chunks
            invariant
                pipeline.wf(),
                chunk_id <= cnt_chunks,
                keys@.len() == chunk_id,
                forall|j: int| 0 <= j < chunk_id ==> (#[trigger] keys@[j])@ == chunk_key(task_id@, j as nat),
                submit_chunks(pipeline@, task_id@, chunk_id as nat, cnt_chunks as nat)
                    == submit_chunks(old(pipeline)@, task_id@, 0, cnt_chunks as nat),
                store_extends(old(pipeline)@.store, pipeline@.store),
            decreases cnt_chunks - chunk_id,
        {
            let ghost before = pipeline@;
            match pipeline.submit_batch(task_id.clone(), decimal_string(chunk_id as u64)) {
                Ok(key) => {
                    keys.push(key);
                },
                Err(e) => {
                    return Err(RequestError::Rejected(RequestKind::GenBatchProof, e));
                },
            }
            proof {
                crate::proof_store::lemma_store_extends_transitive(
                    old(pipeline)@.store,
                    before.store,
                    pipeline@.store,
                );
            }
            chunk_id += 1;
        }
        let poll = BatchPoll::new(keys);
        assert(poll@.keys =~= Seq::new(cnt_chunks as nat, |i: int| chunk_key(task_id@, i as nat)));
        Ok(poll)
    }

    /// One wake-up of a batch request: looks for the proofs of its chunks,
    /// then answers the request if all are done, fails it if its time is up,
    /// and else says when to wake it next.
    pub fn poll_gen_batch_proof(
        &self,
        pipeline: &Pipeline,
        msg_id: &String,
        task_id: &String,
        poll: &mut BatchPoll,
        poller: &Poller,
        now_ms: u64,
    ) -> (outcome: PollOutcome)
        requires
            pipeline.wf(),
            old(poll).wf(),
        ensures
            final(poll).wf(),
            final(poll)@ == old(poll)@.looked(pipeline@),
            match poll_action(
                poller.interval_ms,
                poller.deadline_ms,
                now_ms,
                final(poll)@.is_finished(),
            ) {
                PollAction::WaitUntil(t) => outcome matches PollOutcome::Wait(u) && u == t,
                PollAction::Finish => outcome matches PollOutcome::Done(resp) && is_batch_response(
                    resp,
                    msg_id@,
                    task_id@,
                    final(poll)@.keys,
                ),
                PollAction::TimedOut => outcome matches PollOutcome::Failed(e) && e
                    == RequestError::Timeout(RequestKind::GenBatchProof),
            },
    {
        poll.look(pipeline);
        match poller.on_wake(now_ms, poll.is_finished()) {
            PollAction::WaitUntil(t) => PollOutcome::Wait(t),
            PollAction::TimedOut => PollOutcome::Failed(
                RequestError::Timeout(RequestKind::GenBatchProof),
            ),
            PollAction::Finish => {
                let n = poll.len();
                let mut chunk_proofs: Vec<ChunkProof> = Vec::new();
                let mut i: usize = 0;
                while i < n
                    invariant
                        poll.wf(),
                        n == poll@.keys.len(),
                        i <= n,
                        chunk_proofs@.len() == i,
                        forall|j: int|
                            0 <= j < i ==> {
                                &&& (#[trigger] chunk_proofs@[j]).chunk_id == j
                                &&& chunk_proofs@[j].proof_key@ == poll@.keys[j]
                                &&& chunk_proofs@[j].proof@.len() == 0
                            },
                    decreases n - i,
                {
                    chunk_proofs.push(
                        ChunkProof {
                            chunk_id: i as u64,
                            proof_key: poll.key(i).clone(),
                            proof: String::new(),
                        },
                    );
                    i += 1;
                }
                PollOutcome::Done(
                    ProverResponse {
                        id: msg_id.clone(),
                        response_type: Some(
                            ResponseType::GenBatchProof(
                                GenBatchProofResponse {
                                    id: String::new(),
                                    result_code: ProofResultCode::CompletedOk,
                                    batch_proof_result: Some(
                                        BatchProofResult { task_id: task_id.clone(), chunk_proofs },
                                    ),
                                    error_message: String::new(),
                                },
                            ),
                        ),
                    },
                )
            },
        }
    }

    /// Opens an aggregation request: puts the aggregation of its two proofs
    /// into the pipeline and gives the key to wait for.
    pub fn begin_gen_aggregated_proof(
        &self,
        pipeline: &mut Pipeline,
        request: &GenAggregatedProofRequest,
    ) -> (res: Result<String, RequestError>)
        requires
            old(pipeline).wf(),
        ensures
            final(pipeline).wf(),
            final(pipeline)@ == old(pipeline)@.submit(aggregate_stage(*request)),
            store_extends(old(pipeline)@.store, final(pipeline)@.store),
            match res {
                Ok(key) => old(pipeline)@.submit_result(aggregate_stage(*request)) == Ok::<
                    Seq<char>,
                    PipelineError,
                >(key@),
                Err(e) => old(pipeline)@.submit_result(aggregate_stage(*request)) matches Err(
                    cause,
                ) && e == RequestError::Rejected(RequestKind::GenAggregatedProof, cause),
            },
    {
        match pipeline.submit_aggregate(
            request.recursive_proof_1.clone(),
            request.recursive_proof_2.clone(),
        ) {
            Ok(key) => Ok(key),
            Err(e) => Err(RequestError::Rejected(RequestKind::GenAggregatedProof, e)),
        }
    }

    /// One wake-up of an aggregation request: answers it with the proof's
    /// artifact if the proof is done, fails it if its time is up, and else
    /// says when to wake it next.
    pub fn poll_gen_aggregated_proof(
        &self,
        pipeline: &Pipeline,
        msg_id: &String,
        key: &String,
        poller: &Poller,
        now_ms: u64,
    ) -> (outcome: PollOutcome)
        requires
            pipeline.wf(),
        ensures
            match poll_action(
                poller.interval_ms,
                poller.deadline_ms,
                now_ms,
                pipeline@.proof_result(key@) is Ok,
            ) {
                PollAction::WaitUntil(t) => outcome matches PollOutcome::Wait(u) && u == t,
                PollAction::Finish => outcome matches PollOutcome::Done(resp)
                    && is_aggregated_response(
                    resp,
                    msg_id@,
                    key@,
                    pipeline@.proof_result(key@)->Ok_0,
                ),
                PollAction::TimedOut => outcome matches PollOutcome::Failed(e) && e
                    == RequestError::Timeout(RequestKind::GenAggregatedProof),
            },
    {
        match pipeline.get_proof(key.clone(), 0) {
            Ok(artifact) => {
                PollOutcome::Done(
                    ProverResponse {
                        id: msg_id.clone(),
                        response_type: Some(
                            ResponseType::GenAggregatedProof(
                                GenAggregatedProofResponse {
                                    id: key.clone(),
                                    result_code: ProofResultCode::CompletedOk,
                                    result_string: artifact,
                                    error_message: String::new(),
                                },
                            ),
                        ),
                    },
                )
            },
            Err(_) => match poller.on_wake(now_ms, false) {
                PollAction::WaitUntil(t) => PollOutcome::Wait(t),
                _ => PollOutcome::Failed(RequestError::Timeout(RequestKind::GenAggregatedProof)),
            },
        }
    }

    /// Opens a final request: puts the final proof of its proof into the
    /// pipeline and gives the key to wait for.
    pub fn begin_gen_final_proof(&self, pipeline: &mut Pipeline, request: &GenFinalProofRequest) -> (res:
        Result<String, RequestError>)
        requires
            old(pipeline).wf(),
        ensures
            final(pipeline).wf(),
            final(pipeline)@ == old(pipeline)@.submit(final_stage(*request)),
            store_extends(old(pipeline)@.store, final(pipeline)@.store),
            match res {
                Ok(key) => old(pipeline)@.submit_result(final_stage(*request)) == Ok::<
                    Seq<char>,
                    PipelineError,
                >(key@),
                Err(e) => old(pipeline)@.submit_result(final_stage(*request)) matches Err(cause)
                    && e == RequestError::Rejected(RequestKind::GenFinalProof, cause),
            },
    {
        match pipeline.submit_final(
            request.recursive_proof.clone(),
            request.curve_name.clone(),
            request.aggregator_addr.clone(),
        ) {
            Ok(key) => Ok(key),
            Err(e) => Err(RequestError::Rejected(RequestKind::GenFinalProof, e)),
        }
    }

    /// One wake-up of a final request: answers it if the proof is done,
    /// fails it if its time is up, and else says when to wake it next. The
    /// answer names the proof and carries no proof data.
    pub fn poll_gen_final_proof(
        &self,
        pipeline: &Pipeline,
        msg_id: &String,
        key: &String,
        poller: &Poller,
        now_ms: u64,
    ) -> (outcome: PollOutcome)
        requires
            pipeline.wf(),
        ensures
            match poll_action(
                poller.interval_ms,
                poller.deadline_ms,
                now_ms,
                pipeline@.proof_result(key@) is Ok,
            ) {
                PollAction::WaitUntil(t) => outcome matches PollOutcome::Wait(u) && u == t,
                PollAction::Finish => outcome matches PollOutcome::Done(resp)
                    && is_final_response(resp, msg_id@, key@),
                PollAction::TimedOut => outcome matches PollOutcome::Failed(e) && e
                    == RequestError::Timeout(RequestKind::GenFinalProof),
            },
    {
        let done = pipeline.get_proof(key.clone(), 0).is_ok();
        match poller.on_wake(now_ms, done) {
            PollAction::WaitUntil(t) => PollOutcome::Wait(t),
            PollAction::TimedOut => PollOutcome::Failed(
                RequestError::Timeout(RequestKind::GenFinalProof),
            ),
            PollAction::Finish => PollOutcome::Done(
                ProverResponse {
                    id: msg_id.clone(),
                    response_type: Some(
                        ResponseType::GenFinalProof(
                            GenFinalProofResponse {
                                id: key.clone(),
                                result_code: ProofResultCode::CompletedOk,
                                result_string: String::new(),
                                final_proof: None,
                                error_message: String::new(),
                            },
                        ),
                    ),
                },
            ),
        }
    }
}

/// The aggregation task that a request asks for.
pub open spec fn aggregate_stage(request: GenAggregatedProofRequest) -> StageView {
    StageView::Aggregate(
        aggregate_task_id(request.recursive_proof_1@, request.recursive_proof_2@),
        request.recursive_proof_1@,
        request.recursive_proof_2@,
    )
}

/// The final task that a request asks for.
pub open spec fn final_stage(request: GenFinalProofRequest) -> StageView {
    StageView::Final(request.recursive_proof@, request.curve_name@, request.aggregator_addr@)
}

/// The chunks of one task have keys of their own: two chunk numbers that
/// differ give keys that differ.
pub proof fn lemma_chunk_keys_distinct(task_id: Seq<char>, i: nat, j: nat)
    requires
        i != j,
    ensures
        chunk_key(task_id, i) != chunk_key(task_id, j),
{
    if chunk_key(task_id, i) == chunk_key(task_id, j) {
        lemma_same_prefix(task_id + "_chunk_"@, decimal_digits(i), decimal_digits(j));
        lemma_decimal_digits_injective(i, j);
    }
}

/// The batch queue after the chunks `from` to `n - 1` of a task joined it.
pub open spec fn queue_with_chunks(
    q: Seq<StageTaskView>,
    task_id: Seq<char>,
    from: nat,
    n: nat,
) -> Seq<StageTaskView> {
    q + Seq::new(
        (n - from) as nat,
        |i: int|
            StageTaskView {
                key: chunk_key(task_id, (from + i) as nat),
                stage: chunk_stage(task_id, (from + i) as nat),
            },
    )
}

/// A new task with room for its chunks gets all of them queued: where the
/// task has an id, none of its chunk keys is known and the batch queue has
/// room for the chunks, every chunk is accepted, the chunks join the queue
/// in order behind what waits there, and each gets an entry that is not
/// ready. Nothing else changes.
pub proof fn lemma_fresh_chunks_all_queued(v: PipelineView, task_id: Seq<char>, from: nat, n: nat)
    requires
        v.inv(),
        task_id.len() > 0,
        from <= n,
        v.batch_queue.len() + (n - from) <= v.capacity,
        forall|i: nat| from <= i < n ==> !v.store.dom().contains(#[trigger] chunk_key(task_id, i)),
    ensures
        submit_chunks(v, task_id, from, n).1 is None,
        submit_chunks(v, task_id, from, n).0.inv(),
        submit_chunks(v, task_id, from, n).0 == (PipelineView {
            batch_queue: queue_with_chunks(v.batch_queue, task_id, from, n),
            store: submit_chunks(v, task_id, from, n).0.store,
            ..v
        }),
        forall|k: Seq<char>| #[trigger]
            v.store.dom().contains(k) ==> submit_chunks(v, task_id, from, n).0.store.dom().contains(
                k,
            ) && submit_chunks(v, task_id, from, n).0.store[k] == v.store[k],
        forall|i: nat|
            from <= i < n ==> submit_chunks(v, task_id, from, n).0.store.dom().contains(
                #[trigger] chunk_key(task_id, i),
            ) && submit_chunks(v, task_id, from, n).0.store[chunk_key(task_id, i)]
                == pending_state(StageKind::Batch),
    decreases n - from,
{
    if from < n {
        let stage = chunk_stage(task_id, from);
        let w = v.submit(stage);
        lemma_decimal_round_trip(from);
        assert(!v.store.dom().contains(chunk_key(task_id, from)));
        assert(v.submit_result(stage) is Ok);
        lemma_submit_keeps_inv(v, stage);
        assert forall|i: nat| from + 1 <= i < n implies !w.store.dom().contains(
            #[trigger] chunk_key(task_id, i),
        ) by {
            lemma_chunk_keys_distinct(task_id, from, i);
        }
        lemma_fresh_chunks_all_queued(w, task_id, from + 1, n);
        let r = submit_chunks(v, task_id, from, n).0;
        assert(r == submit_chunks(w, task_id, from + 1, n).0);
        assert(queue_with_chunks(w.batch_queue, task_id, from + 1, n) =~= queue_with_chunks(
            v.batch_queue,
            task_id,
            from,
            n,
        ));
        assert forall|k: Seq<char>| #[trigger] v.store.dom().contains(k) implies r.store.dom().contains(
            k,
        ) && r.store[k] == v.store[k] by {
            assert(w.store.dom().contains(k));
        }
        assert forall|i: nat| from <= i < n implies r.store.dom().contains(
            #[trigger] chunk_key(task_id, i),
        ) && r.store[chunk_key(task_id, i)] == pending_state(StageKind::Batch) by {
            if i == from {
                assert(w.store.dom().contains(chunk_key(task_id, from)));
            }
        }
    } else {
        assert(queue_with_chunks(v.batch_queue, task_id, from, n) =~= v.batch_queue);
    }
}

/// A task id is not empty and holds no underscore.
pub proof fn lemma_task_id_has_no_underscore(id: Seq<char>)
    requires
        is_task_id(id),
    ensures
        id.len() > 0,
        !id.contains('_'),
{
    assert forall|i: int| 0 <= i < id.len() implies id[i] != '_' by {
        if i == 8 || i == 13 || i == 18 || i == 23 {
            assert(id[i] == '-');
        } else {
            assert(is_lower_hex(id[i]));
        }
    }
}

/// The chunks of drawn tasks have keys of their own: two chunk keys that
/// are equal belong to the same task and the same chunk number.
pub proof fn lemma_drawn_chunk_keys_unique(task_a: Seq<char>, i: nat, task_b: Seq<char>, j: nat)
    requires
        is_task_id(task_a),
        is_task_id(task_b),
        chunk_key(task_a, i) == chunk_key(task_b, j),
    ensures
        task_a == task_b,
        i == j,
{
    lemma_task_id_has_no_underscore(task_a);
    lemma_task_id_has_no_underscore(task_b);
    lemma_batch_keys_unique(task_a, decimal_digits(i), task_b, decimal_digits(j));
    lemma_decimal_digits_injective(i, j);
}

} // verus!
