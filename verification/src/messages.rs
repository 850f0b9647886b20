//! The messages that clients exchange with the proving service.

use vstd::prelude::*;

verus! {

/// The kinds of request that a client sends.
#[derive(Clone, Copy, Debug, PartialEq, Eq, Structural)]
pub enum RequestKind {
    GetStatus,
    GenBatchProof,
    GenAggregatedProof,
    GenFinalProof,
}

/// How a status query ended.
#[derive(Clone, Copy, Debug, PartialEq, Eq, Structural)]
pub enum GetStatusResultCode {
    Unspecified,
    /// The query was answered.
    Success,
    Fail,
}

/// How a proof request ended.
#[derive(Clone, Copy, Debug, PartialEq, Eq, Structural)]
pub enum ProofResultCode {
    Unspecified,
    CompletedOk,
    Error,
    CompletedError,
    InternalError,
}

/// What the prover is doing.
#[derive(Clone, Copy, Debug, PartialEq, Eq, Structural)]
pub enum ProverState {
    Unspecified,
    Booting,
    Computing,
    Idle,
    Halt,
}

impl GetStatusResultCode {
    pub open spec fn spec_code(self) -> i32 {
        match self {
            GetStatusResultCode::Unspecified => 0,
            GetStatusResultCode::Success => 1,
            GetStatusResultCode::Fail => 2,
        }
    }

    /// The number that stands for this code in a message.
    pub fn code(&self) -> (c: i32)
        ensures
            c == self.spec_code(),
    {
        match self {
            GetStatusResultCode::Unspecified => 0,
            GetStatusResultCode::Success => 1,
            GetStatusResultCode::Fail => 2,
        }
    }
}

impl ProofResultCode {
    pub open spec fn spec_code(self) -> i32 {
        match self {
            ProofResultCode::Unspecified => 0,
            ProofResultCode::CompletedOk => 1,
            ProofResultCode::Error => 2,
            ProofResultCode::CompletedError => 3,
            ProofResultCode::InternalError => 4,
        }
    }

    /// The number that stands for this code in a message.
    pub fn code(&self) -> (c: i32)
        ensures
            c == self.spec_code(),
    {
        match self {
            ProofResultCode::Unspecified => 0,
            ProofResultCode::CompletedOk => 1,
            ProofResultCode::Error => 2,
            ProofResultCode::CompletedError => 3,
            ProofResultCode::InternalError => 4,
        }
    }
}

impl ProverState {
    pub open spec fn spec_code(self) -> i32 {
        match self {
            ProverState::Unspecified => 0,
            ProverState::Booting => 1,
            ProverState::Computing => 2,
            ProverState::Idle => 3,
            ProverState::Halt => 4,
        }
    }

    /// The number that stands for this state in a message.
    pub fn code(&self) -> (c: i32)
        ensures
            c == self.spec_code(),
    {
        match self {
            ProverState::Unspecified => 0,
            ProverState::Booting => 1,
            ProverState::Computing => 2,
            ProverState::Idle => 3,
            ProverState::Halt => 4,
        }
    }
}

#[derive(Clone, Debug, PartialEq, Eq)]
pub struct GetStatusRequest {}

/// The blocks of one batch.
#[derive(Clone, Debug, PartialEq, Eq)]
pub struct Batch {
    pub block_number: Vec<u64>,
}

#[derive(Clone, Debug, PartialEq, Eq)]
pub struct GenBatchProofRequest {
    pub batch: Option<Batch>,
}

#[derive(Clone, Debug, PartialEq, Eq)]
pub struct GenAggregatedProofRequest {
    pub recursive_proof_1: String,
    pub recursive_proof_2: String,
}

#[derive(Clone, Debug, PartialEq, Eq)]
pub struct GenFinalProofRequest {
    pub recursive_proof: String,
    pub curve_name: String,
    pub aggregator_addr: String,
}

#[derive(Clone, Debug, PartialEq, Eq)]
pub enum RequestType {
    GetStatus(GetStatusRequest),
    GenBatchProof(GenBatchProofRequest),
    GenAggregatedProof(GenAggregatedProofRequest),
    GenFinalProof(GenFinalProofRequest),
}

#[derive(Clone, Debug, PartialEq, Eq)]
pub struct ProverRequest {
    pub id: String,
    pub request_type: Option<RequestType>,
}

/// What a prover tells of itself in answer to a status query.
#[derive(Clone, Debug, PartialEq, Eq)]
pub struct ProverStatus {
    pub last_computed_request_id: String,
    pub last_computed_end_time: u64,
    pub current_computing_request_id: String,
    pub current_computing_start_time: u64,
    pub version_proto: String,
    pub version_server: String,
    pub pending_request_queue_ids: Vec<String>,
    pub prover_name: String,
    pub prover_id: String,
    pub number_of_cores: u64,
    pub total_memory: u64,
    pub free_memory: u64,
    pub fork_id: u64,
}

#[derive(Clone, Debug, PartialEq, Eq)]
pub struct GetStatusResponse {
    pub id: String,
    pub result_code: GetStatusResultCode,
    pub status: ProverState,
    pub prover_status: Option<ProverStatus>,
    pub error_message: String,
}

/// The proof of one chunk, named by its key.
#[derive(Clone, Debug, PartialEq, Eq)]
pub struct ChunkProof {
    pub chunk_id: u64,
    pub proof_key: String,
    pub proof: String,
}

#[derive(Clone, Debug, PartialEq, Eq)]
pub struct BatchProofResult {
    pub task_id: String,
    pub chunk_proofs: Vec<ChunkProof>,
}

#[derive(Clone, Debug, PartialEq, Eq)]
pub struct GenBatchProofResponse {
    pub id: String,
    pub result_code: ProofResultCode,
    pub batch_proof_result: Option<BatchProofResult>,
    pub error_message: String,
}

#[derive(Clone, Debug, PartialEq, Eq)]
pub struct GenAggregatedProofResponse {
    pub id: String,
    pub result_code: ProofResultCode,
    pub result_string: String,
    pub error_message: String,
}

/// A final proof with its public inputs.
#[derive(Clone, Debug, PartialEq, Eq)]
pub struct FinalProof {
    pub proof: String,
    pub public_input: String,
}

#[derive(Clone, Debug, PartialEq, Eq)]
pub struct GenFinalProofResponse {
    pub id: String,
    pub result_code: ProofResultCode,
    pub result_string: String,
    pub final_proof: Option<FinalProof>,
    pub error_message: String,
}

#[derive(Clone, Debug, PartialEq, Eq)]
pub enum ResponseType {
    GetStatus(GetStatusResponse),
    GenBatchProof(GenBatchProofResponse),
    GenAggregatedProof(GenAggregatedProofResponse),
    GenFinalProof(GenFinalProofResponse),
}

#[derive(Clone, Debug, PartialEq, Eq)]
pub struct ProverResponse {
    pub id: String,
    pub response_type: Option<ResponseType>,
}

impl RequestType {
    pub open spec fn spec_kind(self) -> RequestKind {
        match self {
            RequestType::GetStatus(_) => RequestKind::GetStatus,
            RequestType::GenBatchProof(_) => RequestKind::GenBatchProof,
            RequestType::GenAggregatedProof(_) => RequestKind::GenAggregatedProof,
            RequestType::GenFinalProof(_) => RequestKind::GenFinalProof,
        }
    }

    pub fn kind(&self) -> (k: RequestKind)
        ensures
            k == self.spec_kind(),
    {
        match self {
            RequestType::GetStatus(_) => RequestKind::GetStatus,
            RequestType::GenBatchProof(_) => RequestKind::GenBatchProof,
            RequestType::GenAggregatedProof(_) => RequestKind::GenAggregatedProof,
            RequestType::GenFinalProof(_) => RequestKind::GenFinalProof,
        }
    }
}

/// A status in which nothing is filled in.
pub open spec fn is_blank_prover_status(s: ProverStatus) -> bool {
    &&& s.last_computed_request_id@.len() == 0
    &&& s.last_computed_end_time == 0
    &&& s.current_computing_request_id@.len() == 0
    &&& s.current_computing_start_time == 0
    &&& s.version_proto@.len() == 0
    &&& s.version_server@.len() == 0
    &&& s.pending_request_queue_ids@.len() == 0
    &&& s.prover_name@.len() == 0
    &&& s.prover_id@.len() == 0
    &&& s.number_of_cores == 0
    &&& s.total_memory == 0
    &&& s.free_memory == 0
    &&& s.fork_id == 0
}

impl ProverStatus {
    /// A status in which nothing is filled in.
    pub fn blank() -> (s: Self)
        ensures
            is_blank_prover_status(s),
    {
        ProverStatus {
            last_computed_request_id: String::new(),
            last_computed_end_time: 0,
            current_computing_request_id: String::new(),
            current_computing_start_time: 0,
            version_proto: String::new(),
            version_server: String::new(),
            pending_request_queue_ids: Vec::new(),
            prover_name: String::new(),
            prover_id: String::new(),
            number_of_cores: 0,
            total_memory: 0,
            free_memory: 0,
            fork_id: 0,
        }
    }
}

} // verus!
