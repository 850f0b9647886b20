//! The stage tasks that a proving job is made of.

use vstd::prelude::*;
use vstd::string::*;

verus! {

/// One unit of proving work, with the identifiers it was submitted with.
#[derive(Debug, PartialEq, Eq)]
pub enum Stage {
    /// Task id, chunk id and the batch payload.
    Batch(String, String, String),
    /// Task id and the two proofs to combine.
    Aggregate(String, String, String),
    /// Task id, curve name and the aggregator's address.
    Final(String, String, String),
}

/// What a `Stage` holds, as sequences of characters.
pub enum StageView {
    Batch(Seq<char>, Seq<char>, Seq<char>),
    Aggregate(Seq<char>, Seq<char>, Seq<char>),
    Final(Seq<char>, Seq<char>, Seq<char>),
}

/// Which step of the pipeline a task belongs to.
#[derive(Clone, Copy, Debug, PartialEq, Eq, Structural)]
pub enum StageKind {
    /// The proof of one chunk. The worker that takes the task carries the
    /// chunk through the batch stage, the compression and the first
    /// recursion, and reports the recursive proof.
    Batch,
    /// The aggregation of two recursive proofs.
    Aggregate,
    /// The final proof of an aggregated proof.
    Final,
}

/// The directory of a batch task, relative to the base directory.
pub open spec fn batch_path(task_id: Seq<char>, chunk_id: Seq<char>) -> Seq<char> {
    "proof/"@ + task_id + "/batch_proof_"@ + chunk_id
}

/// The directory of an aggregation task, relative to the base directory.
pub open spec fn aggregate_path(task_id: Seq<char>) -> Seq<char> {
    "proof/"@ + task_id + "/agg_proof"@
}

/// The directory of a final task, relative to the base directory.
pub open spec fn final_path(task_id: Seq<char>) -> Seq<char> {
    "proof/"@ + task_id + "/snark_proof"@
}

impl StageView {
    pub open spec fn kind(self) -> StageKind {
        match self {
            StageView::Batch(..) => StageKind::Batch,
            StageView::Aggregate(..) => StageKind::Aggregate,
            StageView::Final(..) => StageKind::Final,
        }
    }

    pub open spec fn task_id(self) -> Seq<char> {
        match self {
            StageView::Batch(task_id, _, _) => task_id,
            StageView::Aggregate(task_id, _, _) => task_id,
            StageView::Final(task_id, _, _) => task_id,
        }
    }

    /// The task's working directory, relative to the base directory.
    pub open spec fn path(self) -> Seq<char> {
        match self {
            StageView::Batch(task_id, chunk_id, _) => batch_path(task_id, chunk_id),
            StageView::Aggregate(task_id, _, _) => aggregate_path(task_id),
            StageView::Final(task_id, _, _) => final_path(task_id),
        }
    }
}

impl View for Stage {
    type V = StageView;

    open spec fn view(&self) -> StageView {
        match self {
            Stage::Batch(a, b, c) => StageView::Batch(a@, b@, c@),
            Stage::Aggregate(a, b, c) => StageView::Aggregate(a@, b@, c@),
            Stage::Final(a, b, c) => StageView::Final(a@, b@, c@),
        }
    }
}

impl Clone for Stage {
    fn clone(&self) -> (res: Self)
        ensures
            res == *self,
    {
        match self {
            Stage::Batch(a, b, c) => Stage::Batch(a.clone(), b.clone(), c.clone()),
            Stage::Aggregate(a, b, c) => Stage::Aggregate(a.clone(), b.clone(), c.clone()),
            Stage::Final(a, b, c) => Stage::Final(a.clone(), b.clone(), c.clone()),
        }
    }
}

impl Stage {
    pub fn kind(&self) -> (k: StageKind)
        ensures
            k == self@.kind(),
    {
        match self {
            Stage::Batch(..) => StageKind::Batch,
            Stage::Aggregate(..) => StageKind::Aggregate,
            Stage::Final(..) => StageKind::Final,
        }
    }

    pub fn task_id(&self) -> (id: &String)
        ensures
            id@ == self@.task_id(),
    {
        match self {
            Stage::Batch(task_id, _, _) => task_id,
            Stage::Aggregate(task_id, _, _) => task_id,
            Stage::Final(task_id, _, _) => task_id,
        }
    }

    /// The task's working directory, relative to the base directory.
    pub fn path(&self) -> (p: String)
        ensures
            p@ == self@.path(),
    {
        match self {
            Stage::Batch(task_id, chunk_id, _) => String::from_str("proof/").concat(
                task_id.as_str(),
            ).concat("/batch_proof_").concat(chunk_id.as_str()),
            Stage::Aggregate(task_id, _, _) => String::from_str("proof/").concat(
                task_id.as_str(),
            ).concat("/agg_proof"),
            Stage::Final(task_id, _, _) => String::from_str("proof/").concat(
                task_id.as_str(),
            ).concat("/snark_proof"),
        }
    }
}

} // verus!
