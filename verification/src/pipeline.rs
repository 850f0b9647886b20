//! The pipeline: accepts stage tasks, queues them per stage in arrival order,
//! hands them out, and publishes their results in the proof store.

use crate::contexts::{batch_context, BatchContext, BatchContextView};
use crate::proof_store::{
    pending_state, store_extends, store_publish, ProofState, ProofStore,
};
use crate::stage::{Stage, StageKind, StageView};
use vstd::prelude::*;
use vstd::string::*;

verus! {

/// How many tasks each stage's queue holds unless the pipeline is made with
/// another limit.
pub const DEFAULT_QUEUE_CAPACITY: usize = 1024;

/// Why the pipeline turned a call down.
#[derive(Clone, Copy, Debug, PartialEq, Eq, Structural)]
pub enum PipelineError {
    /// The queue of the task's stage is full.
    QueueFull,
    /// The task or the key names nothing the pipeline can work with.
    InvalidTask,
    /// The proof is known and not done yet.
    NotReady,
}

impl PipelineError {
    pub open spec fn spec_name(self) -> Seq<char> {
        match self {
            PipelineError::QueueFull => "QueueFull"@,
            PipelineError::InvalidTask => "InvalidTask"@,
            PipelineError::NotReady => "NotReady"@,
        }
    }

    /// The name of the error, as it is written in messages.
    pub fn name(&self) -> (s: &'static str)
        ensures
            s@ == self.spec_name(),
    {
        match self {
            PipelineError::QueueFull => "QueueFull",
            PipelineError::InvalidTask => "InvalidTask",
            PipelineError::NotReady => "NotReady",
        }
    }
}

/// Whether work is waiting in the pipeline.
#[derive(Clone, Copy, Debug, PartialEq, Eq, Structural)]
pub enum PipelineStatus {
    Idle,
    Busy,
}

/// Where a job stands.
#[derive(Clone, Copy, Debug, PartialEq, Eq, Structural)]
pub enum JobState {
    /// Accepted and waiting in the queue of its stage.
    Queued(StageKind),
    /// Handed out and not reported back.
    Running(StageKind),
    /// Its proof is in the store.
    Complete(StageKind),
}

impl JobState {
    /// How far a job has come: waiting, handed out, done.
    pub open spec fn rank(self) -> nat {
        match self {
            JobState::Queued(_) => 1,
            JobState::Running(_) => 2,
            JobState::Complete(_) => 3,
        }
    }

    /// The stage of the job.
    pub open spec fn stage(self) -> StageKind {
        match self {
            JobState::Queued(kind) => kind,
            JobState::Running(kind) => kind,
            JobState::Complete(kind) => kind,
        }
    }
}

/// Whether a job that stood at `before` may stand at `after` later: a job
/// that is known stays known, keeps its stage, and does not go back.
pub open spec fn job_moved_forward(before: Option<JobState>, after: Option<JobState>) -> bool {
    match before {
        None => true,
        Some(b) => after matches Some(a) && a.stage() == b.stage() && a.rank() >= b.rank(),
    }
}

/// A task in a queue, with the key that its proof will be stored under.
#[derive(Debug, PartialEq, Eq)]
pub struct StageTask {
    pub key: String,
    pub stage: Stage,
}

pub struct StageTaskView {
    pub key: Seq<char>,
    pub stage: StageView,
}

impl View for StageTask {
    type V = StageTaskView;

    open spec fn view(&self) -> StageTaskView {
        StageTaskView { key: self.key@, stage: self.stage@ }
    }
}

impl Clone for StageTask {
    fn clone(&self) -> (res: Self)
        ensures
            res == *self,
    {
        StageTask { key: self.key.clone(), stage: self.stage.clone() }
    }
}

/// The key of a task's proof: the task id, scoped by chunk and stage.
pub open spec fn proof_key(stage: StageView) -> Seq<char> {
    match stage {
        StageView::Batch(task_id, chunk_id, _) => task_id + "_chunk_"@ + chunk_id,
        StageView::Aggregate(task_id, _, _) => task_id + "_agg"@,
        StageView::Final(task_id, _, _) => task_id + "_final"@,
    }
}

/// The task id of the aggregation of two proofs: the two references, left
/// to right.
pub open spec fn aggregate_task_id(proof_a: Seq<char>, proof_b: Seq<char>) -> Seq<char> {
    proof_a + "_"@ + proof_b
}

/// Whether a task names what it works on: no identifier that the stage
/// needs is empty.
pub open spec fn stage_valid(stage: StageView) -> bool {
    match stage {
        StageView::Batch(task_id, chunk_id, _) => task_id.len() > 0 && chunk_id.len() > 0,
        StageView::Aggregate(_, proof_a, proof_b) => proof_a.len() > 0 && proof_b.len() > 0,
        StageView::Final(proof, _, _) => proof.len() > 0,
    }
}

/// Whether `key` names a proof that a later stage may build on: the proof
/// is known and done, and it is not a final proof, after which no stage
/// comes.
pub open spec fn is_complete_input(store: Map<Seq<char>, ProofState>, key: Seq<char>) -> bool {
    store.dom().contains(key) && store[key].ready && store[key].stage != StageKind::Final
}

/// Whether the proofs that a task builds on are done: a batch task builds
/// on none, an aggregation on the two proofs it combines, a final task on
/// the proof it finishes. Proofs are named by their keys.
pub open spec fn inputs_complete(store: Map<Seq<char>, ProofState>, stage: StageView) -> bool {
    match stage {
        StageView::Batch(..) => true,
        StageView::Aggregate(_, proof_a, proof_b) => is_complete_input(store, proof_a)
            && is_complete_input(store, proof_b),
        StageView::Final(proof, _, _) => is_complete_input(store, proof),
    }
}

/// The tasks of a queue, front first.
pub open spec fn tasks_view(q: Seq<StageTask>) -> Seq<StageTaskView> {
    q.map_values(|t: StageTask| t@)
}

/// Whether a task with `key` waits in `q`.
pub open spec fn queue_holds(q: Seq<StageTaskView>, key: Seq<char>) -> bool {
    exists|i: int| 0 <= i < q.len() && (#[trigger] q[i]).key == key
}

/// The state of a pipeline: its settings, the three queues, front first, and
/// the proof store.
pub struct PipelineView {
    pub basedir: Seq<char>,
    pub task_name: Seq<char>,
    pub force_bits: usize,
    pub capacity: usize,
    pub batch_queue: Seq<StageTaskView>,
    pub aggregate_queue: Seq<StageTaskView>,
    pub final_queue: Seq<StageTaskView>,
    pub store: Map<Seq<char>, ProofState>,
}

impl PipelineView {
    /// The queue of one stage.
    pub open spec fn queue(self, kind: StageKind) -> Seq<StageTaskView> {
        match kind {
            StageKind::Batch => self.batch_queue,
            StageKind::Aggregate => self.aggregate_queue,
            StageKind::Final => self.final_queue,
        }
    }

    /// This state with the queue of one stage replaced.
    pub open spec fn with_queue(self, kind: StageKind, q: Seq<StageTaskView>) -> PipelineView {
        match kind {
            StageKind::Batch => PipelineView { batch_queue: q, ..self },
            StageKind::Aggregate => PipelineView { aggregate_queue: q, ..self },
            StageKind::Final => PipelineView { final_queue: q, ..self },
        }
    }

    /// What holds of the queue of one stage: it is within the limit, each
    /// task carries its own key and is of this stage, its proof is asked for
    /// and not ready, the proofs it builds on are done, and no key waits
    /// twice.
    pub open spec fn queue_inv(self, kind: StageKind) -> bool {
        let q = self.queue(kind);
        &&& q.len() <= self.capacity
        &&& forall|i: int|
            0 <= i < q.len() ==> {
                &&& (#[trigger] q[i]).key == proof_key(q[i].stage)
                &&& q[i].stage.kind() == kind
                &&& self.store.dom().contains(q[i].key)
                &&& self.store[q[i].key] == pending_state(kind)
                &&& inputs_complete(self.store, q[i].stage)
            }
        &&& forall|i: int, j: int|
            0 <= i < j < q.len() ==> (#[trigger] q[i]).key != (#[trigger] q[j]).key
    }

    /// What holds of every pipeline.
    pub open spec fn inv(self) -> bool {
        &&& self.queue_inv(StageKind::Batch)
        &&& self.queue_inv(StageKind::Aggregate)
        &&& self.queue_inv(StageKind::Final)
    }

    /// Whether a task with `key` waits in some queue.
    pub open spec fn is_queued(self, key: Seq<char>) -> bool {
        ||| queue_holds(self.batch_queue, key)
        ||| queue_holds(self.aggregate_queue, key)
        ||| queue_holds(self.final_queue, key)
    }

    /// Where the job under `key` stands, if the key is known.
    pub open spec fn job_state(self, key: Seq<char>) -> Option<JobState> {
        if !self.store.dom().contains(key) {
            None
        } else if self.store[key].ready {
            Some(JobState::Complete(self.store[key].stage))
        } else if self.is_queued(key) {
            Some(JobState::Queued(self.store[key].stage))
        } else {
            Some(JobState::Running(self.store[key].stage))
        }
    }

    /// What submitting `stage` answers: a task that names nothing, or that
    /// builds on a proof that is not done, is turned down before anything
    /// else; a task whose key is known is answered with that key; a new task
    /// needs room in its queue.
    pub open spec fn submit_result(self, stage: StageView) -> Result<Seq<char>, PipelineError> {
        if !stage_valid(stage) || !inputs_complete(self.store, stage) {
            Err(PipelineError::InvalidTask)
        } else if self.store.dom().contains(proof_key(stage)) {
            Ok(proof_key(stage))
        } else if self.queue(stage.kind()).len() >= self.capacity {
            Err(PipelineError::QueueFull)
        } else {
            Ok(proof_key(stage))
        }
    }

    /// The state after submitting `stage`: a new task that is accepted joins
    /// the back of its queue and gets an entry that is not ready; any other
    /// call changes nothing.
    pub open spec fn submit(self, stage: StageView) -> PipelineView {
        let key = proof_key(stage);
        if self.submit_result(stage) is Ok && !self.store.dom().contains(key) {
            PipelineView {
                store: self.store.insert(key, pending_state(stage.kind())),
                ..self.with_queue(
                    stage.kind(),
                    self.queue(stage.kind()).push(StageTaskView { key, stage }),
                )
            }
        } else {
            self
        }
    }

    /// The task that is handed out next for one stage: the front of its queue.
    pub open spec fn next_task(self, kind: StageKind) -> Option<StageTaskView> {
        if self.queue(kind).len() > 0 {
            Some(self.queue(kind).first())
        } else {
            None
        }
    }

    /// The state after the next task of one stage was handed out.
    pub open spec fn take(self, kind: StageKind) -> PipelineView {
        if self.queue(kind).len() > 0 {
            self.with_queue(kind, self.queue(kind).drop_first())
        } else {
            self
        }
    }

    /// Whether a result for `key` is taken: the job was handed out and has
    /// not been reported.
    pub open spec fn accepts_result(self, key: Seq<char>) -> bool {
        self.store.dom().contains(key) && !self.store[key].ready && !self.is_queued(key)
    }

    /// The state after `artifact` was reported for `key`.
    pub open spec fn complete(self, key: Seq<char>, artifact: Seq<char>) -> PipelineView {
        if self.accepts_result(key) {
            PipelineView { store: store_publish(self.store, key, artifact), ..self }
        } else {
            self
        }
    }

    /// What asking for the proof under `key` answers.
    pub open spec fn proof_result(self, key: Seq<char>) -> Result<Seq<char>, PipelineError> {
        if !self.store.dom().contains(key) {
            Err(PipelineError::InvalidTask)
        } else if !self.store[key].ready {
            Err(PipelineError::NotReady)
        } else {
            Ok(self.store[key].value)
        }
    }

    /// Busy while a task waits in some queue.
    pub open spec fn status(self) -> PipelineStatus {
        if self.batch_queue.len() == 0 && self.aggregate_queue.len() == 0
            && self.final_queue.len() == 0 {
            PipelineStatus::Idle
        } else {
            PipelineStatus::Busy
        }
    }

    /// The context that a worker gets for a batch task.
    pub open spec fn context_of(self, task: StageTaskView) -> BatchContextView
        recommends
            task.stage is Batch,
    {
        batch_context(
            self.basedir,
            task.stage->Batch_0,
            self.task_name,
            task.stage->Batch_1,
            task.stage->Batch_2,
            self.force_bits,
        )
    }
}

pub struct Pipeline {
    basedir: String,
    task_name: String,
    force_bits: usize,
    capacity: usize,
    batch_queue: Vec<StageTask>,
    aggregate_queue: Vec<StageTask>,
    final_queue: Vec<StageTask>,
    store: ProofStore,
}

impl View for Pipeline {
    type V = PipelineView;

    closed spec fn view(&self) -> PipelineView {
        PipelineView {
            basedir: self.basedir@,
            task_name: self.task_name@,
            force_bits: self.force_bits,
            capacity: self.capacity,
            batch_queue: tasks_view(self.batch_queue@),
            aggregate_queue: tasks_view(self.aggregate_queue@),
            final_queue: tasks_view(self.final_queue@),
            store: self.store@,
        }
    }
}

/// Builds the key of a task's proof.
pub fn make_proof_key(stage: &Stage) -> (key: String)
    ensures
        key@ == proof_key(stage@),
{
    match stage {
        Stage::Batch(task_id, chunk_id, _) => task_id.clone().concat("_chunk_").concat(
            chunk_id.as_str(),
        ),
        Stage::Aggregate(task_id, _, _) => task_id.clone().concat("_agg"),
        Stage::Final(task_id, _, _) => task_id.clone().concat("_final"),
    }
}

/// Whether a task names what it works on.
pub fn is_valid_stage(stage: &Stage) -> (b: bool)
    ensures
        b == stage_valid(stage@),
{
    match stage {
        Stage::Batch(task_id, chunk_id, _) => !task_id.as_str().is_empty()
            && !chunk_id.as_str().is_empty(),
        Stage::Aggregate(_, proof_a, proof_b) => !proof_a.as_str().is_empty()
            && !proof_b.as_str().is_empty(),
        Stage::Final(proof, _, _) => !proof.as_str().is_empty(),
    }
}

fn queue_has(queue: &Vec<StageTask>, key: &String) -> (b: bool)
    ensures
        b == queue_holds(tasks_view(queue@), key@),
{
    let mut i: usize = 0;
    while i < queue.len()
        invariant
            i <= queue@.len(),
            forall|j: int| 0 <= j < i ==> (#[trigger] tasks_view(queue@)[j]).key != key@,
        decreases queue@.len() - i,
    {
        if queue[i].key == *key {
            assert(tasks_view(queue@)[i as int].key == key@);
            return true;
        }
        i += 1;
    }
    false
}

impl Pipeline {
    /// The pipeline is consistent.
    pub closed spec fn wf(&self) -> bool {
        self.store.wf() && self@.inv()
    }

    /// A consistent pipeline has a consistent state.
    pub proof fn lemma_wf_inv(&self)
        requires
            self.wf(),
        ensures
            self@.inv(),
    {
    }

    /// A pipeline that works under `basedir` on circuits named `task_name`,
    /// with the default queue limit.
    pub fn new(basedir: String, task_name: String) -> (p: Self)
        ensures
            p.wf(),
            p@ == (PipelineView {
                basedir: basedir@,
                task_name: task_name@,
                force_bits: 0,
                capacity: DEFAULT_QUEUE_CAPACITY,
                batch_queue: Seq::empty(),
                aggregate_queue: Seq::empty(),
                final_queue: Seq::empty(),
                store: Map::empty(),
            }),
    {
        Pipeline::with_limits(basedir, task_name, DEFAULT_QUEUE_CAPACITY, 0)
    }

    /// A pipeline whose queues hold up to `capacity` tasks each, and whose
    /// contexts carry `force_bits`.
    pub fn with_limits(basedir: String, task_name: String, capacity: usize, force_bits: usize) -> (p:
        Self)
        ensures
            p.wf(),
            p@ == (PipelineView {
                basedir: basedir@,
                task_name: task_name@,
                force_bits,
                capacity,
                batch_queue: Seq::empty(),
                aggregate_queue: Seq::empty(),
                final_queue: Seq::empty(),
                store: Map::empty(),
            }),
    {
        let p = Pipeline {
            basedir,
            task_name,
            force_bits,
            capacity,
            batch_queue: Vec::new(),
            aggregate_queue: Vec::new(),
            final_queue: Vec::new(),
            store: ProofStore::new(),
        };
        assert(p@.batch_queue =~= Seq::empty());
        assert(p@.aggregate_queue =~= Seq::empty());
        assert(p@.final_queue =~= Seq::empty());
        p
    }

    /// How many tasks of one stage wait.
    pub fn pending(&self, kind: StageKind) -> (n: usize)
        ensures
            n == self@.queue(kind).len(),
    {
        match kind {
            StageKind::Batch => self.batch_queue.len(),
            StageKind::Aggregate => self.aggregate_queue.len(),
            StageKind::Final => self.final_queue.len(),
        }
    }

    /// Busy while a task waits in some queue.
    pub fn status(&self) -> (s: PipelineStatus)
        ensures
            s == self@.status(),
    {
        if self.batch_queue.len() == 0 && self.aggregate_queue.len() == 0
            && self.final_queue.len() == 0 {
            PipelineStatus::Idle
        } else {
            PipelineStatus::Busy
        }
    }

    /// Whether a task with `key` waits in some queue.
    pub fn is_queued(&self, key: &String) -> (b: bool)
        ensures
            b == self@.is_queued(key@),
    {
        queue_has(&self.batch_queue, key) || queue_has(&self.aggregate_queue, key) || queue_has(
            &self.final_queue,
            key,
        )
    }

    /// Where the job under `key` stands, if the key is known.
    pub fn job_state(&self, key: &String) -> (state: Option<JobState>)
        requires
            self.wf(),
        ensures
            state == self@.job_state(key@),
    {
        match self.store.get(key) {
            None => None,
            Some(record) => {
                if record.ready {
                    Some(JobState::Complete(record.stage))
                } else if self.is_queued(key) {
                    Some(JobState::Queued(record.stage))
                } else {
                    Some(JobState::Running(record.stage))
                }
            },
        }
    }

    /// Whether `key` names a proof that a later stage may build on.
    pub fn is_complete_input(&self, key: &String) -> (b: bool)
        requires
            self.wf(),
        ensures
            b == is_complete_input(self@.store, key@),
    {
        match self.store.get(key) {
            Some(record) => record.ready && record.stage != StageKind::Final,
            None => false,
        }
    }

    /// Whether the proofs that a task builds on are done.
    pub fn inputs_complete(&self, stage: &Stage) -> (b: bool)
        requires
            self.wf(),
        ensures
            b == inputs_complete(self@.store, stage@),
    {
        match stage {
            Stage::Batch(..) => true,
            Stage::Aggregate(_, proof_a, proof_b) => self.is_complete_input(proof_a)
                && self.is_complete_input(proof_b),
            Stage::Final(proof, _, _) => self.is_complete_input(proof),
        }
    }

    /// Accepts a stage task. The key of its proof is returned at once, before
    /// the proof exists. A task that builds on other proofs is accepted only
    /// once they are done, so that no stage is handed out before the stage
    /// before it is complete.
    pub fn submit(&mut self, stage: Stage) -> (res: Result<String, PipelineError>)
        requires
            old(self).wf(),
        ensures
            final(self).wf(),
            final(self)@ == old(self)@.submit(stage@),
            store_extends(old(self)@.store, final(self)@.store),
            match res {
                Ok(key) => old(self)@.submit_result(stage@) == Ok::<Seq<char>, PipelineError>(
                    key@,
                ),
                Err(e) => old(self)@.submit_result(stage@) == Err::<Seq<char>, PipelineError>(e),
            },
    {
        if !is_valid_stage(&stage) || !self.inputs_complete(&stage) {
            return Err(PipelineError::InvalidTask);
        }
        let key = make_proof_key(&stage);
        if self.store.contains(&key) {
            return Ok(key);
        }
        let kind = stage.kind();
        if self.pending(kind) >= self.capacity {
            return Err(PipelineError::QueueFull);
        }
        let ghost before = self@;
        let ghost task_view = StageTaskView { key: key@, stage: stage@ };
        let created = self.store.create(key.clone(), kind);
        let task = StageTask { key: key.clone(), stage };
        match kind {
            StageKind::Batch => {
                self.batch_queue.push(task);
                assert(self@.batch_queue =~= before.batch_queue.push(task_view));
            },
            StageKind::Aggregate => {
                self.aggregate_queue.push(task);
                assert(self@.aggregate_queue =~= before.aggregate_queue.push(task_view));
            },
            StageKind::Final => {
                self.final_queue.push(task);
                assert(self@.final_queue =~= before.final_queue.push(task_view));
            },
        }
        proof {
            assert(self@ == before.submit(task_view.stage));
            lemma_submit_keeps_inv(before, task_view.stage);
        }
        Ok(key)
    }

    /// Accepts the batch task of one chunk.
    pub fn submit_batch(&mut self, task_id: String, chunk_id: String) -> (res: Result<
        String,
        PipelineError,
    >)
        requires
            old(self).wf(),
        ensures
            final(self).wf(),
            final(self)@ == old(self)@.submit(
                StageView::Batch(task_id@, chunk_id@, Seq::empty()),
            ),
            store_extends(old(self)@.store, final(self)@.store),
            match res {
                Ok(key) => old(self)@.submit_result(
                    StageView::Batch(task_id@, chunk_id@, Seq::empty()),
                ) == Ok::<Seq<char>, PipelineError>(key@),
                Err(e) => old(self)@.submit_result(
                    StageView::Batch(task_id@, chunk_id@, Seq::empty()),
                ) == Err::<Seq<char>, PipelineError>(e),
            },
    {
        self.submit(Stage::Batch(task_id, chunk_id, String::new()))
    }

    /// Accepts the aggregation of two proofs, named by their keys, left to
    /// right. Both proofs must be done. Which proofs
    /// are paired is the caller's choice; more than two are aggregated by
    /// folding from the left, the aggregate of the first two with the third
    /// and so on.
    pub fn submit_aggregate(&mut self, proof_a: String, proof_b: String) -> (res: Result<
        String,
        PipelineError,
    >)
        requires
            old(self).wf(),
        ensures
            final(self).wf(),
            final(self)@ == old(self)@.submit(
                StageView::Aggregate(aggregate_task_id(proof_a@, proof_b@), proof_a@, proof_b@),
            ),
            store_extends(old(self)@.store, final(self)@.store),
            match res {
                Ok(key) => old(self)@.submit_result(
                    StageView::Aggregate(
                        aggregate_task_id(proof_a@, proof_b@),
                        proof_a@,
                        proof_b@,
                    ),
                ) == Ok::<Seq<char>, PipelineError>(key@),
                Err(e) => old(self)@.submit_result(
                    StageView::Aggregate(
                        aggregate_task_id(proof_a@, proof_b@),
                        proof_a@,
                        proof_b@,
                    ),
                ) == Err::<Seq<char>, PipelineError>(e),
            },
    {
        let task_id = proof_a.clone().concat("_").concat(proof_b.as_str());
        self.submit(Stage::Aggregate(task_id, proof_a, proof_b))
    }

    /// Accepts the final proof of the proof under the key `proof`, for one
    /// curve and aggregator. The proof must be done.
    pub fn submit_final(&mut self, proof: String, curve_name: String, aggregator_addr: String) -> (res:
        Result<String, PipelineError>)
        requires
            old(self).wf(),
        ensures
            final(self).wf(),
            final(self)@ == old(self)@.submit(
                StageView::Final(proof@, curve_name@, aggregator_addr@),
            ),
            store_extends(old(self)@.store, final(self)@.store),
            match res {
                Ok(key) => old(self)@.submit_result(
                    StageView::Final(proof@, curve_name@, aggregator_addr@),
                ) == Ok::<Seq<char>, PipelineError>(key@),
                Err(e) => old(self)@.submit_result(
                    StageView::Final(proof@, curve_name@, aggregator_addr@),
                ) == Err::<Seq<char>, PipelineError>(e),
            },
    {
        self.submit(Stage::Final(proof, curve_name, aggregator_addr))
    }

    /// The artifact of the proof under `key`, without waiting: a caller that
    /// is told `NotReady` asks again later.
    pub fn get_proof(&self, key: String, _retry_hint: u64) -> (res: Result<String, PipelineError>)
        requires
            self.wf(),
        ensures
            match res {
                Ok(artifact) => self@.proof_result(key@) == Ok::<Seq<char>, PipelineError>(
                    artifact@,
                ),
                Err(e) => self@.proof_result(key@) == Err::<Seq<char>, PipelineError>(e),
            },
    {
        match self.store.get(&key) {
            None => Err(PipelineError::InvalidTask),
            Some(record) => {
                if record.ready {
                    Ok(record.value)
                } else {
                    Err(PipelineError::NotReady)
                }
            },
        }
    }

    /// Hands out the task at the front of one stage's queue.
    pub fn take_task(&mut self, kind: StageKind) -> (task: Option<StageTask>)
        requires
            old(self).wf(),
        ensures
            final(self).wf(),
            final(self)@ == old(self)@.take(kind),
            match task {
                Some(t) => old(self)@.next_task(kind) == Some(t@),
                None => old(self)@.next_task(kind) is None,
            },
    {
        let ghost before = self@;
        let task = match kind {
            StageKind::Batch => {
                if self.batch_queue.len() == 0 {
                    return None;
                }
                let t = self.batch_queue.remove(0);
                assert(self@.batch_queue =~= before.batch_queue.drop_first());
                t
            },
            StageKind::Aggregate => {
                if self.aggregate_queue.len() == 0 {
                    return None;
                }
                let t = self.aggregate_queue.remove(0);
                assert(self@.aggregate_queue =~= before.aggregate_queue.drop_first());
                t
            },
            StageKind::Final => {
                if self.final_queue.len() == 0 {
                    return None;
                }
                let t = self.final_queue.remove(0);
                assert(self@.final_queue =~= before.final_queue.drop_first());
                t
            },
        };
        proof {
            assert(self@ == before.take(kind));
            lemma_take_keeps_inv(before, kind);
        }
        Some(task)
    }

    /// Hands out the next batch task together with the context that a worker
    /// needs for it.
    pub fn take_batch_context(&mut self) -> (taken: Option<(String, BatchContext)>)
        requires
            old(self).wf(),
        ensures
            final(self).wf(),
            final(self)@ == old(self)@.take(StageKind::Batch),
            match taken {
                Some((key, ctx)) => old(self)@.next_task(StageKind::Batch) is Some && key@ == old(
                    self,
                )@.next_task(StageKind::Batch)->0.key && ctx@ == old(self)@.context_of(
                    old(self)@.next_task(StageKind::Batch)->0,
                ),
                None => old(self)@.next_task(StageKind::Batch) is None,
            },
    {
        match self.take_task(StageKind::Batch) {
            None => None,
            Some(task) => {
                match task.stage {
                    Stage::Batch(task_id, chunk_id, l2_batch_data) => {
                        let ctx = BatchContext::new(
                            self.basedir.as_str(),
                            task_id.as_str(),
                            self.task_name.as_str(),
                            chunk_id.as_str(),
                            l2_batch_data,
                            self.force_bits,
                        );
                        Some((task.key, ctx))
                    },
                    _ => {
                        proof {
                            assert(old(self)@.queue_inv(StageKind::Batch));
                            assert(old(self)@.batch_queue[0].stage.kind() == StageKind::Batch);
                        }
                        None
                    },
                }
            },
        }
    }

    /// Takes the result of a job that was handed out, and publishes it.
    /// Returns whether it was taken: a key that is unknown, waiting in a
    /// queue, or done changes nothing.
    pub fn complete(&mut self, key: &String, artifact: String) -> (taken: bool)
        requires
            old(self).wf(),
        ensures
            final(self).wf(),
            taken == old(self)@.accepts_result(key@),
            final(self)@ == old(self)@.complete(key@, artifact@),
            store_extends(old(self)@.store, final(self)@.store),
    {
        if self.store.is_ready(key) || !self.store.contains(key) || self.is_queued(key) {
            return false;
        }
        let ghost before = self@;
        self.store.publish(key, artifact);
        proof {
            lemma_complete_keeps_inv(before, key@, artifact@);
        }
        true
    }
}

/// Submitting keeps the pipeline consistent.
pub proof fn lemma_submit_keeps_inv(v: PipelineView, stage: StageView)
    requires
        v.inv(),
    ensures
        v.submit(stage).inv(),
        store_extends(v.store, v.submit(stage).store),
{
    let w = v.submit(stage);
    let key = proof_key(stage);
    if v.submit_result(stage) is Ok && !v.store.dom().contains(key) {
        let kind = stage.kind();
        assert(w.queue_inv(StageKind::Batch)) by {
            lemma_queue_inv_after_submit(v, stage, StageKind::Batch);
        }
        assert(w.queue_inv(StageKind::Aggregate)) by {
            lemma_queue_inv_after_submit(v, stage, StageKind::Aggregate);
        }
        assert(w.queue_inv(StageKind::Final)) by {
            lemma_queue_inv_after_submit(v, stage, StageKind::Final);
        }
    }
}

proof fn lemma_queue_inv_after_submit(v: PipelineView, stage: StageView, kind: StageKind)
    requires
        v.inv(),
        v.submit_result(stage) is Ok,
        !v.store.dom().contains(proof_key(stage)),
    ensures
        v.submit(stage).queue_inv(kind),
{
    let w = v.submit(stage);
    let key = proof_key(stage);
    let q = v.queue(kind);
    let r = w.queue(kind);
    assert(v.queue_inv(kind));
    if kind == stage.kind() {
        assert(r == q.push(StageTaskView { key, stage }));
        assert forall|i: int| 0 <= i < r.len() implies {
            &&& (#[trigger] r[i]).key == proof_key(r[i].stage)
            &&& r[i].stage.kind() == kind
            &&& w.store.dom().contains(r[i].key)
            &&& w.store[r[i].key] == pending_state(kind)
            &&& inputs_complete(w.store, r[i].stage)
        } by {
            if i < q.len() {
                assert(r[i] == q[i]);
            }
        }
        assert forall|i: int, j: int| 0 <= i < j < r.len() implies (#[trigger] r[i]).key != (
        #[trigger] r[j]).key by {
            assert(r[i] == q[i]);
            if j < q.len() {
                assert(r[j] == q[j]);
            }
        }
    } else {
        assert(r == q);
        assert forall|i: int| 0 <= i < r.len() implies {
            &&& (#[trigger] r[i]).key == proof_key(r[i].stage)
            &&& r[i].stage.kind() == kind
            &&& w.store.dom().contains(r[i].key)
            &&& w.store[r[i].key] == pending_state(kind)
            &&& inputs_complete(w.store, r[i].stage)
        } by {
            assert(v.store.dom().contains(q[i].key));
        }
    }
}

/// Handing out a task keeps the pipeline consistent.
pub proof fn lemma_take_keeps_inv(v: PipelineView, kind: StageKind)
    requires
        v.inv(),
    ensures
        v.take(kind).inv(),
        v.take(kind).store == v.store,
{
    let w = v.take(kind);
    if v.queue(kind).len() > 0 {
        let q = v.queue(kind);
        let r = w.queue(kind);
        assert(v.queue_inv(kind));
        assert(r == q.drop_first());
        assert forall|i: int| 0 <= i < r.len() implies {
            &&& (#[trigger] r[i]).key == proof_key(r[i].stage)
            &&& r[i].stage.kind() == kind
            &&& w.store.dom().contains(r[i].key)
            &&& w.store[r[i].key] == pending_state(kind)
            &&& inputs_complete(w.store, r[i].stage)
        } by {
            assert(r[i] == q[i + 1]);
        }
        assert forall|i: int, j: int| 0 <= i < j < r.len() implies (#[trigger] r[i]).key != (
        #[trigger] r[j]).key by {
            assert(r[i] == q[i + 1]);
            assert(r[j] == q[j + 1]);
        }
        assert(w.queue_inv(kind));
        assert(w.inv());
    }
}

/// Reporting a result keeps the pipeline consistent.
pub proof fn lemma_complete_keeps_inv(v: PipelineView, key: Seq<char>, artifact: Seq<char>)
    requires
        v.inv(),
    ensures
        v.complete(key, artifact).inv(),
        store_extends(v.store, v.complete(key, artifact).store),
{
    let w = v.complete(key, artifact);
    if v.accepts_result(key) {
        assert(w.queue_inv(StageKind::Batch)) by {
            lemma_queue_inv_after_complete(v, key, artifact, StageKind::Batch);
        }
        assert(w.queue_inv(StageKind::Aggregate)) by {
            lemma_queue_inv_after_complete(v, key, artifact, StageKind::Aggregate);
        }
        assert(w.queue_inv(StageKind::Final)) by {
            lemma_queue_inv_after_complete(v, key, artifact, StageKind::Final);
        }
    }
}

proof fn lemma_queue_inv_after_complete(
    v: PipelineView,
    key: Seq<char>,
    artifact: Seq<char>,
    kind: StageKind,
)
    requires
        v.inv(),
        v.accepts_result(key),
    ensures
        v.complete(key, artifact).queue_inv(kind),
{
    let w = v.complete(key, artifact);
    let q = v.queue(kind);
    assert(v.queue_inv(kind));
    assert(w.queue(kind) == q);
    assert forall|i: int| 0 <= i < q.len() implies {
        &&& (#[trigger] q[i]).key == proof_key(q[i].stage)
        &&& q[i].stage.kind() == kind
        &&& w.store.dom().contains(q[i].key)
        &&& w.store[q[i].key] == pending_state(kind)
        &&& inputs_complete(w.store, q[i].stage)
    } by {
        assert(queue_holds(q, q[i].key));
        assert(q[i].key != key);
    }
}

/// A task that was handed out waits in no queue.
pub proof fn lemma_taken_task_leaves_queues(v: PipelineView)
    requires
        v.inv(),
        v.batch_queue.len() > 0,
    ensures
        !v.take(StageKind::Batch).is_queued(v.batch_queue[0].key),
{
    let key = v.batch_queue[0].key;
    let w = v.take(StageKind::Batch);
    assert(v.queue_inv(StageKind::Batch));
    assert(v.queue_inv(StageKind::Aggregate));
    assert(v.queue_inv(StageKind::Final));
    assert(v.store[key] == pending_state(StageKind::Batch));
    if queue_holds(w.batch_queue, key) {
        let i = choose|i: int| 0 <= i < w.batch_queue.len() && (#[trigger] w.batch_queue[i]).key == key;
        assert(w.batch_queue[i] == v.batch_queue[i + 1]);
        assert(false);
    }
    if queue_holds(w.aggregate_queue, key) {
        let i = choose|i: int|
            0 <= i < w.aggregate_queue.len() && (#[trigger] w.aggregate_queue[i]).key == key;
        assert(v.store[v.aggregate_queue[i].key] == pending_state(StageKind::Aggregate));
        assert(false);
    }
    if queue_holds(w.final_queue, key) {
        let i = choose|i: int| 0 <= i < w.final_queue.len() && (#[trigger] w.final_queue[i]).key == key;
        assert(v.store[v.final_queue[i].key] == pending_state(StageKind::Final));
        assert(false);
    }
}

/// Handing out a task queues nothing.
pub proof fn lemma_take_shrinks_queues(v: PipelineView, kind: StageKind, key: Seq<char>)
    requires
        !v.is_queued(key),
    ensures
        !v.take(kind).is_queued(key),
{
    let w = v.take(kind);
    if v.queue(kind).len() > 0 {
        let q = v.queue(kind);
        let r = w.queue(kind);
        if queue_holds(r, key) {
            let i = choose|i: int| 0 <= i < r.len() && (#[trigger] r[i]).key == key;
            assert(r[i] == q[i + 1]);
            assert(queue_holds(q, key));
            assert(false);
        }
    }
}

/// Submitting queues no task but a new one: a key that is known and waits in
/// no queue still waits in none.
pub proof fn lemma_submit_queues_only_new(v: PipelineView, stage: StageView, key: Seq<char>)
    requires
        v.store.dom().contains(key),
        !v.is_queued(key),
    ensures
        v.submit(stage).store.dom().contains(key),
        !v.submit(stage).is_queued(key),
{
    let w = v.submit(stage);
    if v.submit_result(stage) is Ok && !v.store.dom().contains(proof_key(stage)) {
        let kind = stage.kind();
        let q = v.queue(kind);
        let r = w.queue(kind);
        if queue_holds(r, key) {
            let i = choose|i: int| 0 <= i < r.len() && (#[trigger] r[i]).key == key;
            if i < q.len() {
                assert(r[i] == q[i]);
                assert(queue_holds(q, key));
            }
            assert(false);
        }
    }
}

/// A task that waits in a queue keeps waiting when another is submitted.
proof fn lemma_submit_keeps_queued(v: PipelineView, stage: StageView, key: Seq<char>)
    requires
        v.is_queued(key),
    ensures
        v.submit(stage).is_queued(key),
{
    let w = v.submit(stage);
    if v.submit_result(stage) is Ok && !v.store.dom().contains(proof_key(stage)) {
        let kind = stage.kind();
        let q = v.queue(kind);
        let r = w.queue(kind);
        if queue_holds(q, key) {
            let i = choose|i: int| 0 <= i < q.len() && (#[trigger] q[i]).key == key;
            assert(r[i] == q[i]);
            assert(queue_holds(r, key));
        }
    }
}

/// Jobs only move forward: whatever is submitted, handed out or reported,
/// a job that is known stays known, keeps its stage, and goes from waiting
/// to handed out to done, never back.
pub proof fn lemma_jobs_move_forward(
    v: PipelineView,
    key: Seq<char>,
    stage: StageView,
    kind: StageKind,
    reported: Seq<char>,
    artifact: Seq<char>,
)
    requires
        v.inv(),
    ensures
        job_moved_forward(v.job_state(key), v.submit(stage).job_state(key)),
        job_moved_forward(v.job_state(key), v.take(kind).job_state(key)),
        job_moved_forward(v.job_state(key), v.complete(reported, artifact).job_state(key)),
{
    if v.store.dom().contains(key) {
        if v.is_queued(key) {
            lemma_submit_keeps_queued(v, stage, key);
        } else {
            lemma_submit_queues_only_new(v, stage, key);
            lemma_take_shrinks_queues(v, kind, key);
        }
    }
}

/// A job is done only after it was handed out: a report makes no job done
/// but the one it names, and that one only if it was handed out and not
/// reported before.
pub proof fn lemma_done_only_after_handed_out(
    v: PipelineView,
    key: Seq<char>,
    reported: Seq<char>,
    artifact: Seq<char>,
)
    requires
        v.complete(reported, artifact).job_state(key) is Some,
        v.complete(reported, artifact).job_state(key)->0 is Complete,
    ensures
        v.job_state(key) is Some,
        v.job_state(key)->0 is Complete || (key == reported && v.job_state(key)->0 is Running),
{
}

/// A task that is handed out is the one that waited longest in its stage,
/// and from then on its job is running.
pub proof fn lemma_take_is_first_in_first_out(v: PipelineView, kind: StageKind)
    requires
        v.inv(),
        v.queue(kind).len() > 0,
    ensures
        v.next_task(kind) == Some(v.queue(kind)[0]),
        v.take(kind).queue(kind) == v.queue(kind).subrange(1, v.queue(kind).len() as int),
        v.job_state(v.queue(kind)[0].key) == Some(JobState::Queued(kind)),
        v.take(kind).job_state(v.queue(kind)[0].key) == Some(JobState::Running(kind)),
{
    let key = v.queue(kind)[0].key;
    let w = v.take(kind);
    assert(v.queue_inv(kind));
    assert(queue_holds(v.queue(kind), key));
    assert(v.queue_inv(StageKind::Batch));
    assert(v.queue_inv(StageKind::Aggregate));
    assert(v.queue_inv(StageKind::Final));
    assert forall|other: StageKind| !queue_holds(#[trigger] w.queue(other), key) by {
        let r = w.queue(other);
        if queue_holds(r, key) {
            let i = choose|i: int| 0 <= i < r.len() && (#[trigger] r[i]).key == key;
            if other == kind {
                assert(r[i] == v.queue(kind)[i + 1]);
            } else {
                assert(r[i] == v.queue(other)[i]);
                assert(v.store[v.queue(other)[i].key] == pending_state(other));
            }
            assert(false);
        }
    }
    assert(!queue_holds(w.queue(StageKind::Batch), key));
    assert(!queue_holds(w.queue(StageKind::Aggregate), key));
    assert(!queue_holds(w.queue(StageKind::Final), key));
}

/// A proof that is done stays done, with the artifact it has: once a proof
/// was given out, every later call gives the same, whatever was submitted,
/// handed out or reported in between.
pub proof fn lemma_ready_proof_stays(v: PipelineView, w: PipelineView, key: Seq<char>)
    requires
        v.proof_result(key) is Ok,
        store_extends(v.store, w.store),
    ensures
        w.proof_result(key) == v.proof_result(key),
{
}

/// Batch keys name one chunk of one task: where task ids hold no
/// underscore, two batch tasks with the same key have the same task id and
/// the same chunk id.
pub proof fn lemma_batch_keys_unique(
    task_a: Seq<char>,
    chunk_a: Seq<char>,
    task_b: Seq<char>,
    chunk_b: Seq<char>,
)
    requires
        !task_a.contains('_'),
        !task_b.contains('_'),
        proof_key(StageView::Batch(task_a, chunk_a, Seq::empty())) == proof_key(
            StageView::Batch(task_b, chunk_b, Seq::empty()),
        ),
    ensures
        task_a == task_b,
        chunk_a == chunk_b,
{
    reveal_strlit("_chunk_");
    let sep = "_chunk_"@;
    let key_a = task_a + sep + chunk_a;
    let key_b = task_b + sep + chunk_b;
    assert(sep[0] == '_');
    assert(key_a[task_a.len() as int] == sep[0]);
    assert(key_b[task_b.len() as int] == sep[0]);
    if task_a.len() < task_b.len() {
        assert(key_b[task_a.len() as int] == task_b[task_a.len() as int]);
        assert(task_b.contains(task_b[task_a.len() as int]));
    } else if task_b.len() < task_a.len() {
        assert(key_a[task_b.len() as int] == task_a[task_b.len() as int]);
        assert(task_a.contains(task_a[task_b.len() as int]));
    }
    assert(task_a =~= key_a.subrange(0, task_a.len() as int));
    assert(task_b =~= key_b.subrange(0, task_b.len() as int));
    assert(chunk_a =~= key_a.subrange((task_a.len() + sep.len()) as int, key_a.len() as int));
    assert(chunk_b =~= key_b.subrange((task_b.len() + sep.len()) as int, key_b.len() as int));
}

/// No stage is handed out before the stage before it is complete: every
/// task that waits, and so every task that is handed out, builds on proofs
/// that are done.
pub proof fn lemma_queued_inputs_complete(v: PipelineView, kind: StageKind, i: int)
    requires
        v.inv(),
        0 <= i < v.queue(kind).len(),
    ensures
        inputs_complete(v.store, v.queue(kind)[i].stage),
        v.next_task(kind) is Some && inputs_complete(v.store, v.next_task(kind)->0.stage),
{
    assert(v.queue_inv(kind));
    assert(inputs_complete(v.store, v.queue(kind)[0].stage));
}

/// The proofs that a task builds on stay done, whatever is submitted,
/// handed out or reported later.
pub proof fn lemma_inputs_stay_complete(
    before: Map<Seq<char>, ProofState>,
    after: Map<Seq<char>, ProofState>,
    stage: StageView,
)
    requires
        inputs_complete(before, stage),
        store_extends(before, after),
    ensures
        inputs_complete(after, stage),
{
}

} // verus!
