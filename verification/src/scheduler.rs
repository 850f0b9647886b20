//! The scheduler: the registry of workers and the rules by which one event
//! at a time registers a worker, hands it a task, or takes its result.

use crate::contexts::{BatchContext, BatchContextView};
use crate::pipeline::{
    lemma_complete_keeps_inv, lemma_submit_keeps_inv, lemma_submit_queues_only_new,
    lemma_take_keeps_inv, lemma_take_shrinks_queues, lemma_taken_task_leaves_queues, queue_holds,
    Pipeline, PipelineError, PipelineView,
};
use crate::proof_store::{lemma_store_extends_transitive, store_extends};
use crate::stage::{StageKind, StageView};
use crate::strmap::StrMap;
use vstd::prelude::*;

verus! {

/// Whether a worker is free, or which proof it is working on.
#[derive(Debug, PartialEq, Eq)]
pub enum ServiceStatus {
    Idle,
    /// Busy with the task whose proof goes under this key.
    Busy(String),
}

pub enum ServiceStatusView {
    Idle,
    Busy(Seq<char>),
}

impl View for ServiceStatus {
    type V = ServiceStatusView;

    open spec fn view(&self) -> ServiceStatusView {
        match self {
            ServiceStatus::Idle => ServiceStatusView::Idle,
            ServiceStatus::Busy(key) => ServiceStatusView::Busy(key@),
        }
    }
}

impl Clone for ServiceStatus {
    fn clone(&self) -> (res: Self)
        ensures
            res == *self,
    {
        match self {
            ServiceStatus::Idle => ServiceStatus::Idle,
            ServiceStatus::Busy(key) => ServiceStatus::Busy(key.clone()),
        }
    }
}

/// What the scheduler is asked to do. Events are handled one at a time.
#[derive(Debug, PartialEq, Eq)]
pub enum Event {
    /// A worker announces that it is there.
    AddService { service_id: String },
    /// A worker asks for a task.
    TakeTask { service_id: String },
    /// A worker reports the proof of the task it was given.
    TaskResult { service_id: String, recursive_proof: String },
    /// Reserved.
    Shutdown,
}

pub enum EventView {
    AddService { service_id: Seq<char> },
    TakeTask { service_id: Seq<char> },
    TaskResult { service_id: Seq<char>, recursive_proof: Seq<char> },
    Shutdown,
}

impl View for Event {
    type V = EventView;

    open spec fn view(&self) -> EventView {
        match self {
            Event::AddService { service_id } => EventView::AddService { service_id: service_id@ },
            Event::TakeTask { service_id } => EventView::TakeTask { service_id: service_id@ },
            Event::TaskResult { service_id, recursive_proof } => EventView::TaskResult {
                service_id: service_id@,
                recursive_proof: recursive_proof@,
            },
            Event::Shutdown => EventView::Shutdown,
        }
    }
}

impl Clone for Event {
    fn clone(&self) -> (res: Self)
        ensures
            res == *self,
    {
        match self {
            Event::AddService { service_id } => Event::AddService {
                service_id: service_id.clone(),
            },
            Event::TakeTask { service_id } => Event::TakeTask { service_id: service_id.clone() },
            Event::TaskResult { service_id, recursive_proof } => Event::TaskResult {
                service_id: service_id.clone(),
                recursive_proof: recursive_proof.clone(),
            },
            Event::Shutdown => Event::Shutdown,
        }
    }
}

/// The answer to `AddService`, with the worker's id either way.
#[derive(Debug, PartialEq, Eq)]
pub enum AddServiceResult {
    Success(String),
    Fail(String),
}

pub enum AddServiceResultView {
    Success(Seq<char>),
    Fail(Seq<char>),
}

impl View for AddServiceResult {
    type V = AddServiceResultView;

    open spec fn view(&self) -> AddServiceResultView {
        match self {
            AddServiceResult::Success(id) => AddServiceResultView::Success(id@),
            AddServiceResult::Fail(id) => AddServiceResultView::Fail(id@),
        }
    }
}

/// The answer to `TakeTask`: the context of the task that the worker now
/// holds, or the worker's id when it gets none.
#[derive(Debug, PartialEq, Eq)]
pub enum TakeTaskResult {
    Success(BatchContext),
    Fail(String),
}

pub enum TakeTaskResultView {
    Success(BatchContextView),
    Fail(Seq<char>),
}

impl View for TakeTaskResult {
    type V = TakeTaskResultView;

    open spec fn view(&self) -> TakeTaskResultView {
        match self {
            TakeTaskResult::Success(ctx) => TakeTaskResultView::Success(ctx@),
            TakeTaskResult::Fail(id) => TakeTaskResultView::Fail(id@),
        }
    }
}

/// What goes back to the sender of an event.
#[derive(Debug, PartialEq, Eq)]
pub enum Reply {
    AddService(AddServiceResult),
    TakeTask(TakeTaskResult),
    /// Nothing goes back: a result is delivered through the proof store.
    Nothing,
}

pub enum ReplyView {
    AddService(AddServiceResultView),
    TakeTask(TakeTaskResultView),
    Nothing,
}

impl View for Reply {
    type V = ReplyView;

    open spec fn view(&self) -> ReplyView {
        match self {
            Reply::AddService(r) => ReplyView::AddService(r@),
            Reply::TakeTask(r) => ReplyView::TakeTask(r@),
            Reply::Nothing => ReplyView::Nothing,
        }
    }
}

/// Why an event was not handled.
#[derive(Clone, Copy, Debug, PartialEq, Eq, Structural)]
pub enum SchedulerError {
    /// The event is reserved and has no handler yet.
    Unimplemented,
}

/// The answer to a worker that announces itself: an empty id is turned down.
pub open spec fn add_service_reply(service_id: Seq<char>) -> AddServiceResultView {
    if service_id.len() == 0 {
        AddServiceResultView::Fail(service_id)
    } else {
        AddServiceResultView::Success(service_id)
    }
}

/// The workers after `service_id` announced itself: a new worker is idle, a
/// worker that is registered stays as it is.
pub open spec fn registered(
    workers: Map<Seq<char>, ServiceStatusView>,
    service_id: Seq<char>,
) -> Map<Seq<char>, ServiceStatusView> {
    if service_id.len() == 0 || workers.dom().contains(service_id) {
        workers
    } else {
        workers.insert(service_id, ServiceStatusView::Idle)
    }
}

/// Whether no worker is registered under an empty id.
pub open spec fn ids_not_empty(workers: Map<Seq<char>, ServiceStatusView>) -> bool {
    forall|w: Seq<char>| #[trigger] workers.dom().contains(w) ==> w.len() > 0
}

/// The workers and the pipeline that one scheduler works with.
pub struct SystemView {
    pub workers: Map<Seq<char>, ServiceStatusView>,
    pub pipeline: PipelineView,
}

impl SystemView {
    /// Whether `service_id` is registered and free.
    pub open spec fn is_idle(self, service_id: Seq<char>) -> bool {
        self.workers.dom().contains(service_id) && self.workers[service_id] is Idle
    }

    /// Whether `service_id` is registered and holds a task.
    pub open spec fn is_busy(self, service_id: Seq<char>) -> bool {
        self.workers.dom().contains(service_id) && self.workers[service_id] is Busy
    }

    /// Whether a worker's request for a task is granted: the worker is free
    /// and a batch task waits.
    pub open spec fn grants_task(self, service_id: Seq<char>) -> bool {
        self.is_idle(service_id) && self.pipeline.next_task(StageKind::Batch) is Some
    }

    /// The answer to an event.
    pub open spec fn reply(self, event: EventView) -> Result<ReplyView, SchedulerError> {
        match event {
            EventView::AddService { service_id } => Ok(
                ReplyView::AddService(add_service_reply(service_id)),
            ),
            EventView::TakeTask { service_id } => Ok(
                ReplyView::TakeTask(
                    if self.grants_task(service_id) {
                        TakeTaskResultView::Success(
                            self.pipeline.context_of(
                                self.pipeline.next_task(StageKind::Batch)->0,
                            ),
                        )
                    } else {
                        TakeTaskResultView::Fail(service_id)
                    },
                ),
            ),
            EventView::TaskResult { .. } => Ok(ReplyView::Nothing),
            EventView::Shutdown => Err(SchedulerError::Unimplemented),
        }
    }

    /// The state after an event.
    pub open spec fn step(self, event: EventView) -> SystemView {
        match event {
            EventView::AddService { service_id } => SystemView {
                workers: registered(self.workers, service_id),
                ..self
            },
            EventView::TakeTask { service_id } => {
                if self.grants_task(service_id) {
                    SystemView {
                        workers: self.workers.insert(
                            service_id,
                            ServiceStatusView::Busy(
                                self.pipeline.next_task(StageKind::Batch)->0.key,
                            ),
                        ),
                        pipeline: self.pipeline.take(StageKind::Batch),
                    }
                } else {
                    self
                }
            },
            EventView::TaskResult { service_id, recursive_proof } => {
                if self.is_busy(service_id) {
                    SystemView {
                        workers: self.workers.insert(service_id, ServiceStatusView::Idle),
                        pipeline: self.pipeline.complete(
                            self.workers[service_id]->Busy_0,
                            recursive_proof,
                        ),
                    }
                } else {
                    self
                }
            },
            EventView::Shutdown => self,
        }
    }

    /// What holds of every system that events and pipeline calls lead to:
    /// the pipeline is consistent, the workers are finitely many and none
    /// has an empty id, and a task that a worker holds is known, waits in
    /// no queue, and is held by no other worker.
    pub open spec fn inv(self) -> bool {
        &&& self.pipeline.inv()
        &&& self.workers.dom().finite()
        &&& ids_not_empty(self.workers)
        &&& forall|w: Seq<char>| #[trigger]
            self.is_busy(w) ==> self.pipeline.store.dom().contains(self.workers[w]->Busy_0)
                && !self.pipeline.is_queued(self.workers[w]->Busy_0)
        &&& forall|w1: Seq<char>, w2: Seq<char>|
            #[trigger] self.is_busy(w1) && #[trigger] self.is_busy(w2) && w1 != w2
                ==> self.workers[w1]->Busy_0 != self.workers[w2]->Busy_0
    }
}

/// The registry of workers: each worker's status under its id.
pub struct ServiceRegistry {
    entries: StrMap<ServiceStatus>,
}

impl View for ServiceRegistry {
    type V = Map<Seq<char>, ServiceStatusView>;

    closed spec fn view(&self) -> Map<Seq<char>, ServiceStatusView> {
        self.entries@.map_values(|s: ServiceStatus| s@)
    }
}

impl ServiceRegistry {
    pub closed spec fn wf(&self) -> bool {
        self.entries.wf()
    }

    pub fn new() -> (r: Self)
        ensures
            r.wf(),
            r@ == Map::<Seq<char>, ServiceStatusView>::empty(),
    {
        let r = ServiceRegistry { entries: StrMap::new() };
        assert(r@ =~= Map::<Seq<char>, ServiceStatusView>::empty());
        r
    }

    /// The registered workers are finitely many.
    pub proof fn lemma_finite(&self)
        requires
            self.wf(),
        ensures
            self@.dom().finite(),
    {
        self.entries.lemma_finite();
        assert(self@.dom() =~= self.entries@.dom());
    }

    /// The number of registered workers.
    pub fn len(&self) -> (n: usize)
        requires
            self.wf(),
        ensures
            n == self@.dom().len(),
            self@.dom().finite(),
    {
        assert(self@.dom() =~= self.entries@.dom());
        self.entries.len()
    }

    pub fn contains(&self, service_id: &String) -> (b: bool)
        requires
            self.wf(),
        ensures
            b == self@.dom().contains(service_id@),
    {
        self.entries.contains_key(service_id)
    }

    /// The status of a worker, if it is registered.
    pub fn status(&self, service_id: &String) -> (status: Option<ServiceStatus>)
        requires
            self.wf(),
        ensures
            match status {
                Some(s) => self@.dom().contains(service_id@) && s@ == self@[service_id@],
                None => !self@.dom().contains(service_id@),
            },
    {
        match self.entries.get(service_id) {
            Some(s) => Some(s.clone()),
            None => None,
        }
    }

    /// Sets the status of a worker, registering it if it is new.
    pub fn set(&mut self, service_id: String, status: ServiceStatus)
        requires
            old(self).wf(),
        ensures
            final(self).wf(),
            final(self)@ == old(self)@.insert(service_id@, status@),
    {
        let ghost id = service_id@;
        let ghost s = status@;
        self.entries.insert(service_id, status);
        assert(self@ =~= old(self)@.insert(id, s));
    }
}

/// The single owner of the registry. It is handed the pipeline for the time
/// of one event.
pub struct Scheduler {
    registry: ServiceRegistry,
}

impl View for Scheduler {
    type V = Map<Seq<char>, ServiceStatusView>;

    closed spec fn view(&self) -> Map<Seq<char>, ServiceStatusView> {
        self.registry@
    }
}

impl Scheduler {
    /// The scheduler is consistent; no worker is registered under an empty
    /// id.
    pub closed spec fn wf(&self) -> bool {
        self.registry.wf() && ids_not_empty(self.registry@)
    }

    /// No worker is registered under an empty id.
    pub proof fn lemma_registered_ids_not_empty(&self)
        requires
            self.wf(),
        ensures
            ids_not_empty(self@),
            self@.dom().finite(),
    {
        self.registry.lemma_finite();
    }

    pub fn new() -> (s: Self)
        ensures
            s.wf(),
            s@ == Map::<Seq<char>, ServiceStatusView>::empty(),
    {
        Scheduler { registry: ServiceRegistry::new() }
    }

    /// The number of registered workers.
    pub fn service_count(&self) -> (n: usize)
        requires
            self.wf(),
        ensures
            n == self@.dom().len(),
            self@.dom().finite(),
    {
        self.registry.len()
    }

    /// The status of a worker, if it is registered.
    pub fn service_status(&self, service_id: &String) -> (status: Option<ServiceStatus>)
        requires
            self.wf(),
        ensures
            match status {
                Some(s) => self@.dom().contains(service_id@) && s@ == self@[service_id@],
                None => !self@.dom().contains(service_id@),
            },
    {
        self.registry.status(service_id)
    }

    /// Registers a worker as idle. A worker that is registered stays as it
    /// is; an empty id is turned down.
    pub fn add_service(&mut self, service_id: String) -> (res: AddServiceResult)
        requires
            old(self).wf(),
        ensures
            final(self).wf(),
            final(self)@ == registered(old(self)@, service_id@),
            res@ == add_service_reply(service_id@),
            old(self)@.dom().contains(service_id@) ==> res@ == AddServiceResultView::Success(
                service_id@,
            ) && final(self)@ == old(self)@,
    {
        if service_id.as_str().is_empty() {
            return AddServiceResult::Fail(service_id);
        }
        if !self.registry.contains(&service_id) {
            self.registry.set(service_id.clone(), ServiceStatus::Idle);
        }
        AddServiceResult::Success(service_id)
    }

    /// Hands the next batch task to a worker that is idle.
    pub fn take_task(&mut self, pipeline: &mut Pipeline, service_id: String) -> (res:
        TakeTaskResult)
        requires
            old(self).wf(),
            old(pipeline).wf(),
        ensures
            final(self).wf(),
            final(pipeline).wf(),
            (SystemView { workers: final(self)@, pipeline: final(pipeline)@ }) == (SystemView {
                workers: old(self)@,
                pipeline: old(pipeline)@,
            }).step(EventView::TakeTask { service_id: service_id@ }),
            Ok::<ReplyView, SchedulerError>(ReplyView::TakeTask(res@)) == (SystemView {
                workers: old(self)@,
                pipeline: old(pipeline)@,
            }).reply(EventView::TakeTask { service_id: service_id@ }),
            (SystemView { workers: old(self)@, pipeline: old(pipeline)@ }).inv() ==> (SystemView {
                workers: final(self)@,
                pipeline: final(pipeline)@,
            }).inv(),
    {
        proof {
            let before = SystemView { workers: self@, pipeline: pipeline@ };
            if before.inv() {
                lemma_step_keeps_inv(before, EventView::TakeTask { service_id: service_id@ });
            }
        }
        match self.registry.status(&service_id) {
            Some(ServiceStatus::Idle) => {},
            _ => {
                return TakeTaskResult::Fail(service_id);
            },
        }
        match pipeline.take_batch_context() {
            None => TakeTaskResult::Fail(service_id),
            Some((key, ctx)) => {
                self.registry.set(service_id, ServiceStatus::Busy(key));
                TakeTaskResult::Success(ctx)
            },
        }
    }

    /// Takes the proof that a busy worker reports: the worker is idle again
    /// and the proof is published under the key of its task. Returns whether
    /// the worker was busy.
    pub fn task_result(
        &mut self,
        pipeline: &mut Pipeline,
        service_id: String,
        recursive_proof: String,
    ) -> (was_busy: bool)
        requires
            old(self).wf(),
            old(pipeline).wf(),
        ensures
            final(self).wf(),
            final(pipeline).wf(),
            was_busy == (SystemView { workers: old(self)@, pipeline: old(pipeline)@ }).is_busy(
                service_id@,
            ),
            (SystemView { workers: final(self)@, pipeline: final(pipeline)@ }) == (SystemView {
                workers: old(self)@,
                pipeline: old(pipeline)@,
            }).step(
                EventView::TaskResult {
                    service_id: service_id@,
                    recursive_proof: recursive_proof@,
                },
            ),
            store_extends(old(pipeline)@.store, final(pipeline)@.store),
            (SystemView { workers: old(self)@, pipeline: old(pipeline)@ }).inv() ==> (SystemView {
                workers: final(self)@,
                pipeline: final(pipeline)@,
            }).inv(),
    {
        proof {
            let before = SystemView { workers: self@, pipeline: pipeline@ };
            if before.inv() {
                lemma_step_keeps_inv(
                    before,
                    EventView::TaskResult {
                        service_id: service_id@,
                        recursive_proof: recursive_proof@,
                    },
                );
            }
        }
        match self.registry.status(&service_id) {
            Some(ServiceStatus::Busy(key)) => {
                pipeline.complete(&key, recursive_proof);
                self.registry.set(service_id, ServiceStatus::Idle);
                true
            },
            _ => false,
        }
    }

    /// Handles one event: the state moves as `step` says and the answer is
    /// what `reply` says. `Shutdown` is reserved: it is turned down and
    /// changes nothing.
    pub fn handle_event(&mut self, pipeline: &mut Pipeline, event: Event) -> (res: Result<
        Reply,
        SchedulerError,
    >)
        requires
            old(self).wf(),
            old(pipeline).wf(),
        ensures
            final(self).wf(),
            final(pipeline).wf(),
            (SystemView { workers: final(self)@, pipeline: final(pipeline)@ }) == (SystemView {
                workers: old(self)@,
                pipeline: old(pipeline)@,
            }).step(event@),
            match res {
                Ok(reply) => Ok::<ReplyView, SchedulerError>(reply@) == (SystemView {
                    workers: old(self)@,
                    pipeline: old(pipeline)@,
                }).reply(event@),
                Err(e) => Err::<ReplyView, SchedulerError>(e) == (SystemView {
                    workers: old(self)@,
                    pipeline: old(pipeline)@,
                }).reply(event@),
            },
            store_extends(old(pipeline)@.store, final(pipeline)@.store),
            (SystemView { workers: old(self)@, pipeline: old(pipeline)@ }).inv() ==> (SystemView {
                workers: final(self)@,
                pipeline: final(pipeline)@,
            }).inv(),
    {
        let ghost before = SystemView { workers: self@, pipeline: pipeline@ };
        proof {
            lemma_step_keeps_ready(before, event@);
            if before.inv() {
                lemma_step_keeps_inv(before, event@);
            }
        }
        match event {
            Event::AddService { service_id } => {
                let r = self.add_service(service_id);
                Ok(Reply::AddService(r))
            },
            Event::TakeTask { service_id } => {
                let r = self.take_task(pipeline, service_id);
                Ok(Reply::TakeTask(r))
            },
            Event::TaskResult { service_id, recursive_proof } => {
                self.task_result(pipeline, service_id, recursive_proof);
                Ok(Reply::Nothing)
            },
            Event::Shutdown => Err(SchedulerError::Unimplemented),
        }
    }
}

/// No event takes a proof back: every entry of the store stays, and a ready
/// entry stays as it is.
pub proof fn lemma_step_keeps_ready(s: SystemView, event: EventView)
    ensures
        store_extends(s.pipeline.store, s.step(event).pipeline.store),
{
}

/// Announcing a worker that is registered changes nothing: the registry
/// keeps its size and the worker keeps its status.
pub proof fn lemma_add_service_idempotent(s: SystemView, service_id: Seq<char>)
    ensures
        s.workers.dom().contains(service_id) ==> s.step(
            EventView::AddService { service_id },
        ) == s,
        s.step(EventView::AddService { service_id }).step(EventView::AddService { service_id })
            == s.step(EventView::AddService { service_id }),
{
}

/// A busy worker gets no second task: its request is answered with `Fail`
/// and changes nothing.
pub proof fn lemma_busy_worker_gets_nothing(s: SystemView, service_id: Seq<char>)
    requires
        s.is_busy(service_id),
    ensures
        s.reply(EventView::TakeTask { service_id }) == Ok::<ReplyView, SchedulerError>(
            ReplyView::TakeTask(TakeTaskResultView::Fail(service_id)),
        ),
        s.step(EventView::TakeTask { service_id }) == s,
{
}

/// A busy worker stays busy with the same task until it reports a result:
/// no event of another kind, and no event of another worker, frees it.
pub proof fn lemma_busy_until_result(s: SystemView, service_id: Seq<char>, event: EventView)
    requires
        s.is_busy(service_id),
        !(event matches EventView::TaskResult { service_id: reporter, .. } && reporter
            == service_id),
    ensures
        s.step(event).is_busy(service_id),
        s.step(event).workers[service_id] == s.workers[service_id],
{
}

/// A result frees the worker that reports it.
pub proof fn lemma_result_frees_worker(
    s: SystemView,
    service_id: Seq<char>,
    recursive_proof: Seq<char>,
)
    requires
        s.is_busy(service_id),
    ensures
        s.step(EventView::TaskResult { service_id, recursive_proof }).is_idle(service_id),
{
}

/// Every event keeps the system consistent.
pub proof fn lemma_step_keeps_inv(s: SystemView, event: EventView)
    requires
        s.inv(),
    ensures
        s.step(event).inv(),
{
    let t = s.step(event);
    match event {
        EventView::AddService { service_id } => {
            assert forall|w: Seq<char>| #[trigger] t.is_busy(w) implies s.is_busy(w) by {}
        },
        EventView::TakeTask { service_id } => {
            if s.grants_task(service_id) {
                let task = s.pipeline.next_task(StageKind::Batch)->0;
                lemma_take_keeps_inv(s.pipeline, StageKind::Batch);
                lemma_taken_task_leaves_queues(s.pipeline);
                assert(s.pipeline.queue_inv(StageKind::Batch));
                assert(queue_holds(s.pipeline.batch_queue, task.key));
                assert forall|w: Seq<char>| #[trigger] t.is_busy(w) implies t.pipeline.store.dom().contains(
                    t.workers[w]->Busy_0,
                ) && !t.pipeline.is_queued(t.workers[w]->Busy_0) by {
                    if w != service_id {
                        assert(s.is_busy(w));
                        lemma_take_shrinks_queues(s.pipeline, StageKind::Batch, s.workers[w]->Busy_0);
                    }
                }
                assert forall|w1: Seq<char>, w2: Seq<char>|
                    #[trigger] t.is_busy(w1) && #[trigger] t.is_busy(w2) && w1
                        != w2 implies t.workers[w1]->Busy_0 != t.workers[w2]->Busy_0 by {
                    if w1 != service_id {
                        assert(s.is_busy(w1));
                    }
                    if w2 != service_id {
                        assert(s.is_busy(w2));
                    }
                }
            }
        },
        EventView::TaskResult { service_id, recursive_proof } => {
            if s.is_busy(service_id) {
                let key = s.workers[service_id]->Busy_0;
                lemma_complete_keeps_inv(s.pipeline, key, recursive_proof);
                assert forall|w: Seq<char>| #[trigger] t.is_busy(w) implies t.pipeline.store.dom().contains(
                    t.workers[w]->Busy_0,
                ) && !t.pipeline.is_queued(t.workers[w]->Busy_0) by {
                    assert(s.is_busy(w));
                }
                assert forall|w1: Seq<char>, w2: Seq<char>|
                    #[trigger] t.is_busy(w1) && #[trigger] t.is_busy(w2) && w1
                        != w2 implies t.workers[w1]->Busy_0 != t.workers[w2]->Busy_0 by {
                    assert(s.is_busy(w1));
                    assert(s.is_busy(w2));
                }
            }
        },
        EventView::Shutdown => {},
    }
}

/// Submitting a task to the pipeline keeps the system consistent: a task
/// that a worker holds is not queued again.
pub proof fn lemma_submit_keeps_system_inv(s: SystemView, stage: StageView)
    requires
        s.inv(),
    ensures
        (SystemView { pipeline: s.pipeline.submit(stage), ..s }).inv(),
{
    let t = SystemView { pipeline: s.pipeline.submit(stage), ..s };
    lemma_submit_keeps_inv(s.pipeline, stage);
    assert forall|w: Seq<char>| #[trigger] t.is_busy(w) implies t.pipeline.store.dom().contains(
        t.workers[w]->Busy_0,
    ) && !t.pipeline.is_queued(t.workers[w]->Busy_0) by {
        assert(s.is_busy(w));
        lemma_submit_queues_only_new(s.pipeline, stage, s.workers[w]->Busy_0);
    }
    assert forall|w1: Seq<char>, w2: Seq<char>|
        #[trigger] t.is_busy(w1) && #[trigger] t.is_busy(w2) && w1 != w2 implies t.workers[w1]->Busy_0
        != t.workers[w2]->Busy_0 by {
        assert(s.is_busy(w1));
        assert(s.is_busy(w2));
    }
}

/// One task goes to one worker: when two idle workers ask for the only
/// waiting task, the first to be handled gets it and the second is answered
/// with `Fail`, whichever of the two comes first.
pub proof fn lemma_single_task_single_winner(s: SystemView, first: Seq<char>, second: Seq<char>)
    requires
        s.inv(),
        first != second,
        s.is_idle(first),
        s.is_idle(second),
        s.pipeline.batch_queue.len() == 1,
    ensures
        s.reply(EventView::TakeTask { service_id: first }) == Ok::<ReplyView, SchedulerError>(
            ReplyView::TakeTask(
                TakeTaskResultView::Success(s.pipeline.context_of(s.pipeline.batch_queue[0])),
            ),
        ),
        s.step(EventView::TakeTask { service_id: first }).reply(
            EventView::TakeTask { service_id: second },
        ) == Ok::<ReplyView, SchedulerError>(
            ReplyView::TakeTask(TakeTaskResultView::Fail(second)),
        ),
        s.step(EventView::TakeTask { service_id: first }).step(
            EventView::TakeTask { service_id: second },
        ) == s.step(EventView::TakeTask { service_id: first }),
{
    let t = s.step(EventView::TakeTask { service_id: first });
    assert(s.grants_task(first));
    assert(t.pipeline.batch_queue == s.pipeline.batch_queue.drop_first());
    assert(t.pipeline.batch_queue.len() == 0);
}

/// A task is handed out once: after a worker was given a task, the task
/// waits in no queue, so no later request is answered with it, and the
/// worker that holds it is the only one.
pub proof fn lemma_task_handed_out_once(s: SystemView, service_id: Seq<char>)
    requires
        s.inv(),
        s.grants_task(service_id),
    ensures
        ({
            let key = s.pipeline.batch_queue[0].key;
            let t = s.step(EventView::TakeTask { service_id });
            &&& t.workers[service_id] == ServiceStatusView::Busy(key)
            &&& !t.pipeline.is_queued(key)
            &&& forall|w: Seq<char>| #[trigger]
                t.is_busy(w) && w != service_id ==> t.workers[w]->Busy_0 != key
        }),
{
    let key = s.pipeline.batch_queue[0].key;
    let t = s.step(EventView::TakeTask { service_id });
    lemma_step_keeps_inv(s, EventView::TakeTask { service_id });
    assert(t.is_busy(service_id));
    assert forall|w: Seq<char>| #[trigger] t.is_busy(w) && w != service_id implies t.workers[w]->Busy_0
        != key by {}
}

/// A scheduler that has seen no event, with any consistent pipeline, makes
/// a consistent system.
pub proof fn lemma_no_workers_inv(pipeline: PipelineView)
    requires
        pipeline.inv(),
    ensures
        (SystemView { workers: Map::empty(), pipeline }).inv(),
{
}

/// The registry grows by one worker when a new worker announces itself, and
/// by none when the worker is registered or its id is empty.
pub proof fn lemma_registry_size(workers: Map<Seq<char>, ServiceStatusView>, service_id: Seq<char>)
    requires
        workers.dom().finite(),
    ensures
        registered(workers, service_id).dom().finite(),
        registered(workers, service_id).dom().len() == if service_id.len() == 0
            || workers.dom().contains(service_id) {
            workers.dom().len()
        } else {
            workers.dom().len() + 1
        },
{
}

/// The result of a busy worker is published under the key of its task:
/// unless that proof was published before, it is ready afterwards with the
/// proof that the worker reported, and asking for it gives that proof.
pub proof fn lemma_result_is_published(
    s: SystemView,
    service_id: Seq<char>,
    recursive_proof: Seq<char>,
)
    requires
        s.inv(),
        s.is_busy(service_id),
        !s.pipeline.store[s.workers[service_id]->Busy_0].ready,
    ensures
        ({
            let key = s.workers[service_id]->Busy_0;
            let t = s.step(EventView::TaskResult { service_id, recursive_proof });
            &&& t.pipeline.store.dom().contains(key)
            &&& t.pipeline.store[key].ready
            &&& t.pipeline.store[key].value == recursive_proof
            &&& t.pipeline.proof_result(key) == Ok::<Seq<char>, PipelineError>(recursive_proof)
        }),
{
}

/// The state after a run of events, handled one at a time in order.
pub open spec fn run(s: SystemView, events: Seq<EventView>) -> SystemView
    decreases events.len(),
{
    if events.len() == 0 {
        s
    } else {
        run(s.step(events[0]), events.drop_first())
    }
}

/// Whatever events arrive, in whatever order, the system stays consistent
/// and no proof is taken back.
pub proof fn lemma_run_keeps_inv(s: SystemView, events: Seq<EventView>)
    requires
        s.inv(),
    ensures
        run(s, events).inv(),
        store_extends(s.pipeline.store, run(s, events).pipeline.store),
    decreases events.len(),
{
    if events.len() > 0 {
        let t = s.step(events[0]);
        lemma_step_keeps_inv(s, events[0]);
        lemma_step_keeps_ready(s, events[0]);
        lemma_run_keeps_inv(t, events.drop_first());
        lemma_store_extends_transitive(
            s.pipeline.store,
            t.pipeline.store,
            run(s, events).pipeline.store,
        );
    }
}

/// A busy worker holds its task, and gets no other, through any run of
/// events in which it reports no result.
pub proof fn lemma_busy_through_run(s: SystemView, service_id: Seq<char>, events: Seq<EventView>)
    requires
        s.is_busy(service_id),
        forall|i: int|
            0 <= i < events.len() ==> !(#[trigger] events[i] matches EventView::TaskResult {
                service_id: reporter,
                ..
            } && reporter == service_id),
    ensures
        run(s, events).is_busy(service_id),
        run(s, events).workers[service_id] == s.workers[service_id],
    decreases events.len(),
{
    if events.len() > 0 {
        lemma_busy_until_result(s, service_id, events[0]);
        let rest = events.drop_first();
        assert forall|i: int| 0 <= i < rest.len() implies !(#[trigger] rest[i] matches EventView::TaskResult {
            service_id: reporter,
            ..
        } && reporter == service_id) by {
            assert(rest[i] == events[i + 1]);
        }
        lemma_busy_through_run(s.step(events[0]), service_id, rest);
    }
}

/// A worker that is registered and announces itself again is answered with
/// `Success` and its own id, and nothing changes: the registry keeps its
/// size, holds the worker once, and the worker keeps its status.
pub proof fn lemma_reannounce_is_success(s: SystemView, service_id: Seq<char>)
    requires
        s.inv(),
        s.workers.dom().contains(service_id),
    ensures
        s.reply(EventView::AddService { service_id }) == Ok::<ReplyView, SchedulerError>(
            ReplyView::AddService(AddServiceResultView::Success(service_id)),
        ),
        s.step(EventView::AddService { service_id }) == s,
{
}

} // verus!
