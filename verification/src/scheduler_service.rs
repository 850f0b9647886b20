//! The worker-facing side of the service: each message of a worker becomes
//! events for the scheduler, and the scheduler's answer becomes the one
//! message that goes back. A failure ends the worker's session and no other.

use crate::pipeline::Pipeline;
use crate::scheduler::{
    AddServiceResult, AddServiceResultView, Event, EventView, Reply, ReplyView, Scheduler,
    SystemView, TakeTaskResult, TakeTaskResultView,
};
use crate::stage::StageKind;
use vstd::prelude::*;
use vstd::string::*;

verus! {

/// A worker announces itself.
#[derive(Clone, Debug, PartialEq, Eq)]
pub struct GetStatusResponse {
    pub id: String,
    pub prover_id: String,
}

/// A worker asks for a task.
#[derive(Clone, Debug, PartialEq, Eq)]
pub struct GenBatchProofResponse {
    pub id: String,
}

/// A worker delivers the proof of its task.
#[derive(Clone, Debug, PartialEq, Eq)]
pub struct GetProofResponse {
    pub id: String,
    pub recursive_proof: String,
}

/// Reserved.
#[derive(Clone, Debug, PartialEq, Eq)]
pub struct CancelRequest {}

/// What a worker sends.
#[derive(Clone, Debug, PartialEq, Eq)]
pub enum BatchProverRequest {
    GetStatusResponse(GetStatusResponse),
    GenBatchProofResponse(GenBatchProofResponse),
    GetProofResponse(GetProofResponse),
    CancelRequest(CancelRequest),
}

#[derive(Clone, Debug, PartialEq, Eq)]
pub struct BatchProverMessage {
    pub id: String,
    pub request: Option<BatchProverRequest>,
}

/// The task that a worker is told to prove.
#[derive(Clone, Debug, PartialEq, Eq)]
pub struct GenBatchProofRequest {
    pub input: Option<String>,
    pub execute_task_id: String,
    pub chunk_id: String,
}

/// What the scheduler sends.
#[derive(Clone, Debug, PartialEq, Eq)]
pub enum SchedulerResponse {
    GenBatchProofRequest(GenBatchProofRequest),
}

#[derive(Clone, Debug, PartialEq, Eq)]
pub struct SchedulerMessage {
    pub id: String,
    pub response: Option<SchedulerResponse>,
}

/// Why a worker's session ends.
#[derive(Clone, Debug, PartialEq, Eq)]
pub enum SessionError {
    /// The scheduler did not register the worker with this id.
    AddServiceFailed(String),
    /// The message is reserved and has no handler yet.
    Unimplemented,
    /// The scheduler answered an event with the answer to another.
    UnexpectedReply,
}

/// What handling a message of a worker ends in, where the session goes on.
#[derive(Debug, PartialEq, Eq)]
pub enum SessionOutcome {
    /// The worker holds a task: this message tells it which.
    Task(SchedulerMessage),
    /// There is nothing to do yet for the worker with this id. This is no
    /// error: nothing is sent, and the worker may ask again.
    NoTask(String),
    /// The message asked for nothing.
    Nothing,
}

/// What a session does next for the message it is handling.
#[derive(Debug, PartialEq, Eq)]
pub enum SessionStep {
    /// Send this event to the scheduler and wait for its answer.
    Ask(Event),
    /// Send this event to the scheduler, which answers nothing to it.
    Tell(Event),
    /// Send this message to the worker: the message is handled.
    Respond(SchedulerMessage),
    /// There is nothing to do yet for the worker with this id: nothing is
    /// sent, the session goes on, and the worker may ask again.
    NoTask(String),
    /// End the session.
    Close(SessionError),
    /// Pass the message over: nothing is sent and the session goes on.
    Skip,
}

/// The id that every message to a worker carries.
pub open spec fn scheduler_message_id() -> Seq<char> {
    "uid"@
}

/// The text that tells why a session ended.
pub open spec fn session_error_text(e: SessionError) -> Seq<char> {
    match e {
        SessionError::AddServiceFailed(service_id) => "Failed to add service: "@ + service_id@,
        SessionError::Unimplemented => "The request is not implemented"@,
        SessionError::UnexpectedReply => "The scheduler's answer does not fit the event"@,
    }
}

impl SessionError {
    /// The text that tells why the session ended.
    pub fn message(&self) -> (s: String)
        ensures
            s@ == session_error_text(*self),
    {
        match self {
            SessionError::AddServiceFailed(service_id) => String::from_str(
                "Failed to add service: ",
            ).concat(service_id.as_str()),
            SessionError::Unimplemented => String::from_str("The request is not implemented"),
            SessionError::UnexpectedReply => String::from_str(
                "The scheduler's answer does not fit the event",
            ),
        }
    }
}

/// The message that tells a worker to prove the chunk of a context.
pub open spec fn is_task_message(msg: SchedulerMessage, task_id: Seq<char>, chunk_id: Seq<char>) -> bool {
    &&& msg.id@ == scheduler_message_id()
    &&& msg.response matches Some(SchedulerResponse::GenBatchProofRequest(r))
    &&& r.input is None
    &&& r.execute_task_id@ == task_id
    &&& r.chunk_id@ == chunk_id
}

/// What the answer to `TakeTask` becomes: a task message for the context's
/// chunk, or the sign that there is nothing to do yet, with the id of the
/// worker that asked.
pub open spec fn is_take_task_outcome(res: SessionOutcome, reply: TakeTaskResultView) -> bool {
    match reply {
        TakeTaskResultView::Success(ctx) => res matches SessionOutcome::Task(msg)
            && is_task_message(msg, ctx.task_id, ctx.chunk_id),
        TakeTaskResultView::Fail(service_id) => res matches SessionOutcome::NoTask(id) && id@
            == service_id,
    }
}

/// The answer that the scheduler gives to a worker's request for a task.
pub open spec fn take_task_reply(s: SystemView, service_id: Seq<char>) -> TakeTaskResultView {
    if s.grants_task(service_id) {
        TakeTaskResultView::Success(
            s.pipeline.context_of(s.pipeline.next_task(StageKind::Batch)->0),
        )
    } else {
        TakeTaskResultView::Fail(service_id)
    }
}

/// The event by which a worker announces itself.
pub fn add_service_event(r: &GetStatusResponse) -> (event: Event)
    ensures
        event@ == (EventView::AddService { service_id: r.prover_id@ }),
{
    Event::AddService { service_id: r.prover_id.clone() }
}

/// The event by which a worker asks for a task.
pub fn take_task_event(provider_id: &String) -> (event: Event)
    ensures
        event@ == (EventView::TakeTask { service_id: provider_id@ }),
{
    Event::TakeTask { service_id: provider_id.clone() }
}

/// The event by which a worker delivers a proof.
pub fn task_result_event(r: &GetProofResponse) -> (event: Event)
    ensures
        event@ == (EventView::TaskResult {
            service_id: r.id@,
            recursive_proof: r.recursive_proof@,
        }),
{
    Event::TaskResult { service_id: r.id.clone(), recursive_proof: r.recursive_proof.clone() }
}

/// Reads the answer to `AddService`: a worker that was turned down ends
/// its session.
pub fn on_add_service_result(result: AddServiceResult) -> (res: Result<String, SessionError>)
    ensures
        match result@ {
            AddServiceResultView::Success(service_id) => res matches Ok(id) && id@ == service_id,
            AddServiceResultView::Fail(service_id) => res matches Err(
                SessionError::AddServiceFailed(id),
            ) && id@ == service_id,
        },
{
    match result {
        AddServiceResult::Success(service_id) => Ok(service_id),
        AddServiceResult::Fail(service_id) => Err(SessionError::AddServiceFailed(service_id)),
    }
}

/// Reads the answer to `TakeTask`: a task becomes the message that tells the
/// worker to prove it; a worker that gets none is told nothing, and its
/// session goes on.
pub fn on_take_task_result(result: TakeTaskResult) -> (res: SessionOutcome)
    ensures
        is_take_task_outcome(res, result@),
{
    match result {
        TakeTaskResult::Success(batch_ctx) => SessionOutcome::Task(
            SchedulerMessage {
                id: String::from_str("uid"),
                response: Some(
                    SchedulerResponse::GenBatchProofRequest(
                        GenBatchProofRequest {
                            input: None,
                            execute_task_id: batch_ctx.task_id,
                            chunk_id: batch_ctx.chunk_id,
                        },
                    ),
                ),
            },
        ),
        TakeTaskResult::Fail(service_id) => SessionOutcome::NoTask(service_id),
    }
}

/// A worker asks for a task: the scheduler handles `TakeTask`, and its
/// answer goes back as a task message. Where the worker gets no task,
/// nothing changes and the outcome names the worker: there is nothing to do
/// yet, and the worker may ask again.
pub fn handle_gen_batch_proof_response(
    provider_id: String,
    scheduler: &mut Scheduler,
    pipeline: &mut Pipeline,
) -> (res: SessionOutcome)
    requires
        old(scheduler).wf(),
        old(pipeline).wf(),
    ensures
        final(scheduler).wf(),
        final(pipeline).wf(),
        (SystemView { workers: final(scheduler)@, pipeline: final(pipeline)@ }) == (SystemView {
            workers: old(scheduler)@,
            pipeline: old(pipeline)@,
        }).step(EventView::TakeTask { service_id: provider_id@ }),
        is_take_task_outcome(
            res,
            take_task_reply(
                SystemView { workers: old(scheduler)@, pipeline: old(pipeline)@ },
                provider_id@,
            ),
        ),
        res matches SessionOutcome::NoTask(_) ==> final(scheduler)@ == old(scheduler)@
            && final(pipeline)@ == old(pipeline)@,
{
    let result = scheduler.take_task(pipeline, provider_id);
    on_take_task_result(result)
}

/// A worker announces itself: the scheduler handles `AddService` and, if the
/// worker is registered, `TakeTask`. A worker that is turned down ends its
/// session without asking for a task.
pub fn handle_get_status_response(
    r: GetStatusResponse,
    scheduler: &mut Scheduler,
    pipeline: &mut Pipeline,
) -> (res: Result<SessionOutcome, SessionError>)
    requires
        old(scheduler).wf(),
        old(pipeline).wf(),
    ensures
        final(scheduler).wf(),
        final(pipeline).wf(),
        ({
            let before = SystemView { workers: old(scheduler)@, pipeline: old(pipeline)@ };
            let after = SystemView { workers: final(scheduler)@, pipeline: final(pipeline)@ };
            let registered = before.step(EventView::AddService { service_id: r.prover_id@ });
            if r.prover_id@.len() == 0 {
                &&& after == before
                &&& res matches Err(SessionError::AddServiceFailed(id))
                &&& id@ == r.prover_id@
            } else {
                &&& after == registered.step(EventView::TakeTask { service_id: r.prover_id@ })
                &&& res matches Ok(outcome)
                &&& is_take_task_outcome(outcome, take_task_reply(registered, r.prover_id@))
            }
        }),
        old(scheduler)@.dom().contains(r.prover_id@) ==> res is Ok,
{
    proof {
        scheduler.lemma_registered_ids_not_empty();
    }
    let added = scheduler.add_service(r.prover_id);
    match on_add_service_result(added) {
        Ok(service_id) => Ok(handle_gen_batch_proof_response(service_id, scheduler, pipeline)),
        Err(e) => Err(e),
    }
}

/// A worker delivers a proof: the scheduler handles `TaskResult`, to which
/// nothing is answered, and then `TakeTask` for the same worker.
pub fn handle_get_proof_response(
    r: GetProofResponse,
    scheduler: &mut Scheduler,
    pipeline: &mut Pipeline,
) -> (res: SessionOutcome)
    requires
        old(scheduler).wf(),
        old(pipeline).wf(),
    ensures
        final(scheduler).wf(),
        final(pipeline).wf(),
        ({
            let before = SystemView { workers: old(scheduler)@, pipeline: old(pipeline)@ };
            let after = SystemView { workers: final(scheduler)@, pipeline: final(pipeline)@ };
            let reported = before.step(
                EventView::TaskResult { service_id: r.id@, recursive_proof: r.recursive_proof@ },
            );
            &&& after == reported.step(EventView::TakeTask { service_id: r.id@ })
            &&& is_take_task_outcome(res, take_task_reply(reported, r.id@))
        }),
{
    scheduler.task_result(pipeline, r.id.clone(), r.recursive_proof);
    handle_gen_batch_proof_response(r.id, scheduler, pipeline)
}

/// The first step for a message of a worker: a worker that announces
/// itself is registered, a worker that asks for a task is given one, a proof
/// is reported. A message without a request is passed over, and a cancel
/// request, which is reserved, ends the session.
pub open spec fn is_first_step(step: SessionStep, request: Option<BatchProverRequest>) -> bool {
    match request {
        None => step is Skip,
        Some(BatchProverRequest::CancelRequest(_)) => step matches SessionStep::Close(
            SessionError::Unimplemented,
        ),
        Some(BatchProverRequest::GetStatusResponse(r)) => step matches SessionStep::Ask(e) && e@
            == (EventView::AddService { service_id: r.prover_id@ }),
        Some(BatchProverRequest::GenBatchProofResponse(r)) => step matches SessionStep::Ask(e)
            && e@ == (EventView::TakeTask { service_id: r.id@ }),
        Some(BatchProverRequest::GetProofResponse(r)) => step matches SessionStep::Tell(e) && e@
            == (EventView::TaskResult { service_id: r.id@, recursive_proof: r.recursive_proof@ }),
    }
}

/// The step that follows an event and its answer: a worker that was
/// registered, or whose proof was reported, asks for a task; a task goes to
/// the worker as a message; a worker that gets no task is told nothing and
/// its session goes on; a worker that was turned down ends its session, and
/// so does an answer that does not fit the event.
pub open spec fn is_next_step(step: SessionStep, sent: EventView, reply: ReplyView) -> bool {
    match (sent, reply) {
        (
            EventView::AddService { .. },
            ReplyView::AddService(AddServiceResultView::Success(id)),
        ) => step matches SessionStep::Ask(e) && e@ == (EventView::TakeTask { service_id: id }),
        (
            EventView::AddService { .. },
            ReplyView::AddService(AddServiceResultView::Fail(id)),
        ) => step matches SessionStep::Close(SessionError::AddServiceFailed(x)) && x@ == id,
        (
            EventView::TakeTask { .. },
            ReplyView::TakeTask(TakeTaskResultView::Success(ctx)),
        ) => step matches SessionStep::Respond(m) && is_task_message(m, ctx.task_id, ctx.chunk_id),
        (
            EventView::TakeTask { .. },
            ReplyView::TakeTask(TakeTaskResultView::Fail(id)),
        ) => step matches SessionStep::NoTask(x) && x@ == id,
        (EventView::TaskResult { service_id, .. }, ReplyView::Nothing) => step matches SessionStep::Ask(
            e,
        ) && e@ == (EventView::TakeTask { service_id }),
        _ => step matches SessionStep::Close(SessionError::UnexpectedReply),
    }
}

/// Decides the first step for a message of a worker.
pub fn first_step(msg: BatchProverMessage) -> (step: SessionStep)
    ensures
        is_first_step(step, msg.request),
{
    match msg.request {
        None => SessionStep::Skip,
        Some(BatchProverRequest::CancelRequest(_)) => SessionStep::Close(
            SessionError::Unimplemented,
        ),
        Some(BatchProverRequest::GetStatusResponse(r)) => SessionStep::Ask(add_service_event(&r)),
        Some(BatchProverRequest::GenBatchProofResponse(r)) => SessionStep::Ask(
            take_task_event(&r.id),
        ),
        Some(BatchProverRequest::GetProofResponse(r)) => SessionStep::Tell(task_result_event(&r)),
    }
}

/// Decides the step that follows the event `sent` and the scheduler's
/// answer to it.
pub fn next_step(sent: &Event, reply: Reply) -> (step: SessionStep)
    ensures
        is_next_step(step, sent@, reply@),
{
    match (sent, reply) {
        (Event::AddService { .. }, Reply::AddService(result)) => {
            match on_add_service_result(result) {
                Ok(service_id) => SessionStep::Ask(take_task_event(&service_id)),
                Err(e) => SessionStep::Close(e),
            }
        },
        (Event::TakeTask { .. }, Reply::TakeTask(result)) => {
            match on_take_task_result(result) {
                SessionOutcome::Task(msg) => SessionStep::Respond(msg),
                SessionOutcome::NoTask(service_id) => SessionStep::NoTask(service_id),
                SessionOutcome::Nothing => SessionStep::Skip,
            }
        },
        (Event::TaskResult { service_id, .. }, Reply::Nothing) => SessionStep::Ask(
            take_task_event(service_id),
        ),
        _ => SessionStep::Close(SessionError::UnexpectedReply),
    }
}

/// Takes one step of a session against the scheduler: an event is handled
/// and its answer decides the next step; any other step stays as it is.
pub fn drive(step: SessionStep, scheduler: &mut Scheduler, pipeline: &mut Pipeline) -> (next:
    SessionStep)
    requires
        old(scheduler).wf(),
        old(pipeline).wf(),
    ensures
        final(scheduler).wf(),
        final(pipeline).wf(),
        ({
            let before = SystemView { workers: old(scheduler)@, pipeline: old(pipeline)@ };
            let after = SystemView { workers: final(scheduler)@, pipeline: final(pipeline)@ };
            match step {
                SessionStep::Ask(e) | SessionStep::Tell(e) => {
                    &&& after == before.step(e@)
                    &&& match before.reply(e@) {
                        Ok(reply) => is_next_step(next, e@, reply),
                        Err(_) => next matches SessionStep::Close(SessionError::Unimplemented),
                    }
                },
                _ => after == before && next == step,
            }
        }),
{
    match step {
        SessionStep::Ask(event) | SessionStep::Tell(event) => {
            match scheduler.handle_event(pipeline, event.clone()) {
                Ok(reply) => next_step(&event, reply),
                Err(_) => SessionStep::Close(SessionError::Unimplemented),
            }
        },
        other => other,
    }
}

/// What a worker's message ends in, given the answer to its `TakeTask`.
pub open spec fn is_session_outcome(
    res: Result<SessionOutcome, SessionError>,
    reply: TakeTaskResultView,
) -> bool {
    res matches Ok(outcome) && is_take_task_outcome(outcome, reply)
}

/// Handles one message of a worker, step by step, until the message is
/// answered, there is nothing to do yet for the worker, or the session
/// ends. A worker that gets no task ends no session: the outcome names the
/// worker, which may ask again. A message without a request is passed over:
/// nothing changes and nothing goes back. A cancel request is reserved: it
/// changes nothing and ends the session.
pub fn handle_worker_message(
    msg: BatchProverMessage,
    scheduler: &mut Scheduler,
    pipeline: &mut Pipeline,
) -> (res: Result<SessionOutcome, SessionError>)
    requires
        old(scheduler).wf(),
        old(pipeline).wf(),
    ensures
        final(scheduler).wf(),
        final(pipeline).wf(),
        ({
            let before = SystemView { workers: old(scheduler)@, pipeline: old(pipeline)@ };
            let after = SystemView { workers: final(scheduler)@, pipeline: final(pipeline)@ };
            match msg.request {
                None => after == before && res matches Ok(SessionOutcome::Nothing),
                Some(BatchProverRequest::CancelRequest(_)) => after == before && res matches Err(
                    SessionError::Unimplemented,
                ),
                Some(BatchProverRequest::GetStatusResponse(r)) => {
                    let registered = before.step(
                        EventView::AddService { service_id: r.prover_id@ },
                    );
                    if r.prover_id@.len() == 0 {
                        &&& after == before
                        &&& res matches Err(SessionError::AddServiceFailed(id))
                        &&& id@ == r.prover_id@
                    } else {
                        &&& after == registered.step(
                            EventView::TakeTask { service_id: r.prover_id@ },
                        )
                        &&& is_session_outcome(res, take_task_reply(registered, r.prover_id@))
                    }
                },
                Some(BatchProverRequest::GenBatchProofResponse(r)) => {
                    &&& after == before.step(EventView::TakeTask { service_id: r.id@ })
                    &&& is_session_outcome(res, take_task_reply(before, r.id@))
                },
                Some(BatchProverRequest::GetProofResponse(r)) => {
                    let reported = before.step(
                        EventView::TaskResult {
                            service_id: r.id@,
                            recursive_proof: r.recursive_proof@,
                        },
                    );
                    &&& after == reported.step(EventView::TakeTask { service_id: r.id@ })
                    &&& is_session_outcome(res, take_task_reply(reported, r.id@))
                },
            }
        }),
{
    let first = first_step(msg);
    let second = drive(first, scheduler, pipeline);
    let third = drive(second, scheduler, pipeline);
    match third {
        SessionStep::Respond(m) => Ok(SessionOutcome::Task(m)),
        SessionStep::NoTask(service_id) => Ok(SessionOutcome::NoTask(service_id)),
        SessionStep::Skip => Ok(SessionOutcome::Nothing),
        SessionStep::Close(e) => Err(e),
        SessionStep::Ask(_) | SessionStep::Tell(_) => Err(SessionError::UnexpectedReply),
    }
}

/// A worker that asks for a task while none waits is not turned away: the
/// scheduler answers `Fail` with the worker's id, nothing changes, and the
/// worker is as idle and as registered as it was, so that it may ask again
/// and gets the next task that is submitted, if it is idle and no other
/// worker asks first.
pub proof fn lemma_no_task_changes_nothing(s: SystemView, service_id: Seq<char>)
    requires
        !s.grants_task(service_id),
    ensures
        take_task_reply(s, service_id) == TakeTaskResultView::Fail(service_id),
        s.step(EventView::TakeTask { service_id }) == s,
{
}

} // verus!
