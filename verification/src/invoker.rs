//! The trigger invoker: what becomes of one fired trigger.
//!
//! The store and the engine are driven from outside this library. The
//! invoker decides what is asked of them next and what their answers mean:
//! the driver performs each `InvokerRequest`, hands back the `InvokerReply`,
//! and goes on until it is told to `Finish`.

use crate::deno::bridge::StdioMsg;
use crate::deno::runtime::{spec_message, RuntimeError, RuntimeErrorView};
use crate::json::{json_of_string_map, texts_view};
use crate::models::function::Function;
use crate::models::trigger::Trigger;
use crate::models::trigger_log::{NewTriggerLog, TriggerLog};
use crate::models::trigger_queue::TriggerQueue;
use vstd::prelude::*;

verus! {

/// What one run of a function came to: its result as JSON or its failure,
/// and everything it printed, oldest first.
#[derive(Debug)]
pub struct Invocation {
    pub outcome: Result<String, RuntimeError>,
    pub output: Vec<StdioMsg>,
}

/// What the log keeps of an outcome: the result, or what the failure said.
pub open spec fn outcome_payload(outcome: Result<String, RuntimeError>) -> Seq<char> {
    match outcome {
        Ok(text) => text@,
        Err(error) => spec_message(error@),
    }
}

/// What the log calls an outcome.
pub open spec fn outcome_status(outcome: Result<String, RuntimeError>) -> Seq<char> {
    match outcome {
        Ok(_) => "completed"@,
        Err(_) => "failed"@,
    }
}

/// The texts of a run of messages, in the same order.
pub open spec fn output_lines(output: Seq<StdioMsg>) -> Seq<Seq<char>> {
    output.map_values(|message: StdioMsg| message.msg@)
}

/// Whether `entry` is the log entry of an invocation for a user and a
/// trigger: `completed` with the result where the run came to one, `failed`
/// with what the failure said where it did not, and in both cases every
/// line that was printed, in the order of printing.
pub open spec fn is_log_entry(
    entry: NewTriggerLog,
    invocation: Invocation,
    user_id: u32,
    trigger_id: u32,
) -> bool {
    &&& entry.payload@ == outcome_payload(invocation.outcome)
    &&& entry.status@ == outcome_status(invocation.outcome)
    &&& texts_view(entry.console@) == output_lines(invocation.output@)
    &&& entry.user_id == user_id
    &&& entry.trigger_id == trigger_id
}

/// The log entry of an invocation.
pub fn log_entry(invocation: Invocation, user_id: u32, trigger_id: u32) -> (entry: NewTriggerLog)
    ensures
        is_log_entry(entry, invocation, user_id, trigger_id),
{
    let (payload, status) = match &invocation.outcome {
        Ok(text) => (text.clone(), "completed".to_owned()),
        Err(error) => (error.message(), "failed".to_owned()),
    };
    let ghost printed = invocation.output@;
    let mut console: Vec<String> = Vec::new();
    assert(texts_view(console@) =~= output_lines(printed.take(0)));
    for message in it: invocation.output
        invariant
            it.seq() == printed,
            texts_view(console@) == output_lines(printed.take(it.index() as int)),
    {
        let ghost seen = printed.take(it.index() as int);
        let ghost lines = console@;
        assert(printed.take(it.index() + 1) =~= seen.push(message));
        console.push(message.msg);
        assert(texts_view(console@) =~= texts_view(lines).push(message.msg@));
        assert(output_lines(seen.push(message)) =~= output_lines(seen).push(message.msg@));
    }
    assert(printed.take(printed.len() as int) =~= printed);
    NewTriggerLog { payload, console, status, user_id, trigger_id }
}

/// Why a fired trigger could not be seen through.
#[derive(Debug)]
pub enum InvokerError {
    /// The store failed; the text says how.
    Store(String),
    /// The trigger's parameters cannot be written as JSON.
    Params,
    /// The function's runtime could not be built.
    Runtime(RuntimeError),
    /// The invoker was handed an answer to a question it had not asked.
    OutOfOrder,
}

/// An invoker error as a mathematical value.
pub enum InvokerErrorView {
    Store(Seq<char>),
    Params,
    Runtime(RuntimeErrorView),
    OutOfOrder,
}

impl View for InvokerError {
    type V = InvokerErrorView;

    open spec fn view(&self) -> InvokerErrorView {
        match self {
            InvokerError::Store(text) => InvokerErrorView::Store(text@),
            InvokerError::Params => InvokerErrorView::Params,
            InvokerError::Runtime(error) => InvokerErrorView::Runtime(error@),
            InvokerError::OutOfOrder => InvokerErrorView::OutOfOrder,
        }
    }
}

/// What an invoker error says of itself.
pub open spec fn spec_invoker_message(error: InvokerErrorView) -> Seq<char> {
    match error {
        InvokerErrorView::Store(text) => text,
        InvokerErrorView::Params => "The trigger's params cannot be written as JSON."@,
        InvokerErrorView::Runtime(error) => spec_message(error),
        InvokerErrorView::OutOfOrder => "The invoker is not waiting for this."@,
    }
}

impl InvokerError {
    /// What the error says of itself.
    pub fn message(&self) -> (text: String)
        ensures
            text@ == spec_invoker_message(self@),
    {
        match self {
            InvokerError::Store(text) => text.clone(),
            InvokerError::Params => "The trigger's params cannot be written as JSON.".to_owned(),
            InvokerError::Runtime(error) => error.message(),
            InvokerError::OutOfOrder => "The invoker is not waiting for this.".to_owned(),
        }
    }
}

/// Where an invoker stands with its queue entry.
#[derive(Clone, Copy, Debug, PartialEq, Eq, Structural)]
pub enum InvokerStage {
    /// The trigger is being read from the store.
    AwaitingTrigger,
    /// The trigger's function is being read from the store.
    AwaitingFunction,
    /// The function is running.
    AwaitingRun,
    /// The log entry is being written and the queue entry deleted.
    AwaitingRecord,
    /// All is over.
    Done,
}

/// What the driver is to do next.
#[derive(Debug)]
pub enum InvokerRequest {
    /// Read the trigger of this id from the store.
    LoadTrigger(u32),
    /// Read the function of this id from the store.
    LoadFunction(u32),
    /// Build a runtime for the function, run it once on the params and the
    /// payload, and collect what it printed.
    Run { function: Function, params: String, payload: String },
    /// Write the log entry to the store and delete the queue entry of this
    /// id from it, both or neither.
    Record { entry: NewTriggerLog, queue_id: u32 },
    /// Nothing: all is over, and this is what it came to.
    Finish(Result<TriggerLog, InvokerError>),
}

/// What the driver answers to a request.
#[derive(Debug)]
pub enum InvokerReply {
    /// To `LoadTrigger`.
    Trigger(Result<Trigger, String>),
    /// To `LoadFunction`.
    Function(Result<Function, String>),
    /// To `Run`: the runtime was built and the function run.
    Ran(Invocation),
    /// To `Run`: the runtime could not be built, so nothing was run.
    NotBuilt(RuntimeError),
    /// To `Record`: the log entry as it was stored, the queue entry being
    /// gone; or why neither was done.
    Recorded(Result<TriggerLog, String>),
}

/// Sees one queue entry through: reads its trigger and the trigger's
/// function, has the function run on the trigger's params and the entry's
/// payload, and has what that came to logged and the entry deleted in one.
pub struct TriggerInvoker {
    stage: InvokerStage,
    queue_id: u32,
    user_id: u32,
    payload: String,
    trigger_id: u32,
    params: String,
}

/// An invoker as a mathematical value.
pub struct TriggerInvokerView {
    pub stage: InvokerStage,
    /// The id of the queue entry.
    pub queue_id: u32,
    /// The user whose trigger fired.
    pub user_id: u32,
    /// The payload of the queue entry.
    pub payload: Seq<char>,
    /// The id of the trigger, once it is read.
    pub trigger_id: u32,
    /// The trigger's params as JSON, once the trigger is read.
    pub params: Seq<char>,
}

impl View for TriggerInvoker {
    type V = TriggerInvokerView;

    closed spec fn view(&self) -> TriggerInvokerView {
        TriggerInvokerView {
            stage: self.stage,
            queue_id: self.queue_id,
            user_id: self.user_id,
            payload: self.payload@,
            trigger_id: self.trigger_id,
            params: self.params@,
        }
    }
}

/// Whether a request ends the invocation with this error.
pub open spec fn finishes_with(request: InvokerRequest, error: InvokerErrorView) -> bool {
    request matches InvokerRequest::Finish(Err(e)) && e@ == error
}

/// The protocol of an invocation: whether, from `pre` and on `reply`, the
/// invoker may go to `post` and ask for `request`.
///
/// The questions are asked in one order: trigger, function, run, record. An
/// answer that reports a failure of the store ends the invocation with that
/// failure, and so does a runtime that could not be built; nothing is
/// logged and nothing deleted then. A run that was made is recorded whether
/// it came to a result or failed: its log entry is written and the queue
/// entry deleted, both or neither, and the written log is what the
/// invocation comes to.
pub open spec fn steps(
    pre: TriggerInvokerView,
    reply: InvokerReply,
    post: TriggerInvokerView,
    request: InvokerRequest,
) -> bool {
    let over = TriggerInvokerView { stage: InvokerStage::Done, ..pre };
    match (pre.stage, reply) {
        (InvokerStage::AwaitingTrigger, InvokerReply::Trigger(Ok(trigger))) => match json_of_string_map(
            trigger.params@,
        ) {
            Some(params) => {
                &&& post == TriggerInvokerView {
                    stage: InvokerStage::AwaitingFunction,
                    trigger_id: trigger.id,
                    params,
                    ..pre
                }
                &&& request == InvokerRequest::LoadFunction(trigger.function_id)
            },
            None => post == over && finishes_with(request, InvokerErrorView::Params),
        },
        (InvokerStage::AwaitingTrigger, InvokerReply::Trigger(Err(complaint))) => {
            post == over && finishes_with(request, InvokerErrorView::Store(complaint@))
        },
        (InvokerStage::AwaitingFunction, InvokerReply::Function(Ok(found))) => {
            &&& post == TriggerInvokerView { stage: InvokerStage::AwaitingRun, ..pre }
            &&& request matches InvokerRequest::Run { function, params, payload }
            &&& function == found
            &&& params@ == pre.params
            &&& payload@ == pre.payload
        },
        (InvokerStage::AwaitingFunction, InvokerReply::Function(Err(complaint))) => {
            post == over && finishes_with(request, InvokerErrorView::Store(complaint@))
        },
        (InvokerStage::AwaitingRun, InvokerReply::Ran(invocation)) => {
            &&& post == TriggerInvokerView { stage: InvokerStage::AwaitingRecord, ..pre }
            &&& request matches InvokerRequest::Record { entry, queue_id }
            &&& is_log_entry(entry, invocation, pre.user_id, pre.trigger_id)
            &&& queue_id == pre.queue_id
        },
        (InvokerStage::AwaitingRun, InvokerReply::NotBuilt(error)) => {
            post == over && finishes_with(request, InvokerErrorView::Runtime(error@))
        },
        (InvokerStage::AwaitingRecord, InvokerReply::Recorded(Ok(written))) => {
            post == over && request == InvokerRequest::Finish(Ok(written))
        },
        (InvokerStage::AwaitingRecord, InvokerReply::Recorded(Err(complaint))) => {
            post == over && finishes_with(request, InvokerErrorView::Store(complaint@))
        },
        _ => post == over && finishes_with(request, InvokerErrorView::OutOfOrder),
    }
}

impl TriggerInvoker {
    /// Takes on a queue entry. The first thing to ask for is its trigger.
    pub fn new(entry: TriggerQueue) -> (begun: (TriggerInvoker, InvokerRequest))
        ensures
            begun.0@ == (TriggerInvokerView {
                stage: InvokerStage::AwaitingTrigger,
                queue_id: entry.id,
                user_id: entry.user_id,
                payload: entry.payload@,
                trigger_id: entry.trigger_id,
                params: Seq::<char>::empty(),
            }),
            begun.1 == InvokerRequest::LoadTrigger(entry.trigger_id),
    {
        let request = InvokerRequest::LoadTrigger(entry.trigger_id);
        let invoker = TriggerInvoker {
            stage: InvokerStage::AwaitingTrigger,
            queue_id: entry.id,
            user_id: entry.user_id,
            payload: entry.payload,
            trigger_id: entry.trigger_id,
            params: String::new(),
        };
        (invoker, request)
    }

    /// Where the invoker stands.
    pub fn stage(&self) -> (stage: InvokerStage)
        ensures
            stage == self@.stage,
    {
        self.stage
    }

    /// Takes the driver's answer to the pending request and says what is
    /// to be done next, as `steps` lays down.
    pub fn step(&mut self, reply: InvokerReply) -> (request: InvokerRequest)
        ensures
            steps(old(self)@, reply, final(self)@, request),
    {
        let stage = self.stage;
        self.stage = InvokerStage::Done;
        match (stage, reply) {
            (InvokerStage::AwaitingTrigger, InvokerReply::Trigger(Ok(trigger))) => {
                match trigger.params.to_json() {
                    Some(params) => {
                        self.stage = InvokerStage::AwaitingFunction;
                        self.trigger_id = trigger.id;
                        self.params = params;
                        InvokerRequest::LoadFunction(trigger.function_id)
                    },
                    None => InvokerRequest::Finish(Err(InvokerError::Params)),
                }
            },
            (InvokerStage::AwaitingTrigger, InvokerReply::Trigger(Err(complaint))) => {
                InvokerRequest::Finish(Err(InvokerError::Store(complaint)))
            },
            (InvokerStage::AwaitingFunction, InvokerReply::Function(Ok(function))) => {
                self.stage = InvokerStage::AwaitingRun;
                InvokerRequest::Run {
                    function,
                    params: self.params.clone(),
                    payload: self.payload.clone(),
                }
            },
            (InvokerStage::AwaitingFunction, InvokerReply::Function(Err(complaint))) => {
                InvokerRequest::Finish(Err(InvokerError::Store(complaint)))
            },
            (InvokerStage::AwaitingRun, InvokerReply::Ran(invocation)) => {
                self.stage = InvokerStage::AwaitingRecord;
                InvokerRequest::Record {
                    entry: log_entry(invocation, self.user_id, self.trigger_id),
                    queue_id: self.queue_id,
                }
            },
            (InvokerStage::AwaitingRun, InvokerReply::NotBuilt(error)) => {
                InvokerRequest::Finish(Err(InvokerError::Runtime(error)))
            },
            (InvokerStage::AwaitingRecord, InvokerReply::Recorded(Ok(written))) => {
                InvokerRequest::Finish(Ok(written))
            },
            (InvokerStage::AwaitingRecord, InvokerReply::Recorded(Err(complaint))) => {
                InvokerRequest::Finish(Err(InvokerError::Store(complaint)))
            },
            _ => InvokerRequest::Finish(Err(InvokerError::OutOfOrder)),
        }
    }
}

/// A queue entry is deleted at most once, and never without its log: the
/// one request that deletes it is the one that writes the log, it is made
/// in answer to a run and to nothing else, it names the entry that the
/// invoker took on, and after it the invoker never stands where a run could
/// be answered again.
pub proof fn lemma_entry_is_recorded_once(
    pre: TriggerInvokerView,
    reply: InvokerReply,
    post: TriggerInvokerView,
    request: InvokerRequest,
)
    requires
        steps(pre, reply, post, request),
    ensures
        request is Record <==> pre.stage == InvokerStage::AwaitingRun && reply is Ran,
        request matches InvokerRequest::Record { queue_id, .. } ==> queue_id == pre.queue_id,
        post.stage == InvokerStage::AwaitingRun ==> pre.stage == InvokerStage::AwaitingFunction,
        post.stage == InvokerStage::AwaitingRecord ==> pre.stage == InvokerStage::AwaitingRun,
        post.queue_id == pre.queue_id,
        post.user_id == pre.user_id,
{
}

/// Every run that is made is logged, the failed as well as the completed:
/// whatever a run came to, the step that takes it asks for a log entry that
/// says which of the two it was and carries all that was printed.
pub proof fn lemma_every_run_is_logged(
    pre: TriggerInvokerView,
    invocation: Invocation,
    post: TriggerInvokerView,
    request: InvokerRequest,
)
    requires
        pre.stage == InvokerStage::AwaitingRun,
        steps(pre, InvokerReply::Ran(invocation), post, request),
    ensures
        request matches InvokerRequest::Record { entry, .. } && {
            &&& entry.status@ == (if invocation.outcome is Ok {
                "completed"@
            } else {
                "failed"@
            })
            &&& texts_view(entry.console@) == output_lines(invocation.output@)
            &&& entry.user_id == pre.user_id
            &&& entry.trigger_id == pre.trigger_id
        },
{
}

} // verus!
