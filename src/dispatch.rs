use vstd::prelude::*;
use crate::envelope::{envelope_text, serialize_websocket_message};
use crate::error::ApiError;
use crate::operation::{UserOperation, op_of_name};

verus! {

/// Where a request stands. A request is one-shot: once finished it takes no
/// more events.
#[derive(Clone, Copy, Debug, PartialEq, Eq, Structural)]
pub enum Stage {
    /// The operation is known; its payload is to be decoded into the
    /// operation's command.
    Received,
    /// The payload decoded; the command is to be performed.
    Decoded,
    Finished,
}

/// What the transport side reports about the work it was asked to do.
#[derive(Clone, Debug, PartialEq, Eq)]
pub enum Event {
    PayloadDecoded,
    /// The payload has the wrong shape or lacks a field.
    PayloadRejected,
    /// The command succeeded; its result, encoded.
    Performed(String),
    /// The command failed.
    Failed(ApiError),
}

/// What the transport side is to do next.
#[derive(Clone, Debug, PartialEq, Eq)]
pub enum Action {
    /// Perform the decoded command.
    Perform,
    /// Send this text back, tagged with the operation asked for.
    Reply(String),
    /// Return this error to the caller; nothing is sent.
    Fail(ApiError),
}

/// One request on its way through the gateway.
#[derive(Clone, Copy, Debug, PartialEq, Eq, Structural)]
pub struct OperationRun {
    pub op: UserOperation,
    pub stage: Stage,
}

/// Whether a request at a stage can take an event.
pub open spec fn accepts(stage: Stage, event: Event) -> bool {
    match stage {
        Stage::Received => event is PayloadDecoded || event is PayloadRejected,
        Stage::Decoded => event is Performed || event is Failed,
        Stage::Finished => false,
    }
}

/// The stage a request moves to on an event.
pub open spec fn next_stage(stage: Stage, event: Event) -> Stage {
    match event {
        Event::PayloadDecoded => Stage::Decoded,
        _ => Stage::Finished,
    }
}

/// Starts a request for the operation named `tag`; a name that is not in the
/// table is refused, never routed elsewhere.
pub fn begin_operation(tag: &str) -> (r: Result<OperationRun, ApiError>)
    ensures
        match op_of_name(tag@) {
            Some(op) => r == Ok::<OperationRun, ApiError>(
                OperationRun { op, stage: Stage::Received },
            ),
            None => r == Err::<OperationRun, ApiError>(ApiError::UnknownOperation),
        },
{
    match UserOperation::from_name(tag) {
        Some(op) => Ok(OperationRun { op, stage: Stage::Received }),
        None => Err(ApiError::UnknownOperation),
    }
}

impl OperationRun {
    /// A request for an operation that is already known.
    pub fn new(op: UserOperation) -> (r: OperationRun)
        ensures
            r == (OperationRun { op, stage: Stage::Received }),
    {
        OperationRun { op, stage: Stage::Received }
    }

    /// Takes the outcome of the work last asked for and says what to do
    /// next: a payload that decoded is performed; a payload that did not
    /// fails as `MalformedPayload` before anything is performed; a result is
    /// framed under the operation it was asked for; a failure of the command
    /// is returned as it is.
    pub fn step(&mut self, event: Event) -> (action: Action)
        requires
            accepts(old(self).stage, event),
        ensures
            final(self).op == old(self).op,
            final(self).stage == next_stage(old(self).stage, event),
            match event {
                Event::PayloadDecoded => action == Action::Perform,
                Event::PayloadRejected => action == Action::Fail(ApiError::MalformedPayload),
                Event::Performed(data) => action matches Action::Reply(text) && text@
                    == envelope_text(old(self).op, data@),
                Event::Failed(e) => action == Action::Fail(e),
            },
    {
        match event {
            Event::PayloadDecoded => {
                self.stage = Stage::Decoded;
                Action::Perform
            },
            Event::PayloadRejected => {
                self.stage = Stage::Finished;
                Action::Fail(ApiError::MalformedPayload)
            },
            Event::Performed(data) => {
                self.stage = Stage::Finished;
                Action::Reply(serialize_websocket_message(self.op, data.as_str()))
            },
            Event::Failed(e) => {
                self.stage = Stage::Finished;
                Action::Fail(e)
            },
        }
    }
}

/// A command is performed only once its payload has decoded: no other event,
/// at no stage, leads to `Perform`.
pub proof fn lemma_perform_needs_decode(stage: Stage, event: Event)
    requires
        accepts(stage, event),
        !(event is PayloadDecoded),
    ensures
        next_stage(stage, event) == Stage::Finished,
        forall|e: Event| !accepts(next_stage(stage, event), e),
{
}

} // verus!
