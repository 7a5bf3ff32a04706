use vstd::prelude::*;

verus! {

/// A message from the sink's reporting channel, reduced to the shapes the
/// bridge distinguishes.
#[derive(Debug, PartialEq, Eq)]
pub enum PipelineMessage {
    /// The sink reports that the stream has ended normally.
    EndOfStream,
    /// The sink reports an internal fault; the run cannot go on.
    Fault(String),
    Warning(String),
    Info(String),
    Progress(String),
    /// Any other message kind; the bridge has no business with it.
    Other,
}

/// What the run loop does with one message.
#[derive(Debug, PartialEq, Eq)]
pub enum MessageAction {
    /// Leave the loop; the run ended normally.
    Finish,
    /// Leave the loop, close the sink, and surface the fault to the caller.
    Fail(String),
    /// Log the text and keep running.
    Log(String),
    /// Keep running without logging.
    Ignore,
}

/// A run-level failure surfaced to the caller: either the sink rejected a
/// packed buffer, or it reported an internal fault.
#[derive(Debug, PartialEq, Eq)]
pub enum RunError {
    /// The sink rejected the buffer for the frame at this index.
    PushFailure { frame_index: u64 },
    /// The sink reported an internal fault with this message.
    PipelineFault(String),
}

/// The fixed mapping from message to action: end-of-stream finishes the run,
/// a fault terminates it as a failure, and warnings, info and progress
/// messages are logged but never terminate the run.
pub open spec fn message_action(m: PipelineMessage) -> MessageAction {
    match m {
        PipelineMessage::EndOfStream => MessageAction::Finish,
        PipelineMessage::Fault(detail) => MessageAction::Fail(detail),
        PipelineMessage::Warning(text) => MessageAction::Log(text),
        PipelineMessage::Info(text) => MessageAction::Log(text),
        PipelineMessage::Progress(text) => MessageAction::Log(text),
        PipelineMessage::Other => MessageAction::Ignore,
    }
}

/// Decides how the run loop reacts to one message from the sink.
pub fn handle_message(m: PipelineMessage) -> (a: MessageAction)
    ensures
        a == message_action(m),
{
    match m {
        PipelineMessage::EndOfStream => MessageAction::Finish,
        PipelineMessage::Fault(detail) => MessageAction::Fail(detail),
        PipelineMessage::Warning(text) => MessageAction::Log(text),
        PipelineMessage::Info(text) => MessageAction::Log(text),
        PipelineMessage::Progress(text) => MessageAction::Log(text),
        PipelineMessage::Other => MessageAction::Ignore,
    }
}

} // verus!
