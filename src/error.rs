//! The failures a caller can see. Infrastructure failures (the engine is gone) are
//! kept apart from the engine's own verdicts on the input.
use vstd::prelude::*;

verus! {

/// An error the engine task reports while handling a request.
#[derive(Clone, Debug, PartialEq, Eq)]
pub struct EngineError {
    pub message: String,
}

/// An error of a payload-building job.
#[derive(Clone, Debug, PartialEq, Eq)]
pub struct PayloadBuilderError {
    pub message: String,
}

/// The ways in which the engine can reject a fork-choice update.
#[derive(Clone, Copy, Debug, PartialEq, Eq)]
pub enum ForkchoiceUpdateError {
    UpdatedInvalidPayloadAttributes,
    InvalidState,
    UnknownFinalBlock,
}

/// The failure of a new-payload call.
#[derive(Clone, Debug, PartialEq, Eq)]
pub enum BeaconOnNewPayloadError {
    /// The engine could not handle the payload.
    Internal(String),
    /// The engine task dropped the request without an answer.
    EngineUnavailable,
}

/// The failure of a fork-choice update.
#[derive(Clone, Debug, PartialEq, Eq)]
pub enum BeaconForkChoiceUpdateError {
    /// The engine rejected the update.
    ForkchoiceUpdateError(ForkchoiceUpdateError),
    /// The engine task dropped the request without an answer.
    EngineUnavailable,
    /// The payload-building job was dropped without reporting its identifier.
    PayloadBuilderUnavailable,
    /// The engine, or the payload-building job, failed with this message.
    Internal(String),
}

impl BeaconForkChoiceUpdateError {
    /// The error for a failure of the engine while it handled the update.
    pub fn from_engine_error(e: EngineError) -> (r: Self)
        ensures
            r == BeaconForkChoiceUpdateError::Internal(e.message),
    {
        BeaconForkChoiceUpdateError::Internal(e.message)
    }

    /// The error for a failed payload-building job.
    pub fn from_builder_error(e: PayloadBuilderError) -> (r: Self)
        ensures
            r == BeaconForkChoiceUpdateError::Internal(e.message),
    {
        BeaconForkChoiceUpdateError::Internal(e.message)
    }
}

} // verus!
