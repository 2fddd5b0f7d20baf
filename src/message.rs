//! The messages on the engine's mailbox, the events it broadcasts, and the deferred
//! answer to a fork-choice update.
use vstd::prelude::*;
use tokio::sync::oneshot;
use crate::channel::{ReplySender, StreamSender};
use crate::error::{
    BeaconForkChoiceUpdateError, BeaconOnNewPayloadError, EngineError, ForkchoiceUpdateError,
    PayloadBuilderError,
};
use crate::types::{
    CancunPayloadFields, ExecutionPayload, ForkchoiceState, ForkchoiceUpdated, PayloadAttributes,
    PayloadId, PayloadStatus, PayloadStatusEnum, B256,
};

verus! {

/// The engine's verdict on a fork-choice state, as reported in its events.
#[derive(Clone, Copy, Debug, PartialEq, Eq)]
pub enum ForkchoiceStatus {
    Valid,
    Invalid,
    Syncing,
}

/// The verdict on a fork-choice state that a payload status stands for.
pub open spec fn forkchoice_status_of(status: PayloadStatusEnum) -> ForkchoiceStatus {
    match status {
        PayloadStatusEnum::Valid => ForkchoiceStatus::Valid,
        PayloadStatusEnum::Invalid { .. } => ForkchoiceStatus::Invalid,
        PayloadStatusEnum::Syncing => ForkchoiceStatus::Syncing,
        PayloadStatusEnum::Accepted => ForkchoiceStatus::Syncing,
    }
}

impl ForkchoiceStatus {
    /// The verdict that a payload status stands for: an accepted payload counts as
    /// syncing.
    pub fn from_payload_status(status: &PayloadStatusEnum) -> (r: Self)
        ensures
            r == forkchoice_status_of(*status),
    {
        match status {
            PayloadStatusEnum::Valid => ForkchoiceStatus::Valid,
            PayloadStatusEnum::Invalid { .. } => ForkchoiceStatus::Invalid,
            PayloadStatusEnum::Syncing => ForkchoiceStatus::Syncing,
            PayloadStatusEnum::Accepted => ForkchoiceStatus::Syncing,
        }
    }

    pub open spec fn spec_is_valid(self) -> bool {
        self == ForkchoiceStatus::Valid
    }

    /// Whether the state was found valid.
    pub fn is_valid(&self) -> (r: bool)
        ensures
            r == self.spec_is_valid(),
    {
        match self {
            ForkchoiceStatus::Valid => true,
            _ => false,
        }
    }
}

/// What the engine task reports to the listeners it has registered.
#[derive(Clone, Debug, PartialEq, Eq)]
pub enum BeaconConsensusEngineEvent {
    /// A fork-choice update was handled, with this verdict.
    ForkchoiceUpdated(ForkchoiceState, ForkchoiceStatus),
    /// A block was added to a side chain.
    ForkBlockAdded(B256),
    /// A block was added to the canonical chain.
    CanonicalBlockAdded(B256),
    /// The canonical chain was committed up to this head.
    CanonicalChainCommitted(B256),
}

/// How the answer to a fork-choice update completes.
pub enum ForkchoiceUpdatedFuture {
    /// Complete: the update was handled and nothing is being built.
    Valid(ForkchoiceUpdated),
    /// Complete: the engine rejected the update.
    Invalid(ForkchoiceUpdateError),
    /// A payload is being built: the answer is complete once the job reports its
    /// identifier on this channel.
    PendingPayloadId {
        payload_status: PayloadStatus,
        payload_id_rx: oneshot::Receiver<Result<PayloadId, PayloadBuilderError>>,
    },
}

/// The deferred answer to a fork-choice update: the engine's verdict on the state,
/// and an answer that is either complete or waits for a payload-building job.
pub struct OnForkChoiceUpdated {
    pub forkchoice_status: ForkchoiceStatus,
    pub fut: ForkchoiceUpdatedFuture,
}

/// The second phase of a fork-choice update, as a caller finds it.
pub enum PhaseTwo {
    /// The result is known without further waiting.
    Ready(Result<ForkchoiceUpdated, BeaconForkChoiceUpdateError>),
    /// The caller must wait on `payload_id_rx` and hand what arrives to
    /// `on_payload_id_reply` together with `payload_status`.
    Pending {
        payload_status: PayloadStatus,
        payload_id_rx: oneshot::Receiver<Result<PayloadId, PayloadBuilderError>>,
    },
}

/// The result of the second phase, given the outcome of the payload-building
/// channel: `None` when the job dropped it without a value.
pub open spec fn payload_id_outcome(
    payload_status: PayloadStatus,
    reply: Option<Result<PayloadId, PayloadBuilderError>>,
) -> Result<ForkchoiceUpdated, BeaconForkChoiceUpdateError> {
    match reply {
        None => Err(BeaconForkChoiceUpdateError::PayloadBuilderUnavailable),
        Some(Err(e)) => Err(BeaconForkChoiceUpdateError::Internal(e.message)),
        Some(Ok(id)) => Ok(ForkchoiceUpdated { payload_status, payload_id: Some(id) }),
    }
}

/// Finishes the second phase of a fork-choice update once the payload-building
/// channel has yielded `reply`, or `None` when it was dropped without a value.
pub fn on_payload_id_reply(
    payload_status: PayloadStatus,
    reply: Option<Result<PayloadId, PayloadBuilderError>>,
) -> (r: Result<ForkchoiceUpdated, BeaconForkChoiceUpdateError>)
    ensures
        r == payload_id_outcome(payload_status, reply),
{
    match reply {
        None => Err(BeaconForkChoiceUpdateError::PayloadBuilderUnavailable),
        Some(Err(e)) => Err(BeaconForkChoiceUpdateError::from_builder_error(e)),
        Some(Ok(id)) => Ok(ForkchoiceUpdated { payload_status, payload_id: Some(id) }),
    }
}

impl OnForkChoiceUpdated {
    /// Whether the answer waits for a payload-building job.
    pub open spec fn spec_is_pending(&self) -> bool {
        self.fut is PendingPayloadId
    }

    /// The result of a complete answer. Only complete answers are asked for it: a
    /// pending one gets its result from `payload_id_outcome`.
    pub open spec fn ready_outcome(&self) -> Result<ForkchoiceUpdated, BeaconForkChoiceUpdateError> {
        match self.fut {
            ForkchoiceUpdatedFuture::Valid(u) => Ok(u),
            ForkchoiceUpdatedFuture::Invalid(e) => Err(
                BeaconForkChoiceUpdateError::ForkchoiceUpdateError(e),
            ),
            ForkchoiceUpdatedFuture::PendingPayloadId { .. } => Err(
                BeaconForkChoiceUpdateError::PayloadBuilderUnavailable,
            ),
        }
    }

    /// A complete answer carrying `payload_status` and no payload job.
    pub open spec fn completes_with(&self, payload_status: PayloadStatus) -> bool {
        &&& self.forkchoice_status == forkchoice_status_of(payload_status.status)
        &&& self.fut == ForkchoiceUpdatedFuture::Valid(
            ForkchoiceUpdated { payload_status, payload_id: None },
        )
    }

    /// Whether the answer waits for a payload-building job.
    pub fn is_pending(&self) -> (r: bool)
        ensures
            r == self.spec_is_pending(),
    {
        match &self.fut {
            ForkchoiceUpdatedFuture::PendingPayloadId { .. } => true,
            _ => false,
        }
    }

    /// The engine's verdict on the fork-choice state.
    pub fn forkchoice_status(&self) -> (r: ForkchoiceStatus)
        ensures
            r == self.forkchoice_status,
    {
        self.forkchoice_status
    }

    /// The answer when the engine is still syncing: complete, nothing built.
    pub fn syncing() -> (r: Self)
        ensures
            r.completes_with(PayloadStatus { status: PayloadStatusEnum::Syncing, latest_valid_hash: None }),
    {
        OnForkChoiceUpdated::valid(PayloadStatus::new(PayloadStatusEnum::Syncing, None))
    }

    /// The answer for a state that was handled without building a payload: complete.
    pub fn valid(status: PayloadStatus) -> (r: Self)
        ensures
            r.completes_with(status),
    {
        let forkchoice_status = ForkchoiceStatus::from_payload_status(&status.status);
        OnForkChoiceUpdated {
            forkchoice_status,
            fut: ForkchoiceUpdatedFuture::Valid(ForkchoiceUpdated::new(status)),
        }
    }

    /// The answer for a state whose head was found invalid: complete, with the
    /// invalid status as its result.
    pub fn with_invalid(status: PayloadStatus) -> (r: Self)
        ensures
            r.completes_with(status),
    {
        OnForkChoiceUpdated::valid(status)
    }

    /// The answer for an invalid fork-choice state: complete, rejected.
    pub fn invalid_state() -> (r: Self)
        ensures
            r.forkchoice_status == ForkchoiceStatus::Invalid,
            r.fut == ForkchoiceUpdatedFuture::Invalid(ForkchoiceUpdateError::InvalidState),
    {
        OnForkChoiceUpdated {
            forkchoice_status: ForkchoiceStatus::Invalid,
            fut: ForkchoiceUpdatedFuture::Invalid(ForkchoiceUpdateError::InvalidState),
        }
    }

    /// The answer for a valid state with invalid payload attributes: complete,
    /// rejected, though the state itself was applied.
    pub fn invalid_payload_attributes() -> (r: Self)
        ensures
            r.forkchoice_status == ForkchoiceStatus::Valid,
            r.fut == ForkchoiceUpdatedFuture::Invalid(
                ForkchoiceUpdateError::UpdatedInvalidPayloadAttributes,
            ),
    {
        OnForkChoiceUpdated {
            forkchoice_status: ForkchoiceStatus::Valid,
            fut: ForkchoiceUpdatedFuture::Invalid(
                ForkchoiceUpdateError::UpdatedInvalidPayloadAttributes,
            ),
        }
    }

    /// The answer for a valid state that started a payload-building job, which
    /// reports its identifier on `payload_id_rx`.
    pub fn updated_with_pending_payload_id(
        payload_status: PayloadStatus,
        payload_id_rx: oneshot::Receiver<Result<PayloadId, PayloadBuilderError>>,
    ) -> (r: Self)
        ensures
            r.forkchoice_status == forkchoice_status_of(payload_status.status),
            r.fut == (ForkchoiceUpdatedFuture::PendingPayloadId { payload_status, payload_id_rx }),
    {
        let forkchoice_status = ForkchoiceStatus::from_payload_status(&payload_status.status);
        OnForkChoiceUpdated {
            forkchoice_status,
            fut: ForkchoiceUpdatedFuture::PendingPayloadId { payload_status, payload_id_rx },
        }
    }

    /// Splits off the second phase: a complete answer is `Ready` with its result; a
    /// pending one hands over the job's channel and the status to finish it with.
    pub fn into_phase_two(self) -> (r: PhaseTwo)
        ensures
            !self.spec_is_pending() ==> r == PhaseTwo::Ready(self.ready_outcome()),
            self.fut matches ForkchoiceUpdatedFuture::PendingPayloadId {
                payload_status,
                payload_id_rx,
            } ==> r == (PhaseTwo::Pending { payload_status, payload_id_rx }),
    {
        match self.fut {
            ForkchoiceUpdatedFuture::Valid(u) => PhaseTwo::Ready(Ok(u)),
            ForkchoiceUpdatedFuture::Invalid(e) => PhaseTwo::Ready(
                Err(BeaconForkChoiceUpdateError::ForkchoiceUpdateError(e)),
            ),
            ForkchoiceUpdatedFuture::PendingPayloadId { payload_status, payload_id_rx } => {
                PhaseTwo::Pending { payload_status, payload_id_rx }
            },
        }
    }
}

/// A request on the engine's mailbox. Each request that expects an answer carries
/// the sending half of its own single-use reply channel.
#[allow(inconsistent_fields)]
pub enum BeaconEngineMessage {
    /// A new payload to validate and execute.
    NewPayload {
        payload: ExecutionPayload,
        cancun_fields: Option<CancunPayloadFields>,
        tx: ReplySender<Result<PayloadStatus, BeaconOnNewPayloadError>>,
    },
    /// A new fork-choice state, with the attributes of a payload to build if any.
    ForkchoiceUpdated {
        state: ForkchoiceState,
        payload_attrs: Option<PayloadAttributes>,
        tx: ReplySender<Result<OnForkChoiceUpdated, EngineError>>,
    },
    /// The consensus layer exchanged transition configurations; no answer.
    TransitionConfigurationExchanged,
    /// Registers a listener for engine events; no answer.
    EventListener(StreamSender<BeaconConsensusEngineEvent>),
}

} // verus!
