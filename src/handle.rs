//! The shareable handle through which callers reach the engine task.
use vstd::prelude::*;
use tokio::sync::mpsc::UnboundedSender;
use crate::channel::{
    clone_unbounded_sender, oneshot_channel, receiver_stream, send_unbounded, unbounded_channel,
    EventStream, ReplyReceiver, ReplySender,
};
use crate::error::{
    BeaconForkChoiceUpdateError, BeaconOnNewPayloadError, EngineError, PayloadBuilderError,
};
use crate::message::{
    payload_id_outcome, BeaconConsensusEngineEvent, BeaconEngineMessage, ForkchoiceUpdatedFuture,
    OnForkChoiceUpdated,
};
use crate::types::{
    CancunPayloadFields, ExecutionPayload, ForkchoiceState, ForkchoiceUpdated, PayloadAttributes,
    PayloadId, PayloadStatus,
};

verus! {

/// The result of a new-payload call, given what its reply channel yielded: `None`
/// when the engine dropped the channel without a value.
pub open spec fn new_payload_outcome(
    reply: Option<Result<PayloadStatus, BeaconOnNewPayloadError>>,
) -> Result<PayloadStatus, BeaconOnNewPayloadError> {
    match reply {
        None => Err(BeaconOnNewPayloadError::EngineUnavailable),
        Some(v) => v,
    }
}

/// The result of the first phase of a fork-choice update, given what its reply
/// channel yielded: `None` when the engine dropped the channel without a value.
pub open spec fn fork_choice_outcome(
    reply: Option<Result<OnForkChoiceUpdated, EngineError>>,
) -> Result<OnForkChoiceUpdated, BeaconForkChoiceUpdateError> {
    match reply {
        None => Err(BeaconForkChoiceUpdateError::EngineUnavailable),
        Some(Err(e)) => Err(BeaconForkChoiceUpdateError::Internal(e.message)),
        Some(Ok(token)) => Ok(token),
    }
}

/// Whatever value `v` the engine writes to the reply channel of a new-payload call
/// before dropping it is the call's result, unchanged.
pub proof fn lemma_new_payload_reply_is_result(v: Result<PayloadStatus, BeaconOnNewPayloadError>)
    ensures
        new_payload_outcome(Some(v)) == v,
{
}

/// Of any number of new-payload calls, where call `i` finds `replies[i]` on its own
/// reply channel, call `i` resolves with `replies[i]` and with nothing sent to
/// another call: the send functions give each call a receiver labelled as the
/// sender in its own message.
pub proof fn lemma_each_call_resolves_with_its_own_reply(
    replies: Seq<Result<PayloadStatus, BeaconOnNewPayloadError>>,
)
    ensures
        forall|i: int|
            0 <= i < replies.len() ==> #[trigger] new_payload_outcome(Some(replies[i])) == replies[i],
{
}

/// A reply channel that the engine drops without a value makes the call fail with
/// `EngineUnavailable`, for each request that expects an answer.
pub proof fn lemma_dropped_reply_is_engine_unavailable()
    ensures
        new_payload_outcome(None) == Err::<PayloadStatus, _>(
            BeaconOnNewPayloadError::EngineUnavailable,
        ),
        fork_choice_outcome(None) == Err::<OnForkChoiceUpdated, _>(
            BeaconForkChoiceUpdateError::EngineUnavailable,
        ),
{
}

/// The result of a whole fork-choice update, given what its reply channel yielded
/// and, where that answer waits on a payload job, what the job's channel yielded.
pub open spec fn fork_choice_updated_outcome(
    first: Option<Result<OnForkChoiceUpdated, EngineError>>,
    second: Option<Result<PayloadId, PayloadBuilderError>>,
) -> Result<ForkchoiceUpdated, BeaconForkChoiceUpdateError> {
    match fork_choice_outcome(first) {
        Err(e) => Err(e),
        Ok(token) => match token.fut {
            ForkchoiceUpdatedFuture::PendingPayloadId { payload_status, .. } => payload_id_outcome(
                payload_status,
                second,
            ),
            _ => token.ready_outcome(),
        },
    }
}

/// When the first answer to a fork-choice update is a pending payload job and the
/// job's channel is then dropped without a value, the update fails with
/// `PayloadBuilderUnavailable`: the first answer alone never becomes a result.
pub proof fn lemma_dropped_payload_job_fails(token: OnForkChoiceUpdated)
    requires
        token.spec_is_pending(),
    ensures
        fork_choice_updated_outcome(Some(Ok(token)), None) == Err::<ForkchoiceUpdated, _>(
            BeaconForkChoiceUpdateError::PayloadBuilderUnavailable,
        ),
{
}

/// When the payload job reports identifier `id`, the update succeeds with the
/// status of the first answer and that identifier.
pub proof fn lemma_payload_job_result_completes_update(token: OnForkChoiceUpdated, id: PayloadId)
    requires
        token.spec_is_pending(),
    ensures
        token.fut matches ForkchoiceUpdatedFuture::PendingPayloadId { payload_status, .. }
            ==> fork_choice_updated_outcome(Some(Ok(token)), Some(Ok(id))) == Ok::<
            _,
            BeaconForkChoiceUpdateError,
        >(ForkchoiceUpdated { payload_status, payload_id: Some(id) }),
{
}

/// A rejection in the first answer, or a failure of the engine, is the update's
/// result whatever the second channel would yield: the second phase is never
/// waited for.
pub proof fn lemma_first_phase_error_is_final(
    first: Option<Result<OnForkChoiceUpdated, EngineError>>,
    second: Option<Result<PayloadId, PayloadBuilderError>>,
)
    requires
        first matches Some(Ok(token)) ==> token.fut is Invalid,
    ensures
        fork_choice_updated_outcome(first, second) == fork_choice_updated_outcome(first, None),
        fork_choice_updated_outcome(first, second) is Err,
{
}

/// An answer that the engine gives without starting a payload job (as it does for
/// an update without payload attributes) completes the update in the first phase:
/// the second channel plays no part, and the result is the status with no payload
/// identifier.
pub proof fn lemma_update_without_build_completes_at_once(
    token: OnForkChoiceUpdated,
    status: PayloadStatus,
    second: Option<Result<PayloadId, PayloadBuilderError>>,
)
    requires
        token.completes_with(status),
    ensures
        !token.spec_is_pending(),
        fork_choice_updated_outcome(Some(Ok(token)), second) == Ok::<_, BeaconForkChoiceUpdateError>(
            ForkchoiceUpdated { payload_status: status, payload_id: None },
        ),
{
}

/// Turns what the reply channel of a new-payload call yielded into the call's
/// result: the engine's answer as it is, or `EngineUnavailable` for a dropped
/// channel.
pub fn on_new_payload_reply(
    reply: Option<Result<PayloadStatus, BeaconOnNewPayloadError>>,
) -> (r: Result<PayloadStatus, BeaconOnNewPayloadError>)
    ensures
        r == new_payload_outcome(reply),
{
    match reply {
        None => Err(BeaconOnNewPayloadError::EngineUnavailable),
        Some(v) => v,
    }
}

/// Turns what the reply channel of a fork-choice update yielded into the deferred
/// answer, or into the call's error: `EngineUnavailable` for a dropped channel,
/// `Internal` for a failure of the engine.
pub fn on_fork_choice_reply(
    reply: Option<Result<OnForkChoiceUpdated, EngineError>>,
) -> (r: Result<OnForkChoiceUpdated, BeaconForkChoiceUpdateError>)
    ensures
        r == fork_choice_outcome(reply),
{
    match reply {
        None => Err(BeaconForkChoiceUpdateError::EngineUnavailable),
        Some(Err(e)) => Err(BeaconForkChoiceUpdateError::from_engine_error(e)),
        Some(Ok(token)) => Ok(token),
    }
}

/// The new-payload request for `payload`, answered on `tx`.
pub fn new_payload_message(
    payload: ExecutionPayload,
    cancun_fields: Option<CancunPayloadFields>,
    tx: ReplySender<Result<PayloadStatus, BeaconOnNewPayloadError>>,
) -> (r: BeaconEngineMessage)
    ensures
        r == (BeaconEngineMessage::NewPayload { payload, cancun_fields, tx }),
{
    BeaconEngineMessage::NewPayload { payload, cancun_fields, tx }
}

/// The fork-choice request for `state`, answered on `tx`.
pub fn fork_choice_message(
    state: ForkchoiceState,
    payload_attrs: Option<PayloadAttributes>,
    tx: ReplySender<Result<OnForkChoiceUpdated, EngineError>>,
) -> (r: BeaconEngineMessage)
    ensures
        r == (BeaconEngineMessage::ForkchoiceUpdated { state, payload_attrs, tx }),
{
    BeaconEngineMessage::ForkchoiceUpdated { state, payload_attrs, tx }
}

/// A shareable front end of the engine task. Clones share one mailbox.
pub struct BeaconConsensusEngineHandle {
    pub to_engine: UnboundedSender<BeaconEngineMessage>,
}

impl Clone for BeaconConsensusEngineHandle {
    /// Another handle on the same mailbox: messages sent through either reach the
    /// one engine task.
    fn clone(&self) -> (r: Self)
        ensures
            r.to_engine == self.to_engine,
    {
        BeaconConsensusEngineHandle { to_engine: clone_unbounded_sender(&self.to_engine) }
    }
}

impl BeaconConsensusEngineHandle {
    /// A handle that sends to the mailbox behind `to_engine`.
    pub fn new(to_engine: UnboundedSender<BeaconEngineMessage>) -> (r: Self)
        ensures
            r.to_engine == to_engine,
    {
        BeaconConsensusEngineHandle { to_engine }
    }

    /// Sends a new payload to the engine and returns the channel its answer comes
    /// on, with a ghost copy of the one message handed to the mailbox: it carries
    /// the payload, the Cancun fields and the sender of that same channel. A closed
    /// mailbox drops the request, and with it the sender, so that the caller sees
    /// `EngineUnavailable`.
    pub fn send_new_payload(
        &self,
        payload: ExecutionPayload,
        cancun_fields: Option<CancunPayloadFields>,
    ) -> (r: (ReplyReceiver<Result<PayloadStatus, BeaconOnNewPayloadError>>, Ghost<BeaconEngineMessage>))
        ensures
            r.1@ matches BeaconEngineMessage::NewPayload { payload: p, cancun_fields: c, tx }
                && p == payload && c == cancun_fields && tx.channel == r.0.channel,
    {
        let (tx, rx) = oneshot_channel();
        let message = new_payload_message(payload, cancun_fields, tx);
        let sent: Ghost<BeaconEngineMessage> = Ghost(message);
        let _ = send_unbounded(&self.to_engine, message);
        (rx, sent)
    }

    /// Sends a fork-choice update to the engine and returns the channel its first
    /// answer comes on, with a ghost copy of the one message handed to the mailbox:
    /// it carries the state, the attributes and the sender of that same channel.
    pub fn send_fork_choice_updated(
        &self,
        state: ForkchoiceState,
        payload_attrs: Option<PayloadAttributes>,
    ) -> (r: (ReplyReceiver<Result<OnForkChoiceUpdated, EngineError>>, Ghost<BeaconEngineMessage>))
        ensures
            r.1@ matches BeaconEngineMessage::ForkchoiceUpdated { state: s, payload_attrs: a, tx }
                && s == state && a == payload_attrs && tx.channel == r.0.channel,
    {
        let (tx, rx) = oneshot_channel();
        let message = fork_choice_message(state, payload_attrs, tx);
        let sent: Ghost<BeaconEngineMessage> = Ghost(message);
        let _ = send_unbounded(&self.to_engine, message);
        (rx, sent)
    }

    /// Tells the engine that transition configurations were exchanged, and returns a
    /// ghost copy of the one message handed to the mailbox. Delivery is not
    /// guaranteed: a closed mailbox is ignored.
    pub fn transition_configuration_exchanged(&self) -> (r: Ghost<BeaconEngineMessage>)
        ensures
            r@ == BeaconEngineMessage::TransitionConfigurationExchanged,
    {
        let message = BeaconEngineMessage::TransitionConfigurationExchanged;
        let sent: Ghost<BeaconEngineMessage> = Ghost(message);
        let _ = send_unbounded(&self.to_engine, message);
        sent
    }

    /// Registers a new listener with the engine and returns the stream of its
    /// events, with a ghost copy of the one message handed to the mailbox: it
    /// carries the sender of the channel that the stream reads. Registration is not
    /// acknowledged: on a closed mailbox the stream simply ends without yielding.
    pub fn event_listener(&self) -> (r: (EventStream<BeaconConsensusEngineEvent>, Ghost<BeaconEngineMessage>))
        ensures
            r.1@ matches BeaconEngineMessage::EventListener(tx) && tx.channel == r.0.channel,
    {
        let (tx, rx) = unbounded_channel();
        let message = BeaconEngineMessage::EventListener(tx);
        let sent: Ghost<BeaconEngineMessage> = Ghost(message);
        let _ = send_unbounded(&self.to_engine, message);
        (receiver_stream(rx), sent)
    }
}

} // verus!
