use beacon_engine_handle::error::{
    BeaconForkChoiceUpdateError, BeaconOnNewPayloadError, EngineError, ForkchoiceUpdateError,
    PayloadBuilderError,
};
use beacon_engine_handle::handle::{on_fork_choice_reply, on_new_payload_reply, BeaconConsensusEngineHandle};
use beacon_engine_handle::message::{
    on_payload_id_reply, BeaconConsensusEngineEvent, BeaconEngineMessage, ForkchoiceStatus,
    OnForkChoiceUpdated, PhaseTwo,
};
use beacon_engine_handle::types::{
    Address, ExecutionPayload, ForkchoiceState, ForkchoiceUpdated, PayloadAttributes, PayloadId,
    PayloadStatus, PayloadStatusEnum, B256,
};
use tokio::sync::{mpsc, oneshot};

fn hash(b: u8) -> B256 {
    B256 { bytes: [b; 32] }
}

fn payload(n: u64) -> ExecutionPayload {
    ExecutionPayload {
        parent_hash: hash(0),
        block_hash: hash(n as u8),
        block_number: n,
        timestamp: 1_700_000_000 + n,
        transactions: vec![vec![n as u8, 1, 2]],
    }
}

fn state() -> ForkchoiceState {
    ForkchoiceState { head_block_hash: hash(3), safe_block_hash: hash(2), finalized_block_hash: hash(1) }
}

fn attrs() -> PayloadAttributes {
    PayloadAttributes { timestamp: 42, prev_randao: hash(9), suggested_fee_recipient: Address { bytes: [7; 20] } }
}

fn valid(h: u8) -> PayloadStatus {
    PayloadStatus::new(PayloadStatusEnum::Valid, Some(hash(h)))
}

fn engine() -> (BeaconConsensusEngineHandle, mpsc::UnboundedReceiver<BeaconEngineMessage>) {
    let (tx, rx) = mpsc::unbounded_channel();
    (BeaconConsensusEngineHandle::new(tx), rx)
}

#[test]
fn new_payload_resolves_with_engine_reply() {
    let (handle, mut mailbox) = engine();
    let (reply, _) = handle.send_new_payload(payload(5), None);
    match mailbox.try_recv().unwrap() {
        BeaconEngineMessage::NewPayload { payload: p, cancun_fields, tx } => {
            assert_eq!(p, payload(5));
            assert!(cancun_fields.is_none());
            tx.inner.send(Ok(valid(5))).unwrap();
        }
        _ => panic!("expected a new-payload request"),
    }
    let got = futures::executor::block_on(reply.inner).ok();
    assert_eq!(on_new_payload_reply(got), Ok(valid(5)));
}

#[test]
fn new_payload_passes_engine_error_through() {
    let (handle, mut mailbox) = engine();
    let (mut reply, _) = handle.send_new_payload(payload(1), None);
    if let BeaconEngineMessage::NewPayload { tx, .. } = mailbox.try_recv().unwrap() {
        tx.inner.send(Err(BeaconOnNewPayloadError::Internal("bad block".to_string()))).unwrap();
    } else {
        panic!("expected a new-payload request");
    }
    assert_eq!(
        on_new_payload_reply(reply.inner.try_recv().ok()),
        Err(BeaconOnNewPayloadError::Internal("bad block".to_string()))
    );
}

#[test]
fn dropped_new_payload_reply_is_engine_unavailable() {
    let (handle, mut mailbox) = engine();
    let (mut reply, _) = handle.send_new_payload(payload(2), None);
    drop(mailbox.try_recv().unwrap());
    assert_eq!(on_new_payload_reply(reply.inner.try_recv().ok()), Err(BeaconOnNewPayloadError::EngineUnavailable));
}

#[test]
fn closed_mailbox_is_engine_unavailable() {
    let (handle, mailbox) = engine();
    drop(mailbox);
    let (mut reply, _) = handle.send_new_payload(payload(2), None);
    assert_eq!(on_new_payload_reply(reply.inner.try_recv().ok()), Err(BeaconOnNewPayloadError::EngineUnavailable));
    let (mut fcu, _) = handle.send_fork_choice_updated(state(), None);
    assert!(matches!(
        on_fork_choice_reply(fcu.inner.try_recv().ok()),
        Err(BeaconForkChoiceUpdateError::EngineUnavailable)
    ));
}

#[test]
fn dropped_fork_choice_reply_is_engine_unavailable() {
    let (handle, mut mailbox) = engine();
    let (mut reply, _) = handle.send_fork_choice_updated(state(), Some(attrs()));
    match mailbox.try_recv().unwrap() {
        BeaconEngineMessage::ForkchoiceUpdated { state: s, payload_attrs, tx } => {
            assert_eq!(s, state());
            assert_eq!(payload_attrs, Some(attrs()));
            drop(tx);
        }
        _ => panic!("expected a fork-choice request"),
    }
    assert!(matches!(
        on_fork_choice_reply(reply.inner.try_recv().ok()),
        Err(BeaconForkChoiceUpdateError::EngineUnavailable)
    ));
}

#[test]
fn fork_choice_with_build_resolves_in_two_phases() {
    let (handle, mut mailbox) = engine();
    let (reply, _) = handle.send_fork_choice_updated(state(), Some(attrs()));
    let (job_tx, job_rx) = oneshot::channel();
    if let BeaconEngineMessage::ForkchoiceUpdated { tx, .. } = mailbox.try_recv().unwrap() {
        assert!(tx.inner.send(Ok(OnForkChoiceUpdated::updated_with_pending_payload_id(valid(3), job_rx))).is_ok());
    } else {
        panic!("expected a fork-choice request");
    }
    let token = on_fork_choice_reply(futures::executor::block_on(reply.inner).ok()).unwrap();
    assert!(token.is_pending());
    assert_eq!(token.forkchoice_status(), ForkchoiceStatus::Valid);
    let id = PayloadId { bytes: [1, 2, 3, 4, 5, 6, 7, 8] };
    job_tx.send(Ok(id)).unwrap();
    match token.into_phase_two() {
        PhaseTwo::Pending { payload_status, payload_id_rx } => {
            let got = futures::executor::block_on(payload_id_rx).ok();
            assert_eq!(
                on_payload_id_reply(payload_status, got),
                Ok(ForkchoiceUpdated { payload_status: valid(3), payload_id: Some(id) })
            );
        }
        PhaseTwo::Ready(_) => panic!("a build was requested"),
    }
}

#[test]
fn dropped_payload_job_fails_the_update() {
    let (job_tx, job_rx) = oneshot::channel::<Result<PayloadId, PayloadBuilderError>>();
    let token = OnForkChoiceUpdated::updated_with_pending_payload_id(valid(3), job_rx);
    let token = on_fork_choice_reply(Some(Ok(token))).unwrap();
    drop(job_tx);
    match token.into_phase_two() {
        PhaseTwo::Pending { payload_status, mut payload_id_rx } => {
            assert_eq!(
                on_payload_id_reply(payload_status, payload_id_rx.try_recv().ok()),
                Err(BeaconForkChoiceUpdateError::PayloadBuilderUnavailable)
            );
        }
        PhaseTwo::Ready(_) => panic!("a build was requested"),
    }
}

#[test]
fn failed_payload_job_is_internal_error() {
    let r = on_payload_id_reply(valid(3), Some(Err(PayloadBuilderError { message: "no gas".to_string() })));
    assert_eq!(r, Err(BeaconForkChoiceUpdateError::Internal("no gas".to_string())));
}

#[test]
fn phase_one_rejection_is_returned_immediately() {
    let token = on_fork_choice_reply(Some(Ok(OnForkChoiceUpdated::invalid_state()))).unwrap();
    assert!(!token.is_pending());
    assert_eq!(token.forkchoice_status(), ForkchoiceStatus::Invalid);
    match token.into_phase_two() {
        PhaseTwo::Ready(r) => assert_eq!(
            r,
            Err(BeaconForkChoiceUpdateError::ForkchoiceUpdateError(ForkchoiceUpdateError::InvalidState))
        ),
        PhaseTwo::Pending { .. } => panic!("nothing is being built"),
    }
    let token = OnForkChoiceUpdated::invalid_payload_attributes();
    assert_eq!(token.forkchoice_status(), ForkchoiceStatus::Valid);
    assert!(matches!(
        token.into_phase_two(),
        PhaseTwo::Ready(Err(BeaconForkChoiceUpdateError::ForkchoiceUpdateError(
            ForkchoiceUpdateError::UpdatedInvalidPayloadAttributes
        )))
    ));
}

#[test]
fn engine_failure_in_phase_one_is_internal_error() {
    let r = on_fork_choice_reply(Some(Err(EngineError { message: "db closed".to_string() })));
    assert!(matches!(r, Err(BeaconForkChoiceUpdateError::Internal(m)) if m == "db closed"));
}

#[test]
fn fork_choice_without_build_is_ready() {
    let (handle, mut mailbox) = engine();
    let (mut reply, _) = handle.send_fork_choice_updated(state(), None);
    if let BeaconEngineMessage::ForkchoiceUpdated { payload_attrs, tx, .. } = mailbox.try_recv().unwrap() {
        assert!(payload_attrs.is_none());
        assert!(tx.inner.send(Ok(OnForkChoiceUpdated::valid(valid(4)))).is_ok());
    } else {
        panic!("expected a fork-choice request");
    }
    let token = on_fork_choice_reply(reply.inner.try_recv().ok()).unwrap();
    assert!(!token.is_pending());
    match token.into_phase_two() {
        PhaseTwo::Ready(r) => assert_eq!(r, Ok(ForkchoiceUpdated::new(valid(4)))),
        PhaseTwo::Pending { .. } => panic!("nothing is being built"),
    }
}

#[test]
fn syncing_and_invalid_answers_are_ready() {
    let token = OnForkChoiceUpdated::syncing();
    assert_eq!(token.forkchoice_status(), ForkchoiceStatus::Syncing);
    assert!(matches!(
        token.into_phase_two(),
        PhaseTwo::Ready(Ok(ForkchoiceUpdated { payload_status: PayloadStatus { status: PayloadStatusEnum::Syncing, latest_valid_hash: None }, payload_id: None }))
    ));
    let bad = PayloadStatus::new(PayloadStatusEnum::Invalid { validation_error: "bad root".to_string() }, Some(hash(1)));
    let token = OnForkChoiceUpdated::with_invalid(bad.clone());
    assert_eq!(token.forkchoice_status(), ForkchoiceStatus::Invalid);
    match token.into_phase_two() {
        PhaseTwo::Ready(r) => assert_eq!(r, Ok(ForkchoiceUpdated::new(bad))),
        PhaseTwo::Pending { .. } => panic!("nothing is being built"),
    }
}

#[test]
fn transition_configuration_exchange_ignores_closed_mailbox() {
    let (handle, mailbox) = engine();
    drop(mailbox);
    handle.transition_configuration_exchanged();
    handle.transition_configuration_exchanged();
}

#[test]
fn transition_configuration_exchange_reaches_live_engine() {
    let (handle, mut mailbox) = engine();
    handle.transition_configuration_exchanged();
    assert!(matches!(mailbox.try_recv(), Ok(BeaconEngineMessage::TransitionConfigurationExchanged)));
}

#[test]
fn event_listener_sees_events_in_order() {
    let (handle, mut mailbox) = engine();
    let (stream, _) = handle.event_listener();
    let subscriber = match mailbox.try_recv().unwrap() {
        BeaconEngineMessage::EventListener(tx) => tx.inner,
        _ => panic!("expected a listener registration"),
    };
    let events = vec![
        BeaconConsensusEngineEvent::ForkBlockAdded(hash(1)),
        BeaconConsensusEngineEvent::CanonicalBlockAdded(hash(2)),
        BeaconConsensusEngineEvent::ForkchoiceUpdated(state(), ForkchoiceStatus::Valid),
        BeaconConsensusEngineEvent::CanonicalChainCommitted(hash(3)),
    ];
    for e in events.iter() {
        subscriber.send(e.clone()).unwrap();
    }
    let mut rx = stream.inner.into_inner();
    for e in events.iter() {
        assert_eq!(&rx.try_recv().unwrap(), e);
    }
    assert!(rx.try_recv().is_err());
    drop(rx);
    assert!(subscriber.send(BeaconConsensusEngineEvent::ForkBlockAdded(hash(4))).is_err());
}

#[test]
fn event_listener_on_closed_mailbox_yields_nothing() {
    let (handle, mailbox) = engine();
    drop(mailbox);
    let mut rx = handle.event_listener().0.inner.into_inner();
    assert!(rx.try_recv().is_err());
}

#[test]
fn many_callers_each_get_their_own_reply() {
    let (handle, mut mailbox) = engine();
    let handles: Vec<BeaconConsensusEngineHandle> = (0..8).map(|_| handle.clone()).collect();
    let mut replies = Vec::new();
    for (i, h) in handles.iter().enumerate() {
        replies.push(h.send_new_payload(payload(i as u64 + 10), None).0);
    }
    let mut requests = Vec::new();
    while let Ok(m) = mailbox.try_recv() {
        requests.push(m);
    }
    assert_eq!(requests.len(), 8);
    for m in requests.into_iter().rev() {
        if let BeaconEngineMessage::NewPayload { payload: p, tx, .. } = m {
            tx.inner.send(Ok(valid(p.block_number as u8))).unwrap();
        } else {
            panic!("expected a new-payload request");
        }
    }
    for (i, mut r) in replies.into_iter().enumerate() {
        assert_eq!(on_new_payload_reply(r.inner.try_recv().ok()), Ok(valid(i as u8 + 10)));
    }
}

#[test]
fn forkchoice_status_of_payload_status() {
    assert_eq!(ForkchoiceStatus::from_payload_status(&PayloadStatusEnum::Valid), ForkchoiceStatus::Valid);
    assert_eq!(ForkchoiceStatus::from_payload_status(&PayloadStatusEnum::Accepted), ForkchoiceStatus::Syncing);
    assert_eq!(ForkchoiceStatus::from_payload_status(&PayloadStatusEnum::Syncing), ForkchoiceStatus::Syncing);
    assert_eq!(
        ForkchoiceStatus::from_payload_status(&PayloadStatusEnum::Invalid { validation_error: "x".to_string() }),
        ForkchoiceStatus::Invalid
    );
    assert!(ForkchoiceStatus::Valid.is_valid());
    assert!(!ForkchoiceStatus::Syncing.is_valid());
}

#[test]
fn payload_id_is_attached() {
    let id = PayloadId { bytes: [9; 8] };
    let u = ForkchoiceUpdated::new(valid(1)).with_payload_id(id);
    assert_eq!(u.payload_status, valid(1));
    assert_eq!(u.payload_id, Some(id));
}

#[test]
fn error_conversions_keep_message() {
    assert_eq!(
        BeaconForkChoiceUpdateError::from_engine_error(EngineError { message: "e".to_string() }),
        BeaconForkChoiceUpdateError::Internal("e".to_string())
    );
    assert_eq!(
        BeaconForkChoiceUpdateError::from_builder_error(PayloadBuilderError { message: "b".to_string() }),
        BeaconForkChoiceUpdateError::Internal("b".to_string())
    );
}
