//! The values that travel between callers and the engine task. The engine gives
//! them meaning; the protocol only carries them.
use vstd::prelude::*;

verus! {

/// A 32-byte hash.
#[derive(Clone, Copy, Debug, PartialEq, Eq)]
pub struct B256 {
    pub bytes: [u8; 32],
}

/// A 20-byte account address.
#[derive(Clone, Copy, Debug, PartialEq, Eq)]
pub struct Address {
    pub bytes: [u8; 20],
}

/// The identifier the engine gives to a payload-building job.
#[derive(Clone, Copy, Debug, PartialEq, Eq)]
pub struct PayloadId {
    pub bytes: [u8; 8],
}

/// An execution payload as the consensus layer hands it over.
#[derive(Clone, Debug, PartialEq, Eq)]
pub struct ExecutionPayload {
    pub parent_hash: B256,
    pub block_hash: B256,
    pub block_number: u64,
    pub timestamp: u64,
    pub transactions: Vec<Vec<u8>>,
}

/// The fields that a payload carries from the Cancun fork on.
#[derive(Clone, Debug, PartialEq, Eq)]
pub struct CancunPayloadFields {
    pub parent_beacon_block_root: B256,
    pub versioned_hashes: Vec<B256>,
}

/// The heads of the chain as the consensus layer sees them.
#[derive(Clone, Copy, Debug, PartialEq, Eq)]
pub struct ForkchoiceState {
    pub head_block_hash: B256,
    pub safe_block_hash: B256,
    pub finalized_block_hash: B256,
}

/// What a fork-choice update asks the engine to build a payload with.
#[derive(Clone, Copy, Debug, PartialEq, Eq)]
pub struct PayloadAttributes {
    pub timestamp: u64,
    pub prev_randao: B256,
    pub suggested_fee_recipient: Address,
}

/// The verdict of the engine on a payload or a fork-choice state.
#[derive(Clone, Debug, PartialEq, Eq)]
pub enum PayloadStatusEnum {
    Valid,
    Invalid { validation_error: String },
    Syncing,
    Accepted,
}

/// A verdict together with the latest valid block the engine knows of.
#[derive(Clone, Debug, PartialEq, Eq)]
pub struct PayloadStatus {
    pub status: PayloadStatusEnum,
    pub latest_valid_hash: Option<B256>,
}

/// The final answer to a fork-choice update: the verdict on the state and, when a
/// payload is being built, the identifier of that job.
#[derive(Clone, Debug, PartialEq, Eq)]
pub struct ForkchoiceUpdated {
    pub payload_status: PayloadStatus,
    pub payload_id: Option<PayloadId>,
}

impl PayloadStatus {
    /// A status with the given verdict and latest valid hash.
    pub fn new(status: PayloadStatusEnum, latest_valid_hash: Option<B256>) -> (r: Self)
        ensures
            r.status == status,
            r.latest_valid_hash == latest_valid_hash,
    {
        PayloadStatus { status, latest_valid_hash }
    }
}

impl ForkchoiceUpdated {
    /// An answer with the given status and no payload being built.
    pub fn new(payload_status: PayloadStatus) -> (r: Self)
        ensures
            r.payload_status == payload_status,
            r.payload_id.is_none(),
    {
        ForkchoiceUpdated { payload_status, payload_id: None }
    }

    /// The same answer, naming the payload being built.
    pub fn with_payload_id(self, payload_id: PayloadId) -> (r: Self)
        ensures
            r.payload_status == self.payload_status,
            r.payload_id == Some(payload_id),
    {
        ForkchoiceUpdated { payload_status: self.payload_status, payload_id: Some(payload_id) }
    }
}

} // verus!
