//! What arrives in the mailbox of the subsystem.

use futures::channel::oneshot::Sender;
use polkadot_primitives::{
    CandidateEvent, CommittedCandidateReceiptV2, CoreState, GroupRotationInfo, Id,
    OccupiedCoreAssumption, PersistedValidationData, ValidationCode, ValidatorId, ValidatorIndex,
};
use vstd::prelude::*;

use crate::errors::RuntimeApiError;
use crate::primitives::{BlockHash, ValidationData};

verus! {

/// `futures::channel::oneshot::Sender`, the writing end of a channel that carries one value.
/// Opaque here.
#[verifier::external_type_specification]
#[verifier::external_body]
#[verifier::reject_recursive_types(T)]
pub struct ExSender<T>(Sender<T>);

/// The reply channel of a request: it carries the answer or the provider's failure.
pub type RuntimeApiSender<T> = Sender<Result<T, RuntimeApiError>>;

/// A query of the chain state, with the channel on which the answer is expected.
pub enum Request {
    /// The current validators.
    Validators(RuntimeApiSender<Vec<ValidatorId>>),
    /// The validator groups and their rotation.
    ValidatorGroups(RuntimeApiSender<(Vec<Vec<ValidatorIndex>>, GroupRotationInfo<u32>)>),
    /// The state of every availability core.
    AvailabilityCores(RuntimeApiSender<Vec<CoreState<BlockHash, u32>>>),
    /// The persisted validation data of a para under an assumption.
    PersistedValidationData(
        Id,
        OccupiedCoreAssumption,
        RuntimeApiSender<Option<PersistedValidationData<BlockHash, u32>>>,
    ),
    /// The full validation data of a para under an assumption.
    FullValidationData(Id, OccupiedCoreAssumption, RuntimeApiSender<Option<ValidationData>>),
    /// The session index that a child of the block would have.
    SessionIndexForChild(RuntimeApiSender<u32>),
    /// The validation code of a para under an assumption.
    ValidationCode(Id, OccupiedCoreAssumption, RuntimeApiSender<Option<ValidationCode>>),
    /// The receipt of the candidate of a para that is pending availability.
    CandidatePendingAvailability(Id, RuntimeApiSender<Option<CommittedCandidateReceiptV2<BlockHash>>>),
    /// The candidate events of the block.
    CandidateEvents(RuntimeApiSender<Vec<CandidateEvent<BlockHash>>>),
}

/// A message to the subsystem.
pub enum RuntimeApiMessage {
    /// A request, to be answered from the state at the given relay-chain block.
    Request(BlockHash, Request),
}

/// The leaves of the chain that became active and those that stopped being so.
pub struct ActiveLeavesUpdate {
    pub activated: Vec<BlockHash>,
    pub deactivated: Vec<BlockHash>,
}

/// A control signal.
pub enum OverseerSignal {
    /// The set of active leaves changed.
    ActiveLeaves(ActiveLeavesUpdate),
    /// The block with this hash was finalized.
    BlockFinalized(BlockHash),
    /// The subsystem is to stop.
    Conclude,
}

/// One item of the mailbox.
pub enum FromOverseer {
    /// A control signal.
    Signal(OverseerSignal),
    /// A message that calls for work.
    Communication { msg: RuntimeApiMessage },
}

} // verus!
