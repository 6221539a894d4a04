//! The capability that answers the queries.

use polkadot_primitives::{
    CandidateEvent, CommittedCandidateReceiptV2, CoreState, GroupRotationInfo, Id,
    OccupiedCoreAssumption, PersistedValidationData, ValidationCode, ValidatorId, ValidatorIndex,
};
use vstd::prelude::*;

use crate::primitives::{BlockHash, ValidationData};

verus! {

/// A source of answers about the chain state at a given relay-chain block.
///
/// Each operation gives the answer, or the diagnostic text of a failure. An answer of
/// `None` says that the state holds no such entry, and is no failure. Nothing is promised
/// of what an implementation answers.
pub trait RuntimeApiProvider {
    /// The current validators.
    fn validators(&self, at: BlockHash) -> Result<Vec<ValidatorId>, String>;

    /// The validator groups and their rotation.
    fn validator_groups(&self, at: BlockHash) -> Result<
        (Vec<Vec<ValidatorIndex>>, GroupRotationInfo<u32>),
        String,
    >;

    /// The state of every availability core.
    fn availability_cores(&self, at: BlockHash) -> Result<Vec<CoreState<BlockHash, u32>>, String>;

    /// The persisted validation data of a para under the given assumption.
    fn persisted_validation_data(&self, at: BlockHash, para: Id, assumption: OccupiedCoreAssumption) -> Result<
        Option<PersistedValidationData<BlockHash, u32>>,
        String,
    >;

    /// The full validation data of a para under the given assumption.
    fn full_validation_data(&self, at: BlockHash, para: Id, assumption: OccupiedCoreAssumption) -> Result<
        Option<ValidationData>,
        String,
    >;

    /// The session index that a child of the block would have.
    fn session_index_for_child(&self, at: BlockHash) -> Result<u32, String>;

    /// The validation code of a para under the given assumption.
    fn validation_code(&self, at: BlockHash, para: Id, assumption: OccupiedCoreAssumption) -> Result<
        Option<ValidationCode>,
        String,
    >;

    /// The receipt of the candidate of a para that is pending availability.
    fn candidate_pending_availability(&self, at: BlockHash, para: Id) -> Result<
        Option<CommittedCandidateReceiptV2<BlockHash>>,
        String,
    >;

    /// The candidate events of the block.
    fn candidate_events(&self, at: BlockHash) -> Result<Vec<CandidateEvent<BlockHash>>, String>;
}

} // verus!
