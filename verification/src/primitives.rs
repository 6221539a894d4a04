//! The chain types that requests and replies carry.
//!
//! The dispatcher never looks inside a value of these types: it hands parameters to the
//! provider and the provider's answers to the reply channel.

use vstd::prelude::*;

verus! {

/// `primitive_types::H256`, the hash that names a relay-chain block. Opaque here.
#[verifier::external_type_specification]
#[verifier::external_body]
pub struct ExHash(polkadot_primitives::Hash);

/// `polkadot_primitives::ValidatorId`, the public key of a validator. Opaque here.
#[verifier::external_type_specification]
#[verifier::external_body]
pub struct ExValidatorId(polkadot_primitives::ValidatorId);

/// `polkadot_primitives::ValidatorIndex`, a position in the validator set. Opaque here.
#[verifier::external_type_specification]
#[verifier::external_body]
pub struct ExValidatorIndex(polkadot_primitives::ValidatorIndex);

/// `polkadot_primitives::GroupRotationInfo`, the rotation metadata of the validator groups.
/// Opaque here.
#[verifier::external_type_specification]
#[verifier::external_body]
#[verifier::reject_recursive_types(N)]
pub struct ExGroupRotationInfo<N>(polkadot_primitives::GroupRotationInfo<N>);

/// `polkadot_primitives::CoreState`, the occupancy of one availability core. Opaque here.
#[verifier::external_type_specification]
#[verifier::external_body]
#[verifier::reject_recursive_types(H)]
#[verifier::reject_recursive_types(N)]
pub struct ExCoreState<H, N>(polkadot_primitives::CoreState<H, N>);

/// `polkadot_primitives::PersistedValidationData`. Opaque here.
#[verifier::external_type_specification]
#[verifier::external_body]
#[verifier::reject_recursive_types(H)]
#[verifier::reject_recursive_types(N)]
pub struct ExPersistedValidationData<H, N>(polkadot_primitives::PersistedValidationData<H, N>);

/// `polkadot_primitives::Id`, the identifier of a para. Opaque here.
#[verifier::external_type_specification]
#[verifier::external_body]
pub struct ExParaId(polkadot_primitives::Id);

/// `polkadot_primitives::OccupiedCoreAssumption`. Opaque here.
#[verifier::external_type_specification]
#[verifier::external_body]
pub struct ExOccupiedCoreAssumption(polkadot_primitives::OccupiedCoreAssumption);

/// `polkadot_primitives::ValidationCode`, a validation code blob. Opaque here.
#[verifier::external_type_specification]
#[verifier::external_body]
pub struct ExValidationCode(polkadot_primitives::ValidationCode);

/// `polkadot_primitives::CommittedCandidateReceiptV2`. Opaque here.
#[verifier::external_type_specification]
#[verifier::external_body]
#[verifier::reject_recursive_types(H)]
pub struct ExCommittedCandidateReceipt<H>(polkadot_primitives::CommittedCandidateReceiptV2<H>);

/// `polkadot_primitives::CandidateEvent`. Opaque here.
#[verifier::external_type_specification]
#[verifier::external_body]
#[verifier::reject_recursive_types(H)]
pub struct ExCandidateEvent<H>(polkadot_primitives::CandidateEvent<H>);

/// The hash that names a relay-chain block.
pub type BlockHash = polkadot_primitives::Hash;

/// The part of the validation data that changes from block to block.
#[derive(Clone, Debug, PartialEq, Eq, Default)]
pub struct TransientValidationData {
    /// The maximum code size permitted, in bytes.
    pub max_code_size: u32,
    /// The maximum head-data size permitted, in bytes.
    pub max_head_data_size: u32,
    /// The balance of the para.
    pub balance: u128,
    /// The relay-chain block number from which a code upgrade would apply, if one is allowed.
    pub code_upgrade_allowed: Option<u32>,
    /// The number of messages pending in the downward message queue.
    pub dmq_length: u32,
}

/// The full validation data of a para: the persisted and the transient part.
#[derive(Debug, PartialEq, Eq, Default)]
pub struct ValidationData {
    pub persisted: polkadot_primitives::PersistedValidationData<BlockHash, u32>,
    pub transient: TransientValidationData,
}

} // verus!
