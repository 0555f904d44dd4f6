//! Value-level representation of a consensus "preset".
//!
//! These structs carry, as plain integers, the per-fork constants that a
//! chain configuration and a compile-time specification together determine.
//! They only exist to make those values available as data, e.g. so that
//! surrounding code can check them for consistency against configuration
//! files or serve them over an API; they hold no algorithmic content.

use vstd::prelude::*;

verus! {

/// The run-time configurable constants of a chain, as far as the presets
/// read them.  Counts and epoch numbers are plain integers here.
pub struct ChainSpec {
    pub max_committees_per_slot: u64,
    pub target_committee_size: u64,
    pub shuffle_round_count: u8,
    pub hysteresis_quotient: u64,
    pub hysteresis_downward_multiplier: u64,
    pub hysteresis_upward_multiplier: u64,
    pub safe_slots_to_update_justified: u64,
    pub min_deposit_amount: u64,
    pub max_effective_balance: u64,
    pub effective_balance_increment: u64,
    pub min_attestation_inclusion_delay: u64,
    pub min_seed_lookahead: u64,
    pub max_seed_lookahead: u64,
    pub min_epochs_to_inactivity_penalty: u64,
    pub base_reward_factor: u64,
    pub whistleblower_reward_quotient: u64,
    pub proposer_reward_quotient: u64,
    pub inactivity_penalty_quotient: u64,
    pub min_slashing_penalty_quotient: u64,
    pub proportional_slashing_multiplier: u64,
    pub inactivity_penalty_quotient_altair: u64,
    pub min_slashing_penalty_quotient_altair: u64,
    pub proportional_slashing_multiplier_altair: u64,
    pub epochs_per_sync_committee_period: u64,
    pub min_sync_committee_participants: u64,
    pub inactivity_penalty_quotient_bellatrix: u64,
    pub min_slashing_penalty_quotient_bellatrix: u64,
    pub proportional_slashing_multiplier_bellatrix: u64,
    pub max_validators_per_withdrawals_sweep: u64,
    pub min_activation_balance: u64,
    pub max_effective_balance_electra: u64,
    pub min_slashing_penalty_quotient_electra: u64,
    pub whistleblower_reward_quotient_electra: u64,
    pub max_pending_partials_per_withdrawals_sweep: u64,
}

/// The compile-time constants of a specification.  Each constant comes as a
/// ghost value together with an executable accessor that returns exactly it.
pub trait EthSpec {
    /// Ghost value of `max_validators_per_committee`.
    spec fn spec_max_validators_per_committee() -> u64;

    fn max_validators_per_committee() -> (r: u64)
        ensures
            r == Self::spec_max_validators_per_committee(),
    ;

    /// Ghost value of `slots_per_epoch`.
    spec fn spec_slots_per_epoch() -> u64;

    fn slots_per_epoch() -> (r: u64)
        ensures
            r == Self::spec_slots_per_epoch(),
    ;

    /// Ghost value of `epochs_per_eth1_voting_period`.
    spec fn spec_epochs_per_eth1_voting_period() -> u64;

    fn epochs_per_eth1_voting_period() -> (r: u64)
        ensures
            r == Self::spec_epochs_per_eth1_voting_period(),
    ;

    /// Ghost value of `slots_per_historical_root`.
    spec fn spec_slots_per_historical_root() -> u64;

    fn slots_per_historical_root() -> (r: u64)
        ensures
            r == Self::spec_slots_per_historical_root(),
    ;

    /// Ghost value of `epochs_per_historical_vector`.
    spec fn spec_epochs_per_historical_vector() -> u64;

    fn epochs_per_historical_vector() -> (r: u64)
        ensures
            r == Self::spec_epochs_per_historical_vector(),
    ;

    /// Ghost value of `epochs_per_slashings_vector`.
    spec fn spec_epochs_per_slashings_vector() -> u64;

    fn epochs_per_slashings_vector() -> (r: u64)
        ensures
            r == Self::spec_epochs_per_slashings_vector(),
    ;

    /// Ghost value of `historical_roots_limit`.
    spec fn spec_historical_roots_limit() -> u64;

    fn historical_roots_limit() -> (r: u64)
        ensures
            r == Self::spec_historical_roots_limit(),
    ;

    /// Ghost value of `validator_registry_limit`.
    spec fn spec_validator_registry_limit() -> u64;

    fn validator_registry_limit() -> (r: u64)
        ensures
            r == Self::spec_validator_registry_limit(),
    ;

    /// Ghost value of `max_proposer_slashings`.
    spec fn spec_max_proposer_slashings() -> u64;

    fn max_proposer_slashings() -> (r: u64)
        ensures
            r == Self::spec_max_proposer_slashings(),
    ;

    /// Ghost value of `max_attester_slashings`.
    spec fn spec_max_attester_slashings() -> u64;

    fn max_attester_slashings() -> (r: u64)
        ensures
            r == Self::spec_max_attester_slashings(),
    ;

    /// Ghost value of `max_attestations`.
    spec fn spec_max_attestations() -> u64;

    fn max_attestations() -> (r: u64)
        ensures
            r == Self::spec_max_attestations(),
    ;

    /// Ghost value of `max_deposits`.
    spec fn spec_max_deposits() -> u64;

    fn max_deposits() -> (r: u64)
        ensures
            r == Self::spec_max_deposits(),
    ;

    /// Ghost value of `max_voluntary_exits`.
    spec fn spec_max_voluntary_exits() -> u64;

    fn max_voluntary_exits() -> (r: u64)
        ensures
            r == Self::spec_max_voluntary_exits(),
    ;

    /// Ghost value of `sync_committee_size`.
    spec fn spec_sync_committee_size() -> u64;

    fn sync_committee_size() -> (r: u64)
        ensures
            r == Self::spec_sync_committee_size(),
    ;

    /// Ghost value of `max_bytes_per_transaction`.
    spec fn spec_max_bytes_per_transaction() -> u64;

    fn max_bytes_per_transaction() -> (r: u64)
        ensures
            r == Self::spec_max_bytes_per_transaction(),
    ;

    /// Ghost value of `max_transactions_per_payload`.
    spec fn spec_max_transactions_per_payload() -> u64;

    fn max_transactions_per_payload() -> (r: u64)
        ensures
            r == Self::spec_max_transactions_per_payload(),
    ;

    /// Ghost value of `bytes_per_logs_bloom`.
    spec fn spec_bytes_per_logs_bloom() -> u64;

    fn bytes_per_logs_bloom() -> (r: u64)
        ensures
            r == Self::spec_bytes_per_logs_bloom(),
    ;

    /// Ghost value of `max_extra_data_bytes`.
    spec fn spec_max_extra_data_bytes() -> u64;

    fn max_extra_data_bytes() -> (r: u64)
        ensures
            r == Self::spec_max_extra_data_bytes(),
    ;

    /// Ghost value of `max_bls_to_execution_changes`.
    spec fn spec_max_bls_to_execution_changes() -> u64;

    fn max_bls_to_execution_changes() -> (r: u64)
        ensures
            r == Self::spec_max_bls_to_execution_changes(),
    ;

    /// Ghost value of `max_withdrawals_per_payload`.
    spec fn spec_max_withdrawals_per_payload() -> u64;

    fn max_withdrawals_per_payload() -> (r: u64)
        ensures
            r == Self::spec_max_withdrawals_per_payload(),
    ;

    /// Ghost value of `max_blobs_per_block`.
    spec fn spec_max_blobs_per_block() -> u64;

    fn max_blobs_per_block() -> (r: u64)
        ensures
            r == Self::spec_max_blobs_per_block(),
    ;

    /// Ghost value of `max_blob_commitments_per_block`.
    spec fn spec_max_blob_commitments_per_block() -> u64;

    fn max_blob_commitments_per_block() -> (r: u64)
        ensures
            r == Self::spec_max_blob_commitments_per_block(),
    ;

    /// Ghost value of `field_elements_per_blob`.
    spec fn spec_field_elements_per_blob() -> u64;

    fn field_elements_per_blob() -> (r: u64)
        ensures
            r == Self::spec_field_elements_per_blob(),
    ;

    /// Ghost value of `pending_balance_deposits_limit`.
    spec fn spec_pending_balance_deposits_limit() -> u64;

    fn pending_balance_deposits_limit() -> (r: u64)
        ensures
            r == Self::spec_pending_balance_deposits_limit(),
    ;

    /// Ghost value of `pending_partial_withdrawals_limit`.
    spec fn spec_pending_partial_withdrawals_limit() -> u64;

    fn pending_partial_withdrawals_limit() -> (r: u64)
        ensures
            r == Self::spec_pending_partial_withdrawals_limit(),
    ;

    /// Ghost value of `pending_consolidations_limit`.
    spec fn spec_pending_consolidations_limit() -> u64;

    fn pending_consolidations_limit() -> (r: u64)
        ensures
            r == Self::spec_pending_consolidations_limit(),
    ;

    /// Ghost value of `max_consolidations`.
    spec fn spec_max_consolidations() -> u64;

    fn max_consolidations() -> (r: u64)
        ensures
            r == Self::spec_max_consolidations(),
    ;

    /// Ghost value of `max_deposit_requests_per_payload`.
    spec fn spec_max_deposit_requests_per_payload() -> u64;

    fn max_deposit_requests_per_payload() -> (r: u64)
        ensures
            r == Self::spec_max_deposit_requests_per_payload(),
    ;

    /// Ghost value of `max_attester_slashings_electra`.
    spec fn spec_max_attester_slashings_electra() -> u64;

    fn max_attester_slashings_electra() -> (r: u64)
        ensures
            r == Self::spec_max_attester_slashings_electra(),
    ;

    /// Ghost value of `max_attestations_electra`.
    spec fn spec_max_attestations_electra() -> u64;

    fn max_attestations_electra() -> (r: u64)
        ensures
            r == Self::spec_max_attestations_electra(),
    ;

    /// Ghost value of `max_withdrawal_requests_per_payload`.
    spec fn spec_max_withdrawal_requests_per_payload() -> u64;

    fn max_withdrawal_requests_per_payload() -> (r: u64)
        ensures
            r == Self::spec_max_withdrawal_requests_per_payload(),
    ;

    /// Ghost value of `field_elements_per_cell`.
    spec fn spec_field_elements_per_cell() -> u64;

    fn field_elements_per_cell() -> (r: u64)
        ensures
            r == Self::spec_field_elements_per_cell(),
    ;

    /// Ghost value of `field_elements_per_ext_blob`.
    spec fn spec_field_elements_per_ext_blob() -> u64;

    fn field_elements_per_ext_blob() -> (r: u64)
        ensures
            r == Self::spec_field_elements_per_ext_blob(),
    ;

    /// Ghost value of `kzg_commitments_inclusion_proof_depth`.
    spec fn spec_kzg_commitments_inclusion_proof_depth() -> u64;

    fn kzg_commitments_inclusion_proof_depth() -> (r: u64)
        ensures
            r == Self::spec_kzg_commitments_inclusion_proof_depth(),
    ;
}

/// The constants of the base fork.
#[derive(Debug, Clone, PartialEq, Eq, Structural)]
pub struct BasePreset {
    pub max_committees_per_slot: u64,
    pub target_committee_size: u64,
    pub max_validators_per_committee: u64,
    pub shuffle_round_count: u8,
    pub hysteresis_quotient: u64,
    pub hysteresis_downward_multiplier: u64,
    pub hysteresis_upward_multiplier: u64,
    pub safe_slots_to_update_justified: u64,
    pub min_deposit_amount: u64,
    pub max_effective_balance: u64,
    pub effective_balance_increment: u64,
    pub min_attestation_inclusion_delay: u64,
    pub slots_per_epoch: u64,
    pub min_seed_lookahead: u64,
    pub max_seed_lookahead: u64,
    pub epochs_per_eth1_voting_period: u64,
    pub slots_per_historical_root: u64,
    pub min_epochs_to_inactivity_penalty: u64,
    pub epochs_per_historical_vector: u64,
    pub epochs_per_slashings_vector: u64,
    pub historical_roots_limit: u64,
    pub validator_registry_limit: u64,
    pub base_reward_factor: u64,
    pub whistleblower_reward_quotient: u64,
    pub proposer_reward_quotient: u64,
    pub inactivity_penalty_quotient: u64,
    pub min_slashing_penalty_quotient: u64,
    pub proportional_slashing_multiplier: u64,
    pub max_proposer_slashings: u64,
    pub max_attester_slashings: u64,
    pub max_attestations: u64,
    pub max_deposits: u64,
    pub max_voluntary_exits: u64,
}

impl BasePreset {
    /// Collect this fork's constants from a chain configuration and a
    /// compile-time specification; every field is pinned to its source.
    pub fn from_chain_spec<E: EthSpec>(spec: &ChainSpec) -> (r: Self)
        ensures
            r == (BasePreset {
                max_committees_per_slot: spec.max_committees_per_slot,
                target_committee_size: spec.target_committee_size,
                max_validators_per_committee: E::spec_max_validators_per_committee(),
                shuffle_round_count: spec.shuffle_round_count,
                hysteresis_quotient: spec.hysteresis_quotient,
                hysteresis_downward_multiplier: spec.hysteresis_downward_multiplier,
                hysteresis_upward_multiplier: spec.hysteresis_upward_multiplier,
                safe_slots_to_update_justified: spec.safe_slots_to_update_justified,
                min_deposit_amount: spec.min_deposit_amount,
                max_effective_balance: spec.max_effective_balance,
                effective_balance_increment: spec.effective_balance_increment,
                min_attestation_inclusion_delay: spec.min_attestation_inclusion_delay,
                slots_per_epoch: E::spec_slots_per_epoch(),
                min_seed_lookahead: spec.min_seed_lookahead,
                max_seed_lookahead: spec.max_seed_lookahead,
                epochs_per_eth1_voting_period: E::spec_epochs_per_eth1_voting_period(),
                slots_per_historical_root: E::spec_slots_per_historical_root(),
                min_epochs_to_inactivity_penalty: spec.min_epochs_to_inactivity_penalty,
                epochs_per_historical_vector: E::spec_epochs_per_historical_vector(),
                epochs_per_slashings_vector: E::spec_epochs_per_slashings_vector(),
                historical_roots_limit: E::spec_historical_roots_limit(),
                validator_registry_limit: E::spec_validator_registry_limit(),
                base_reward_factor: spec.base_reward_factor,
                whistleblower_reward_quotient: spec.whistleblower_reward_quotient,
                proposer_reward_quotient: spec.proposer_reward_quotient,
                inactivity_penalty_quotient: spec.inactivity_penalty_quotient,
                min_slashing_penalty_quotient: spec.min_slashing_penalty_quotient,
                proportional_slashing_multiplier: spec.proportional_slashing_multiplier,
                max_proposer_slashings: E::spec_max_proposer_slashings(),
                max_attester_slashings: E::spec_max_attester_slashings(),
                max_attestations: E::spec_max_attestations(),
                max_deposits: E::spec_max_deposits(),
                max_voluntary_exits: E::spec_max_voluntary_exits(),
            }),
    {
        BasePreset {
            max_committees_per_slot: spec.max_committees_per_slot,
            target_committee_size: spec.target_committee_size,
            max_validators_per_committee: E::max_validators_per_committee(),
            shuffle_round_count: spec.shuffle_round_count,
            hysteresis_quotient: spec.hysteresis_quotient,
            hysteresis_downward_multiplier: spec.hysteresis_downward_multiplier,
            hysteresis_upward_multiplier: spec.hysteresis_upward_multiplier,
            safe_slots_to_update_justified: spec.safe_slots_to_update_justified,
            min_deposit_amount: spec.min_deposit_amount,
            max_effective_balance: spec.max_effective_balance,
            effective_balance_increment: spec.effective_balance_increment,
            min_attestation_inclusion_delay: spec.min_attestation_inclusion_delay,
            slots_per_epoch: E::slots_per_epoch(),
            min_seed_lookahead: spec.min_seed_lookahead,
            max_seed_lookahead: spec.max_seed_lookahead,
            epochs_per_eth1_voting_period: E::epochs_per_eth1_voting_period(),
            slots_per_historical_root: E::slots_per_historical_root(),
            min_epochs_to_inactivity_penalty: spec.min_epochs_to_inactivity_penalty,
            epochs_per_historical_vector: E::epochs_per_historical_vector(),
            epochs_per_slashings_vector: E::epochs_per_slashings_vector(),
            historical_roots_limit: E::historical_roots_limit(),
            validator_registry_limit: E::validator_registry_limit(),
            base_reward_factor: spec.base_reward_factor,
            whistleblower_reward_quotient: spec.whistleblower_reward_quotient,
            proposer_reward_quotient: spec.proposer_reward_quotient,
            inactivity_penalty_quotient: spec.inactivity_penalty_quotient,
            min_slashing_penalty_quotient: spec.min_slashing_penalty_quotient,
            proportional_slashing_multiplier: spec.proportional_slashing_multiplier,
            max_proposer_slashings: E::max_proposer_slashings(),
            max_attester_slashings: E::max_attester_slashings(),
            max_attestations: E::max_attestations(),
            max_deposits: E::max_deposits(),
            max_voluntary_exits: E::max_voluntary_exits(),
        }
    }
}

/// The constants introduced by the Altair fork.
#[derive(Debug, Clone, PartialEq, Eq, Structural)]
pub struct AltairPreset {
    pub inactivity_penalty_quotient_altair: u64,
    pub min_slashing_penalty_quotient_altair: u64,
    pub proportional_slashing_multiplier_altair: u64,
    pub sync_committee_size: u64,
    pub epochs_per_sync_committee_period: u64,
    pub min_sync_committee_participants: u64,
}

impl AltairPreset {
    /// Collect this fork's constants from a chain configuration and a
    /// compile-time specification; every field is pinned to its source.
    pub fn from_chain_spec<E: EthSpec>(spec: &ChainSpec) -> (r: Self)
        ensures
            r == (AltairPreset {
                inactivity_penalty_quotient_altair: spec.inactivity_penalty_quotient_altair,
                min_slashing_penalty_quotient_altair: spec.min_slashing_penalty_quotient_altair,
                proportional_slashing_multiplier_altair: spec.proportional_slashing_multiplier_altair,
                sync_committee_size: E::spec_sync_committee_size(),
                epochs_per_sync_committee_period: spec.epochs_per_sync_committee_period,
                min_sync_committee_participants: spec.min_sync_committee_participants,
            }),
    {
        AltairPreset {
            inactivity_penalty_quotient_altair: spec.inactivity_penalty_quotient_altair,
            min_slashing_penalty_quotient_altair: spec.min_slashing_penalty_quotient_altair,
            proportional_slashing_multiplier_altair: spec.proportional_slashing_multiplier_altair,
            sync_committee_size: E::sync_committee_size(),
            epochs_per_sync_committee_period: spec.epochs_per_sync_committee_period,
            min_sync_committee_participants: spec.min_sync_committee_participants,
        }
    }
}

/// The constants introduced by the Bellatrix fork.
#[derive(Debug, Clone, PartialEq, Eq, Structural)]
pub struct BellatrixPreset {
    pub inactivity_penalty_quotient_bellatrix: u64,
    pub min_slashing_penalty_quotient_bellatrix: u64,
    pub proportional_slashing_multiplier_bellatrix: u64,
    pub max_bytes_per_transaction: u64,
    pub max_transactions_per_payload: u64,
    pub bytes_per_logs_bloom: u64,
    pub max_extra_data_bytes: u64,
}

impl BellatrixPreset {
    /// Collect this fork's constants from a chain configuration and a
    /// compile-time specification; every field is pinned to its source.
    pub fn from_chain_spec<E: EthSpec>(spec: &ChainSpec) -> (r: Self)
        ensures
            r == (BellatrixPreset {
                inactivity_penalty_quotient_bellatrix: spec.inactivity_penalty_quotient_bellatrix,
                min_slashing_penalty_quotient_bellatrix: spec.min_slashing_penalty_quotient_bellatrix,
                proportional_slashing_multiplier_bellatrix: spec.proportional_slashing_multiplier_bellatrix,
                max_bytes_per_transaction: E::spec_max_bytes_per_transaction(),
                max_transactions_per_payload: E::spec_max_transactions_per_payload(),
                bytes_per_logs_bloom: E::spec_bytes_per_logs_bloom(),
                max_extra_data_bytes: E::spec_max_extra_data_bytes(),
            }),
    {
        BellatrixPreset {
            inactivity_penalty_quotient_bellatrix: spec.inactivity_penalty_quotient_bellatrix,
            min_slashing_penalty_quotient_bellatrix: spec.min_slashing_penalty_quotient_bellatrix,
            proportional_slashing_multiplier_bellatrix: spec.proportional_slashing_multiplier_bellatrix,
            max_bytes_per_transaction: E::max_bytes_per_transaction(),
            max_transactions_per_payload: E::max_transactions_per_payload(),
            bytes_per_logs_bloom: E::bytes_per_logs_bloom(),
            max_extra_data_bytes: E::max_extra_data_bytes(),
        }
    }
}

/// The constants introduced by the Capella fork.
#[derive(Debug, Clone, PartialEq, Eq, Structural)]
pub struct CapellaPreset {
    pub max_bls_to_execution_changes: u64,
    pub max_withdrawals_per_payload: u64,
    pub max_validators_per_withdrawals_sweep: u64,
}

impl CapellaPreset {
    /// Collect this fork's constants from a chain configuration and a
    /// compile-time specification; every field is pinned to its source.
    pub fn from_chain_spec<E: EthSpec>(spec: &ChainSpec) -> (r: Self)
        ensures
            r == (CapellaPreset {
                max_bls_to_execution_changes: E::spec_max_bls_to_execution_changes(),
                max_withdrawals_per_payload: E::spec_max_withdrawals_per_payload(),
                max_validators_per_withdrawals_sweep: spec.max_validators_per_withdrawals_sweep,
            }),
    {
        CapellaPreset {
            max_bls_to_execution_changes: E::max_bls_to_execution_changes(),
            max_withdrawals_per_payload: E::max_withdrawals_per_payload(),
            max_validators_per_withdrawals_sweep: spec.max_validators_per_withdrawals_sweep,
        }
    }
}

/// The constants introduced by the Deneb fork.
#[derive(Debug, Clone, PartialEq, Eq, Structural)]
pub struct DenebPreset {
    pub max_blobs_per_block: u64,
    pub max_blob_commitments_per_block: u64,
    pub field_elements_per_blob: u64,
}

impl DenebPreset {
    /// Collect this fork's constants from a chain configuration and a
    /// compile-time specification; every field is pinned to its source.
    pub fn from_chain_spec<E: EthSpec>(_spec: &ChainSpec) -> (r: Self)
        ensures
            r == (DenebPreset {
                max_blobs_per_block: E::spec_max_blobs_per_block(),
                max_blob_commitments_per_block: E::spec_max_blob_commitments_per_block(),
                field_elements_per_blob: E::spec_field_elements_per_blob(),
            }),
    {
        DenebPreset {
            max_blobs_per_block: E::max_blobs_per_block(),
            max_blob_commitments_per_block: E::max_blob_commitments_per_block(),
            field_elements_per_blob: E::field_elements_per_blob(),
        }
    }
}

/// The constants introduced by the Electra fork.
#[derive(Debug, Clone, PartialEq, Eq, Structural)]
pub struct ElectraPreset {
    pub min_activation_balance: u64,
    pub max_effective_balance_electra: u64,
    pub min_slashing_penalty_quotient_electra: u64,
    pub whistleblower_reward_quotient_electra: u64,
    pub max_pending_partials_per_withdrawals_sweep: u64,
    pub pending_balance_deposits_limit: u64,
    pub pending_partial_withdrawals_limit: u64,
    pub pending_consolidations_limit: u64,
    pub max_consolidations: u64,
    pub max_deposit_requests_per_payload: u64,
    pub max_attester_slashings_electra: u64,
    pub max_attestations_electra: u64,
    pub max_withdrawal_requests_per_payload: u64,
}

impl ElectraPreset {
    /// Collect this fork's constants from a chain configuration and a
    /// compile-time specification; every field is pinned to its source.
    pub fn from_chain_spec<E: EthSpec>(spec: &ChainSpec) -> (r: Self)
        ensures
            r == (ElectraPreset {
                min_activation_balance: spec.min_activation_balance,
                max_effective_balance_electra: spec.max_effective_balance_electra,
                min_slashing_penalty_quotient_electra: spec.min_slashing_penalty_quotient_electra,
                whistleblower_reward_quotient_electra: spec.whistleblower_reward_quotient_electra,
                max_pending_partials_per_withdrawals_sweep: spec.max_pending_partials_per_withdrawals_sweep,
                pending_balance_deposits_limit: E::spec_pending_balance_deposits_limit(),
                pending_partial_withdrawals_limit: E::spec_pending_partial_withdrawals_limit(),
                pending_consolidations_limit: E::spec_pending_consolidations_limit(),
                max_consolidations: E::spec_max_consolidations(),
                max_deposit_requests_per_payload: E::spec_max_deposit_requests_per_payload(),
                max_attester_slashings_electra: E::spec_max_attester_slashings_electra(),
                max_attestations_electra: E::spec_max_attestations_electra(),
                max_withdrawal_requests_per_payload: E::spec_max_withdrawal_requests_per_payload(),
            }),
    {
        ElectraPreset {
            min_activation_balance: spec.min_activation_balance,
            max_effective_balance_electra: spec.max_effective_balance_electra,
            min_slashing_penalty_quotient_electra: spec.min_slashing_penalty_quotient_electra,
            whistleblower_reward_quotient_electra: spec.whistleblower_reward_quotient_electra,
            max_pending_partials_per_withdrawals_sweep: spec.max_pending_partials_per_withdrawals_sweep,
            pending_balance_deposits_limit: E::pending_balance_deposits_limit(),
            pending_partial_withdrawals_limit: E::pending_partial_withdrawals_limit(),
            pending_consolidations_limit: E::pending_consolidations_limit(),
            max_consolidations: E::max_consolidations(),
            max_deposit_requests_per_payload: E::max_deposit_requests_per_payload(),
            max_attester_slashings_electra: E::max_attester_slashings_electra(),
            max_attestations_electra: E::max_attestations_electra(),
            max_withdrawal_requests_per_payload: E::max_withdrawal_requests_per_payload(),
        }
    }
}

/// The constants introduced by the data-availability sampling extension.
#[derive(Debug, Clone, PartialEq, Eq, Structural)]
pub struct Eip7594Preset {
    pub field_elements_per_cell: u64,
    pub field_elements_per_ext_blob: u64,
    pub kzg_commitments_inclusion_proof_depth: u64,
}

impl Eip7594Preset {
    /// Collect this fork's constants from a chain configuration and a
    /// compile-time specification; every field is pinned to its source.
    pub fn from_chain_spec<E: EthSpec>(_spec: &ChainSpec) -> (r: Self)
        ensures
            r == (Eip7594Preset {
                field_elements_per_cell: E::spec_field_elements_per_cell(),
                field_elements_per_ext_blob: E::spec_field_elements_per_ext_blob(),
                kzg_commitments_inclusion_proof_depth: E::spec_kzg_commitments_inclusion_proof_depth(),
            }),
    {
        Eip7594Preset {
            field_elements_per_cell: E::field_elements_per_cell(),
            field_elements_per_ext_blob: E::field_elements_per_ext_blob(),
            kzg_commitments_inclusion_proof_depth: E::kzg_commitments_inclusion_proof_depth(),
        }
    }
}

} // verus!
