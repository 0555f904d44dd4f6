use operation_pool::preset::{
    AltairPreset, BasePreset, BellatrixPreset, CapellaPreset, ChainSpec, DenebPreset,
    Eip7594Preset, ElectraPreset, EthSpec,
};

// A specification whose constants are all distinct, so that a field wired to
// the wrong source would be caught.
struct TestSpec;

// The `spec_*` members are the trait's ghost half; they are never run, so any
// body satisfies the compiler.
impl EthSpec for TestSpec {
    fn spec_max_validators_per_committee() -> u64 {
        unreachable!()
    }

    fn max_validators_per_committee() -> u64 {
        1000
    }

    fn spec_slots_per_epoch() -> u64 {
        unreachable!()
    }

    fn slots_per_epoch() -> u64 {
        1001
    }

    fn spec_epochs_per_eth1_voting_period() -> u64 {
        unreachable!()
    }

    fn epochs_per_eth1_voting_period() -> u64 {
        1002
    }

    fn spec_slots_per_historical_root() -> u64 {
        unreachable!()
    }

    fn slots_per_historical_root() -> u64 {
        1003
    }

    fn spec_epochs_per_historical_vector() -> u64 {
        unreachable!()
    }

    fn epochs_per_historical_vector() -> u64 {
        1004
    }

    fn spec_epochs_per_slashings_vector() -> u64 {
        unreachable!()
    }

    fn epochs_per_slashings_vector() -> u64 {
        1005
    }

    fn spec_historical_roots_limit() -> u64 {
        unreachable!()
    }

    fn historical_roots_limit() -> u64 {
        1006
    }

    fn spec_validator_registry_limit() -> u64 {
        unreachable!()
    }

    fn validator_registry_limit() -> u64 {
        1007
    }

    fn spec_max_proposer_slashings() -> u64 {
        unreachable!()
    }

    fn max_proposer_slashings() -> u64 {
        1008
    }

    fn spec_max_attester_slashings() -> u64 {
        unreachable!()
    }

    fn max_attester_slashings() -> u64 {
        1009
    }

    fn spec_max_attestations() -> u64 {
        unreachable!()
    }

    fn max_attestations() -> u64 {
        1010
    }

    fn spec_max_deposits() -> u64 {
        unreachable!()
    }

    fn max_deposits() -> u64 {
        1011
    }

    fn spec_max_voluntary_exits() -> u64 {
        unreachable!()
    }

    fn max_voluntary_exits() -> u64 {
        1012
    }

    fn spec_sync_committee_size() -> u64 {
        unreachable!()
    }

    fn sync_committee_size() -> u64 {
        1013
    }

    fn spec_max_bytes_per_transaction() -> u64 {
        unreachable!()
    }

    fn max_bytes_per_transaction() -> u64 {
        1014
    }

    fn spec_max_transactions_per_payload() -> u64 {
        unreachable!()
    }

    fn max_transactions_per_payload() -> u64 {
        1015
    }

    fn spec_bytes_per_logs_bloom() -> u64 {
        unreachable!()
    }

    fn bytes_per_logs_bloom() -> u64 {
        1016
    }

    fn spec_max_extra_data_bytes() -> u64 {
        unreachable!()
    }

    fn max_extra_data_bytes() -> u64 {
        1017
    }

    fn spec_max_bls_to_execution_changes() -> u64 {
        unreachable!()
    }

    fn max_bls_to_execution_changes() -> u64 {
        1018
    }

    fn spec_max_withdrawals_per_payload() -> u64 {
        unreachable!()
    }

    fn max_withdrawals_per_payload() -> u64 {
        1019
    }

    fn spec_max_blobs_per_block() -> u64 {
        unreachable!()
    }

    fn max_blobs_per_block() -> u64 {
        1020
    }

    fn spec_max_blob_commitments_per_block() -> u64 {
        unreachable!()
    }

    fn max_blob_commitments_per_block() -> u64 {
        1021
    }

    fn spec_field_elements_per_blob() -> u64 {
        unreachable!()
    }

    fn field_elements_per_blob() -> u64 {
        1022
    }

    fn spec_pending_balance_deposits_limit() -> u64 {
        unreachable!()
    }

    fn pending_balance_deposits_limit() -> u64 {
        1023
    }

    fn spec_pending_partial_withdrawals_limit() -> u64 {
        unreachable!()
    }

    fn pending_partial_withdrawals_limit() -> u64 {
        1024
    }

    fn spec_pending_consolidations_limit() -> u64 {
        unreachable!()
    }

    fn pending_consolidations_limit() -> u64 {
        1025
    }

    fn spec_max_consolidations() -> u64 {
        unreachable!()
    }

    fn max_consolidations() -> u64 {
        1026
    }

    fn spec_max_deposit_requests_per_payload() -> u64 {
        unreachable!()
    }

    fn max_deposit_requests_per_payload() -> u64 {
        1027
    }

    fn spec_max_attester_slashings_electra() -> u64 {
        unreachable!()
    }

    fn max_attester_slashings_electra() -> u64 {
        1028
    }

    fn spec_max_attestations_electra() -> u64 {
        unreachable!()
    }

    fn max_attestations_electra() -> u64 {
        1029
    }

    fn spec_max_withdrawal_requests_per_payload() -> u64 {
        unreachable!()
    }

    fn max_withdrawal_requests_per_payload() -> u64 {
        1030
    }

    fn spec_field_elements_per_cell() -> u64 {
        unreachable!()
    }

    fn field_elements_per_cell() -> u64 {
        1031
    }

    fn spec_field_elements_per_ext_blob() -> u64 {
        unreachable!()
    }

    fn field_elements_per_ext_blob() -> u64 {
        1032
    }

    fn spec_kzg_commitments_inclusion_proof_depth() -> u64 {
        unreachable!()
    }

    fn kzg_commitments_inclusion_proof_depth() -> u64 {
        1033
    }
}

fn test_chain_spec() -> ChainSpec {
    ChainSpec {
        max_committees_per_slot: 100,
        target_committee_size: 101,
        shuffle_round_count: 90,
        hysteresis_quotient: 103,
        hysteresis_downward_multiplier: 104,
        hysteresis_upward_multiplier: 105,
        safe_slots_to_update_justified: 106,
        min_deposit_amount: 107,
        max_effective_balance: 108,
        effective_balance_increment: 109,
        min_attestation_inclusion_delay: 110,
        min_seed_lookahead: 111,
        max_seed_lookahead: 112,
        min_epochs_to_inactivity_penalty: 113,
        base_reward_factor: 114,
        whistleblower_reward_quotient: 115,
        proposer_reward_quotient: 116,
        inactivity_penalty_quotient: 117,
        min_slashing_penalty_quotient: 118,
        proportional_slashing_multiplier: 119,
        inactivity_penalty_quotient_altair: 120,
        min_slashing_penalty_quotient_altair: 121,
        proportional_slashing_multiplier_altair: 122,
        epochs_per_sync_committee_period: 123,
        min_sync_committee_participants: 124,
        inactivity_penalty_quotient_bellatrix: 125,
        min_slashing_penalty_quotient_bellatrix: 126,
        proportional_slashing_multiplier_bellatrix: 127,
        max_validators_per_withdrawals_sweep: 128,
        min_activation_balance: 129,
        max_effective_balance_electra: 130,
        min_slashing_penalty_quotient_electra: 131,
        whistleblower_reward_quotient_electra: 132,
        max_pending_partials_per_withdrawals_sweep: 133,
    }
}

#[test]
fn base_preset_copies_its_sources() {
    let spec = test_chain_spec();
    let p = BasePreset::from_chain_spec::<TestSpec>(&spec);
    assert_eq!(p.max_committees_per_slot, spec.max_committees_per_slot);
    assert_eq!(p.target_committee_size, spec.target_committee_size);
    assert_eq!(p.max_validators_per_committee, TestSpec::max_validators_per_committee());
    assert_eq!(p.shuffle_round_count, spec.shuffle_round_count);
    assert_eq!(p.hysteresis_quotient, spec.hysteresis_quotient);
    assert_eq!(p.hysteresis_downward_multiplier, spec.hysteresis_downward_multiplier);
    assert_eq!(p.hysteresis_upward_multiplier, spec.hysteresis_upward_multiplier);
    assert_eq!(p.safe_slots_to_update_justified, spec.safe_slots_to_update_justified);
    assert_eq!(p.min_deposit_amount, spec.min_deposit_amount);
    assert_eq!(p.max_effective_balance, spec.max_effective_balance);
    assert_eq!(p.effective_balance_increment, spec.effective_balance_increment);
    assert_eq!(p.min_attestation_inclusion_delay, spec.min_attestation_inclusion_delay);
    assert_eq!(p.slots_per_epoch, TestSpec::slots_per_epoch());
    assert_eq!(p.min_seed_lookahead, spec.min_seed_lookahead);
    assert_eq!(p.max_seed_lookahead, spec.max_seed_lookahead);
    assert_eq!(p.epochs_per_eth1_voting_period, TestSpec::epochs_per_eth1_voting_period());
    assert_eq!(p.slots_per_historical_root, TestSpec::slots_per_historical_root());
    assert_eq!(p.min_epochs_to_inactivity_penalty, spec.min_epochs_to_inactivity_penalty);
    assert_eq!(p.epochs_per_historical_vector, TestSpec::epochs_per_historical_vector());
    assert_eq!(p.epochs_per_slashings_vector, TestSpec::epochs_per_slashings_vector());
    assert_eq!(p.historical_roots_limit, TestSpec::historical_roots_limit());
    assert_eq!(p.validator_registry_limit, TestSpec::validator_registry_limit());
    assert_eq!(p.base_reward_factor, spec.base_reward_factor);
    assert_eq!(p.whistleblower_reward_quotient, spec.whistleblower_reward_quotient);
    assert_eq!(p.proposer_reward_quotient, spec.proposer_reward_quotient);
    assert_eq!(p.inactivity_penalty_quotient, spec.inactivity_penalty_quotient);
    assert_eq!(p.min_slashing_penalty_quotient, spec.min_slashing_penalty_quotient);
    assert_eq!(p.proportional_slashing_multiplier, spec.proportional_slashing_multiplier);
    assert_eq!(p.max_proposer_slashings, TestSpec::max_proposer_slashings());
    assert_eq!(p.max_attester_slashings, TestSpec::max_attester_slashings());
    assert_eq!(p.max_attestations, TestSpec::max_attestations());
    assert_eq!(p.max_deposits, TestSpec::max_deposits());
    assert_eq!(p.max_voluntary_exits, TestSpec::max_voluntary_exits());
}

#[test]
fn altair_preset_copies_its_sources() {
    let spec = test_chain_spec();
    let p = AltairPreset::from_chain_spec::<TestSpec>(&spec);
    assert_eq!(p.inactivity_penalty_quotient_altair, spec.inactivity_penalty_quotient_altair);
    assert_eq!(p.min_slashing_penalty_quotient_altair, spec.min_slashing_penalty_quotient_altair);
    assert_eq!(p.proportional_slashing_multiplier_altair, spec.proportional_slashing_multiplier_altair);
    assert_eq!(p.sync_committee_size, TestSpec::sync_committee_size());
    assert_eq!(p.epochs_per_sync_committee_period, spec.epochs_per_sync_committee_period);
    assert_eq!(p.min_sync_committee_participants, spec.min_sync_committee_participants);
}

#[test]
fn bellatrix_preset_copies_its_sources() {
    let spec = test_chain_spec();
    let p = BellatrixPreset::from_chain_spec::<TestSpec>(&spec);
    assert_eq!(p.inactivity_penalty_quotient_bellatrix, spec.inactivity_penalty_quotient_bellatrix);
    assert_eq!(p.min_slashing_penalty_quotient_bellatrix, spec.min_slashing_penalty_quotient_bellatrix);
    assert_eq!(p.proportional_slashing_multiplier_bellatrix, spec.proportional_slashing_multiplier_bellatrix);
    assert_eq!(p.max_bytes_per_transaction, TestSpec::max_bytes_per_transaction());
    assert_eq!(p.max_transactions_per_payload, TestSpec::max_transactions_per_payload());
    assert_eq!(p.bytes_per_logs_bloom, TestSpec::bytes_per_logs_bloom());
    assert_eq!(p.max_extra_data_bytes, TestSpec::max_extra_data_bytes());
}

#[test]
fn capella_preset_copies_its_sources() {
    let spec = test_chain_spec();
    let p = CapellaPreset::from_chain_spec::<TestSpec>(&spec);
    assert_eq!(p.max_bls_to_execution_changes, TestSpec::max_bls_to_execution_changes());
    assert_eq!(p.max_withdrawals_per_payload, TestSpec::max_withdrawals_per_payload());
    assert_eq!(p.max_validators_per_withdrawals_sweep, spec.max_validators_per_withdrawals_sweep);
}

#[test]
fn deneb_preset_copies_its_sources() {
    let spec = test_chain_spec();
    let p = DenebPreset::from_chain_spec::<TestSpec>(&spec);
    assert_eq!(p.max_blobs_per_block, TestSpec::max_blobs_per_block());
    assert_eq!(p.max_blob_commitments_per_block, TestSpec::max_blob_commitments_per_block());
    assert_eq!(p.field_elements_per_blob, TestSpec::field_elements_per_blob());
}

#[test]
fn electra_preset_copies_its_sources() {
    let spec = test_chain_spec();
    let p = ElectraPreset::from_chain_spec::<TestSpec>(&spec);
    assert_eq!(p.min_activation_balance, spec.min_activation_balance);
    assert_eq!(p.max_effective_balance_electra, spec.max_effective_balance_electra);
    assert_eq!(p.min_slashing_penalty_quotient_electra, spec.min_slashing_penalty_quotient_electra);
    assert_eq!(p.whistleblower_reward_quotient_electra, spec.whistleblower_reward_quotient_electra);
    assert_eq!(p.max_pending_partials_per_withdrawals_sweep, spec.max_pending_partials_per_withdrawals_sweep);
    assert_eq!(p.pending_balance_deposits_limit, TestSpec::pending_balance_deposits_limit());
    assert_eq!(p.pending_partial_withdrawals_limit, TestSpec::pending_partial_withdrawals_limit());
    assert_eq!(p.pending_consolidations_limit, TestSpec::pending_consolidations_limit());
    assert_eq!(p.max_consolidations, TestSpec::max_consolidations());
    assert_eq!(p.max_deposit_requests_per_payload, TestSpec::max_deposit_requests_per_payload());
    assert_eq!(p.max_attester_slashings_electra, TestSpec::max_attester_slashings_electra());
    assert_eq!(p.max_attestations_electra, TestSpec::max_attestations_electra());
    assert_eq!(p.max_withdrawal_requests_per_payload, TestSpec::max_withdrawal_requests_per_payload());
}

#[test]
fn eip7594_preset_copies_its_sources() {
    let spec = test_chain_spec();
    let p = Eip7594Preset::from_chain_spec::<TestSpec>(&spec);
    assert_eq!(p.field_elements_per_cell, TestSpec::field_elements_per_cell());
    assert_eq!(p.field_elements_per_ext_blob, TestSpec::field_elements_per_ext_blob());
    assert_eq!(p.kzg_commitments_inclusion_proof_depth, TestSpec::kzg_commitments_inclusion_proof_depth());
}

