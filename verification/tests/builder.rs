use sha_builder::circuit::{
    CircuitBuilderStage, ConfigError, SHAConfig, ShaCircuitBuilder, SPREAD_NUM_ADVICE_COLUMNS,
    SPREAD_NUM_BITS_LOOKUP,
};
use sha_builder::gate::{CellValue, LaneType, ShaThreadBuilder};

#[test]
fn stages_fix_the_pass_wide_flags() {
    let keygen = ShaThreadBuilder::keygen();
    assert!(!keygen.witness_gen_only());
    assert!(keygen.use_unknown());
    let mock = ShaThreadBuilder::mock();
    assert!(!mock.witness_gen_only());
    assert!(!mock.use_unknown());
    let prover = ShaThreadBuilder::prover();
    assert!(prover.witness_gen_only());
    assert!(!prover.use_unknown());

    let b = ShaThreadBuilder::from_stage(CircuitBuilderStage::Prover);
    assert!(b.witness_gen_only() && !b.use_unknown());
    let b = ShaThreadBuilder::from_stage(CircuitBuilderStage::Keygen);
    assert!(!b.witness_gen_only() && b.use_unknown());

    let c = ShaCircuitBuilder::keygen();
    assert!(!c.core.witness_gen_only() && c.core.use_unknown());
    let c = ShaCircuitBuilder::prover();
    assert!(c.core.witness_gen_only() && !c.core.use_unknown());
}

#[test]
fn lane_ids_increase_per_lane_type() {
    let mut b = ShaThreadBuilder::mock();
    assert_eq!(b.new_thread_dense(), 0);
    assert_eq!(b.new_thread_spread(), 0);
    assert_eq!(b.new_thread_dense(), 1);
    assert_eq!(b.new_thread_spread(), 1);
    assert_eq!(b.threads_dense[1].context_id, 1);
    assert_eq!(b.threads_dense[1].lane_type, LaneType::Dense);
    assert_eq!(b.threads_spread[1].lane_type, LaneType::Spread);
    assert!(b.threads_dense[1].advice.is_empty());
}

#[test]
fn sha_contexts_pair_creates_the_first_pair_on_demand() {
    let mut b = ShaThreadBuilder::mock();
    let (gate_id, (dense_id, spread_id)) = b.sha_contexts_pair();
    assert_eq!((gate_id, dense_id, spread_id), (0, 0, 0));
    assert_eq!(b.threads_dense.len(), 1);
    assert_eq!(b.threads_spread.len(), 1);
    // A second call returns the same, current pair: a new pair starts
    // only on explicit request.
    let (_, (dense_id, spread_id)) = b.sha_contexts_pair();
    assert_eq!((dense_id, spread_id), (0, 0));
    assert_eq!(b.threads_dense.len(), 1);
    b.new_thread_dense();
    b.new_thread_spread();
    let (_, (dense_id, spread_id)) = b.sha_contexts_pair();
    assert_eq!((dense_id, spread_id), (1, 1));
}

#[test]
fn builder_setters_update_the_shape() {
    let mut b = ShaCircuitBuilder::new(false);
    assert_eq!(b.lookup_bits(), None);
    b.set_lookup_bits(12);
    assert_eq!(b.lookup_bits(), Some(12));
    b.set_k(9);
    assert_eq!(b.config_params.k, 9);
    let params = b.params();
    let b2 = ShaCircuitBuilder::new(false).use_params(params.clone());
    assert_eq!(b2.config_params, params);
}

#[test]
fn configure_without_a_shape_fails_unconditionally() {
    assert_eq!(ShaCircuitBuilder::configure(), Err(ConfigError::MissingShape));
}

#[test]
fn configure_allocates_fixed_spread_multiplicity() {
    let params = ShaCircuitBuilder::mock().use_k(11).params();
    let config = SHAConfig::configure(params.clone());
    assert_eq!(config.compression.num_advice_columns, SPREAD_NUM_ADVICE_COLUMNS);
    assert_eq!(config.compression.num_bits_lookup, SPREAD_NUM_BITS_LOOKUP);
    assert_eq!(config.base, params);
    let via_builder = ShaCircuitBuilder::configure_with_params(params.clone());
    assert_eq!(via_builder, config);
}

fn built_with_work(stage: CircuitBuilderStage) -> ShaCircuitBuilder {
    let mut b = ShaCircuitBuilder::from_stage(stage).use_k(5).use_lookup_bits(4);
    let core = b.core_mut();
    let d = core.new_thread_dense();
    let s = core.new_thread_spread();
    core.threads_dense[d].advice.extend_from_slice(&[0b1, 0b10, 0b11]);
    core.threads_spread[s].advice.extend_from_slice(&[0b1, 0b100, 0b101]);
    b
}

#[test]
fn sub_synthesize_produces_the_whole_plan() {
    let mut b = built_with_work(CircuitBuilderStage::Mock);
    let config = SHAConfig::configure(b.params());
    let plan = b.sub_synthesize(&config).unwrap();
    assert!(plan.load_range_table);
    assert_eq!(plan.spread_table.len(), 1 << SPREAD_NUM_BITS_LOOKUP);
    assert_eq!(plan.placements.len(), 3);
    // One column pair: everything stacks in column 0.
    for (i, p) in plan.placements.iter().enumerate() {
        assert_eq!((p.row, p.column), (i, 0));
    }
    // Tracking is on in a mock pass: both mappings of each pair replayed.
    assert_eq!(plan.replay_copies.len(), 6);
    assert_eq!(b.core.core.copy_manager.assigned_advices, plan.replay_copies);
}

#[test]
fn sub_synthesize_skips_tracking_for_the_prover() {
    let mut b = built_with_work(CircuitBuilderStage::Prover);
    let config = SHAConfig::configure(b.params());
    let plan = b.sub_synthesize(&config).unwrap();
    assert!(plan.replay_copies.is_empty());
    assert!(b.core.core.copy_manager.assigned_advices.is_empty());
    // Values are concrete in a proving pass.
    assert_eq!(plan.placements[0].dense, CellValue::Known(1));
}

#[test]
fn keygen_and_prover_passes_agree_on_the_layout() {
    let mut keygen = built_with_work(CircuitBuilderStage::Keygen);
    let mut prover = built_with_work(CircuitBuilderStage::Prover);
    let config = SHAConfig::configure(keygen.params());
    let keygen_plan = keygen.sub_synthesize(&config).unwrap();
    let prover_plan = prover.sub_synthesize(&config).unwrap();
    assert_eq!(keygen_plan.placements.len(), prover_plan.placements.len());
    for (a, b) in keygen_plan.placements.iter().zip(prover_plan.placements.iter()) {
        assert_eq!((a.row, a.column, a.lane, a.offset), (b.row, b.column, b.lane, b.offset));
        // The keygen pass blanks every value; the prover writes them.
        assert_eq!(a.dense, CellValue::Placeholder);
        assert_ne!(b.dense, CellValue::Placeholder);
    }
}

#[test]
fn sub_synthesize_aborts_on_inconsistent_lanes() {
    let mut b = ShaCircuitBuilder::mock().use_k(5);
    let core = b.core_mut();
    let d = core.new_thread_dense();
    let s = core.new_thread_spread();
    core.threads_dense[d].advice.extend_from_slice(&[1, 2, 3, 4, 5]);
    core.threads_spread[s].advice.extend_from_slice(&[1, 2, 3, 4]);
    let config = SHAConfig::configure(b.params());
    let before = b.clone();
    let r = b.sub_synthesize(&config);
    assert!(r.is_err());
    assert_eq!(b, before);
}

#[test]
fn main_creates_the_first_gate_lane_on_demand() {
    let mut b = ShaCircuitBuilder::mock();
    assert_eq!(b.core.thread_count(), 0);
    let id = b.main();
    assert_eq!(id, 0);
    assert_eq!(b.core.thread_count(), 1);
    assert_eq!(b.core.get_new_thread_id(), 1);
    let pool = b.pool(0);
    assert_eq!(pool.thread_count(), 1);
    assert_eq!(pool.threads[0].lane_type, LaneType::Gate);
}
