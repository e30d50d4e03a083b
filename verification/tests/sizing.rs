use sha_builder::circuit::{
    num_lookup_advice_columns, CircuitParams, GateParams, ShaCircuitBuilder,
};

fn gate_params() -> GateParams {
    GateParams {
        k: 10,
        num_advice_per_phase: vec![4, 1, 0],
        num_fixed: 1,
    }
}

#[test]
fn lookup_column_boundary() {
    // usable_rows = M: 0 cells need 0 columns, M cells exactly 1, M + 1
    // cells 2.
    let m = 1000;
    assert_eq!(num_lookup_advice_columns(0, m), 0);
    assert_eq!(num_lookup_advice_columns(1, m), 1);
    assert_eq!(num_lookup_advice_columns(m, m), 1);
    assert_eq!(num_lookup_advice_columns(m + 1, m), 2);
    assert_eq!(num_lookup_advice_columns(2 * m, m), 2);
    assert_eq!(num_lookup_advice_columns(2 * m + 1, m), 3);
}

#[test]
fn calculate_params_combines_gate_and_lookup_sizing() {
    let mut b = ShaCircuitBuilder::mock().use_k(4).use_lookup_bits(3);
    // usable rows = 2^4 - 6 = 10.
    b.add_lookup_rows(0, 10);
    b.add_lookup_rows(1, 11);
    let params = b.calculate_params(Some(6), gate_params());
    assert_eq!(params.k, 10);
    assert_eq!(params.num_advice_per_phase, vec![4, 1, 0]);
    assert_eq!(params.num_fixed, 1);
    assert_eq!(params.num_lookup_advice_per_phase, vec![1, 2, 0]);
    assert_eq!(params.lookup_bits, Some(3));
    assert_eq!(params.num_instance_columns, 0);
    // The result is installed as the builder's shape.
    assert_eq!(b.config_params, params);
}

#[test]
fn sizing_idempotence() {
    // Sizing twice on the same recorded statistics returns bit-identical
    // shape descriptors.
    let mut b = ShaCircuitBuilder::keygen().use_k(5);
    b.add_lookup_rows(0, 77);
    b.add_lookup_rows(2, 3);
    let lanes_before = b.core.threads_dense.clone();
    let first = b.calculate_params(Some(2), gate_params());
    // calculate_params installs the result's k; restore the sizing input
    // as a caller pre-sizing at a fixed k would.
    b.set_k(5);
    let second = b.calculate_params(Some(2), gate_params());
    assert_eq!(first, second);
    assert_eq!(b.core.threads_dense, lanes_before);
}

#[test]
fn sizing_leaves_recorded_work_untouched() {
    let mut b = ShaCircuitBuilder::mock();
    let d = b.core.new_thread_dense();
    let s = b.core.new_thread_spread();
    b.core.threads_dense[d].advice.push(42);
    b.core.threads_spread[s].advice.push(9);
    b.add_lookup_rows(1, 5);
    let core_before = b.core.clone();
    b.set_k(6);
    let _ = b.calculate_params(None, gate_params());
    assert_eq!(b.core, core_before);
}

#[test]
fn default_params_are_empty() {
    let p: CircuitParams = Default::default();
    assert_eq!(p.k, 0);
    assert!(p.num_advice_per_phase.is_empty());
    assert_eq!(p.num_fixed, 0);
    assert!(p.num_lookup_advice_per_phase.is_empty());
    assert_eq!(p.lookup_bits, None);
    assert_eq!(p.num_instance_columns, 0);
}

#[test]
fn add_lookup_rows_accumulates_per_phase() {
    let mut b = ShaCircuitBuilder::mock();
    b.add_lookup_rows(0, 3);
    b.add_lookup_rows(0, 4);
    b.add_lookup_rows(2, 1);
    assert_eq!(b.lookup_rows, vec![7, 0, 1]);
}
