use circuit_scaffold::{check_columns, check_shape, row_capacity, CircuitParams, StageMode};

fn params_of_degree(k: usize) -> CircuitParams {
    CircuitParams {
        k,
        num_advice_per_phase: vec![1],
        num_fixed: 1,
        num_lookup_advice_per_phase: vec![0],
        lookup_bits: None,
        num_instance_columns: 1,
    }
}

#[test]
fn row_capacity_is_two_to_the_degree() {
    assert_eq!(row_capacity(0), Some(1));
    assert_eq!(row_capacity(1), Some(2));
    assert_eq!(row_capacity(10), Some(1024));
    assert_eq!(row_capacity(20), Some(1 << 20));
}

#[test]
fn row_capacity_ends_where_usize_ends() {
    let bits = usize::BITS as usize;
    assert_eq!(row_capacity(bits - 1), Some(1usize << (bits - 1)));
    assert_eq!(row_capacity(bits), None);
    assert_eq!(row_capacity(bits + 1), None);
    assert_eq!(row_capacity(usize::MAX), None);
}

#[test]
fn only_key_generation_records_constraints() {
    assert!(!StageMode::Keygen.witness_gen_only());
    assert!(StageMode::Prover.witness_gen_only());
    assert!(StageMode::WitnessOnly.witness_gen_only());
}

#[test]
fn only_key_generation_fixes_the_shape() {
    assert!(StageMode::Keygen.finalizes_shape());
    assert!(!StageMode::Prover.finalizes_shape());
    assert!(!StageMode::WitnessOnly.finalizes_shape());
}

#[test]
fn a_shape_without_break_points_fits_any_degree_in_range() {
    assert!(check_shape(&params_of_degree(1), &vec![]));
    assert!(check_shape(&params_of_degree(10), &vec![vec![]]));
    assert!(check_shape(&params_of_degree(usize::BITS as usize - 1), &vec![vec![], vec![]]));
}

#[test]
fn a_shape_needs_a_degree_in_range() {
    assert!(!check_shape(&params_of_degree(0), &vec![vec![]]));
    assert!(!check_shape(&params_of_degree(usize::BITS as usize), &vec![vec![]]));
    assert!(!check_shape(&params_of_degree(usize::MAX), &vec![]));
}

#[test]
fn break_points_must_be_rows_of_the_circuit() {
    let params = params_of_degree(10);
    assert!(check_shape(&params, &vec![vec![1003, 1003, 500]]));
    assert!(check_shape(&params, &vec![vec![1023], vec![0]]));
    assert!(!check_shape(&params, &vec![vec![1024]]));
    assert!(!check_shape(&params, &vec![vec![3], vec![5, 4096]]));
    assert!(!check_shape(&params, &vec![vec![], vec![], vec![usize::MAX]]));
}

#[test]
fn a_copy_of_a_configuration_holds_the_same_values() {
    let params = CircuitParams {
        k: 12,
        num_advice_per_phase: vec![3, 1],
        num_fixed: 2,
        num_lookup_advice_per_phase: vec![1, 0, 0],
        lookup_bits: Some(8),
        num_instance_columns: 1,
    };
    let copy = params.clone();
    assert_eq!(copy.k, 12);
    assert_eq!(copy.num_advice_per_phase, vec![3, 1]);
    assert_eq!(copy.num_fixed, 2);
    assert_eq!(copy.num_lookup_advice_per_phase, vec![1, 0, 0]);
    assert_eq!(copy.lookup_bits, Some(8));
    assert_eq!(copy.num_instance_columns, 1);
}

#[test]
fn columns_hold_the_cells_that_fit_their_rows() {
    assert!(check_columns(&vec![], &vec![], 0));
    assert!(check_columns(&vec![0], &vec![], 1004));
    assert!(check_columns(&vec![0, 0, 0], &vec![0], 0));
    assert!(check_columns(&vec![1004], &vec![1], 1004));
    assert!(check_columns(&vec![2008, 1], &vec![2, 1], 1004));
    assert!(check_columns(&vec![5, 0], &vec![5], 1));
    assert!(check_columns(&vec![usize::MAX], &vec![usize::MAX], usize::MAX));
    assert!(check_columns(&vec![usize::MAX], &vec![1], usize::MAX));
}

#[test]
fn columns_do_not_hold_what_outgrows_them() {
    assert!(!check_columns(&vec![1005], &vec![1], 1004));
    assert!(!check_columns(&vec![2008, 1005], &vec![2, 1], 1004));
    assert!(!check_columns(&vec![1], &vec![], 1004));
    assert!(!check_columns(&vec![0, 1], &vec![1], 1004));
    assert!(!check_columns(&vec![1], &vec![0], 1004));
    assert!(!check_columns(&vec![1], &vec![1], 0));
    assert!(!check_columns(&vec![usize::MAX], &vec![2], usize::MAX / 2));
}
