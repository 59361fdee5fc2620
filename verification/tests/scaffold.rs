use circuit_scaffold::{
    configure_builder, finish_builder, CircuitBuilder, CircuitParams, CircuitScaffold, PublicCell,
    ScaffoldError, StageMode, Tuning,
};
use halo2_base::halo2_proofs::halo2curves::bn256::Fr;

fn lookup_bits(text: &str) -> Tuning {
    Tuning { lookup_bits: Some(text.to_string()), minimum_rows: None }
}

fn minimum_rows(text: &str) -> Tuning {
    Tuning { lookup_bits: None, minimum_rows: Some(text.to_string()) }
}

fn pinned_params(k: usize, num_instance_columns: usize) -> CircuitParams {
    CircuitParams {
        k,
        num_advice_per_phase: vec![2],
        num_fixed: 1,
        num_lookup_advice_per_phase: vec![0, 0, 0],
        lookup_bits: Some(3),
        num_instance_columns,
    }
}

/// Loads `count` witnesses and makes none of them public.
fn load_cells(builder: &mut CircuitBuilder, count: u64, _cells: &mut Vec<PublicCell>) {
    for value in 0..count {
        builder.inner.main(0).load_witness(Fr::from(value));
    }
}

/// Loads the input as a witness and makes that cell public.
fn expose(builder: &mut CircuitBuilder, x: u64, cells: &mut Vec<PublicCell>) {
    let cell = builder.inner.main(0).load_witness(Fr::from(x));
    cells.push(PublicCell { cell });
}

fn leave_alone(_builder: &mut CircuitBuilder, _input: (), _cells: &mut Vec<PublicCell>) {}

#[test]
fn without_a_pinning_the_builder_gets_the_degree_and_one_instance_column() {
    let builder = configure_builder(StageMode::Keygen, None, 10, &Tuning::defaults()).unwrap();
    assert_eq!(builder.inner.config_params.k, 10);
    assert_eq!(builder.inner.config_params.lookup_bits, None);
    assert_eq!(builder.inner.config_params.num_instance_columns, 1);
    assert_eq!(builder.inner.config_params.num_advice_per_phase, Vec::<usize>::new());
    assert_eq!(builder.inner.config_params.num_fixed, 0);
    assert_eq!(builder.inner.assigned_instances.len(), 1);
    assert!(builder.inner.assigned_instances[0].is_empty());
}

#[test]
fn the_stage_decides_whether_constraints_are_recorded() {
    let tuning = Tuning::defaults();
    let keygen = configure_builder(StageMode::Keygen, None, 10, &tuning).unwrap();
    let prover = configure_builder(StageMode::Prover, None, 10, &tuning).unwrap();
    let witness = configure_builder(StageMode::WitnessOnly, None, 10, &tuning).unwrap();
    assert!(!keygen.inner.witness_gen_only());
    assert!(prover.inner.witness_gen_only());
    assert!(witness.inner.witness_gen_only());
}

#[test]
fn a_lookup_width_below_the_degree_is_configured() {
    let builder = configure_builder(StageMode::Keygen, None, 10, &lookup_bits("9")).unwrap();
    assert_eq!(builder.inner.config_params.lookup_bits, Some(9));
    assert_eq!(builder.inner.config_params.k, 10);
    let builder = configure_builder(StageMode::Prover, None, 10, &lookup_bits("0")).unwrap();
    assert_eq!(builder.inner.config_params.lookup_bits, Some(0));
}

#[test]
fn a_lookup_width_equal_to_the_degree_is_refused() {
    let refused = configure_builder(StageMode::Keygen, None, 10, &lookup_bits("10"));
    assert_eq!(refused.unwrap_err(), ScaffoldError::LookupBitsTooWide);
    let scaffold = CircuitScaffold { f: expose, private_inputs: 12u64 };
    let refused = scaffold.create_circuit(StageMode::Keygen, None, 10, &lookup_bits("10"));
    assert_eq!(refused.unwrap_err(), ScaffoldError::LookupBitsTooWide);
}

#[test]
fn a_lookup_width_above_the_degree_is_refused_at_every_stage() {
    for stage in [StageMode::Keygen, StageMode::Prover, StageMode::WitnessOnly] {
        for (k, width) in [(10u32, "11"), (1, "1"), (0, "0"), (5, "18446744073709551615")] {
            let refused = configure_builder(stage, None, k, &lookup_bits(width));
            assert_eq!(refused.unwrap_err(), ScaffoldError::LookupBitsTooWide);
        }
    }
}

#[test]
fn a_lookup_width_that_is_no_number_is_refused() {
    let refused = configure_builder(StageMode::Keygen, None, 10, &lookup_bits("eight"));
    assert_eq!(refused.unwrap_err(), ScaffoldError::InvalidLookupBits);
    let refused = configure_builder(StageMode::Keygen, None, 10, &lookup_bits("-1"));
    assert_eq!(refused.unwrap_err(), ScaffoldError::InvalidLookupBits);
}

#[test]
fn a_pinning_is_adopted_verbatim() {
    let break_points = vec![vec![1003, 1002], vec![7]];
    let pinning = (pinned_params(10, 1), break_points.clone());
    let builder =
        configure_builder(StageMode::Prover, Some(pinning), 17, &Tuning::defaults()).unwrap();
    let config = &builder.inner.config_params;
    assert_eq!(config.k, 10);
    assert_eq!(config.num_advice_per_phase, vec![2]);
    assert_eq!(config.num_fixed, 1);
    assert_eq!(config.num_lookup_advice_per_phase, vec![0, 0, 0]);
    assert_eq!(config.lookup_bits, Some(3));
    assert_eq!(config.num_instance_columns, 1);
    assert_eq!(builder.inner.assigned_instances.len(), 1);
    assert_eq!(builder.inner.break_points(), break_points);
    assert!(builder.inner.witness_gen_only());
}

#[test]
fn a_pinning_makes_the_lookup_width_of_the_tuning_irrelevant() {
    let tuning = Tuning { lookup_bits: Some("many".to_string()), minimum_rows: None };
    let pinning = (pinned_params(10, 1), vec![vec![5]]);
    let scaffold = CircuitScaffold { f: expose, private_inputs: 12u64 };
    let builder = scaffold.create_circuit(StageMode::Prover, Some(pinning), 10, &tuning).unwrap();
    assert_eq!(builder.inner.config_params.lookup_bits, Some(3));
    assert_eq!(builder.inner.break_points(), vec![vec![5]]);
}

#[test]
fn a_pinning_with_instance_columns_gets_them_all() {
    let pinning = (pinned_params(10, 3), vec![]);
    let builder =
        configure_builder(StageMode::Keygen, Some(pinning), 10, &Tuning::defaults()).unwrap();
    assert_eq!(builder.inner.config_params.num_instance_columns, 3);
    assert_eq!(builder.inner.assigned_instances.len(), 3);
    assert!(!builder.inner.witness_gen_only());
}

#[test]
fn a_pinning_that_does_not_fit_its_degree_is_refused() {
    let tuning = Tuning::defaults();
    let unset = (pinned_params(0, 1), vec![vec![]]);
    let refused = configure_builder(StageMode::Prover, Some(unset), 10, &tuning);
    assert_eq!(refused.unwrap_err(), ScaffoldError::PinningOutOfRange);
    let beyond = (pinned_params(10, 1), vec![vec![12, 1024]]);
    let refused = configure_builder(StageMode::Prover, Some(beyond), 10, &tuning);
    assert_eq!(refused.unwrap_err(), ScaffoldError::PinningOutOfRange);
    let huge = (pinned_params(usize::BITS as usize, 1), vec![]);
    let refused = configure_builder(StageMode::Prover, Some(huge), 10, &tuning);
    assert_eq!(refused.unwrap_err(), ScaffoldError::PinningOutOfRange);
}

#[test]
fn public_cells_fill_the_one_instance_column() {
    let scaffold = CircuitScaffold { f: expose, private_inputs: 12u64 };
    let circuit =
        scaffold.create_circuit(StageMode::Keygen, None, 10, &Tuning::defaults()).unwrap();
    assert_eq!(circuit.inner.assigned_instances.len(), 1);
    assert_eq!(circuit.inner.assigned_instances[0].len(), 1);
    assert_eq!(*circuit.inner.assigned_instances[0][0].value(), Fr::from(12));
}

#[test]
fn public_cells_need_exactly_one_instance_column() {
    let tuning = Tuning::defaults();
    for columns in [0usize, 2, 3] {
        let scaffold = CircuitScaffold { f: expose, private_inputs: 12u64 };
        let pinning = (pinned_params(10, columns), vec![]);
        let refused = scaffold.create_circuit(StageMode::Prover, Some(pinning), 10, &tuning);
        assert_eq!(refused.unwrap_err(), ScaffoldError::InstanceColumnMismatch);
    }
}

#[test]
fn without_public_cells_any_number_of_instance_columns_stays() {
    let scaffold = CircuitScaffold { f: leave_alone, private_inputs: () };
    let pinning = (pinned_params(10, 2), vec![]);
    let circuit =
        scaffold.create_circuit(StageMode::Prover, Some(pinning), 10, &Tuning::defaults()).unwrap();
    assert_eq!(circuit.inner.assigned_instances.len(), 2);
    assert!(circuit.inner.assigned_instances[0].is_empty());
    assert!(circuit.inner.assigned_instances[1].is_empty());
}

#[test]
fn finishing_stores_the_cells_it_is_given() {
    let pinning = (pinned_params(10, 1), vec![vec![]]);
    let mut builder =
        configure_builder(StageMode::Prover, Some(pinning), 10, &Tuning::defaults()).unwrap();
    let first = builder.inner.main(0).load_witness(Fr::from(3));
    let second = builder.inner.main(0).load_witness(Fr::from(4));
    let cells = vec![PublicCell { cell: first }, PublicCell { cell: second }];
    let circuit = finish_builder(StageMode::Prover, builder, cells, &Tuning::defaults()).unwrap();
    assert_eq!(circuit.inner.assigned_instances.len(), 1);
    assert_eq!(circuit.inner.assigned_instances[0].len(), 2);
    assert_eq!(*circuit.inner.assigned_instances[0][0].value(), Fr::from(3));
    assert_eq!(*circuit.inner.assigned_instances[0][1].value(), Fr::from(4));
}

#[test]
fn key_generation_sizes_the_columns_for_the_usable_rows() {
    // 2^10 rows, 20 of them for blinding: 1004 usable rows in a column.
    for (cells, columns) in [(1u64, 1usize), (1004, 1), (1005, 2), (3000, 3), (3012, 3), (3013, 4)] {
        let scaffold = CircuitScaffold { f: load_cells, private_inputs: cells };
        let circuit =
            scaffold.create_circuit(StageMode::Keygen, None, 10, &Tuning::defaults()).unwrap();
        let config = &circuit.inner.config_params;
        assert_eq!(config.num_advice_per_phase, vec![columns], "for {} cells", cells);
        assert_eq!(config.k, 10);
        assert_eq!(config.lookup_bits, None);
        assert_eq!(config.num_instance_columns, 1);
    }
}

#[test]
fn key_generation_respects_the_blinding_rows_asked_for() {
    // 2^5 rows, 8 of them for blinding: 24 usable rows in a column.
    let scaffold = CircuitScaffold { f: load_cells, private_inputs: 49u64 };
    let circuit =
        scaffold.create_circuit(StageMode::Keygen, None, 5, &minimum_rows("8")).unwrap();
    assert_eq!(circuit.inner.config_params.num_advice_per_phase, vec![3]);
    let scaffold = CircuitScaffold { f: load_cells, private_inputs: 48u64 };
    let circuit =
        scaffold.create_circuit(StageMode::Keygen, None, 5, &minimum_rows("8")).unwrap();
    assert_eq!(circuit.inner.config_params.num_advice_per_phase, vec![2]);
}

#[test]
fn key_generation_keeps_the_lookup_width() {
    let scaffold = CircuitScaffold { f: load_cells, private_inputs: 10u64 };
    let circuit =
        scaffold.create_circuit(StageMode::Keygen, None, 10, &lookup_bits("8")).unwrap();
    assert_eq!(circuit.inner.config_params.lookup_bits, Some(8));
    assert_eq!(circuit.inner.config_params.k, 10);
}

#[test]
fn blinding_rows_must_leave_a_row_to_use() {
    let scaffold = CircuitScaffold { f: load_cells, private_inputs: 1u64 };
    let refused = scaffold.create_circuit(StageMode::Keygen, None, 4, &Tuning::defaults());
    assert_eq!(refused.unwrap_err(), ScaffoldError::BlindingExceedsRows);
    let scaffold = CircuitScaffold { f: load_cells, private_inputs: 1u64 };
    let refused = scaffold.create_circuit(StageMode::Keygen, None, 5, &minimum_rows("32"));
    assert_eq!(refused.unwrap_err(), ScaffoldError::BlindingExceedsRows);
    let scaffold = CircuitScaffold { f: load_cells, private_inputs: 1u64 };
    let circuit =
        scaffold.create_circuit(StageMode::Keygen, None, 5, &minimum_rows("31")).unwrap();
    assert_eq!(circuit.inner.config_params.num_advice_per_phase, vec![1]);
}

#[test]
fn blinding_rows_that_are_no_number_are_refused_at_every_stage() {
    for stage in [StageMode::Keygen, StageMode::Prover, StageMode::WitnessOnly] {
        let scaffold = CircuitScaffold { f: load_cells, private_inputs: 1u64 };
        let refused = scaffold.create_circuit(stage, None, 10, &minimum_rows("twenty"));
        assert_eq!(refused.unwrap_err(), ScaffoldError::InvalidMinimumRows);
        let scaffold = CircuitScaffold { f: load_cells, private_inputs: 1u64 };
        let pinning = (pinned_params(10, 1), vec![vec![5]]);
        let refused = scaffold.create_circuit(stage, Some(pinning), 10, &minimum_rows(""));
        assert_eq!(refused.unwrap_err(), ScaffoldError::InvalidMinimumRows);
    }
}

#[test]
fn key_generation_needs_a_degree() {
    let scaffold = CircuitScaffold { f: load_cells, private_inputs: 1u64 };
    let refused = scaffold.create_circuit(StageMode::Keygen, None, 0, &Tuning::defaults());
    assert_eq!(refused.unwrap_err(), ScaffoldError::DegreeOutOfRange);
    let unset = |builder: &mut CircuitBuilder, _input: (), _cells: &mut Vec<PublicCell>| {
        builder.inner.set_k(0);
    };
    let scaffold = CircuitScaffold { f: unset, private_inputs: () };
    let refused = scaffold.create_circuit(StageMode::Keygen, None, 10, &Tuning::defaults());
    assert_eq!(refused.unwrap_err(), ScaffoldError::DegreeOutOfRange);
    let scaffold = CircuitScaffold { f: load_cells, private_inputs: 1u64 };
    let refused =
        scaffold.create_circuit(StageMode::Keygen, None, usize::BITS, &Tuning::defaults());
    assert_eq!(refused.unwrap_err(), ScaffoldError::DegreeOutOfRange);
}

#[test]
fn the_other_stages_leave_the_configuration_alone() {
    for stage in [StageMode::Prover, StageMode::WitnessOnly] {
        let scaffold = CircuitScaffold { f: load_cells, private_inputs: 2000u64 };
        let pinning = (pinned_params(10, 1), vec![vec![1003]]);
        let circuit = scaffold.create_circuit(stage, Some(pinning), 10, &Tuning::defaults()).unwrap();
        assert_eq!(circuit.inner.config_params.num_advice_per_phase, vec![2]);
        assert_eq!(circuit.inner.config_params.num_fixed, 1);
        assert_eq!(circuit.inner.break_points(), vec![vec![1003]]);
    }
}

#[test]
fn the_error_comes_before_the_computation_runs() {
    let fail = |_builder: &mut CircuitBuilder, _input: (), _cells: &mut Vec<PublicCell>| {
        panic!("the computation was run");
    };
    let scaffold = CircuitScaffold { f: fail, private_inputs: () };
    let refused = scaffold.create_circuit(StageMode::Keygen, None, 10, &lookup_bits("10"));
    assert_eq!(refused.unwrap_err(), ScaffoldError::LookupBitsTooWide);
}

#[test]
fn a_sized_circuit_keeps_its_cells_and_blinding_rows_within_its_rows() {
    for (k, rows, cells) in [(10u32, "20", 5000u64), (5, "8", 100), (6, "0", 64), (7, "127", 9)] {
        let scaffold = CircuitScaffold { f: load_cells, private_inputs: cells };
        let circuit =
            scaffold.create_circuit(StageMode::Keygen, None, k, &minimum_rows(rows)).unwrap();
        let blinding: usize = rows.parse().unwrap();
        let recorded = circuit.inner.statistics().gate.total_advice_per_phase;
        let columns = circuit.inner.config_params.num_advice_per_phase.clone();
        assert_eq!(recorded, vec![cells as usize]);
        assert_eq!(columns.len(), recorded.len());
        let rows_used = recorded[0].div_ceil(columns[0]);
        assert!(rows_used + blinding <= 1 << k);
        assert_eq!(columns[0], recorded[0].div_ceil((1 << k) - blinding));
    }
}

#[test]
fn a_trace_that_outgrows_the_pinned_columns_is_refused() {
    // Degree 10, 20 blinding rows, 2 advice columns: room for 2008 cells.
    for stage in [StageMode::Prover, StageMode::WitnessOnly] {
        for (cells, fits) in [(0u64, true), (1, true), (2008, true), (2009, false), (3000, false)] {
            let scaffold = CircuitScaffold { f: load_cells, private_inputs: cells };
            let pinning = (pinned_params(10, 1), vec![vec![1003]]);
            let circuit = scaffold.create_circuit(stage, Some(pinning), 10, &Tuning::defaults());
            if fits {
                assert!(circuit.is_ok(), "{} cells fit", cells);
            } else {
                assert_eq!(circuit.unwrap_err(), ScaffoldError::TraceExceedsShape);
            }
        }
    }
}

#[test]
fn the_room_of_a_pinning_depends_on_the_blinding_rows() {
    // Degree 10, 2 advice columns: 2048 cells without blinding rows, 2 with 1023 of them.
    for (rows, cells, fits) in
        [("0", 2048u64, true), ("0", 2049, false), ("1023", 2, true), ("1023", 3, false)]
    {
        let scaffold = CircuitScaffold { f: load_cells, private_inputs: cells };
        let pinning = (pinned_params(10, 1), vec![vec![]]);
        let circuit =
            scaffold.create_circuit(StageMode::Prover, Some(pinning), 10, &minimum_rows(rows));
        assert_eq!(circuit.is_ok(), fits, "{} cells with {} blinding rows", cells, rows);
        if !fits {
            assert_eq!(circuit.unwrap_err(), ScaffoldError::TraceExceedsShape);
        }
    }
}

#[test]
fn cells_need_a_column_to_go_to() {
    // Without a pinning the configuration names no advice column at the prover stage.
    let scaffold = CircuitScaffold { f: load_cells, private_inputs: 1u64 };
    let refused = scaffold.create_circuit(StageMode::Prover, None, 10, &Tuning::defaults());
    assert_eq!(refused.unwrap_err(), ScaffoldError::TraceExceedsShape);
    let scaffold = CircuitScaffold { f: load_cells, private_inputs: 0u64 };
    let circuit = scaffold.create_circuit(StageMode::Prover, None, 10, &Tuning::defaults());
    assert!(circuit.is_ok());
    // A configuration that names no column for the phase, or names zero columns.
    let mut params = pinned_params(10, 1);
    params.num_advice_per_phase = vec![0];
    let scaffold = CircuitScaffold { f: load_cells, private_inputs: 1u64 };
    let refused =
        scaffold.create_circuit(StageMode::Prover, Some((params, vec![])), 10, &Tuning::defaults());
    assert_eq!(refused.unwrap_err(), ScaffoldError::TraceExceedsShape);
    let second_phase = |builder: &mut CircuitBuilder, _input: (), _cells: &mut Vec<PublicCell>| {
        builder.inner.main(1).load_witness(Fr::from(1));
    };
    let scaffold = CircuitScaffold { f: second_phase, private_inputs: () };
    let pinning = (pinned_params(10, 1), vec![vec![]]);
    let refused = scaffold.create_circuit(StageMode::Prover, Some(pinning), 10, &Tuning::defaults());
    assert_eq!(refused.unwrap_err(), ScaffoldError::TraceExceedsShape);
}

#[test]
fn the_degree_and_the_blinding_rows_are_held_at_every_stage() {
    for stage in [StageMode::Prover, StageMode::WitnessOnly] {
        let scaffold = CircuitScaffold { f: leave_alone, private_inputs: () };
        let refused = scaffold.create_circuit(stage, None, 0, &Tuning::defaults());
        assert_eq!(refused.unwrap_err(), ScaffoldError::DegreeOutOfRange);
        let scaffold = CircuitScaffold { f: leave_alone, private_inputs: () };
        let refused = scaffold.create_circuit(stage, None, 4, &Tuning::defaults());
        assert_eq!(refused.unwrap_err(), ScaffoldError::BlindingExceedsRows);
        let scaffold = CircuitScaffold { f: leave_alone, private_inputs: () };
        let circuit = scaffold.create_circuit(stage, None, 5, &Tuning::defaults());
        assert!(circuit.is_ok());
    }
}
