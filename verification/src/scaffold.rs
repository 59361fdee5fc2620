use crate::builder::{
    sized_for, sized_params, with_break_points, BuilderState, CircuitBuilder, PhaseState,
    PublicCell,
};
use crate::error::ScaffoldError;
use crate::params::{
    check_columns, check_shape, columns_hold, degree_in_range, lemma_columns_leave_rows,
    lemma_reserved_rows_fit, row_capacity, rows_needed, rows_reserved, shape_fits, usable_rows,
    CircuitParams, ParamsView,
};
use crate::stage::StageMode;
use crate::tuning::Tuning;
use vstd::arithmetic::power2::pow2;
use vstd::prelude::*;

verus! {

/// A recorded shape: the configuration of a circuit and the break points of
/// its phases, as key generation left them.
pub type Pinning = (CircuitParams, Vec<Vec<usize>>);

/// A computation and the inputs it is to run on.
///
/// The computation records its work into the builder it is handed and pushes
/// the cells it makes public onto the list it is handed.
pub struct CircuitScaffold<T, F> {
    pub f: F,
    pub private_inputs: T,
}

/// The builder that adopts a pinned shape verbatim: its configuration, the
/// instance columns that the configuration names, and its break points.
pub open spec fn pinned_state(
    stage: StageMode,
    params: ParamsView,
    break_points: Seq<Seq<usize>>,
) -> BuilderState {
    BuilderState {
        witness_gen_only: stage.witness_gen_only(),
        config: params,
        instances: Seq::new(params.num_instance_columns as nat, |i: int| Seq::<PublicCell>::empty()),
        phases: with_break_points(seq![PhaseState::empty()], break_points),
    }
}

/// The builder for a circuit of degree `k` whose shape is still to be found:
/// the lookup width asked for, and exactly one instance column.
pub open spec fn derived_state(stage: StageMode, k: u32, lookup_bits: Option<usize>) -> BuilderState {
    BuilderState {
        witness_gen_only: stage.witness_gen_only(),
        config: ParamsView {
            k: k as usize,
            lookup_bits,
            num_instance_columns: 1,
            ..ParamsView::unset()
        },
        instances: seq![Seq::<PublicCell>::empty()],
        phases: seq![PhaseState::empty()],
    }
}

/// The builder that adopts a pinning, which must fit its own degree.
pub open spec fn adopted(
    stage: StageMode,
    params: ParamsView,
    break_points: Seq<Seq<usize>>,
) -> Result<BuilderState, ScaffoldError> {
    if shape_fits(params, break_points) {
        Ok(pinned_state(stage, params, break_points))
    } else {
        Err(ScaffoldError::PinningOutOfRange)
    }
}

/// The builder that the computation is handed, or why there is none.
///
/// With a pinning its shape is adopted, provided it fits its own degree, and
/// neither `k` nor `tuning` is looked at. Without one the degree is `k`, and
/// a lookup width that is asked for must be a number below `k`.
pub open spec fn configured(
    stage: StageMode,
    pinning: Option<Pinning>,
    k: u32,
    tuning: Tuning,
) -> Result<BuilderState, ScaffoldError> {
    match pinning {
        Some((params, break_points)) => adopted(stage, params@, break_points.deep_view()),
        None => match tuning.lookup_width() {
            Err(error) => Err(error),
            Ok(Some(bits)) => if bits < k {
                Ok(derived_state(stage, k, Some(bits)))
            } else {
                Err(ScaffoldError::LookupBitsTooWide)
            },
            Ok(None) => Ok(derived_state(stage, k, None)),
        },
    }
}

/// Whether the configuration of `state` has, in every phase, advice columns
/// enough for the cells recorded there: a phase with cells has its entry in
/// the configuration, which names at least one column, and the rows that a
/// column takes and the `minimum_rows` blinding rows together stay within the
/// rows of the circuit.
pub open spec fn trace_fits(state: BuilderState, minimum_rows: usize) -> bool {
    forall|phase: int|
        0 <= phase < state.phases.len() ==> (#[trigger] state.phases[phase]).advice_cells == 0 || (
        phase < state.config.num_advice_per_phase.len() && state.config.num_advice_per_phase[phase]
            > 0 && rows_needed(
            state.phases[phase].advice_cells as int,
            state.config.num_advice_per_phase[phase] as int,
        ) + minimum_rows <= pow2(state.config.k as nat))
}

/// What becomes of `builder` once the computation has run on it and has made
/// `cells` public.
///
/// Public cells need exactly one instance column, which they fill. At every
/// stage the blinding rows must be a number, the degree must be set and in
/// range, and the blinding rows must leave a row to use. At key generation
/// the shape is then fixed: the configuration becomes the one worked out for
/// what was recorded. At the other stages the configuration stays as the
/// computation left it, and what was recorded must fit it.
pub open spec fn finished(
    stage: StageMode,
    builder: CircuitBuilder,
    cells: Seq<PublicCell>,
    tuning: Tuning,
) -> Result<BuilderState, ScaffoldError> {
    let state = builder@;
    let instances = if cells.len() > 0 {
        state.instances.update(0, cells)
    } else {
        state.instances
    };
    if cells.len() > 0 && state.instances.len() != 1 {
        Err(ScaffoldError::InstanceColumnMismatch)
    } else {
        match tuning.blinding_rows() {
            Err(error) => Err(error),
            Ok(rows) => if !degree_in_range(state.config.k) {
                Err(ScaffoldError::DegreeOutOfRange)
            } else if rows >= pow2(state.config.k as nat) {
                Err(ScaffoldError::BlindingExceedsRows)
            } else if stage.finalizes_shape() {
                Ok(BuilderState { instances, config: sized_params(builder, rows), ..state })
            } else if !trace_fits(state, rows) {
                Err(ScaffoldError::TraceExceedsShape)
            } else {
                Ok(BuilderState { instances, ..state })
            },
        }
    }
}

/// Whether `circuit` is the builder that `expected` describes, or its error.
pub open spec fn built_as(
    circuit: Result<CircuitBuilder, ScaffoldError>,
    expected: Result<BuilderState, ScaffoldError>,
) -> bool {
    match expected {
        Ok(state) => circuit is Ok && circuit->Ok_0@ == state,
        Err(error) => circuit == Err::<CircuitBuilder, ScaffoldError>(error),
    }
}

/// Whether `circuit` is what completing `builder` returns: the builder that
/// `finished` describes, whose configuration at key generation is sized for
/// what `builder` had recorded, or the error that `finished` gives.
pub open spec fn finishes(
    stage: StageMode,
    builder: CircuitBuilder,
    cells: Seq<PublicCell>,
    tuning: Tuning,
    circuit: Result<CircuitBuilder, ScaffoldError>,
) -> bool {
    match finished(stage, builder, cells, tuning) {
        Ok(state) => {
            &&& circuit matches Ok(built)
            &&& built@ == state
            &&& stage.finalizes_shape() ==> (tuning.blinding_rows() matches Ok(rows) && sized_for(
                state.config,
                builder@,
                rows,
            ))
        },
        Err(error) => circuit == Err::<CircuitBuilder, ScaffoldError>(error),
    }
}

/// Makes the builder that the computation is to run on.
pub fn configure_builder(
    stage: StageMode,
    pinning: Option<Pinning>,
    k: u32,
    tuning: &Tuning,
) -> (builder: Result<CircuitBuilder, ScaffoldError>)
    ensures
        built_as(builder, configured(stage, pinning, k, *tuning)),
{
    match pinning {
        Some((params, break_points)) => {
            if !check_shape(&params, &break_points) {
                return Err(ScaffoldError::PinningOutOfRange);
            }
            let mut builder = CircuitBuilder::from_stage(stage.witness_gen_only());
            builder.set_params(&params);
            builder.set_break_points(break_points);
            assert(builder@ =~~= pinned_state(stage, params@, break_points.deep_view()));
            Ok(builder)
        },
        None => {
            let degree: usize = k as usize;
            let lookup_bits = match tuning.resolve_lookup_bits() {
                Ok(lookup_bits) => lookup_bits,
                Err(error) => {
                    return Err(error);
                },
            };
            if let Some(bits) = lookup_bits {
                if bits >= degree {
                    return Err(ScaffoldError::LookupBitsTooWide);
                }
            }
            let mut builder = CircuitBuilder::from_stage(stage.witness_gen_only());
            builder.set_k(degree);
            if let Some(bits) = lookup_bits {
                builder.set_lookup_bits(bits);
            }
            builder.set_instance_columns(1);
            assert(builder@ =~~= derived_state(stage, k, lookup_bits));
            Ok(builder)
        },
    }
}

/// Completes a builder that the computation has run on: the cells it made
/// public are stored; at key generation the shape is fixed, and at the other
/// stages what was recorded is held against the shape. A builder that is
/// returned has its blinding rows reserved and columns enough for what was
/// recorded.
pub fn finish_builder(
    stage: StageMode,
    builder: CircuitBuilder,
    cells: Vec<PublicCell>,
    tuning: &Tuning,
) -> (circuit: Result<CircuitBuilder, ScaffoldError>)
    ensures
        finishes(stage, builder, cells@, *tuning, circuit),
        circuit matches Ok(built) ==> ({
            &&& tuning.blinding_rows() matches Ok(rows)
            &&& rows_reserved(built@.config.k, rows)
            &&& trace_fits(built@, rows)
        }),
{
    let mut builder = builder;
    if cells.len() > 0 && builder.instance_columns() != 1 {
        return Err(ScaffoldError::InstanceColumnMismatch);
    }
    let minimum_rows: usize = match tuning.resolve_minimum_rows() {
        Ok(rows) => rows,
        Err(error) => {
            return Err(error);
        },
    };
    let config = builder.params();
    let degree: usize = config.k;
    if degree == 0 {
        return Err(ScaffoldError::DegreeOutOfRange);
    }
    let rows: usize = match row_capacity(degree) {
        Some(rows) => rows,
        None => {
            return Err(ScaffoldError::DegreeOutOfRange);
        },
    };
    if minimum_rows >= rows {
        return Err(ScaffoldError::BlindingExceedsRows);
    }
    let ghost recorded = builder@;
    if stage.finalizes_shape() {
        // The columns are worked out from the recorded trace alone, so this
        // may come before the public cells are stored.
        let fixed = builder.calculate_params(minimum_rows);
        proof {
            lemma_reserved_rows_fit(degree, minimum_rows);
            assert forall|phase: int| 0 <= phase < recorded.phases.len() implies (
            #[trigger] recorded.phases[phase]).advice_cells == 0 || (fixed@.num_advice_per_phase[phase]
                > 0 && rows_needed(
                recorded.phases[phase].advice_cells as int,
                fixed@.num_advice_per_phase[phase] as int,
            ) + minimum_rows <= pow2(degree as nat)) by {
                lemma_columns_leave_rows(
                    recorded.phases[phase].advice_cells as int,
                    usable_rows(degree, minimum_rows),
                );
            }
        }
    } else {
        let trace = builder.advice_cells();
        let hold = check_columns(&trace, &config.num_advice_per_phase, rows - minimum_rows);
        proof {
            let columns = config.num_advice_per_phase@;
            let usable = rows - minimum_rows;
            if hold {
                assert forall|phase: int| 0 <= phase < recorded.phases.len() implies (
                #[trigger] recorded.phases[phase]).advice_cells == 0 || (phase < columns.len()
                    && columns[phase] > 0 && rows_needed(
                    recorded.phases[phase].advice_cells as int,
                    columns[phase] as int,
                ) + minimum_rows <= pow2(degree as nat)) by {
                    assert(trace@[phase] == recorded.phases[phase].advice_cells);
                }
            } else {
                if trace_fits(recorded, minimum_rows) {
                    assert forall|phase: int| 0 <= phase < trace@.len() implies (
                    #[trigger] trace@[phase]) == 0 || (phase < columns.len() && columns[phase] > 0
                        && rows_needed(trace@[phase] as int, columns[phase] as int) <= usable) by {
                        assert(trace@[phase] == recorded.phases[phase].advice_cells);
                    }
                    assert(columns_hold(trace@, columns, usable as int));
                }
            }
        }
        if !hold {
            return Err(ScaffoldError::TraceExceedsShape);
        }
    }
    if cells.len() > 0 {
        builder.set_public_cells(cells);
    }
    Ok(builder)
}

/// Whether the computation `f` may be run on `inputs`, on any builder in the
/// state `start` and on an empty list of public cells.
pub open spec fn accepts<T, F: FnOnce(&mut CircuitBuilder, T, &mut Vec<PublicCell>)>(
    f: F,
    inputs: T,
    start: Result<BuilderState, ScaffoldError>,
) -> bool {
    forall|builder: &mut CircuitBuilder, cells: &mut Vec<PublicCell>|
        start == Ok::<BuilderState, ScaffoldError>((*builder)@) && cells@.len() == 0
            ==> call_requires(f, (builder, inputs, cells))
}

/// Whether a run of the computation begins as a build has it begin: with
/// `builder` in the state `start`, and with no public cell in `cells`.
pub open spec fn begins_with(
    start: BuilderState,
    builder: &mut CircuitBuilder,
    cells: &mut Vec<PublicCell>,
) -> bool {
    (*builder)@ == start && cells@.len() == 0
}

impl<T, F> CircuitScaffold<T, F> where F: FnOnce(&mut CircuitBuilder, T, &mut Vec<PublicCell>) {
    /// Builds the circuit of the computation for `stage`.
    ///
    /// Where `configured` gives an error, that error is returned. Otherwise
    /// the computation is run once, on a builder in the state that
    /// `configured` gives and on an empty list of public cells, and
    /// `finishes` says what is returned for whatever it left in the two. So a
    /// lookup width that is not below the degree is always refused, and a
    /// circuit that is returned, at any stage, has its blinding rows reserved
    /// and columns enough for what was recorded.
    pub fn create_circuit(
        self,
        stage: StageMode,
        pinning: Option<Pinning>,
        k: u32,
        tuning: &Tuning,
    ) -> (circuit: Result<CircuitBuilder, ScaffoldError>)
        requires
            accepts(self.f, self.private_inputs, configured(stage, pinning, k, *tuning)),
        ensures
            (match configured(stage, pinning, k, *tuning) {
                Err(error) => circuit == Err::<CircuitBuilder, ScaffoldError>(error),
                Ok(start) => exists|builder: &mut CircuitBuilder, cells: &mut Vec<PublicCell>|
                    ({
                        &&& begins_with(start, builder, cells)
                        &&& #[trigger] call_ensures(
                            self.f,
                            (builder, self.private_inputs, cells),
                            (),
                        )
                        &&& finishes(stage, *final(builder), final(cells)@, *tuning, circuit)
                    }),
            }),
            pinning is None ==> (tuning.lookup_width() matches Ok(Some(bits)) ==> (bits >= k
                ==> circuit == Err::<CircuitBuilder, ScaffoldError>(
                ScaffoldError::LookupBitsTooWide,
            ))),
            circuit matches Ok(built) ==> ({
                &&& tuning.blinding_rows() matches Ok(rows)
                &&& rows_reserved(built@.config.k, rows)
                &&& trace_fits(built@, rows)
            }),
    {
        let mut builder = match configure_builder(stage, pinning, k, tuning) {
            Ok(builder) => builder,
            Err(error) => {
                return Err(error);
            },
        };
        let mut assigned_instances: Vec<PublicCell> = Vec::new();
        (self.f)(&mut builder, self.private_inputs, &mut assigned_instances);
        finish_builder(stage, builder, assigned_instances, tuning)
    }
}

/// A lookup table as wide as the circuit, or wider, is refused at every
/// stage and for every degree: no builder is made for it.
pub proof fn lemma_wide_lookup_refused(stage: StageMode, k: u32, tuning: Tuning, bits: usize)
    requires
        tuning.lookup_width() == Ok::<Option<usize>, ScaffoldError>(Some(bits)),
        bits >= k,
    ensures
        configured(stage, None, k, tuning) == Err::<BuilderState, ScaffoldError>(
            ScaffoldError::LookupBitsTooWide,
        ),
{
}

/// A pinning fixes the builder that the computation is handed: whatever the
/// degree and the tuning of the call, and so whatever inputs it is made for,
/// the configuration and the break points are those of the pinning.
pub proof fn lemma_pinning_fixes_shape(
    stage: StageMode,
    pinning: Pinning,
    k1: u32,
    tuning1: Tuning,
    k2: u32,
    tuning2: Tuning,
)
    ensures
        configured(stage, Some(pinning), k1, tuning1) == configured(
            stage,
            Some(pinning),
            k2,
            tuning2,
        ),
        configured(stage, Some(pinning), k1, tuning1) matches Ok(state) ==> ({
            &&& state.config == pinning.0@
            &&& pinning.1@.len() > 0 ==> ({
                &&& state.phases.len() == pinning.1@.len()
                &&& forall|phase: int|
                    0 <= phase < state.phases.len() ==> (#[trigger] state.phases[phase]).break_points
                        == Some(pinning.1.deep_view()[phase])
            })
        }),
{
}

/// Whatever the stage, a circuit that is returned has its blinding rows
/// reserved and, in every phase, advice columns enough for the cells
/// recorded there: the rows that a column takes and the blinding rows
/// together stay within the rows of the circuit.
pub proof fn lemma_returned_circuit_fits(
    stage: StageMode,
    builder: CircuitBuilder,
    cells: Seq<PublicCell>,
    tuning: Tuning,
    circuit: Result<CircuitBuilder, ScaffoldError>,
)
    requires
        finishes(stage, builder, cells, tuning, circuit),
        circuit is Ok,
    ensures
        tuning.blinding_rows() matches Ok(rows) && rows_reserved(circuit->Ok_0@.config.k, rows)
            && trace_fits(circuit->Ok_0@, rows),
{
    let built = circuit->Ok_0@;
    let rows = tuning.blinding_rows()->Ok_0;
    if stage.finalizes_shape() {
        lemma_reserved_rows_fit(built.config.k, rows);
        assert forall|phase: int| 0 <= phase < built.phases.len() implies (
        #[trigger] built.phases[phase]).advice_cells == 0 || (built.config.num_advice_per_phase[phase]
            > 0 && rows_needed(
            built.phases[phase].advice_cells as int,
            built.config.num_advice_per_phase[phase] as int,
        ) + rows <= pow2(built.config.k as nat)) by {
            lemma_columns_leave_rows(
                built.phases[phase].advice_cells as int,
                usable_rows(built.config.k, rows),
            );
        }
    }
}

/// At the stages that adopt a shape, a trace that does not fit the shape is
/// refused: no builder is returned for it.
pub proof fn lemma_overfull_trace_refused(
    stage: StageMode,
    builder: CircuitBuilder,
    cells: Seq<PublicCell>,
    tuning: Tuning,
    rows: usize,
)
    requires
        !stage.finalizes_shape(),
        tuning.blinding_rows() == Ok::<usize, ScaffoldError>(rows),
        !trace_fits(builder@, rows),
    ensures
        finished(stage, builder, cells, tuning) is Err,
        rows_reserved(builder@.config.k, rows) && (cells.len() > 0 ==> builder@.instances.len()
            == 1) ==> finished(stage, builder, cells, tuning) == Err::<
            BuilderState,
            ScaffoldError,
        >(ScaffoldError::TraceExceedsShape),
{
}

/// At the stages that do not fix the shape, completing a builder leaves its
/// configuration and its phases as the computation left them: builds from
/// one pinning differ in their configuration only where the computation makes
/// them differ.
pub proof fn lemma_pinned_configuration_stays(
    stage: StageMode,
    builder: CircuitBuilder,
    cells: Seq<PublicCell>,
    tuning: Tuning,
)
    requires
        !stage.finalizes_shape(),
    ensures
        finished(stage, builder, cells, tuning) matches Ok(state) ==> ({
            &&& state.config == builder@.config
            &&& state.phases == builder@.phases
            &&& state.witness_gen_only == builder@.witness_gen_only
        }),
{
}

/// What key generation fixes, the prover stage accepts: a configuration whose
/// blinding rows are reserved, paired with break points that are rows of the
/// circuit, is a pinning that is adopted.
pub proof fn lemma_reserved_shape_is_adopted(
    stage: StageMode,
    pinning: Pinning,
    minimum_rows: usize,
    k: u32,
    tuning: Tuning,
)
    requires
        rows_reserved(pinning.0.k, minimum_rows),
        forall|phase: int, i: int|
            0 <= phase < pinning.1.deep_view().len() && 0 <= i < pinning.1.deep_view()[phase].len()
                ==> (#[trigger] pinning.1.deep_view()[phase][i]) < pow2(pinning.0.k as nat),
    ensures
        configured(stage, Some(pinning), k, tuning) == Ok::<BuilderState, ScaffoldError>(
            pinned_state(stage, pinning.0@, pinning.1.deep_view()),
        ),
{
}

} // verus!
