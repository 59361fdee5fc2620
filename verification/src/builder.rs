use crate::params::{columns_needed, rows_reserved, usable_rows, CircuitParams, ParamsView};
use halo2_base::gates::circuit::builder::BaseCircuitBuilder;
use halo2_base::gates::circuit::{BaseCircuitParams, CircuitBuilderStage};
use halo2_base::halo2_proofs::halo2curves::bn256::Fr;
use halo2_base::halo2_proofs::plonk::Circuit;
use halo2_base::AssignedValue;
use vstd::prelude::*;

verus! {

/// A halo2-base circuit builder over the scalar field of BN254.
///
/// Verus cannot take the declaration of `BaseCircuitBuilder`, whose field
/// parameter is bound by a trait of halo2-base, so the builder is held here
/// and is opaque to proofs: they see it through `builder_state`.
#[verifier::external_body]
#[derive(Debug)]
pub struct CircuitBuilder {
    pub inner: BaseCircuitBuilder<Fr>,
}

/// A cell of the circuit that the computation exposes as a public output.
/// Holds a halo2-base `AssignedValue`, opaque to proofs for the same reason.
#[verifier::external_body]
#[derive(Debug)]
pub struct PublicCell {
    pub cell: AssignedValue<Fr>,
}

/// What a builder holds of one phase of its circuit.
#[verifier::ext_equal]
pub struct PhaseState {
    /// The rows at which the cells of the phase move on to the next column;
    /// `None` where they are not set.
    pub break_points: Option<Seq<usize>>,
    /// The advice cells recorded in the phase.
    pub advice_cells: usize,
}

impl PhaseState {
    /// A phase in which nothing was recorded.
    pub open spec fn empty() -> PhaseState {
        PhaseState { break_points: None, advice_cells: 0 }
    }
}

/// What a builder holds of the shape of its circuit.
#[verifier::ext_equal]
pub struct BuilderState {
    /// Whether the builder records witness values only, and no constraints.
    pub witness_gen_only: bool,
    /// The configuration of the circuit.
    pub config: ParamsView,
    /// The public outputs, one sequence per instance column.
    pub instances: Seq<Seq<PublicCell>>,
    /// The phases of the circuit, of which there is always a first.
    pub phases: Seq<PhaseState>,
}

impl BuilderState {
    /// A builder that nothing was configured in: one phase, no instance column.
    pub open spec fn fresh(witness_gen_only: bool) -> BuilderState {
        BuilderState {
            witness_gen_only,
            config: ParamsView::unset(),
            instances: Seq::empty(),
            phases: seq![PhaseState::empty()],
        }
    }
}

/// `columns`, with empty instance columns added at its end until there are `count`.
pub open spec fn padded(columns: Seq<Seq<PublicCell>>, count: nat) -> Seq<Seq<PublicCell>> {
    columns + Seq::new((count - columns.len()) as nat, |i: int| Seq::<PublicCell>::empty())
}

/// `phases` once break points were set: unchanged by an empty list; otherwise
/// one phase for each entry of the list, with the break points of the entry
/// and the cells that the phase held before, none in a phase that is new.
pub open spec fn with_break_points(
    phases: Seq<PhaseState>,
    break_points: Seq<Seq<usize>>,
) -> Seq<PhaseState> {
    if break_points.len() == 0 {
        phases
    } else {
        Seq::new(
            break_points.len(),
            |phase: int|
                PhaseState {
                    break_points: Some(break_points[phase]),
                    advice_cells: if phase < phases.len() {
                        phases[phase].advice_cells
                    } else {
                        0
                    },
                },
        )
    }
}

/// Whether `fixed` is a configuration sized for what `recorded` holds, with
/// `minimum_rows` rows set aside for blinding: the degree, the lookup width
/// and the number of instance columns are those of `recorded`, and each phase
/// has the advice columns that its cells need at `2^k - minimum_rows` cells
/// to a column.
pub open spec fn sized_for(fixed: ParamsView, recorded: BuilderState, minimum_rows: usize) -> bool {
    &&& fixed.k == recorded.config.k
    &&& fixed.lookup_bits == recorded.config.lookup_bits
    &&& fixed.num_instance_columns == recorded.config.num_instance_columns
    &&& fixed.num_advice_per_phase.len() == recorded.phases.len()
    &&& forall|phase: int|
        0 <= phase < recorded.phases.len() ==> (#[trigger] fixed.num_advice_per_phase[phase])
            == columns_needed(
            recorded.phases[phase].advice_cells as int,
            usable_rows(recorded.config.k, minimum_rows),
        )
}

/// The configuration, public outputs, phases and recorded cells that `builder` holds.
pub uninterp spec fn builder_state(builder: CircuitBuilder) -> BuilderState;

/// The configuration that halo2-base works out for what `builder` has recorded,
/// with `minimum_rows` rows set aside for blinding.
pub uninterp spec fn sized_params(builder: CircuitBuilder, minimum_rows: usize) -> ParamsView;

impl View for CircuitBuilder {
    type V = BuilderState;

    open spec fn view(&self) -> BuilderState {
        builder_state(*self)
    }
}

impl CircuitBuilder {
    /// `BaseCircuitBuilder::from_stage`, for the prover stage where
    /// `witness_gen_only` holds and for key generation where it does not. The
    /// new builder has one phase without break points or cells, the default
    /// configuration and no instance column.
    #[verifier::external_body]
    pub(crate) fn from_stage(witness_gen_only: bool) -> (builder: CircuitBuilder)
        ensures
            builder_state(builder) == BuilderState::fresh(witness_gen_only),
    {
        let stage = if witness_gen_only {
            CircuitBuilderStage::Prover
        } else {
            CircuitBuilderStage::Keygen
        };
        CircuitBuilder { inner: BaseCircuitBuilder::from_stage(stage) }
    }

    /// `BaseCircuitBuilder::set_params`: the configuration is replaced by
    /// `params`, and empty instance columns are added up to the number it
    /// names. halo2-base asserts that no more columns exist already.
    #[verifier::external_body]
    pub(crate) fn set_params(&mut self, params: &CircuitParams)
        requires
            builder_state(*old(self)).instances.len() <= params.num_instance_columns,
        ensures
            builder_state(*final(self)) == (BuilderState {
                config: params@,
                instances: padded(
                    builder_state(*old(self)).instances,
                    params.num_instance_columns as nat,
                ),
                ..builder_state(*old(self))
            }),
    {
        self.inner.set_params(BaseCircuitParams {
            k: params.k,
            num_advice_per_phase: params.num_advice_per_phase.clone(),
            num_fixed: params.num_fixed,
            num_lookup_advice_per_phase: params.num_lookup_advice_per_phase.clone(),
            lookup_bits: params.lookup_bits,
            num_instance_columns: params.num_instance_columns,
        });
    }

    /// `BaseCircuitBuilder::set_break_points`: nothing changes for an empty
    /// list; otherwise empty phases are added up to the length of the list
    /// and each phase gets its break points. halo2-base pairs phases and
    /// entries one to one and panics where there are more phases than entries.
    #[verifier::external_body]
    pub(crate) fn set_break_points(&mut self, break_points: Vec<Vec<usize>>)
        requires
            break_points@.len() == 0 || builder_state(*old(self)).phases.len()
                <= break_points@.len(),
        ensures
            builder_state(*final(self)) == (BuilderState {
                phases: with_break_points(
                    builder_state(*old(self)).phases,
                    break_points.deep_view(),
                ),
                ..builder_state(*old(self))
            }),
    {
        self.inner.set_break_points(break_points);
    }

    /// `BaseCircuitBuilder::set_k`: only the degree of the configuration changes.
    #[verifier::external_body]
    pub(crate) fn set_k(&mut self, k: usize)
        ensures
            builder_state(*final(self)) == (BuilderState {
                config: ParamsView { k, ..builder_state(*old(self)).config },
                ..builder_state(*old(self))
            }),
    {
        self.inner.set_k(k);
    }

    /// `BaseCircuitBuilder::set_lookup_bits`: only the lookup width of the
    /// configuration changes.
    #[verifier::external_body]
    pub(crate) fn set_lookup_bits(&mut self, lookup_bits: usize)
        ensures
            builder_state(*final(self)) == (BuilderState {
                config: ParamsView {
                    lookup_bits: Some(lookup_bits),
                    ..builder_state(*old(self)).config
                },
                ..builder_state(*old(self))
            }),
    {
        self.inner.set_lookup_bits(lookup_bits);
    }

    /// `BaseCircuitBuilder::set_instance_columns`: the configuration names
    /// `count` instance columns, and empty columns are added up to that
    /// number. halo2-base asserts that no more columns exist already.
    #[verifier::external_body]
    pub(crate) fn set_instance_columns(&mut self, count: usize)
        requires
            builder_state(*old(self)).instances.len() <= count,
        ensures
            builder_state(*final(self)) == (BuilderState {
                config: ParamsView {
                    num_instance_columns: count,
                    ..builder_state(*old(self)).config
                },
                instances: padded(builder_state(*old(self)).instances, count as nat),
                ..builder_state(*old(self))
            }),
    {
        self.inner.set_instance_columns(count);
    }

    /// `Circuit::params` of the builder: a copy of its configuration.
    #[verifier::external_body]
    pub(crate) fn params(&self) -> (params: CircuitParams)
        ensures
            params@ == builder_state(*self).config,
    {
        let params = self.inner.params();
        CircuitParams {
            k: params.k,
            num_advice_per_phase: params.num_advice_per_phase,
            num_fixed: params.num_fixed,
            num_lookup_advice_per_phase: params.num_lookup_advice_per_phase,
            lookup_bits: params.lookup_bits,
            num_instance_columns: params.num_instance_columns,
        }
    }

    /// The length of the builder's field `assigned_instances`.
    #[verifier::external_body]
    pub(crate) fn instance_columns(&self) -> (count: usize)
        ensures
            count == builder_state(*self).instances.len(),
    {
        self.inner.assigned_instances.len()
    }

    /// `BaseCircuitBuilder::statistics`, of which the advice cells are taken:
    /// for each phase, the number of cells recorded in it.
    #[verifier::external_body]
    pub(crate) fn advice_cells(&self) -> (cells: Vec<usize>)
        ensures
            cells@.len() == builder_state(*self).phases.len(),
            forall|phase: int|
                0 <= phase < cells@.len() ==> cells@[phase] == (#[trigger] builder_state(
                    *self,
                ).phases[phase]).advice_cells,
    {
        self.inner.statistics().gate.total_advice_per_phase
    }

    /// Stores `cells` as the first entry of the builder's field
    /// `assigned_instances`, which must exist.
    #[verifier::external_body]
    pub(crate) fn set_public_cells(&mut self, cells: Vec<PublicCell>)
        requires
            builder_state(*old(self)).instances.len() > 0,
        ensures
            builder_state(*final(self)) == (BuilderState {
                instances: builder_state(*old(self)).instances.update(0, cells@),
                ..builder_state(*old(self))
            }),
    {
        self.inner.assigned_instances[0] = cells.into_iter().map(|cell| cell.cell).collect();
    }

    /// `BaseCircuitBuilder::calculate_params` with `Some(minimum_rows)`: the
    /// numbers of columns are worked out from what was recorded and stored in
    /// the configuration, whose degree, lookup width and number of instance
    /// columns stay; the new configuration is returned. Each phase gets the
    /// advice columns that its cells need at `2^k - minimum_rows` cells to a
    /// column. halo2-base asserts that the degree is not zero, shifts one by
    /// it, takes `minimum_rows` from the result and divides by what is left.
    #[verifier::external_body]
    pub(crate) fn calculate_params(&mut self, minimum_rows: usize) -> (params: CircuitParams)
        requires
            rows_reserved(builder_state(*old(self)).config.k, minimum_rows),
        ensures
            params@ == sized_params(*old(self), minimum_rows),
            sized_for(params@, builder_state(*old(self)), minimum_rows),
            builder_state(*final(self)) == (BuilderState {
                config: params@,
                ..builder_state(*old(self))
            }),
    {
        let params = self.inner.calculate_params(Some(minimum_rows));
        CircuitParams {
            k: params.k,
            num_advice_per_phase: params.num_advice_per_phase,
            num_fixed: params.num_fixed,
            num_lookup_advice_per_phase: params.num_lookup_advice_per_phase,
            lookup_bits: params.lookup_bits,
            num_instance_columns: params.num_instance_columns,
        }
    }
}

} // verus!
