use crate::builder::{CircuitBuilder, PublicCell};
use crate::error::ScaffoldError;
use crate::params::{rows_reserved, CircuitParams};
use crate::scaffold::{
    accepts, adopted, begins_with, configured, finishes, trace_fits, CircuitScaffold,
};
use crate::stage::StageMode;
use crate::tuning::Tuning;
use vstd::prelude::*;

verus! {

/// The degree of the circuits that `prepare_prove` builds: they have `2^10` rows.
pub const DEFAULT_DEGREE: u32 = 10;

/// The circuit of what `prepare_prove` returns, or its error.
pub open spec fn circuit_of(
    prepared: Result<(CircuitBuilder, CircuitParams), ScaffoldError>,
) -> Result<CircuitBuilder, ScaffoldError> {
    match prepared {
        Ok((circuit, _)) => Ok(circuit),
        Err(error) => Err(error),
    }
}

/// Builds the circuit that a proving key is derived from.
///
/// The computation is run at key generation, without a pinning and at
/// `DEFAULT_DEGREE`, as `create_circuit` runs it. Returned are the circuit,
/// whose shape is fixed, and its configuration: the first half of the pinning
/// that every later proof needs.
pub fn prepare_prove<T, F>(f: F, private_inputs: T, tuning: &Tuning) -> (prepared: Result<
    (CircuitBuilder, CircuitParams),
    ScaffoldError,
>) where F: FnOnce(&mut CircuitBuilder, T, &mut Vec<PublicCell>)
    requires
        accepts(f, private_inputs, configured(StageMode::Keygen, None, DEFAULT_DEGREE, *tuning)),
    ensures
        (match configured(StageMode::Keygen, None, DEFAULT_DEGREE, *tuning) {
            Err(error) => prepared == Err::<(CircuitBuilder, CircuitParams), ScaffoldError>(error),
            Ok(start) => exists|builder: &mut CircuitBuilder, cells: &mut Vec<PublicCell>|
                ({
                    &&& begins_with(start, builder, cells)
                    &&& #[trigger] call_ensures(f, (builder, private_inputs, cells), ())
                    &&& finishes(
                        StageMode::Keygen,
                        *final(builder),
                        final(cells)@,
                        *tuning,
                        circuit_of(prepared),
                    )
                }),
        }),
        prepared matches Ok((circuit, c_params)) ==> ({
            &&& c_params@ == circuit@.config
            &&& tuning.blinding_rows() matches Ok(rows)
            &&& rows_reserved(c_params.k, rows)
            &&& trace_fits(circuit@, rows)
        }),
{
    let precircuit = CircuitScaffold { f, private_inputs };
    match precircuit.create_circuit(StageMode::Keygen, None, DEFAULT_DEGREE, tuning) {
        Ok(circuit) => {
            let c_params = circuit.params();
            Ok((circuit, c_params))
        },
        Err(error) => Err(error),
    }
}

/// Builds the circuit that a proof is made from.
///
/// The pinning is put together again from `c_params` and `break_points`, and
/// the computation is run at the prover stage on a builder that adopts it,
/// as `create_circuit` runs it. What the computation records must fit the
/// pinned configuration with the blinding rows of `tuning`, which are to be
/// those that the pinning was prepared with; its lookup width is not read.
pub fn run_prove<T, F>(
    f: F,
    private_inputs: T,
    c_params: CircuitParams,
    break_points: Vec<Vec<usize>>,
    tuning: &Tuning,
) -> (circuit: Result<CircuitBuilder, ScaffoldError>) where
    F: FnOnce(&mut CircuitBuilder, T, &mut Vec<PublicCell>),

    requires
        accepts(
            f,
            private_inputs,
            adopted(StageMode::Prover, c_params@, break_points.deep_view()),
        ),
    ensures
        (match adopted(StageMode::Prover, c_params@, break_points.deep_view()) {
            Err(error) => circuit == Err::<CircuitBuilder, ScaffoldError>(error),
            Ok(start) => exists|builder: &mut CircuitBuilder, cells: &mut Vec<PublicCell>|
                ({
                    &&& begins_with(start, builder, cells)
                    &&& #[trigger] call_ensures(f, (builder, private_inputs, cells), ())
                    &&& finishes(
                        StageMode::Prover,
                        *final(builder),
                        final(cells)@,
                        *tuning,
                        circuit,
                    )
                }),
        }),
        circuit matches Ok(witnessed) ==> ({
            &&& tuning.blinding_rows() matches Ok(rows)
            &&& rows_reserved(witnessed@.config.k, rows)
            &&& trace_fits(witnessed@, rows)
        }),
{
    let pinning = (c_params, break_points);
    let precircuit = CircuitScaffold { f, private_inputs };
    precircuit.create_circuit(StageMode::Prover, Some(pinning), DEFAULT_DEGREE, tuning)
}

} // verus!
