use vstd::prelude::*;

verus! {

/// Why a circuit could not be built.
#[derive(Clone, Copy, Debug, PartialEq, Eq, Structural)]
pub enum ScaffoldError {
    /// The lookup width given as text is not an unsigned decimal number.
    InvalidLookupBits,
    /// The lookup width is not below the degree of the circuit.
    LookupBitsTooWide,
    /// The pinned shape does not fit the degree it names.
    PinningOutOfRange,
    /// Public outputs were produced, but the builder does not hold exactly one instance column.
    InstanceColumnMismatch,
    /// The number of blinding rows given as text is not an unsigned decimal number.
    InvalidMinimumRows,
    /// The degree of the circuit is unset, or its row count exceeds the machine's range.
    DegreeOutOfRange,
    /// The blinding rows leave no row of the circuit to use.
    BlindingExceedsRows,
    /// The cells recorded in some phase do not fit the advice columns that the
    /// configuration names for it, in the rows that the blinding rows leave.
    TraceExceedsShape,
}

} // verus!
