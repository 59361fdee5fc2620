use vstd::prelude::*;

verus! {

/// What a circuit is being built for.
#[derive(Clone, Copy, Debug, PartialEq, Eq, Structural)]
pub enum StageMode {
    /// The shape of the circuit is recorded and then fixed.
    Keygen,
    /// Witness values are recorded into a shape fixed earlier, for a proof.
    Prover,
    /// Witness values are recorded into a shape fixed earlier, for their own sake.
    WitnessOnly,
}

impl StageMode {
    /// Only `Keygen` records constraints; the other stages record witness values alone.
    pub open spec fn spec_witness_gen_only(self) -> bool {
        !(self is Keygen)
    }

    #[verifier::when_used_as_spec(spec_witness_gen_only)]
    pub fn witness_gen_only(self) -> (only: bool)
        ensures
            only == self.spec_witness_gen_only(),
    {
        match self {
            StageMode::Keygen => false,
            StageMode::Prover => true,
            StageMode::WitnessOnly => true,
        }
    }

    /// The shape is fixed at the end of a build exactly when constraints were recorded.
    pub open spec fn spec_finalizes_shape(self) -> bool {
        self is Keygen
    }

    #[verifier::when_used_as_spec(spec_finalizes_shape)]
    pub fn finalizes_shape(self) -> (finalizes: bool)
        ensures
            finalizes == self.spec_finalizes_shape(),
            finalizes == !self.spec_witness_gen_only(),
    {
        !self.witness_gen_only()
    }
}

} // verus!
