use vstd::prelude::*;

verus! {

/// Why a training run could not be carried out.
#[derive(Debug, Clone, Copy, PartialEq, Eq, Structural)]
pub enum HmmError {
    /// No hidden states, no observation symbols, or fewer than two observations.
    InvalidConfiguration,
    /// A forward-pass column or a re-estimation denominator summed to zero.
    NumericDegeneracy,
    /// An observation names a symbol outside the alphabet.
    ObservationOutOfRange,
}

} // verus!
