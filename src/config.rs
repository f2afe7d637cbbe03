use vstd::prelude::*;

use crate::error::HmmError;

verus! {

/// A model needs at least one hidden state, at least one observation symbol,
/// and at least two observations, so that one transition is seen.
pub open spec fn valid_dimensions(n: nat, m: nat, t: nat) -> bool {
    n > 0 && m > 0 && t >= 2
}

/// Every observation names a symbol of an alphabet of size `m`.
pub open spec fn symbols_in_range(observations: Seq<usize>, m: nat) -> bool {
    forall|t: int| 0 <= t < observations.len() ==> observations[t] < m
}

/// What checking a training problem yields: the configuration is checked first,
/// then the observation symbols.
pub open spec fn problem_check(n: nat, m: nat, observations: Seq<usize>) -> Result<(), HmmError> {
    if !valid_dimensions(n, m, observations.len()) {
        Err(HmmError::InvalidConfiguration)
    } else if !symbols_in_range(observations, m) {
        Err(HmmError::ObservationOutOfRange)
    } else {
        Ok(())
    }
}

/// Checks the sizes of a training problem and the observations against the alphabet,
/// before any computation starts.
pub fn validate_problem(
    number_of_hidden_state_symbols: usize,
    number_of_observation_symbols: usize,
    observations: &Vec<usize>,
) -> (r: Result<(), HmmError>)
    ensures
        r == problem_check(
            number_of_hidden_state_symbols as nat,
            number_of_observation_symbols as nat,
            observations@,
        ),
{
    if number_of_hidden_state_symbols == 0 || number_of_observation_symbols == 0
        || observations.len() < 2 {
        return Err(HmmError::InvalidConfiguration);
    }
    let mut t: usize = 0;
    while t < observations.len()
        invariant
            t <= observations.len(),
            valid_dimensions(
                number_of_hidden_state_symbols as nat,
                number_of_observation_symbols as nat,
                observations@.len(),
            ),
            symbols_in_range(observations@.subrange(0, t as int), number_of_observation_symbols as nat),
        decreases observations.len() - t,
    {
        if observations[t] >= number_of_observation_symbols {
            assert(!symbols_in_range(observations@, number_of_observation_symbols as nat));
            return Err(HmmError::ObservationOutOfRange);
        }
        t += 1;
    }
    assert(observations@.subrange(0, observations@.len() as int) =~= observations@);
    Ok(())
}

} // verus!
