use vstd::prelude::*;

verus! {

/// The number of positions below `presumed.len()` at which the two keys agree.
pub open spec fn agreements(presumed: Seq<usize>, actual: Seq<usize>) -> nat
    decreases presumed.len(),
{
    if presumed.len() == 0 {
        0
    } else {
        let last = presumed.len() - 1;
        agreements(presumed.subrange(0, last), actual) + if presumed[last] == actual[last] {
            1nat
        } else {
            0nat
        }
    }
}

/// How many entries of a presumed substitution key match the actual key, entry by entry.
/// Each key maps a ciphertext symbol, by position, to the plaintext symbol it stands for.
pub fn key_score(presumed: &Vec<usize>, actual: &Vec<usize>) -> (r: usize)
    requires
        presumed@.len() <= actual@.len(),
    ensures
        r == agreements(presumed@, actual@),
{
    let mut score: usize = 0;
    let mut j: usize = 0;
    while j < presumed.len()
        invariant
            j <= presumed@.len() <= actual@.len(),
            score == agreements(presumed@.subrange(0, j as int), actual@),
            score <= j,
        decreases presumed@.len() - j,
    {
        proof {
            let next = presumed@.subrange(0, j + 1);
            assert(next.subrange(0, j as int) =~= presumed@.subrange(0, j as int));
        }
        if presumed[j] == actual[j] {
            score += 1;
        }
        j += 1;
    }
    assert(presumed@.subrange(0, presumed@.len() as int) =~= presumed@);
    score
}

} // verus!
