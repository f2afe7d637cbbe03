use vstd::prelude::*;

verus! {

/// `i` is the first position that holds the largest score.
pub open spec fn is_first_maximum(scores: Seq<u64>, i: int) -> bool {
    &&& 0 <= i < scores.len()
    &&& forall|j: int| 0 <= j < scores.len() ==> scores[j] <= scores[i]
    &&& forall|j: int| 0 <= j < i ==> scores[j] < scores[i]
}

/// No two runs share a score.
pub open spec fn distinct_scores(scores: Seq<u64>) -> bool {
    forall|i: int, j: int| 0 <= i < scores.len() && 0 <= j < scores.len() && i != j ==> scores[i] != scores[j]
}

/// The position of the best-scoring run in a pool: the first of those with the largest
/// score, or `None` for an empty pool. Scores are order keys: a larger key is a better run.
pub fn first_maximum_index(scores: &Vec<u64>) -> (r: Option<usize>)
    ensures
        r is None <==> scores@.len() == 0,
        r matches Some(i) ==> is_first_maximum(scores@, i as int),
{
    if scores.len() == 0 {
        return None;
    }
    let mut best: usize = 0;
    let mut k: usize = 1;
    while k < scores.len()
        invariant
            1 <= k <= scores@.len(),
            best < k,
            forall|j: int| 0 <= j < k ==> scores@[j] <= scores@[best as int],
            forall|j: int| 0 <= j < best ==> scores@[j] < scores@[best as int],
        decreases scores@.len() - k,
    {
        if scores[k] > scores[best] {
            best = k;
        }
        k += 1;
    }
    Some(best)
}

/// There is one first maximum: two positions that both are one are the same.
pub proof fn lemma_first_maximum_unique(scores: Seq<u64>, i: int, k: int)
    requires
        is_first_maximum(scores, i),
        is_first_maximum(scores, k),
    ensures
        i == k,
{
    assert(scores[i] <= scores[k] && scores[k] <= scores[i]);
    if i < k {
        assert(scores[i] < scores[k]);
    } else if k < i {
        assert(scores[k] < scores[i]);
    }
}

/// Among runs with distinct scores, the run chosen is exactly the one whose score is the
/// largest of the pool.
pub proof fn lemma_selects_the_maximum(scores: Seq<u64>, i: int, k: int)
    requires
        distinct_scores(scores),
        is_first_maximum(scores, i),
        0 <= k < scores.len(),
        forall|j: int| 0 <= j < scores.len() ==> scores[j] <= scores[k],
    ensures
        i == k,
{
    assert(scores[i] <= scores[k] && scores[k] <= scores[i]);
    if i != k {
        assert(scores[i] != scores[k]);
    }
}

} // verus!
