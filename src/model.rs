use vstd::prelude::*;

use crate::config::{problem_check, validate_problem};
use crate::error::HmmError;
use crate::matrix::{flat_index, lemma_flat_index_bound, lemma_flat_index_unique, Matrix};

verus! {

/// What a model holds, as mathematical sequences.
pub struct HmmModelView<P> {
    /// N, the number of hidden states.
    pub hidden: nat,
    /// M, the number of observation symbols.
    pub symbols: nat,
    /// T, the number of observations the scratch tables are sized for.
    pub length: nat,
    /// A, N × N: `transitions[i][j]` is the probability of moving from state i to state j.
    pub transitions: Seq<Seq<P>>,
    /// B, N × M: `emissions[i][k]` is the probability that state i emits symbol k.
    pub emissions: Seq<Seq<P>>,
    /// π, of length N.
    pub initial: Seq<P>,
    /// The log-likelihood reached by the last iteration.
    pub log_probability: P,
    /// α, T × N, the scaled forward probabilities.
    pub alpha: Seq<Seq<P>>,
    /// β, T × N, the scaled backward probabilities.
    pub beta: Seq<Seq<P>>,
    /// γ, T × N, the state occupancies.
    pub gamma: Seq<Seq<P>>,
    /// ξ, T × N × N, the joint transition occupancies.
    pub di_gamma: Seq<Seq<Seq<P>>>,
    /// c, of length T, the scale factors.
    pub scale_factors: Seq<P>,
}

/// A rectangular table of `rows` rows of `cols` entries.
pub open spec fn is_table<P>(s: Seq<Seq<P>>, rows: nat, cols: nat) -> bool {
    s.len() == rows && forall|i: int| 0 <= i < rows ==> #[trigger] s[i].len() == cols
}

/// A table of the given size with every entry equal to `fill`.
pub open spec fn filled_table<P>(rows: nat, cols: nat, fill: P) -> Seq<Seq<P>> {
    Seq::new(rows, |i: int| Seq::new(cols, |j: int| fill))
}

impl<P> HmmModelView<P> {
    /// Every table has the size that N, M and T give it, and those sizes are valid.
    pub open spec fn well_sized(&self) -> bool {
        &&& self.hidden > 0 && self.symbols > 0 && self.length >= 2
        &&& is_table(self.transitions, self.hidden, self.hidden)
        &&& is_table(self.emissions, self.hidden, self.symbols)
        &&& self.initial.len() == self.hidden
        &&& is_table(self.alpha, self.length, self.hidden)
        &&& is_table(self.beta, self.length, self.hidden)
        &&& is_table(self.gamma, self.length, self.hidden)
        &&& self.di_gamma.len() == self.length
        &&& forall|t: int| 0 <= t < self.length ==> is_table(#[trigger] self.di_gamma[t], self.hidden, self.hidden)
        &&& self.scale_factors.len() == self.length
    }
}

/// A hidden Markov model together with the scratch tables of one training run
/// over an observation sequence of a fixed length.
pub struct HmmModel<P> {
    state_transition_matrix: Matrix<P>,
    observation_probability_matrix: Matrix<P>,
    initial_state_distribution_vector: Vec<P>,
    log_probability: P,
    alpha_matrix: Matrix<P>,
    beta_matrix: Matrix<P>,
    gamma_matrix: Matrix<P>,
    /// Row `t * N + i` holds ξ[t][i].
    di_gamma_tensor: Matrix<P>,
    scale_factors: Vec<P>,
    hidden: usize,
    symbols: usize,
    length: usize,
}

impl<P> View for HmmModel<P> {
    type V = HmmModelView<P>;

    closed spec fn view(&self) -> HmmModelView<P> {
        HmmModelView {
            hidden: self.hidden as nat,
            symbols: self.symbols as nat,
            length: self.length as nat,
            transitions: self.state_transition_matrix@,
            emissions: self.observation_probability_matrix@,
            initial: self.initial_state_distribution_vector@,
            log_probability: self.log_probability,
            alpha: self.alpha_matrix@,
            beta: self.beta_matrix@,
            gamma: self.gamma_matrix@,
            di_gamma: Seq::new(
                self.length as nat,
                |t: int|
                    Seq::new(
                        self.hidden as nat,
                        |i: int| self.di_gamma_tensor@[flat_index(t, i, self.hidden as int)],
                    ),
            ),
            scale_factors: self.scale_factors@,
        }
    }
}


/// The model that construction yields: every table and the log-likelihood hold `fill`.
pub open spec fn filled_view<P>(n: nat, m: nat, t: nat, fill: P) -> HmmModelView<P> {
    HmmModelView {
        hidden: n,
        symbols: m,
        length: t,
        transitions: filled_table(n, n, fill),
        emissions: filled_table(n, m, fill),
        initial: Seq::new(n, |i: int| fill),
        log_probability: fill,
        alpha: filled_table(t, n, fill),
        beta: filled_table(t, n, fill),
        gamma: filled_table(t, n, fill),
        di_gamma: Seq::new(t, |s: int| filled_table(n, n, fill)),
        scale_factors: Seq::new(t, |s: int| fill),
    }
}

fn filled_vec<P: Copy>(len: usize, fill: P) -> (r: Vec<P>)
    ensures
        r@ == Seq::new(len as nat, |i: int| fill),
{
    let mut v: Vec<P> = Vec::new();
    while v.len() < len
        invariant
            v@.len() <= len,
            forall|k: int| 0 <= k < v@.len() ==> v@[k] == fill,
        decreases len - v@.len(),
    {
        v.push(fill);
    }
    assert(v@ =~= Seq::new(len as nat, |i: int| fill));
    v
}

impl<P: Copy> HmmModel<P> {
    /// Each table is stored with the size that N, M and T give it.
    pub closed spec fn wf(&self) -> bool {
        let n = self.hidden as nat;
        let t = self.length as nat;
        &&& n > 0 && self.symbols > 0 && t >= 2
        &&& self.state_transition_matrix.wf()
        &&& self.state_transition_matrix@.len() == n
        &&& self.state_transition_matrix.width() == n
        &&& self.observation_probability_matrix.wf()
        &&& self.observation_probability_matrix@.len() == n
        &&& self.observation_probability_matrix.width() == self.symbols
        &&& self.initial_state_distribution_vector@.len() == n
        &&& self.alpha_matrix.wf()
        &&& self.alpha_matrix@.len() == t
        &&& self.alpha_matrix.width() == n
        &&& self.beta_matrix.wf()
        &&& self.beta_matrix@.len() == t
        &&& self.beta_matrix.width() == n
        &&& self.gamma_matrix.wf()
        &&& self.gamma_matrix@.len() == t
        &&& self.gamma_matrix.width() == n
        &&& self.di_gamma_tensor.wf()
        &&& self.di_gamma_tensor@.len() == t * n <= usize::MAX
        &&& self.di_gamma_tensor.width() == n
        &&& self.scale_factors@.len() == t
    }

    /// A well-formed model has every table at its size.
    pub proof fn lemma_well_sized(&self)
        requires
            self.wf(),
        ensures
            self@.well_sized(),
    {
        self.state_transition_matrix.lemma_rows_have_width();
        self.observation_probability_matrix.lemma_rows_have_width();
        self.alpha_matrix.lemma_rows_have_width();
        self.beta_matrix.lemma_rows_have_width();
        self.gamma_matrix.lemma_rows_have_width();
        self.di_gamma_tensor.lemma_rows_have_width();
        let n = self.hidden as int;
        assert forall|t: int| 0 <= t < self.length implies is_table(
            #[trigger] self@.di_gamma[t],
            self.hidden as nat,
            self.hidden as nat,
        ) by {
            assert forall|i: int| 0 <= i < n implies #[trigger] self@.di_gamma[t][i].len() == n by {
                lemma_flat_index_bound(t, i, self.length as int, n);
            }
        }
    }

    /// A model for `observations`, with every table and the log-likelihood set to `fill`.
    /// Fails with the error that checking the problem gives: `InvalidConfiguration` when
    /// N or M is 0 or there are fewer than two observations, else `ObservationOutOfRange`
    /// when an observation is not below M.
    pub fn new(
        number_of_hidden_state_symbols: usize,
        number_of_observation_symbols: usize,
        observations: &Vec<usize>,
        fill: P,
    ) -> (r: Result<Self, HmmError>)
        requires
            observations@.len() * number_of_hidden_state_symbols * number_of_hidden_state_symbols
                <= usize::MAX,
            number_of_hidden_state_symbols * number_of_observation_symbols <= usize::MAX,
        ensures
            r is Err <==> problem_check(
                number_of_hidden_state_symbols as nat,
                number_of_observation_symbols as nat,
                observations@,
            ) is Err,
            r matches Err(e) ==> problem_check(
                number_of_hidden_state_symbols as nat,
                number_of_observation_symbols as nat,
                observations@,
            ) == Err::<(), HmmError>(e),
            r matches Ok(model) ==> model.wf() && model@ == filled_view(
                number_of_hidden_state_symbols as nat,
                number_of_observation_symbols as nat,
                observations@.len(),
                fill,
            ),
    {
        let n = number_of_hidden_state_symbols;
        let m = number_of_observation_symbols;
        match validate_problem(n, m, observations) {
            Err(e) => {
                return Err(e);
            },
            Ok(()) => {},
        }
        let t = observations.len();
        assert(t * n <= t * n * n && n * n <= t * n * n) by (nonlinear_arith)
            requires
                n >= 1,
                t >= 2,
        ;
        let tn: usize = t * n;
        let model = HmmModel {
            state_transition_matrix: Matrix::new(n, n, fill),
            observation_probability_matrix: Matrix::new(n, m, fill),
            initial_state_distribution_vector: filled_vec(n, fill),
            log_probability: fill,
            alpha_matrix: Matrix::new(t, n, fill),
            beta_matrix: Matrix::new(t, n, fill),
            gamma_matrix: Matrix::new(t, n, fill),
            di_gamma_tensor: Matrix::new(tn, n, fill),
            scale_factors: filled_vec(t, fill),
            hidden: n,
            symbols: m,
            length: t,
        };
        proof {
            assert forall|s: int, i: int| 0 <= s < t && 0 <= i < n implies
                #[trigger] model@.di_gamma[s][i] == Seq::new(n as nat, |j: int| fill) by {
                lemma_flat_index_bound(s, i, t as int, n as int);
                assert(model@.di_gamma[s][i] =~= Seq::new(n as nat, |j: int| fill));
            }
            assert(model@.di_gamma =~~= Seq::new(t as nat, |s: int| filled_table(n as nat, n as nat, fill)));
            assert(model@ == filled_view(n as nat, m as nat, t as nat, fill));
        }
        Ok(model)
    }

    /// N, the number of hidden states.
    pub fn get_number_of_hidden_state_symbols(&self) -> (r: usize)
        ensures
            r == self@.hidden,
    {
        self.hidden
    }

    /// M, the number of observation symbols.
    pub fn get_number_of_observation_symbols(&self) -> (r: usize)
        ensures
            r == self@.symbols,
    {
        self.symbols
    }

    /// T, the number of observations the scratch tables are sized for.
    pub fn get_observation_length(&self) -> (r: usize)
        ensures
            r == self@.length,
    {
        self.length
    }

    /// A[i][j].
    pub fn transition(&self, i: usize, j: usize) -> (r: P)
        requires
            self.wf(),
            i < self@.hidden,
            j < self@.hidden,
        ensures
            r == self@.transitions[i as int][j as int],
    {
        self.state_transition_matrix.get(i, j)
    }

    /// Sets A[i][j] to `v`.
    pub fn set_transition(&mut self, i: usize, j: usize, v: P)
        requires
            old(self).wf(),
            i < old(self)@.hidden,
            j < old(self)@.hidden,
        ensures
            final(self).wf(),
            final(self)@ == (HmmModelView {
                transitions: old(self)@.transitions.update(
                    i as int,
                    old(self)@.transitions[i as int].update(j as int, v),
                ),
                ..old(self)@
            }),
    {
        self.state_transition_matrix.set(i, j, v);
    }

    /// B[i][k].
    pub fn emission(&self, i: usize, k: usize) -> (r: P)
        requires
            self.wf(),
            i < self@.hidden,
            k < self@.symbols,
        ensures
            r == self@.emissions[i as int][k as int],
    {
        self.observation_probability_matrix.get(i, k)
    }

    /// Sets B[i][k] to `v`.
    pub fn set_emission(&mut self, i: usize, k: usize, v: P)
        requires
            old(self).wf(),
            i < old(self)@.hidden,
            k < old(self)@.symbols,
        ensures
            final(self).wf(),
            final(self)@ == (HmmModelView {
                emissions: old(self)@.emissions.update(
                    i as int,
                    old(self)@.emissions[i as int].update(k as int, v),
                ),
                ..old(self)@
            }),
    {
        self.observation_probability_matrix.set(i, k, v);
    }

    /// π[i].
    pub fn initial(&self, i: usize) -> (r: P)
        requires
            self.wf(),
            i < self@.hidden,
        ensures
            r == self@.initial[i as int],
    {
        self.initial_state_distribution_vector[i]
    }

    /// Sets π[i] to `v`.
    pub fn set_initial(&mut self, i: usize, v: P)
        requires
            old(self).wf(),
            i < old(self)@.hidden,
        ensures
            final(self).wf(),
            final(self)@ == (HmmModelView { initial: old(self)@.initial.update(i as int, v), ..old(self)@ }),
    {
        self.initial_state_distribution_vector.set(i, v);
    }

    /// α[t][i].
    pub fn alpha(&self, t: usize, i: usize) -> (r: P)
        requires
            self.wf(),
            t < self@.length,
            i < self@.hidden,
        ensures
            r == self@.alpha[t as int][i as int],
    {
        self.alpha_matrix.get(t, i)
    }

    /// Sets α[t][i] to `v`.
    pub fn set_alpha(&mut self, t: usize, i: usize, v: P)
        requires
            old(self).wf(),
            t < old(self)@.length,
            i < old(self)@.hidden,
        ensures
            final(self).wf(),
            final(self)@ == (HmmModelView {
                alpha: old(self)@.alpha.update(
                    t as int,
                    old(self)@.alpha[t as int].update(i as int, v),
                ),
                ..old(self)@
            }),
    {
        self.alpha_matrix.set(t, i, v);
    }

    /// β[t][i].
    pub fn beta(&self, t: usize, i: usize) -> (r: P)
        requires
            self.wf(),
            t < self@.length,
            i < self@.hidden,
        ensures
            r == self@.beta[t as int][i as int],
    {
        self.beta_matrix.get(t, i)
    }

    /// Sets β[t][i] to `v`.
    pub fn set_beta(&mut self, t: usize, i: usize, v: P)
        requires
            old(self).wf(),
            t < old(self)@.length,
            i < old(self)@.hidden,
        ensures
            final(self).wf(),
            final(self)@ == (HmmModelView {
                beta: old(self)@.beta.update(
                    t as int,
                    old(self)@.beta[t as int].update(i as int, v),
                ),
                ..old(self)@
            }),
    {
        self.beta_matrix.set(t, i, v);
    }

    /// γ[t][i].
    pub fn gamma(&self, t: usize, i: usize) -> (r: P)
        requires
            self.wf(),
            t < self@.length,
            i < self@.hidden,
        ensures
            r == self@.gamma[t as int][i as int],
    {
        self.gamma_matrix.get(t, i)
    }

    /// Sets γ[t][i] to `v`.
    pub fn set_gamma(&mut self, t: usize, i: usize, v: P)
        requires
            old(self).wf(),
            t < old(self)@.length,
            i < old(self)@.hidden,
        ensures
            final(self).wf(),
            final(self)@ == (HmmModelView {
                gamma: old(self)@.gamma.update(
                    t as int,
                    old(self)@.gamma[t as int].update(i as int, v),
                ),
                ..old(self)@
            }),
    {
        self.gamma_matrix.set(t, i, v);
    }

    /// c[t].
    pub fn scale_factor(&self, t: usize) -> (r: P)
        requires
            self.wf(),
            t < self@.length,
        ensures
            r == self@.scale_factors[t as int],
    {
        self.scale_factors[t]
    }

    /// Sets c[t] to `v`.
    pub fn set_scale_factor(&mut self, t: usize, v: P)
        requires
            old(self).wf(),
            t < old(self)@.length,
        ensures
            final(self).wf(),
            final(self)@ == (HmmModelView { scale_factors: old(self)@.scale_factors.update(t as int, v), ..old(self)@ }),
    {
        self.scale_factors.set(t, v);
    }

    /// The log-likelihood reached by the last iteration.
    pub fn log_probability(&self) -> (r: P)
        ensures
            r == self@.log_probability,
    {
        self.log_probability
    }

    /// Records `v` as the log-likelihood reached.
    pub fn set_log_probability(&mut self, v: P)
        requires
            old(self).wf(),
        ensures
            final(self).wf(),
            final(self)@ == (HmmModelView { log_probability: v, ..old(self)@ }),
    {
        self.log_probability = v;
    }

    /// ξ[t][i][j].
    pub fn di_gamma(&self, t: usize, i: usize, j: usize) -> (r: P)
        requires
            self.wf(),
            t < self@.length,
            i < self@.hidden,
            j < self@.hidden,
        ensures
            r == self@.di_gamma[t as int][i as int][j as int],
    {
        proof {
            lemma_flat_index_bound(t as int, i as int, self.length as int, self.hidden as int);
        }
        self.di_gamma_tensor.get(t * self.hidden + i, j)
    }

    /// Sets ξ[t][i][j] to `v`.
    pub fn set_di_gamma(&mut self, t: usize, i: usize, j: usize, v: P)
        requires
            old(self).wf(),
            t < old(self)@.length,
            i < old(self)@.hidden,
            j < old(self)@.hidden,
        ensures
            final(self).wf(),
            final(self)@ == (HmmModelView {
                di_gamma: old(self)@.di_gamma.update(
                    t as int,
                    old(self)@.di_gamma[t as int].update(
                        i as int,
                        old(self)@.di_gamma[t as int][i as int].update(j as int, v),
                    ),
                ),
                ..old(self)@
            }),
    {
        let n = self.hidden;
        proof {
            lemma_flat_index_bound(t as int, i as int, self.length as int, n as int);
        }
        let row: usize = t * n + i;
        self.di_gamma_tensor.set(row, j, v);
        proof {
            let old_xi = old(self)@.di_gamma;
            self.lemma_well_sized();
            old(self).lemma_well_sized();
            let new_xi = old_xi.update(
                t as int,
                old_xi[t as int].update(i as int, old_xi[t as int][i as int].update(j as int, v)),
            );
            assert forall|s: int, k: int| 0 <= s < self.length && 0 <= k < n implies
                #[trigger] self@.di_gamma[s][k] == new_xi[s][k] by {
                lemma_flat_index_bound(s, k, self.length as int, n as int);
                if flat_index(s, k, n as int) == row {
                    lemma_flat_index_unique(s, k, t as int, i as int, n as int);
                } else {
                    assert(s != t || k != i);
                }
            }
            assert forall|s: int| 0 <= s < self.length implies #[trigger] self@.di_gamma[s] =~= new_xi[s] by {
            }
            assert(self@.di_gamma =~= new_xi);
        }
    }
}

} // verus!
