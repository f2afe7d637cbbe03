use baum_welch::model::HmmModel;

fn textbook_model() -> HmmModel<f64> {
    let mut model = HmmModel::new(2, 3, &vec![0, 1, 0, 2], 0.0f64).unwrap();
    let a = [[0.7, 0.3], [0.4, 0.6]];
    let b = [[0.1, 0.4, 0.5], [0.7, 0.2, 0.1]];
    let pi = [0.6, 0.4];
    for i in 0..2 {
        for j in 0..2 {
            model.set_transition(i, j, a[i][j]);
        }
        for k in 0..3 {
            model.set_emission(i, k, b[i][k]);
        }
        model.set_initial(i, pi[i]);
    }
    model
}

#[test]
fn tables_keep_what_was_set() {
    let model = textbook_model();
    assert_eq!(model.transition(0, 1), 0.3);
    assert_eq!(model.transition(1, 0), 0.4);
    assert_eq!(model.emission(1, 0), 0.7);
    assert_eq!(model.emission(0, 2), 0.5);
    assert_eq!(model.initial(0), 0.6);
    assert_eq!(model.initial(1), 0.4);
}

#[test]
fn setting_one_entry_leaves_the_others() {
    let mut model = textbook_model();
    model.set_emission(0, 1, 0.9);
    assert_eq!(model.emission(0, 1), 0.9);
    assert_eq!(model.emission(0, 0), 0.1);
    assert_eq!(model.emission(1, 1), 0.2);
    assert_eq!(model.transition(0, 1), 0.3);
}

#[test]
fn di_gamma_entries_are_independent() {
    let mut model = HmmModel::new(3, 2, &vec![0, 1, 1], 0u64).unwrap();
    for t in 0..3 {
        for i in 0..3 {
            for j in 0..3 {
                model.set_di_gamma(t, i, j, (t * 100 + i * 10 + j) as u64);
            }
        }
    }
    for t in 0..3 {
        for i in 0..3 {
            for j in 0..3 {
                assert_eq!(model.di_gamma(t, i, j), (t * 100 + i * 10 + j) as u64);
            }
        }
    }
}

#[test]
fn scratch_tables_are_separate() {
    let mut model = HmmModel::new(2, 2, &vec![0, 1, 1], 0i64).unwrap();
    model.set_alpha(2, 1, 5);
    model.set_beta(2, 1, 6);
    model.set_gamma(2, 1, 7);
    model.set_scale_factor(2, 8);
    model.set_log_probability(-9);
    assert_eq!(model.alpha(2, 1), 5);
    assert_eq!(model.beta(2, 1), 6);
    assert_eq!(model.gamma(2, 1), 7);
    assert_eq!(model.scale_factor(2), 8);
    assert_eq!(model.log_probability(), -9);
    assert_eq!(model.alpha(1, 1), 0);
    assert_eq!(model.beta(2, 0), 0);
}
