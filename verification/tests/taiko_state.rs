//! Taiko score-state reconstruction: the carried-over builder cases
//! and the round-trip on an accuracy target.

use refx_pp::taiko::{generate_hitresults, HitResultPriority, TaikoScoreState};

#[test]
fn hitresults_n300_n_misses_best() {
    let max_combo = 289;

    let state = generate_hitresults(
        max_combo,
        None,
        Some(100),
        Some(150),
        None,
        Some(2),
        None,
        HitResultPriority::BestCase,
    );

    let expected = TaikoScoreState {
        max_combo: 100,
        n300: 150,
        n100: 137,
        n_misses: 2,
    };

    assert_eq!(state, expected);
}

#[test]
fn hitresults_n_misses_best() {
    let max_combo = 289;

    let state = generate_hitresults(
        max_combo,
        None,
        Some(100),
        None,
        None,
        Some(2),
        None,
        HitResultPriority::BestCase,
    );

    let expected = TaikoScoreState {
        max_combo: 100,
        n300: 287,
        n100: 0,
        n_misses: 2,
    };

    assert_eq!(state, expected);
}

#[test]
fn hitresults_acc_n_misses_worst() {
    let max_combo = 289;
    let acc = 97.2 / 100.0;
    let target_total = (acc * (max_combo * 2) as f64).round() as usize;

    let state = generate_hitresults(
        max_combo,
        None,
        Some(100),
        None,
        None,
        Some(2),
        Some(target_total),
        HitResultPriority::WorstCase,
    );

    let expected = TaikoScoreState {
        max_combo: 100,
        n300: 275,
        n100: 12,
        n_misses: 2,
    };

    assert_eq!(
        state, expected,
        "{:?} vs {:?}",
        state, expected
    );
}

#[test]
fn worst_case_prefers_100s() {
    let state = generate_hitresults(
        50,
        None,
        None,
        None,
        None,
        Some(3),
        None,
        HitResultPriority::WorstCase,
    );
    assert_eq!(
        state,
        TaikoScoreState {
            max_combo: 50,
            n300: 0,
            n100: 47,
            n_misses: 3,
        }
    );
}

#[test]
fn passed_objects_cap_the_total() {
    let state = generate_hitresults(
        300,
        Some(120),
        None,
        None,
        None,
        None,
        None,
        HitResultPriority::BestCase,
    );
    assert_eq!(
        state,
        TaikoScoreState {
            max_combo: 300,
            n300: 120,
            n100: 0,
            n_misses: 0,
        }
    );
}

#[test]
fn accuracy_target_recovered_exactly() {
    // 90% of 200 objects is 360 of 400 accuracy points.
    let state = generate_hitresults(
        200,
        None,
        None,
        None,
        None,
        Some(10),
        Some(360),
        HitResultPriority::BestCase,
    );
    assert_eq!(2 * state.n300 + state.n100, 360);
    assert_eq!(state.n300 + state.n100 + state.n_misses, 200);
}

#[test]
fn state_totals() {
    let state = TaikoScoreState {
        max_combo: 100,
        n300: 70,
        n100: 20,
        n_misses: 10,
    };
    assert_eq!(state.total_hits(), 100);
    assert_eq!(state.total_successful_hits(), 90);
}

#[test]
fn default_priority_is_best_case() {
    assert_eq!(HitResultPriority::default(), HitResultPriority::BestCase);
}
