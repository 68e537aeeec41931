//! Hit-result reconstruction: carried-over builder behaviour and exact
//! splits.

use refx_pp::hitresults::{fill_hitresults, hitresults_from_accuracy, hitresults_from_accuracy_legacy};

/// The rounded accuracy-point target the osu! calculators derive from
/// a percentage, computed with the same single-precision steps.
fn osu_target_total(acc_percent: f32, n_objects: usize) -> usize {
    let acc = acc_percent / 100.0;
    (acc * n_objects as f32 * 6.0).round() as usize
}

#[test]
fn osu_only_accuracy() {
    let total_objects = 1234;
    let target_acc = 97.5;

    let target_total = osu_target_total(target_acc, total_objects);
    let (n300, n100, n50) = hitresults_from_accuracy(total_objects, 0, None, None, target_total);

    let numerator = 6 * n300 + 2 * n100 + n50;
    let denominator = 6 * total_objects;
    let acc = 100.0 * numerator as f32 / denominator as f32;

    assert!(
        (target_acc - acc).abs() < 1.0,
        "Expected: {} | Actual: {}",
        target_acc,
        acc
    );
}

#[test]
fn osu_accuracy_and_n50() {
    let total_objects = 1234;
    let target_acc = 97.5;
    let n50 = 30;

    let target_total = osu_target_total(target_acc, total_objects);
    let (out300, out100, out50) =
        hitresults_from_accuracy(total_objects, 0, None, Some(n50), target_total);

    assert!(
        (out50 as i32 - n50 as i32).abs() <= 4,
        "Expected: {} | Actual: {}",
        n50,
        out50
    );

    let numerator = 6 * out300 + 2 * out100 + out50;
    let denominator = 6 * total_objects;
    let acc = 100.0 * numerator as f32 / denominator as f32;

    assert!(
        (target_acc - acc).abs() < 1.0,
        "Expected: {} | Actual: {}",
        target_acc,
        acc
    );
}

#[test]
fn osu_missing_objects() {
    let total_objects = 1234;
    let n300 = 1000;
    let n100 = 200;
    let n50 = 30;

    let (out300, out100, out50) =
        fill_hitresults(total_objects, 0, Some(n300), Some(n100), Some(n50));

    let n_objects = out300 + out100 + out50;

    assert_eq!(
        total_objects, n_objects,
        "Expected: {} | Actual: {}",
        total_objects, n_objects
    );
}

#[test]
fn pp_osu_only_accuracy() {
    let total_objects = 1234;
    let target_acc = 97.5;

    let target_total = osu_target_total(target_acc, total_objects);
    let (n300, n100, n50) = hitresults_from_accuracy(total_objects, 0, None, None, target_total);

    let numerator = 6 * n300 + 2 * n100 + n50;
    let denominator = 6 * total_objects;
    let acc = 100.0 * numerator as f32 / denominator as f32;

    assert!(
        (target_acc - acc).abs() < 1.0,
        "Expected: {} | Actual: {}",
        target_acc,
        acc
    );
}

#[test]
fn pp_osu_accuracy_and_n50() {
    let total_objects = 1234;
    let target_acc = 97.5;
    let n50 = 30;

    let target_total = osu_target_total(target_acc, total_objects);
    let (out300, out100, out50) =
        hitresults_from_accuracy(total_objects, 0, None, Some(n50), target_total);

    assert!(
        (out50 as i32 - n50 as i32).abs() <= 4,
        "Expected: {} | Actual: {}",
        n50,
        out50
    );

    let numerator = 6 * out300 + 2 * out100 + out50;
    let denominator = 6 * total_objects;
    let acc = 100.0 * numerator as f32 / denominator as f32;

    assert!(
        (target_acc - acc).abs() < 1.0,
        "Expected: {} | Actual: {}",
        target_acc,
        acc
    );
}

#[test]
fn pp_osu_missing_objects() {
    let total_objects = 1234;
    let n300 = 1000;
    let n100 = 200;
    let n50 = 30;

    let (out300, out100, out50) =
        fill_hitresults(total_objects, 0, Some(n300), Some(n100), Some(n50));

    let n_objects = out300 + out100 + out50;

    assert_eq!(
        total_objects, n_objects,
        "Expected: {} | Actual: {}",
        total_objects, n_objects
    );
}

#[test]
fn exact_split_from_accuracy() {
    // 100 objects at 95%: target 570 points; the raw split 94/0/6 gives
    // one 300 up to turn four 50s into five 100s.
    let target_total = osu_target_total(95.0, 100);
    assert_eq!(target_total, 570);

    let (n300, n100, n50) = hitresults_from_accuracy(100, 0, None, None, target_total);
    assert_eq!((n300, n100, n50), (93, 5, 2));
    assert_eq!(6 * n300 + 2 * n100 + n50, target_total);
}

#[test]
fn accuracy_with_misses_partitions_objects() {
    let target_total = osu_target_total(90.0, 500);
    let misses = 25;
    let (n300, n100, n50) = hitresults_from_accuracy(500, misses, None, None, target_total);
    assert_eq!(n300 + n100 + n50 + misses, 500);
    assert_eq!(6 * n300 + 2 * n100 + n50, target_total);
}

#[test]
fn single_object_full_accuracy() {
    let (n300, n100, n50) = hitresults_from_accuracy(1, 0, None, None, 6);
    assert_eq!((n300, n100, n50), (1, 0, 0));
}

#[test]
fn fill_prefers_first_unset_slot() {
    assert_eq!(fill_hitresults(10, 1, None, None, None), (9, 0, 0));
    assert_eq!(fill_hitresults(10, 1, Some(4), None, None), (4, 5, 0));
    assert_eq!(fill_hitresults(10, 1, Some(4), Some(3), None), (4, 3, 2));
    assert_eq!(fill_hitresults(10, 1, Some(4), Some(3), Some(2)), (4, 3, 2));
}

#[test]
fn legacy_split_without_shuffle() {
    // Same 95% target on 100 objects, but the oldest rule keeps the
    // raw 300/100/50 split.
    let (n300, n100, n50) = hitresults_from_accuracy_legacy(100, 0, None, None, 570);
    assert_eq!((n300, n100, n50), (94, 0, 6));
    assert_eq!(6 * n300 + 2 * n100 + n50, 570);

    let (n300, n100, n50) = hitresults_from_accuracy_legacy(100, 2, Some(10), None, 570);
    assert_eq!((n300, n100, n50), (88, 10, 0));
}
