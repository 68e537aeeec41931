//! The pre-flight suspicion check: one chart for each rejection kind,
//! and ordinary charts that pass.

use refx_pp::chart::{Beatmap, GameMode, HitObject, HitObjectKind, Pos};
use refx_pp::suspicious::TooSuspicious;

fn circle(start_time: i64) -> HitObject {
    HitObject {
        start_time,
        pos: Pos { x: 100, y: 100 },
        kind: HitObjectKind::Circle,
    }
}

fn slider(start_time: i64, pos: Pos, repeats: usize) -> HitObject {
    HitObject {
        start_time,
        pos,
        kind: HitObjectKind::Slider { repeats },
    }
}

fn osu_map(hit_objects: Vec<HitObject>) -> Beatmap {
    Beatmap {
        mode: GameMode::Osu,
        cs: 4,
        hit_objects,
    }
}

#[test]
fn empty_chart_is_ordinary() {
    let map = osu_map(Vec::new());
    assert_eq!(TooSuspicious::new(&map), None);
}

#[test]
fn spread_out_chart_is_ordinary() {
    let objects = (0..1000).map(|i| circle(i * 500)).collect();
    let map = osu_map(objects);
    assert_eq!(TooSuspicious::new(&map), None);
}

#[test]
fn too_many_objects() {
    let objects = (0..500_001).map(|i| circle(i * 2000)).collect();
    let map = osu_map(objects);
    assert_eq!(TooSuspicious::new(&map), Some(TooSuspicious::ObjectCount));
}

#[test]
fn taiko_object_cap_is_lower() {
    let objects = (0..20_001).map(|i| circle(i * 2000)).collect();
    let map = Beatmap {
        mode: GameMode::Taiko,
        cs: 4,
        hit_objects: objects,
    };
    assert_eq!(TooSuspicious::new(&map), Some(TooSuspicious::ObjectCount));
}

#[test]
fn longer_than_a_day() {
    let map = osu_map(vec![circle(0), circle(86_400_001)]);
    assert_eq!(TooSuspicious::new(&map), Some(TooSuspicious::Length));
}

#[test]
fn exactly_a_day_is_ordinary() {
    let map = osu_map(vec![circle(0), circle(86_400_000)]);
    assert_eq!(TooSuspicious::new(&map), None);
}

#[test]
fn dense_second() {
    // 201 objects in the same instant: the 1-second window of 200
    // objects spans zero time.
    let objects = (0..201).map(|_| circle(0)).collect();
    let map = osu_map(objects);
    assert_eq!(TooSuspicious::new(&map), Some(TooSuspicious::Density));
}

#[test]
fn two_hundred_in_a_second_is_ordinary() {
    let objects = (0..200).map(|_| circle(0)).collect();
    let map = osu_map(objects);
    assert_eq!(TooSuspicious::new(&map), None);
}

#[test]
fn red_flag_slider() {
    let map = osu_map(vec![
        circle(0),
        slider(1000, Pos { x: 20_000, y: 0 }, 1001),
    ]);
    assert_eq!(TooSuspicious::new(&map), Some(TooSuspicious::RedFlag));
}

#[test]
fn many_far_off_sliders() {
    let objects = (0..129)
        .map(|i| slider(i * 2000, Pos { x: 20_000, y: 0 }, 0))
        .collect();
    let map = osu_map(objects);
    assert_eq!(
        TooSuspicious::new(&map),
        Some(TooSuspicious::SliderPositions)
    );
}

#[test]
fn many_high_repeat_sliders() {
    let objects = (0..129)
        .map(|i| slider(i * 2000, Pos { x: 100, y: 100 }, 1001))
        .collect();
    let map = osu_map(objects);
    assert_eq!(TooSuspicious::new(&map), Some(TooSuspicious::SliderRepeats));
}

#[test]
fn cutoff_counts_are_ordinary() {
    // 128 of either kind is still within the cutoff.
    let mut objects: Vec<HitObject> = (0..128)
        .map(|i| slider(i * 2000, Pos { x: 20_000, y: 0 }, 0))
        .collect();
    objects.extend((0..128).map(|i| slider(300_000 + i * 2000, Pos { x: 100, y: 100 }, 1001)));
    let map = osu_map(objects);
    assert_eq!(TooSuspicious::new(&map), None);
}

#[test]
fn taiko_density_thresholds_are_doubled() {
    let objects: Vec<HitObject> = (0..300).map(|_| circle(0)).collect();
    let osu = osu_map(objects.clone());
    assert_eq!(TooSuspicious::new(&osu), Some(TooSuspicious::Density));

    // The same burst passes in taiko, whose window holds 400 objects.
    let taiko = Beatmap {
        mode: GameMode::Taiko,
        cs: 4,
        hit_objects: objects,
    };
    assert_eq!(TooSuspicious::new(&taiko), None);

    let burst: Vec<HitObject> = (0..401).map(|_| circle(0)).collect();
    let taiko_dense = Beatmap {
        mode: GameMode::Taiko,
        cs: 4,
        hit_objects: burst,
    };
    assert_eq!(TooSuspicious::new(&taiko_dense), Some(TooSuspicious::Density));
}

#[test]
fn mania_density_scales_with_keys() {
    // Eight keys mean four per hand; the 1-second window holds 800.
    let objects: Vec<HitObject> = (0..401).map(|_| circle(0)).collect();
    let four_keys = Beatmap {
        mode: GameMode::Mania,
        cs: 4,
        hit_objects: objects.clone(),
    };
    assert_eq!(TooSuspicious::new(&four_keys), Some(TooSuspicious::Density));

    let eight_keys = Beatmap {
        mode: GameMode::Mania,
        cs: 8,
        hit_objects: objects,
    };
    assert_eq!(TooSuspicious::new(&eight_keys), None);
}

#[test]
fn catch_ignores_density() {
    let objects: Vec<HitObject> = (0..500).map(|_| circle(0)).collect();
    let map = Beatmap {
        mode: GameMode::Catch,
        cs: 4,
        hit_objects: objects,
    };
    assert_eq!(TooSuspicious::new(&map), None);
}

#[test]
fn catch_still_checks_sliders() {
    let objects: Vec<HitObject> = (0..129)
        .map(|i| slider(i * 2000, Pos { x: 0, y: -20_000 }, 0))
        .collect();
    let map = Beatmap {
        mode: GameMode::Catch,
        cs: 4,
        hit_objects: objects,
    };
    assert_eq!(TooSuspicious::new(&map), Some(TooSuspicious::SliderPositions));
}

#[test]
fn repeated_checks_agree() {
    let mut objects: Vec<HitObject> = (0..64)
        .map(|i| slider(i * 2000, Pos { x: 20_000, y: 0 }, 0))
        .collect();
    objects.extend((0..64).map(|i| circle(200_000 + i * 400)));
    let map = osu_map(objects);
    assert_eq!(TooSuspicious::new(&map), TooSuspicious::new(&map));
}

#[test]
fn density_outranks_slider_counts() {
    // A dense cluster early in the chart decides before the slider
    // totals are reached.
    let mut objects: Vec<HitObject> = (0..201).map(|_| circle(0)).collect();
    objects.extend((0..129).map(|i| slider(10_000 + i * 2000, Pos { x: 20_000, y: 0 }, 0)));
    let map = osu_map(objects);
    assert_eq!(TooSuspicious::new(&map), Some(TooSuspicious::Density));
}
