//! Stacking resolution: chains, negative stacking under sliders, the
//! legacy slider-stack counter, and determinism of both variants.

use refx_pp::chart::Pos;
use refx_pp::stacking::{old_stacking, stacking, StackObject, StackedKind};

fn circle(time: i64, x: i64, y: i64) -> StackObject {
    StackObject {
        time,
        pos: Pos { x, y },
        stack_height: 0,
        kind: StackedKind::Circle,
    }
}

fn slider(time: i64, x: i64, y: i64, end_time: i64, ex: i64, ey: i64) -> StackObject {
    StackObject {
        time,
        pos: Pos { x, y },
        stack_height: 0,
        kind: StackedKind::Slider {
            end_time,
            end_pos: Pos { x: ex, y: ey },
        },
    }
}

fn spinner(time: i64, end_time: i64) -> StackObject {
    StackObject {
        time,
        pos: Pos { x: 256, y: 192 },
        stack_height: 0,
        kind: StackedKind::Spinner { end_time },
    }
}

fn heights(objects: &[StackObject]) -> Vec<i64> {
    objects.iter().map(|o| o.stack_height).collect()
}

#[test]
fn empty_chart_stays_empty() {
    let mut objects: Vec<StackObject> = Vec::new();
    stacking(&mut objects, 500);
    assert!(objects.is_empty());

    let mut objects: Vec<StackObject> = Vec::new();
    old_stacking(&mut objects, 500);
    assert!(objects.is_empty());
}

#[test]
fn two_coincident_circles_stack() {
    let mut objects = vec![circle(0, 100, 100), circle(300, 100, 100)];
    stacking(&mut objects, 500);
    assert_eq!(heights(&objects), vec![1, 0]);
}

#[test]
fn chain_of_three() {
    let mut objects = vec![
        circle(0, 100, 100),
        circle(300, 101, 100),
        circle(600, 100, 101),
    ];
    stacking(&mut objects, 700);
    assert_eq!(heights(&objects), vec![2, 1, 0]);
}

#[test]
fn window_limits_the_chain() {
    // The middle gap exceeds the threshold, so only the later pair
    // stacks.
    let mut objects = vec![
        circle(0, 100, 100),
        circle(2000, 100, 100),
        circle(2300, 100, 100),
    ];
    stacking(&mut objects, 500);
    assert_eq!(heights(&objects), vec![0, 1, 0]);
}

#[test]
fn distant_circles_do_not_stack() {
    let mut objects = vec![circle(0, 100, 100), circle(300, 104, 100)];
    stacking(&mut objects, 500);
    assert_eq!(heights(&objects), vec![0, 0]);
}

#[test]
fn circles_under_a_slider_end_stack_downward() {
    // Both circles sit on the slider's end: they are pushed below it
    // instead of above.
    let mut objects = vec![
        slider(0, 50, 50, 200, 150, 50),
        circle(400, 150, 50),
        circle(700, 150, 50),
    ];
    stacking(&mut objects, 1000);
    assert_eq!(heights(&objects), vec![0, -1, -2]);
}

#[test]
fn sliders_stack_on_end_positions() {
    // The second slider starts where the first one ends.
    let mut objects = vec![
        slider(0, 50, 50, 200, 150, 50),
        slider(400, 150, 50, 600, 250, 50),
    ];
    stacking(&mut objects, 1000);
    assert_eq!(heights(&objects), vec![1, 0]);
}

#[test]
fn spinners_are_ignored() {
    let mut objects = vec![
        circle(0, 100, 100),
        spinner(200, 300),
        circle(400, 100, 100),
    ];
    stacking(&mut objects, 1000);
    assert_eq!(heights(&objects), vec![1, 0, 0]);
}

#[test]
fn legacy_forward_scan_stacks_upward() {
    let mut objects = vec![
        circle(0, 100, 100),
        circle(300, 100, 100),
        circle(600, 100, 100),
    ];
    old_stacking(&mut objects, 500);
    // Each object counts the coincident ones after it.
    assert_eq!(heights(&objects), vec![2, 1, 0]);
}

#[test]
fn legacy_slider_stack_counts_down() {
    // Two circles on a slider's tail: each hangs one deeper below it.
    let mut objects = vec![
        slider(0, 50, 50, 200, 150, 50),
        circle(400, 150, 50),
        circle(700, 150, 50),
    ];
    old_stacking(&mut objects, 1000);
    assert_eq!(heights(&objects), vec![0, -1, -2]);
}

#[test]
fn repeated_resolution_is_identical() {
    let make = || {
        vec![
            slider(0, 50, 50, 200, 150, 50),
            circle(400, 150, 50),
            circle(700, 150, 50),
            circle(1000, 50, 50),
            spinner(1200, 1400),
            circle(1500, 50, 51),
        ]
    };

    let mut first = make();
    stacking(&mut first, 1000);
    let mut second = make();
    stacking(&mut second, 1000);
    assert_eq!(first, second);

    let mut first_old = make();
    old_stacking(&mut first_old, 1000);
    let mut second_old = make();
    old_stacking(&mut second_old, 1000);
    assert_eq!(first_old, second_old);
}

#[test]
fn only_heights_change() {
    let original = vec![
        slider(0, 50, 50, 200, 150, 50),
        circle(400, 150, 50),
        circle(700, 150, 50),
    ];
    let mut resolved = original.clone();
    stacking(&mut resolved, 1000);
    for (before, after) in original.iter().zip(resolved.iter()) {
        assert_eq!(before.time, after.time);
        assert_eq!(before.pos, after.pos);
        assert_eq!(before.kind, after.kind);
    }
}
