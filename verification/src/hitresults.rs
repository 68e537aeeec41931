//! Reconstruction of an osu! hit-result breakdown.
//!
//! A play is judged in three tiers worth 6, 2 and 1 accuracy points
//! (300s, 100s and 50s). Given a chart's object count, a miss count and
//! a target amount of accuracy points — the caller rounds
//! `accuracy * object count * 6` to an integer — these functions
//! rebuild a concrete `(n300, n100, n50)` triple, optionally around
//! hit counts that were already fixed.

use vstd::prelude::*;
use vstd::arithmetic::div_mod::lemma_fundamental_div_mod;
use vstd::math::min;

verus! {

/// What the reconstruction around partially fixed counts returns:
/// as many 300s as the remaining accuracy points allow, the rest as
/// 50s, then — when only the 50 count was fixed — a shuffle that turns
/// four surplus 50s and one 300 into five 100s, keeping the accuracy
/// points unchanged.
pub open spec fn spec_hitresults_around_fixed(
    n_objects: int,
    n_misses: int,
    n100: Option<usize>,
    n50: Option<usize>,
    target_total: int,
) -> (int, int, int) {
    let n100v = n100.unwrap_or(0) as int;
    let n50v = n50.unwrap_or(0) as int;
    let placed_points = 2 * n100v + n50v + n_misses;
    let missing_objects = n_objects - n100v - n50v - n_misses;
    let missing_points = if target_total >= placed_points {
        target_total - placed_points
    } else {
        0
    };
    let n300v = min(missing_objects, missing_points / 6);
    let n50v2 = n50v + missing_objects - n300v;
    if n50 is Some && n100 is None {
        let difference = n50v2 - n50v;
        let k = min(n300v, difference / 4);
        (n300v - k, n100v + 5 * k, n50v2 - 4 * k)
    } else {
        (n300v, n100v, n50v2)
    }
}

/// What the reconstruction from accuracy alone returns: the accuracy
/// points beyond one per hit object become 300s (worth five extra) with
/// the remainder a 100 (worth one extra), then the same shuffle of
/// 300s and 50s into 100s.
pub open spec fn spec_hitresults_from_accuracy(
    n_objects: int,
    n_misses: int,
    target_total: int,
) -> (int, int, int) {
    let misses = min(n_misses, n_objects);
    let delta = target_total - (n_objects - misses);
    let n300v = delta / 5;
    let n100v = delta % 5;
    let n50v = n_objects - n300v - n100v - misses;
    let k = min(n300v, n50v / 4);
    (n300v - k, n100v + 5 * k, n50v - 4 * k)
}

/// The inputs on which the reconstruction from accuracy alone is
/// defined: the target may not fall short of one point per object hit,
/// and the 300s and the 100 it implies may not outnumber the objects
/// left after misses.
pub open spec fn from_accuracy_ok(n_objects: int, n_misses: int, target_total: int) -> bool {
    let misses = min(n_misses, n_objects);
    let delta = target_total - (n_objects - misses);
    &&& delta >= 0
    &&& delta / 5 + delta % 5 + misses <= n_objects
}

/// Rebuilds `(n300, n100, n50)` from a target amount of accuracy
/// points, around a 100 count or 50 count that was already fixed when
/// one was given.
pub fn hitresults_from_accuracy(
    n_objects: usize,
    n_misses: usize,
    n100: Option<usize>,
    n50: Option<usize>,
    target_total: usize,
) -> (r: (usize, usize, usize))
    requires
        n_objects <= usize::MAX / 8,
        target_total <= 6 * n_objects,
        (n100 is Some || n50 is Some) ==> n100.unwrap_or(0) + n50.unwrap_or(0) + n_misses
            <= n_objects,
        (n100 is None && n50 is None) ==> from_accuracy_ok(
            n_objects as int,
            n_misses as int,
            target_total as int,
        ),
    ensures
        ({
            let s = if n100 is None && n50 is None {
                spec_hitresults_from_accuracy(n_objects as int, n_misses as int, target_total as int)
            } else {
                spec_hitresults_around_fixed(
                    n_objects as int,
                    n_misses as int,
                    n100,
                    n50,
                    target_total as int,
                )
            };
            r.0 == s.0 && r.1 == s.1 && r.2 == s.2
        }),
        r.0 + r.1 + r.2 + min(n_misses as int, n_objects as int) == n_objects || (n100 is Some
            || n50 is Some),
        (n100 is Some || n50 is Some) ==> r.0 + r.1 + r.2 + n_misses == n_objects,
        (n100 is None && n50 is None) ==> 6 * r.0 + 2 * r.1 + r.2 == target_total,
{
    if n100.is_some() || n50.is_some() {
        let n100v = match n100 {
            Some(v) => v,
            None => 0,
        };
        let n50v = match n50 {
            Some(v) => v,
            None => 0,
        };
        let placed_points = 2 * n100v + n50v + n_misses;
        let missing_objects = n_objects - n100v - n50v - n_misses;
        let missing_points = if target_total >= placed_points {
            target_total - placed_points
        } else {
            0
        };
        let mut n300v = if missing_objects < missing_points / 6 {
            missing_objects
        } else {
            missing_points / 6
        };
        let mut n100v = n100v;
        let mut n50v = n50v + (missing_objects - n300v);
        if n50.is_some() && n100.is_none() {
            // Only the 50 count was changed; load some of the surplus
            // back onto 100s.
            let difference = n50v - match n50 {
                Some(v) => v,
                None => 0,
            };
            let k = if n300v < difference / 4 {
                n300v
            } else {
                difference / 4
            };
            n300v -= k;
            n100v += 5 * k;
            n50v -= 4 * k;
        }
        (n300v, n100v, n50v)
    } else {
        let misses = if n_misses < n_objects {
            n_misses
        } else {
            n_objects
        };
        let delta = target_total - (n_objects - misses);
        proof {
            lemma_fundamental_div_mod(delta as int, 5);
        }
        let mut n300v = delta / 5;
        let mut n100v = delta % 5;
        let mut n50v = n_objects - n300v - n100v - misses;
        // Sacrifice 300s to turn 50s into 100s, four at a time.
        let k = if n300v < n50v / 4 {
            n300v
        } else {
            n50v / 4
        };
        n300v -= k;
        n100v += 5 * k;
        n50v -= 4 * k;
        (n300v, n100v, n50v)
    }
}

/// For every chart of at least one object, every miss count within it,
/// and every accuracy target the reconstruction accepts, the rebuilt
/// counts recover the target exactly — six points per 300, two per 100,
/// one per 50 — and partition the objects together with the misses. The
/// caller's rounded target is within half a point of
/// `accuracy / 100 * 6 * n_objects`, so the accuracy of the rebuilt
/// counts matches the requested one to that precision.
pub proof fn lemma_accuracy_round_trip(n_objects: int, n_misses: int, target_total: int)
    requires
        n_objects >= 1,
        0 <= n_misses <= n_objects,
        0 <= target_total <= 6 * n_objects,
        from_accuracy_ok(n_objects, n_misses, target_total),
    ensures
        ({
            let (n300, n100, n50) = spec_hitresults_from_accuracy(
                n_objects,
                n_misses,
                target_total,
            );
            &&& 6 * n300 + 2 * n100 + n50 == target_total
            &&& n300 + n100 + n50 + n_misses == n_objects
            &&& n300 >= 0
            &&& n100 >= 0
            &&& n50 >= 0
        }),
{
    let delta = target_total - (n_objects - n_misses);
    lemma_fundamental_div_mod(delta, 5);
}

/// What filling unset counts returns: whatever slots were fixed stay,
/// and the objects not covered by them go to the first unset slot in
/// the order 300s, 100s, 50s — onto the 300s when every slot was fixed.
pub open spec fn spec_fill_hitresults(
    n_objects: int,
    n_misses: int,
    n300: Option<usize>,
    n100: Option<usize>,
    n50: Option<usize>,
) -> (int, int, int) {
    let n300v = n300.unwrap_or(0) as int;
    let n100v = n100.unwrap_or(0) as int;
    let n50v = n50.unwrap_or(0) as int;
    let given = n300v + n100v + n50v + n_misses;
    let remaining = if n_objects >= given {
        n_objects - given
    } else {
        0
    };
    if remaining > 0 {
        if n300 is None {
            (remaining, n100v, n50v)
        } else if n100 is None {
            (n300v, remaining, n50v)
        } else if n50 is None {
            (n300v, n100v, remaining)
        } else {
            (n300v + remaining, n100v, n50v)
        }
    } else {
        (n300v, n100v, n50v)
    }
}

/// Completes a partial breakdown so that, when the fixed counts fit the
/// chart, every object is accounted for.
pub fn fill_hitresults(
    n_objects: usize,
    n_misses: usize,
    n300: Option<usize>,
    n100: Option<usize>,
    n50: Option<usize>,
) -> (r: (usize, usize, usize))
    requires
        n_objects <= usize::MAX / 8,
        n300.unwrap_or(0) <= usize::MAX / 8,
        n100.unwrap_or(0) <= usize::MAX / 8,
        n50.unwrap_or(0) <= usize::MAX / 8,
        n_misses <= usize::MAX / 8,
    ensures
        ({
            let s = spec_fill_hitresults(n_objects as int, n_misses as int, n300, n100, n50);
            r.0 == s.0 && r.1 == s.1 && r.2 == s.2
        }),
        n300.unwrap_or(0) + n100.unwrap_or(0) + n50.unwrap_or(0) + n_misses <= n_objects ==> r.0
            + r.1 + r.2 + n_misses == n_objects,
{
    let n300v = match n300 {
        Some(v) => v,
        None => 0,
    };
    let n100v = match n100 {
        Some(v) => v,
        None => 0,
    };
    let n50v = match n50 {
        Some(v) => v,
        None => 0,
    };
    let given = n300v + n100v + n50v + n_misses;
    let remaining = if n_objects >= given {
        n_objects - given
    } else {
        0
    };
    if remaining > 0 {
        if n300.is_none() {
            (remaining, n100v, n50v)
        } else if n100.is_none() {
            (n300v, remaining, n50v)
        } else if n50.is_none() {
            (n300v, n100v, remaining)
        } else {
            (n300v + remaining, n100v, n50v)
        }
    } else {
        (n300v, n100v, n50v)
    }
}

/// What the oldest reconstruction returns: with a fixed 100 or 50
/// count, everything else that was not missed becomes a 300; from
/// accuracy alone, the same split into 300s, one 100 and 50s as the
/// newer rule, without the shuffle.
pub open spec fn spec_hitresults_from_accuracy_legacy(
    n_objects: int,
    n_misses: int,
    n100: Option<usize>,
    n50: Option<usize>,
    target_total: int,
) -> (int, int, int) {
    if n100 is Some || n50 is Some {
        let n100v = n100.unwrap_or(0) as int;
        let n50v = n50.unwrap_or(0) as int;
        (n_objects - n100v - n50v - n_misses, n100v, n50v)
    } else {
        let delta = target_total - (n_objects - n_misses);
        let n300v = delta / 5;
        let n100v = delta % 5;
        (n300v, n100v, n_objects - n300v - n100v - n_misses)
    }
}

/// The inputs on which the oldest reconstruction is defined.
pub open spec fn from_accuracy_legacy_ok(
    n_objects: int,
    n_misses: int,
    n100: Option<usize>,
    n50: Option<usize>,
    target_total: int,
) -> bool {
    if n100 is Some || n50 is Some {
        n100.unwrap_or(0) + n50.unwrap_or(0) + n_misses <= n_objects
    } else {
        let delta = target_total - (n_objects - n_misses);
        &&& n_misses <= n_objects
        &&& delta >= 0
        &&& delta / 5 + delta % 5 + n_misses <= n_objects
    }
}

/// The oldest form of the reconstruction, kept for charts scored under
/// the earliest supported formula.
pub fn hitresults_from_accuracy_legacy(
    n_objects: usize,
    n_misses: usize,
    n100: Option<usize>,
    n50: Option<usize>,
    target_total: usize,
) -> (r: (usize, usize, usize))
    requires
        n_objects <= usize::MAX / 8,
        target_total <= 6 * n_objects,
        from_accuracy_legacy_ok(
            n_objects as int,
            n_misses as int,
            n100,
            n50,
            target_total as int,
        ),
    ensures
        ({
            let s = spec_hitresults_from_accuracy_legacy(
                n_objects as int,
                n_misses as int,
                n100,
                n50,
                target_total as int,
            );
            r.0 == s.0 && r.1 == s.1 && r.2 == s.2
        }),
        r.0 + r.1 + r.2 + n_misses == n_objects,
        (n100 is None && n50 is None) ==> 6 * r.0 + 2 * r.1 + r.2 == target_total,
{
    if n100.is_some() || n50.is_some() {
        let n100v = match n100 {
            Some(v) => v,
            None => 0,
        };
        let n50v = match n50 {
            Some(v) => v,
            None => 0,
        };
        (n_objects - n100v - n50v - n_misses, n100v, n50v)
    } else {
        let delta = target_total - (n_objects - n_misses);
        proof {
            lemma_fundamental_div_mod(delta as int, 5);
        }
        let n300v = delta / 5;
        let n100v = delta % 5;
        (n300v, n100v, n_objects - n300v - n100v - n_misses)
    }
}

} // verus!
