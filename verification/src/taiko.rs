//! Reconstruction of a taiko hit-result breakdown.
//!
//! Taiko judges in two tiers worth 2 and 1 accuracy points (300s and
//! 100s). Given the chart's maximum combo, optionally fixed counts and
//! a target amount of accuracy points — the caller rounds
//! `accuracy * total objects * 2` to an integer — this rebuilds a full
//! score state, favouring 300s or 100s as the chosen priority says.

use vstd::prelude::*;

verus! {

/// Which tier unaccounted objects should land in when several
/// breakdowns fit.
#[derive(Clone, Copy, Debug, PartialEq, Eq, Structural)]
pub enum HitResultPriority {
    BestCase,
    WorstCase,
}

impl Default for HitResultPriority {
    /// The best case is assumed when no priority is named.
    fn default() -> (r: Self)
        ensures
            r == HitResultPriority::BestCase,
    {
        HitResultPriority::BestCase
    }
}

/// The hit counts and achieved combo of one taiko play.
#[derive(Clone, Copy, Debug, PartialEq, Eq, Structural)]
pub struct TaikoScoreState {
    /// Maximum combo achieved during the play.
    pub max_combo: usize,
    /// Amount of current 300s.
    pub n300: usize,
    /// Amount of current 100s.
    pub n100: usize,
    /// Amount of misses.
    pub n_misses: usize,
}

impl TaikoScoreState {
    /// Every judged object of the play: hits of both tiers and misses.
    pub fn total_hits(&self) -> (r: usize)
        requires
            self.n300 + self.n100 + self.n_misses <= usize::MAX,
        ensures
            r == self.n300 + self.n100 + self.n_misses,
    {
        self.n300 + self.n100 + self.n_misses
    }

    /// The objects the play hit in either tier, misses left aside.
    pub fn total_successful_hits(&self) -> (r: usize)
        requires
            self.n300 + self.n100 <= usize::MAX,
        ensures
            r == self.n300 + self.n100,
    {
        self.n300 + self.n100
    }
}

/// How many objects of the chart the play covers: its maximum combo,
/// capped by the passed-object count of a partial play.
pub open spec fn spec_total_count(max_combo: int, passed_objects: Option<usize>) -> int {
    match passed_objects {
        Some(passed) => if max_combo < passed {
            max_combo
        } else {
            passed as int
        },
        None => max_combo,
    }
}

/// The objects not covered by the fixed counts and misses.
pub open spec fn spec_remaining(total: int, n300v: int, n100v: int, misses: int) -> int {
    if total >= n300v + n100v + misses {
        total - n300v - n100v - misses
    } else {
        0
    }
}

/// The `(n300, n100)` pair the reconstruction builds when an accuracy
/// target is given.
pub open spec fn spec_counts_with_target(
    total: int,
    n300: Option<usize>,
    n100: Option<usize>,
    misses: int,
    target: int,
    priority: HitResultPriority,
) -> (int, int) {
    let n300v = n300.unwrap_or(0) as int;
    let n100v = n100.unwrap_or(0) as int;
    match (n300, n100) {
        (Some(_), Some(_)) => {
            let remaining = spec_remaining(total, n300v, n100v, misses);
            match priority {
                HitResultPriority::BestCase => (n300v + remaining, n100v),
                HitResultPriority::WorstCase => (n300v, n100v + remaining),
            }
        },
        (Some(_), None) => (n300v, spec_remaining(total, n300v, 0, misses)),
        (None, Some(_)) => (spec_remaining(total, 0, n100v, misses), n100v),
        (None, None) => {
            let floor = if total >= misses {
                total - misses
            } else {
                0
            };
            let built300 = target - floor;
            (built300, spec_remaining(total, built300, 0, misses))
        },
    }
}

/// The `(n300, n100)` pair the reconstruction builds without an
/// accuracy target: the remaining objects go to the slot the priority
/// prefers among those not yet fixed.
pub open spec fn spec_counts_without_target(
    total: int,
    n300: Option<usize>,
    n100: Option<usize>,
    misses: int,
    priority: HitResultPriority,
) -> (int, int) {
    let n300v = n300.unwrap_or(0) as int;
    let n100v = n100.unwrap_or(0) as int;
    let remaining = spec_remaining(total, n300v, n100v, misses);
    match priority {
        HitResultPriority::BestCase => match (n300, n100) {
            (Some(_), None) => (n300v, remaining),
            (Some(_), Some(_)) => (n300v + remaining, n100v),
            (None, _) => (remaining, n100v),
        },
        HitResultPriority::WorstCase => match (n300, n100) {
            (None, Some(_)) => (remaining, n100v),
            (Some(_), Some(_)) => (n300v, n100v + remaining),
            (_, None) => (n300v, remaining),
        },
    }
}

/// What the taiko reconstruction returns.
pub open spec fn spec_generate_hitresults(
    max_combo: int,
    passed_objects: Option<usize>,
    combo: Option<usize>,
    n300: Option<usize>,
    n100: Option<usize>,
    n_misses: Option<usize>,
    acc_target: Option<usize>,
    priority: HitResultPriority,
) -> TaikoScoreState {
    let total = spec_total_count(max_combo, passed_objects);
    let misses = n_misses.unwrap_or(0) as int;
    let counts = if acc_target is Some {
        spec_counts_with_target(
            total,
            n300,
            n100,
            misses,
            acc_target.unwrap_or(0) as int,
            priority,
        )
    } else {
        spec_counts_without_target(total, n300, n100, misses, priority)
    };
    TaikoScoreState {
        max_combo: (match combo {
            Some(c) => if c < max_combo {
                c as int
            } else {
                max_combo
            },
            None => max_combo,
        }) as usize,
        n300: counts.0 as usize,
        n100: counts.1 as usize,
        n_misses: misses as usize,
    }
}

/// The inputs on which the reconstruction is defined: when only an
/// accuracy target is given, it may not fall short of one point per
/// object hit.
pub open spec fn taiko_hitresults_ok(
    max_combo: int,
    passed_objects: Option<usize>,
    n300: Option<usize>,
    n100: Option<usize>,
    n_misses: Option<usize>,
    acc_target: Option<usize>,
) -> bool {
    (acc_target is Some && n300 is None && n100 is None) ==> {
        let total = spec_total_count(max_combo, passed_objects);
        let floor = if total >= n_misses.unwrap_or(0) {
            total - n_misses.unwrap_or(0)
        } else {
            0
        };
        acc_target.unwrap_or(0) >= floor
    }
}

/// Rebuilds a full score state from whatever of the play is known.
#[verifier::spinoff_prover]
#[verifier::rlimit(60)]
pub fn generate_hitresults(
    max_combo: usize,
    passed_objects: Option<usize>,
    combo: Option<usize>,
    n300: Option<usize>,
    n100: Option<usize>,
    n_misses: Option<usize>,
    acc_target: Option<usize>,
    priority: HitResultPriority,
) -> (r: TaikoScoreState)
    requires
        max_combo <= usize::MAX / 8,
        n300.unwrap_or(0) <= usize::MAX / 8,
        n100.unwrap_or(0) <= usize::MAX / 8,
        n_misses.unwrap_or(0) <= usize::MAX / 8,
        acc_target.unwrap_or(0) <= usize::MAX / 8,
        taiko_hitresults_ok(max_combo as int, passed_objects, n300, n100, n_misses, acc_target),
    ensures
        r == spec_generate_hitresults(
            max_combo as int,
            passed_objects,
            combo,
            n300,
            n100,
            n_misses,
            acc_target,
            priority,
        ),
{
    let total_result_count = match passed_objects {
        Some(passed) => if max_combo < passed {
            max_combo
        } else {
            passed
        },
        None => max_combo,
    };
    let n_missesv = match n_misses {
        Some(v) => v,
        None => 0,
    };
    let counts: (usize, usize) = match acc_target {
        Some(target_total) => counts_with_target(
            total_result_count,
            n300,
            n100,
            n_missesv,
            target_total,
            priority,
        ),
        None => counts_without_target(total_result_count, n300, n100, n_missesv, priority),
    };
    let max_combo_out = match combo {
        Some(c) => if c < max_combo {
            c
        } else {
            max_combo
        },
        None => max_combo,
    };
    TaikoScoreState {
        max_combo: max_combo_out,
        n300: counts.0,
        n100: counts.1,
        n_misses: n_missesv,
    }
}

/// The counts built when an accuracy target is given.
fn counts_with_target(
    total: usize,
    n300: Option<usize>,
    n100: Option<usize>,
    misses: usize,
    target_total: usize,
    priority: HitResultPriority,
) -> (r: (usize, usize))
    requires
        total <= usize::MAX / 8,
        n300.unwrap_or(0) <= usize::MAX / 8,
        n100.unwrap_or(0) <= usize::MAX / 8,
        misses <= usize::MAX / 8,
        target_total <= usize::MAX / 8,
        (n300 is None && n100 is None) ==> target_total >= (if total >= misses {
            total - misses
        } else {
            0
        }),
    ensures
        (r.0 as int, r.1 as int) == spec_counts_with_target(
            total as int,
            n300,
            n100,
            misses as int,
            target_total as int,
            priority,
        ),
{
    let n300v = match n300 {
        Some(v) => v,
        None => 0,
    };
    let n100v = match n100 {
        Some(v) => v,
        None => 0,
    };
    match (n300.is_some(), n100.is_some()) {
        (true, true) => {
            let remaining = remaining_of(total, n300v, n100v, misses);
            match priority {
                HitResultPriority::BestCase => (n300v + remaining, n100v),
                HitResultPriority::WorstCase => (n300v, n100v + remaining),
            }
        },
        (true, false) => (n300v, remaining_of(total, n300v, 0, misses)),
        (false, true) => (remaining_of(total, 0, n100v, misses), n100v),
        (false, false) => {
            let floor = if total >= misses {
                total - misses
            } else {
                0
            };
            let built300 = target_total - floor;
            (built300, remaining_of(total, built300, 0, misses))
        },
    }
}

/// The counts built without an accuracy target.
fn counts_without_target(
    total: usize,
    n300: Option<usize>,
    n100: Option<usize>,
    misses: usize,
    priority: HitResultPriority,
) -> (r: (usize, usize))
    requires
        total <= usize::MAX / 8,
        n300.unwrap_or(0) <= usize::MAX / 8,
        n100.unwrap_or(0) <= usize::MAX / 8,
        misses <= usize::MAX / 8,
    ensures
        (r.0 as int, r.1 as int) == spec_counts_without_target(
            total as int,
            n300,
            n100,
            misses as int,
            priority,
        ),
{
    let n300v = match n300 {
        Some(v) => v,
        None => 0,
    };
    let n100v = match n100 {
        Some(v) => v,
        None => 0,
    };
    let remaining = remaining_of(total, n300v, n100v, misses);
    match priority {
        HitResultPriority::BestCase => match (n300.is_some(), n100.is_some()) {
            (true, false) => (n300v, remaining),
            (true, true) => (n300v + remaining, n100v),
            (false, _) => (remaining, n100v),
        },
        HitResultPriority::WorstCase => match (n300.is_some(), n100.is_some()) {
            (false, true) => (remaining, n100v),
            (true, true) => (n300v, n100v + remaining),
            (_, false) => (n300v, remaining),
        },
    }
}

/// The objects not covered by the fixed counts and misses.
fn remaining_of(total: usize, n300v: usize, n100v: usize, misses: usize) -> (r: usize)
    requires
        n300v + n100v + misses <= usize::MAX,
    ensures
        r == spec_remaining(total as int, n300v as int, n100v as int, misses as int),
{
    let given = n300v + n100v + misses;
    if total >= given {
        total - given
    } else {
        0
    }
}

/// For every chart and every miss count within its object total, a
/// reconstruction from an accuracy target consistent with those misses
/// recovers the target exactly — two points per 300, one per 100 — and
/// partitions the objects. The caller's rounded target is within half
/// a point of `accuracy * 2 * total`, so the accuracy of the rebuilt
/// state matches the requested one to that precision.
pub proof fn lemma_taiko_accuracy_round_trip(
    max_combo: int,
    passed_objects: Option<usize>,
    combo: Option<usize>,
    n_misses: Option<usize>,
    acc_target: usize,
    priority: HitResultPriority,
)
    requires
        0 <= max_combo,
        n_misses.unwrap_or(0) <= spec_total_count(max_combo, passed_objects),
        spec_total_count(max_combo, passed_objects) - n_misses.unwrap_or(0) <= acc_target <= 2 * (
        spec_total_count(max_combo, passed_objects) - n_misses.unwrap_or(0)),
    ensures
        ({
            let r = spec_generate_hitresults(
                max_combo,
                passed_objects,
                combo,
                None,
                None,
                n_misses,
                Some(acc_target),
                priority,
            );
            let total = spec_total_count(max_combo, passed_objects);
            &&& 2 * r.n300 + r.n100 == acc_target
            &&& r.n300 + r.n100 + r.n_misses == total
        }),
{
}

} // verus!
