//! Pre-flight suspicion check.
//!
//! Pathological charts are classified and rejected before any
//! difficulty computation: too many objects, an absurd total duration,
//! note clusters too dense for a 1-second or 10-second window, and
//! sliders whose repeat counts or positions are far outside what an
//! editor produces.

use vstd::prelude::*;

use crate::chart::{keys_per_hand, Beatmap, GameMode, HitObject, HitObjectKind};

verus! {

/// Why a chart was rejected as too suspicious for further calculation.
#[derive(Clone, Copy, Debug, PartialEq, Eq, Structural)]
#[non_exhaustive]
pub enum TooSuspicious {
    /// Notes are too dense time-wise.
    Density,
    /// The map seems too long.
    Length,
    /// Too many objects.
    ObjectCount,
    /// General red flag.
    RedFlag,
    /// Too many sliders' positions were suspicious.
    SliderPositions,
    /// Too many sliders had a very high amount of repeats.
    SliderRepeats,
}

/// 200 notes per 1s = 12000 BPM
pub const THRESHOLD_1S: usize = 200;

/// 500 notes per 10s = 3000 BPM
pub const THRESHOLD_10S: usize = 500;

/// Threshold for a suspicious position; osu!'s own maximum is
/// `131_072` and the playfield is `512x384`.
pub const POS_THRESHOLD: i64 = 10_000;

/// Threshold for a suspicious repeat count; osu!'s own maximum is `9000`.
pub const REPEAT_THRESHOLD: usize = 1000;

/// How many suspicious sliders a chart may hold before it is rejected.
pub const SLIDER_CUTOFF: usize = 128;

/// A day in milliseconds.
pub const DAY_MS: i64 = 86_400_000;

/// Object-count cap for most modes.
pub const COUNT_THRESHOLD: usize = 500_000;

/// Object-count cap for taiko, whose calculation is especially
/// expensive for high object counts.
pub const COUNT_THRESHOLD_TAIKO: usize = 20_000;

/// Whether the window of `per_1s` objects starting at `i` spans less
/// than a second, or the window of `per_10s` objects spans less than
/// ten seconds.
pub open spec fn dense_at(s: Seq<HitObject>, i: int, per_1s: int, per_10s: int) -> bool {
    ||| (i + per_1s < s.len() && s[i + per_1s].start_time - s[i].start_time < 1000)
    ||| (i + per_10s < s.len() && s[i + per_10s].start_time - s[i].start_time < 10_000)
}

/// Whether some dense window exists for these thresholds.
pub open spec fn any_dense(s: Seq<HitObject>, per_1s: int, per_10s: int) -> bool {
    exists|i: int| 0 <= i < s.len() && dense_at(s, i, per_1s, per_10s)
}

/// A position far outside the playfield.
pub open spec fn pos_beyond(h: HitObject) -> bool {
    ||| h.pos.x > POS_THRESHOLD
    ||| h.pos.x < -POS_THRESHOLD
    ||| h.pos.y > POS_THRESHOLD
    ||| h.pos.y < -POS_THRESHOLD
}

/// A slider with an extreme repeat count.
pub open spec fn repeats_beyond(h: HitObject) -> bool {
    match h.kind {
        HitObjectKind::Slider { repeats } => repeats > REPEAT_THRESHOLD,
        _ => false,
    }
}

/// A slider both with an extreme repeat count and far off the
/// playfield: rejected on sight.
pub open spec fn red_flag_at(h: HitObject) -> bool {
    h.kind is Slider && repeats_beyond(h) && pos_beyond(h)
}

/// Contribution of one object to the count of sliders that sit far off
/// the playfield (without an extreme repeat count).
pub open spec fn pos_count_step(h: HitObject) -> int {
    if h.kind is Slider && !repeats_beyond(h) && pos_beyond(h) {
        1
    } else {
        0
    }
}

/// Contribution of one object to the count of sliders with an extreme
/// repeat count (still on the playfield).
pub open spec fn rep_count_step(h: HitObject) -> int {
    if h.kind is Slider && repeats_beyond(h) && !pos_beyond(h) {
        1
    } else {
        0
    }
}

/// What `SliderState::eval` decides from the two counts.
pub open spec fn eval_counts(pos_cnt: int, rep_cnt: int) -> Option<TooSuspicious> {
    if pos_cnt > SLIDER_CUTOFF {
        Some(TooSuspicious::SliderPositions)
    } else if rep_cnt > SLIDER_CUTOFF {
        Some(TooSuspicious::SliderRepeats)
    } else {
        None
    }
}

/// The rest of the osu! scan from index `i` on, with the slider counts
/// seen so far: the first dense window or red-flag slider decides;
/// otherwise the final counts do.
pub open spec fn check_osu_from(
    s: Seq<HitObject>,
    i: int,
    pos_cnt: int,
    rep_cnt: int,
    per_1s: int,
    per_10s: int,
) -> Option<TooSuspicious>
    decreases s.len() - i,
{
    if i < 0 || i >= s.len() {
        eval_counts(pos_cnt, rep_cnt)
    } else if dense_at(s, i, per_1s, per_10s) {
        Some(TooSuspicious::Density)
    } else if red_flag_at(s[i]) {
        Some(TooSuspicious::RedFlag)
    } else {
        check_osu_from(
            s,
            i + 1,
            pos_cnt + pos_count_step(s[i]),
            rep_cnt + rep_count_step(s[i]),
            per_1s,
            per_10s,
        )
    }
}

/// The rest of the catch scan from index `i` on: only sliders are
/// checked, density is not.
pub open spec fn check_catch_from(
    s: Seq<HitObject>,
    i: int,
    pos_cnt: int,
    rep_cnt: int,
) -> Option<TooSuspicious>
    decreases s.len() - i,
{
    if i < 0 || i >= s.len() {
        eval_counts(pos_cnt, rep_cnt)
    } else if red_flag_at(s[i]) {
        Some(TooSuspicious::RedFlag)
    } else {
        check_catch_from(s, i + 1, pos_cnt + pos_count_step(s[i]), rep_cnt + rep_count_step(s[i]))
    }
}

/// What the whole suspicion check decides for a chart.
pub open spec fn spec_check(map: Beatmap) -> Option<TooSuspicious> {
    let s = map.hit_objects@;
    if too_many_objects(map) {
        Some(TooSuspicious::ObjectCount)
    } else if too_long(s) {
        Some(TooSuspicious::Length)
    } else {
        match map.mode {
            GameMode::Osu => check_osu_from(s, 0, 0, 0, THRESHOLD_1S as int, THRESHOLD_10S as int),
            GameMode::Taiko => if any_dense(s, 2 * THRESHOLD_1S, 2 * THRESHOLD_10S) {
                Some(TooSuspicious::Density)
            } else {
                None
            },
            GameMode::Catch => check_catch_from(s, 0, 0, 0),
            GameMode::Mania => {
                let keys = keys_per_hand(map.cs as int);
                if any_dense(s, THRESHOLD_1S * keys, THRESHOLD_10S * keys) {
                    Some(TooSuspicious::Density)
                } else {
                    None
                }
            },
        }
    }
}

/// An object count past the mode's cap.
pub open spec fn too_many_objects(map: Beatmap) -> bool {
    match map.mode {
        GameMode::Taiko => map.hit_objects@.len() > COUNT_THRESHOLD_TAIKO,
        _ => map.hit_objects@.len() > COUNT_THRESHOLD,
    }
}

/// More than a day between the first and the last object.
pub open spec fn too_long(s: Seq<HitObject>) -> bool {
    s.len() >= 2 && s[s.len() - 1].start_time - s[0].start_time > DAY_MS
}

/// How many of the first `i` objects count as far-off sliders.
pub open spec fn pos_count_to(s: Seq<HitObject>, i: int) -> int
    decreases i,
{
    if i <= 0 || i > s.len() {
        0
    } else {
        pos_count_to(s, i - 1) + pos_count_step(s[i - 1])
    }
}

/// How many of the first `i` objects count as high-repeat sliders.
pub open spec fn rep_count_to(s: Seq<HitObject>, i: int) -> int
    decreases i,
{
    if i <= 0 || i > s.len() {
        0
    } else {
        rep_count_to(s, i - 1) + rep_count_step(s[i - 1])
    }
}

/// Whether the scan stops at `i`: a dense window or a red-flag slider.
pub open spec fn trigger_at(s: Seq<HitObject>, i: int, per_1s: int, per_10s: int) -> bool {
    dense_at(s, i, per_1s, per_10s) || red_flag_at(s[i])
}

/// The first index at which the scan stops, or the length when it
/// never does.
pub open spec fn first_trigger(s: Seq<HitObject>, i: int, per_1s: int, per_10s: int) -> int
    decreases s.len() - i,
{
    if i < 0 || i >= s.len() {
        s.len() as int
    } else if trigger_at(s, i, per_1s, per_10s) {
        i
    } else {
        first_trigger(s, i + 1, per_1s, per_10s)
    }
}

/// The osu! scan means what it reads as: the first dense window is
/// reported as `Density`, the first red-flag slider before any dense
/// window as `RedFlag`, and a chart without either is judged by its
/// totals of far-off and high-repeat sliders.
pub proof fn lemma_check_osu_characterized(s: Seq<HitObject>, per_1s: int, per_10s: int)
    ensures
        ({
            let k = first_trigger(s, 0, per_1s, per_10s);
            let r = check_osu_from(s, 0, 0, 0, per_1s, per_10s);
            &&& (k == s.len() ==> r == eval_counts(pos_count_to(s, s.len() as int), rep_count_to(s, s.len() as int)))
            &&& (k < s.len() && dense_at(s, k, per_1s, per_10s) ==> r == Some(
                TooSuspicious::Density,
            ))
            &&& (k < s.len() && !dense_at(s, k, per_1s, per_10s) ==> r == Some(
                TooSuspicious::RedFlag,
            ))
        }),
{
    lemma_check_osu_from_characterized(s, 0, 0, 0, per_1s, per_10s);
}

/// Induction step behind [`lemma_check_osu_characterized`],
/// generalized over the scan position and the counts carried so far.
proof fn lemma_check_osu_from_characterized(
    s: Seq<HitObject>,
    i: int,
    pos_cnt: int,
    rep_cnt: int,
    per_1s: int,
    per_10s: int,
)
    requires
        0 <= i <= s.len(),
        pos_cnt == pos_count_to(s, i),
        rep_cnt == rep_count_to(s, i),
    ensures
        ({
            let k = first_trigger(s, i, per_1s, per_10s);
            let r = check_osu_from(s, i, pos_cnt, rep_cnt, per_1s, per_10s);
            &&& (k == s.len() ==> r == eval_counts(pos_count_to(s, s.len() as int), rep_count_to(s, s.len() as int)))
            &&& (k < s.len() && dense_at(s, k, per_1s, per_10s) ==> r == Some(
                TooSuspicious::Density,
            ))
            &&& (k < s.len() && !dense_at(s, k, per_1s, per_10s) ==> r == Some(
                TooSuspicious::RedFlag,
            ))
        }),
    decreases s.len() - i,
{
    if i < s.len() && !trigger_at(s, i, per_1s, per_10s) {
        assert(pos_count_to(s, i + 1) == pos_cnt + pos_count_step(s[i]));
        assert(rep_count_to(s, i + 1) == rep_cnt + rep_count_step(s[i]));
        lemma_check_osu_from_characterized(
            s,
            i + 1,
            pos_cnt + pos_count_step(s[i]),
            rep_cnt + rep_count_step(s[i]),
            per_1s,
            per_10s,
        );
    }
}

/// For a fixed chart, repeated evaluation of the suspicion check
/// yields the identical classification: any two results the contract
/// of [`TooSuspicious::new`] admits are the same.
pub proof fn lemma_check_deterministic(
    map: Beatmap,
    r1: Option<TooSuspicious>,
    r2: Option<TooSuspicious>,
)
    requires
        r1 == spec_check(map),
        r2 == spec_check(map),
    ensures
        r1 == r2,
{
}

/// Running totals of suspicious sliders seen so far in a scan.
pub struct SliderState {
    pub repeats_beyond_threshold: usize,
    pub pos_beyond_threshold: usize,
}

impl SliderState {
    /// A fresh state with both counts zero.
    pub fn new() -> (r: Self)
        ensures
            r.repeats_beyond_threshold == 0,
            r.pos_beyond_threshold == 0,
    {
        Self { repeats_beyond_threshold: 0, pos_beyond_threshold: 0 }
    }

    /// Decides from the totals whether the chart holds too many
    /// suspicious sliders of either kind.
    pub fn eval(self) -> (r: Option<TooSuspicious>)
        ensures
            r == eval_counts(
                self.pos_beyond_threshold as int,
                self.repeats_beyond_threshold as int,
            ),
    {
        if self.pos_beyond_threshold > SLIDER_CUTOFF {
            Some(TooSuspicious::SliderPositions)
        } else if self.repeats_beyond_threshold > SLIDER_CUTOFF {
            Some(TooSuspicious::SliderRepeats)
        } else {
            None
        }
    }
}

impl TooSuspicious {
    /// Classifies a chart, or returns nothing when it looks ordinary.
    pub fn new(map: &Beatmap) -> (r: Option<TooSuspicious>)
        requires
            map.wf(),
        ensures
            r == spec_check(*map),
    {
        let n = map.hit_objects.len();
        let over = match map.mode {
            GameMode::Taiko => n > COUNT_THRESHOLD_TAIKO,
            _ => n > COUNT_THRESHOLD,
        };
        if over {
            return Some(TooSuspicious::ObjectCount);
        }
        if n >= 2 {
            let first = map.hit_objects[0].start_time;
            let last = map.hit_objects[n - 1].start_time;
            if last - first > DAY_MS {
                return Some(TooSuspicious::Length);
            }
        }
        match map.mode {
            GameMode::Osu => Self::check_osu(map),
            GameMode::Taiko => Self::check_taiko(map),
            GameMode::Catch => Self::check_catch(map),
            GameMode::Mania => Self::check_mania(map),
        }
    }

    /// Scans an osu! chart for dense windows and suspicious sliders.
    pub fn check_osu(map: &Beatmap) -> (r: Option<TooSuspicious>)
        requires
            map.wf(),
        ensures
            r == check_osu_from(
                map.hit_objects@,
                0,
                0,
                0,
                THRESHOLD_1S as int,
                THRESHOLD_10S as int,
            ),
    {
        let ghost sq = map.hit_objects@;
        let mut state = SliderState::new();
        let n = map.hit_objects.len();
        let mut i: usize = 0;
        while i < n
            invariant
                map.wf(),
                sq == map.hit_objects@,
                n == sq.len(),
                0 <= i <= n,
                state.pos_beyond_threshold <= i,
                state.repeats_beyond_threshold <= i,
                check_osu_from(
                    sq,
                    i as int,
                    state.pos_beyond_threshold as int,
                    state.repeats_beyond_threshold as int,
                    THRESHOLD_1S as int,
                    THRESHOLD_10S as int,
                ) == check_osu_from(sq, 0, 0, 0, THRESHOLD_1S as int, THRESHOLD_10S as int),
            decreases n - i,
        {
            let ghost pos_cnt = state.pos_beyond_threshold as int;
            let ghost rep_cnt = state.repeats_beyond_threshold as int;
            proof {
                assert(check_osu_from(
                    sq,
                    i as int,
                    pos_cnt,
                    rep_cnt,
                    THRESHOLD_1S as int,
                    THRESHOLD_10S as int,
                ) == if dense_at(sq, i as int, THRESHOLD_1S as int, THRESHOLD_10S as int) {
                    Some(TooSuspicious::Density)
                } else if red_flag_at(sq[i as int]) {
                    Some(TooSuspicious::RedFlag)
                } else {
                    check_osu_from(
                        sq,
                        i + 1,
                        pos_cnt + pos_count_step(sq[i as int]),
                        rep_cnt + rep_count_step(sq[i as int]),
                        THRESHOLD_1S as int,
                        THRESHOLD_10S as int,
                    )
                });
            }
            if Self::too_dense(&map.hit_objects, i, THRESHOLD_1S, THRESHOLD_10S) {
                return Some(TooSuspicious::Density);
            }
            if Self::suspicious_slider(&map.hit_objects[i], &mut state) {
                return Some(TooSuspicious::RedFlag);
            }
            i += 1;
        }
        state.eval()
    }

    /// Scans a taiko chart; only note density is checked, with doubled
    /// thresholds.
    pub fn check_taiko(map: &Beatmap) -> (r: Option<TooSuspicious>)
        requires
            map.wf(),
        ensures
            r == if any_dense(map.hit_objects@, 2 * THRESHOLD_1S, 2 * THRESHOLD_10S) {
                Some(TooSuspicious::Density)
            } else {
                None::<TooSuspicious>
            },
    {
        let per_1s = THRESHOLD_1S * 2;
        let per_10s = THRESHOLD_10S * 2;
        Self::density_scan(map, per_1s, per_10s)
    }

    /// Scans a catch chart; only sliders are checked.
    pub fn check_catch(map: &Beatmap) -> (r: Option<TooSuspicious>)
        requires
            map.wf(),
        ensures
            r == check_catch_from(map.hit_objects@, 0, 0, 0),
    {
        let ghost sq = map.hit_objects@;
        let mut state = SliderState::new();
        let n = map.hit_objects.len();
        let mut i: usize = 0;
        while i < n
            invariant
                sq == map.hit_objects@,
                n == sq.len(),
                0 <= i <= n,
                state.pos_beyond_threshold <= i,
                state.repeats_beyond_threshold <= i,
                check_catch_from(
                    sq,
                    i as int,
                    state.pos_beyond_threshold as int,
                    state.repeats_beyond_threshold as int,
                ) == check_catch_from(sq, 0, 0, 0),
            decreases n - i,
        {
            let ghost pos_cnt = state.pos_beyond_threshold as int;
            let ghost rep_cnt = state.repeats_beyond_threshold as int;
            proof {
                assert(check_catch_from(sq, i as int, pos_cnt, rep_cnt) == if red_flag_at(
                    sq[i as int],
                ) {
                    Some(TooSuspicious::RedFlag)
                } else {
                    check_catch_from(
                        sq,
                        i + 1,
                        pos_cnt + pos_count_step(sq[i as int]),
                        rep_cnt + rep_count_step(sq[i as int]),
                    )
                });
            }
            if Self::suspicious_slider(&map.hit_objects[i], &mut state) {
                return Some(TooSuspicious::RedFlag);
            }
            i += 1;
        }
        state.eval()
    }

    /// Scans a mania chart; only note density is checked, with
    /// thresholds scaled by the chart's key count.
    pub fn check_mania(map: &Beatmap) -> (r: Option<TooSuspicious>)
        requires
            map.wf(),
        ensures
            r == if any_dense(
                map.hit_objects@,
                THRESHOLD_1S * keys_per_hand(map.cs as int),
                THRESHOLD_10S * keys_per_hand(map.cs as int),
            ) {
                Some(TooSuspicious::Density)
            } else {
                None::<TooSuspicious>
            },
    {
        let half = map.cs as usize / 2;
        let keys_per_hand: usize = if half > 1 {
            half
        } else {
            1
        };
        let per_1s = THRESHOLD_1S * keys_per_hand;
        let per_10s = THRESHOLD_10S * keys_per_hand;
        Self::density_scan(map, per_1s, per_10s)
    }

    /// Whether the note window starting at `i` is too dense for either
    /// the 1-second or the 10-second threshold.
    pub fn too_dense(hit_objects: &Vec<HitObject>, i: usize, per_1s: usize, per_10s: usize) -> (r:
        bool)
        requires
            forall|j: int| 0 <= j < hit_objects@.len() ==> (#[trigger] hit_objects@[j]).wf(),
        ensures
            r == dense_at(hit_objects@, i as int, per_1s as int, per_10s as int),
    {
        let n = hit_objects.len();
        (i < n && n - i > per_1s && hit_objects[i + per_1s].start_time - hit_objects[i].start_time
            < 1000) || (i < n && n - i > per_10s && hit_objects[i + per_10s].start_time
            - hit_objects[i].start_time < 10_000)
    }

    /// Looks at one object; returns whether it is a red-flag slider,
    /// and otherwise counts it into the state when it is suspicious in
    /// one of the two milder ways.
    fn suspicious_slider(h: &HitObject, state: &mut SliderState) -> (red: bool)
        requires
            old(state).pos_beyond_threshold < usize::MAX,
            old(state).repeats_beyond_threshold < usize::MAX,
        ensures
            red == red_flag_at(*h),
            !red ==> final(state).pos_beyond_threshold == old(state).pos_beyond_threshold
                + pos_count_step(*h),
            !red ==> final(state).repeats_beyond_threshold == old(state).repeats_beyond_threshold
                + rep_count_step(*h),
            red ==> *final(state) == *old(state),
    {
        let beyond = h.pos.x > POS_THRESHOLD || h.pos.x < -POS_THRESHOLD || h.pos.y > POS_THRESHOLD
            || h.pos.y < -POS_THRESHOLD;
        match h.kind {
            HitObjectKind::Slider { repeats } => {
                if repeats > REPEAT_THRESHOLD {
                    if beyond {
                        return true;
                    }
                    state.repeats_beyond_threshold += 1;
                } else if beyond {
                    state.pos_beyond_threshold += 1;
                }
                false
            },
            _ => false,
        }
    }

    /// Scans every index for a dense window.
    fn density_scan(map: &Beatmap, per_1s: usize, per_10s: usize) -> (r: Option<TooSuspicious>)
        requires
            map.wf(),
        ensures
            r == if any_dense(map.hit_objects@, per_1s as int, per_10s as int) {
                Some(TooSuspicious::Density)
            } else {
                None::<TooSuspicious>
            },
    {
        let n = map.hit_objects.len();
        let mut i: usize = 0;
        while i < n
            invariant
                map.wf(),
                n == map.hit_objects@.len(),
                0 <= i <= n,
                forall|j: int|
                    0 <= j < i ==> !dense_at(map.hit_objects@, j, per_1s as int, per_10s as int),
            decreases n - i,
        {
            if Self::too_dense(&map.hit_objects, i, per_1s, per_10s) {
                return Some(TooSuspicious::Density);
            }
            i += 1;
        }
        None
    }
}

} // verus!
