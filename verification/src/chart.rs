//! Plain-value model of a raw chart.
//!
//! Times are milliseconds and positions are playfield pixels, both held
//! as integers: the `.osu` format writes them as integer fields, so the
//! model carries exactly what the pre-flight checks read. Callers that
//! parse charts with an outside parser convert into these types at the
//! boundary.

use vstd::prelude::*;

verus! {

/// Bound on the magnitude of a start time, far beyond any real chart;
/// it keeps every time difference inside `i64`.
pub const TIME_LIMIT: i64 = 0x4_0000_0000_0000;

/// A position on (or far off) the playfield.
#[derive(Clone, Copy, Debug, PartialEq, Eq, Structural)]
pub struct Pos {
    pub x: i64,
    pub y: i64,
}

/// The kind of a raw chart entry, with the fields the pre-flight
/// checks read.
#[derive(Clone, Copy, Debug, PartialEq, Eq, Structural)]
pub enum HitObjectKind {
    Circle,
    Slider { repeats: usize },
    Spinner,
    Hold,
}

/// A raw chart entry.
#[derive(Clone, Copy, Debug, PartialEq, Eq, Structural)]
pub struct HitObject {
    /// Start time in milliseconds.
    pub start_time: i64,
    pub pos: Pos,
    pub kind: HitObjectKind,
}

/// The game mode a chart is played in.
#[derive(Clone, Copy, Debug, PartialEq, Eq, Structural)]
pub enum GameMode {
    Osu,
    Taiko,
    Catch,
    Mania,
}

/// The slice of a parsed chart that the pre-flight suspicion check
/// reads: the mode, the circle-size setting (truncated to an integer;
/// mania stores the key count here), and the raw objects.
pub struct Beatmap {
    pub mode: GameMode,
    pub cs: u32,
    pub hit_objects: Vec<HitObject>,
}

impl HitObject {
    /// The time bound that keeps differences of start times exact.
    pub open spec fn wf(self) -> bool {
        -TIME_LIMIT <= self.start_time <= TIME_LIMIT
    }
}

impl Beatmap {
    /// Machine limits on the model: every start time is bounded, and
    /// the circle-size value is small enough that the per-window object
    /// thresholds derived from it fit in `usize`.
    pub open spec fn wf(self) -> bool {
        &&& forall|i: int|
            0 <= i < self.hit_objects@.len() ==> (#[trigger] self.hit_objects@[i]).wf()
        &&& 500 * (keys_per_hand(self.cs as int)) <= usize::MAX
    }
}

/// Half the key count of a mania chart, at least one; circle size
/// stands for the key count in that mode.
pub open spec fn keys_per_hand(cs: int) -> int {
    if cs / 2 > 1 {
        cs / 2
    } else {
        1
    }
}

} // verus!
