//! Visual stacking resolution.
//!
//! Objects that sit on (almost) the same spot within a short time
//! window are drawn stacked: each member of such a chain gets a stack
//! height, and the renderer later offsets its position by height times
//! a scale. Two deterministic variants exist, selected by the chart's
//! format version: the modern one scans from the last object backward
//! and can stack circles *below* a slider's end (negative heights); the
//! legacy one makes a single forward scan with a separate counter for
//! objects near a slider's tail. They may disagree with each other by
//! design, but each is a pure function of its input.
//!
//! Positions and times are the integer model of [`crate::chart`];
//! heights are `i64` values whose updates clamp at the type's bounds
//! (unreachable on any physically possible chart).

use vstd::prelude::*;

use crate::chart::{Pos, TIME_LIMIT};

verus! {

/// Two objects closer than this (in playfield pixels) stack.
pub const STACK_DISTANCE: i64 = 3;

/// Bound on the magnitude of a model coordinate; it keeps squared
/// distances inside `i64`.
pub const POS_LIMIT: i64 = 0x10_0000;

/// Kind-specific data of an object entering stacking resolution.
#[derive(Clone, Copy, Debug, PartialEq, Eq, Structural)]
pub enum StackedKind {
    Circle,
    Slider { end_time: i64, end_pos: Pos },
    Spinner { end_time: i64 },
}

/// An object entering stacking resolution: its head time and position,
/// its kind, and the stack height this pass assigns.
#[derive(Clone, Copy, Debug, PartialEq, Eq, Structural)]
pub struct StackObject {
    /// Start time in milliseconds.
    pub time: i64,
    /// Head position.
    pub pos: Pos,
    /// Assigned stack height; positive heights offset up-left,
    /// negative ones down-right.
    pub stack_height: i64,
    pub kind: StackedKind,
}

impl StackObject {
    /// The time the object ends: its head time for a circle, the end
    /// of the curve or spin otherwise.
    pub open spec fn spec_end_time(self) -> int {
        match self.kind {
            StackedKind::Circle => self.time as int,
            StackedKind::Slider { end_time, .. } => end_time as int,
            StackedKind::Spinner { end_time } => end_time as int,
        }
    }

    /// The position the object ends on: its head position except for a
    /// slider, which ends on its curve's end.
    pub open spec fn spec_end_pos(self) -> Pos {
        match self.kind {
            StackedKind::Slider { end_pos, .. } => end_pos,
            _ => self.pos,
        }
    }

    /// Machine bounds on times and coordinates.
    pub open spec fn wf(self) -> bool {
        &&& -TIME_LIMIT <= self.time <= TIME_LIMIT
        &&& -TIME_LIMIT <= self.spec_end_time() <= TIME_LIMIT
        &&& pos_wf(self.pos)
        &&& pos_wf(self.spec_end_pos())
    }

    /// The time the object ends.
    pub fn end_time(&self) -> (r: i64)
        ensures
            r == self.spec_end_time(),
    {
        match self.kind {
            StackedKind::Circle => self.time,
            StackedKind::Slider { end_time, .. } => end_time,
            StackedKind::Spinner { end_time } => end_time,
        }
    }

    /// The position the object ends on.
    pub fn end_pos(&self) -> (r: Pos)
        ensures
            r == self.spec_end_pos(),
    {
        match self.kind {
            StackedKind::Slider { end_pos, .. } => end_pos,
            _ => self.pos,
        }
    }
}

/// Machine bounds on a coordinate pair.
pub open spec fn pos_wf(p: Pos) -> bool {
    &&& -POS_LIMIT <= p.x <= POS_LIMIT
    &&& -POS_LIMIT <= p.y <= POS_LIMIT
}

/// Whether two positions are within stacking distance.
pub open spec fn close(a: Pos, b: Pos) -> bool {
    (a.x - b.x) * (a.x - b.x) + (a.y - b.y) * (a.y - b.y) < STACK_DISTANCE * STACK_DISTANCE
}

/// Whether two positions are within stacking distance.
pub fn is_close(a: Pos, b: Pos) -> (r: bool)
    requires
        pos_wf(a),
        pos_wf(b),
    ensures
        r == close(a, b),
{
    let dx = a.x - b.x;
    let dy = a.y - b.y;
    proof {
        assert(0 <= dx * dx <= 0x40_0000_0000_0000 && 0 <= dy * dy <= 0x40_0000_0000_0000)
            by (nonlinear_arith)
            requires
                -0x20_0000 <= dx <= 0x20_0000,
                -0x20_0000 <= dy <= 0x20_0000,
        ;
    }
    dx * dx + dy * dy < STACK_DISTANCE * STACK_DISTANCE
}

/// `v` held inside the bounds of `i64`.
pub open spec fn clamp_height(v: int) -> int {
    if v > i64::MAX {
        i64::MAX as int
    } else if v < i64::MIN {
        i64::MIN as int
    } else {
        v
    }
}

/// Everything of the two objects except the stack height is the same.
pub open spec fn same_shape(a: StackObject, b: StackObject) -> bool {
    &&& a.time == b.time
    &&& a.pos == b.pos
    &&& a.kind == b.kind
}

/// Every object keeps its place, time, position and kind; only stack
/// heights may differ.
pub open spec fn shapes_eq(a: Seq<StackObject>, b: Seq<StackObject>) -> bool {
    &&& a.len() == b.len()
    &&& forall|j: int| 0 <= j < a.len() ==> same_shape(#[trigger] a[j], b[j])
}

/// One object with its stack height replaced.
pub open spec fn with_height(o: StackObject, h: int) -> StackObject {
    StackObject { stack_height: h as i64, ..o }
}

// --- the legacy (old) variant ---

/// The legacy variant's inner scan: objects after `i` that stay within
/// the time window either stack onto `i`'s head (raising `i`'s height)
/// or hang off `i`'s tail (lowering their own height by a running
/// slider-stack counter); either kind of hit extends the window from
/// the hit object's end time.
pub open spec fn old_inner(
    s: Seq<StackObject>,
    i: int,
    j: int,
    start_time: int,
    slider_stack: int,
    thr: int,
) -> Seq<StackObject>
    decreases s.len() - j,
{
    if j < 0 || j >= s.len() || i < 0 || i >= s.len() {
        s
    } else if s[j].time - thr > start_time {
        s
    } else if close(s[j].pos, s[i].pos) {
        old_inner(
            s.update(i, with_height(s[i], clamp_height(s[i].stack_height + 1))),
            i,
            j + 1,
            s[j].spec_end_time(),
            slider_stack,
            thr,
        )
    } else if close(s[j].pos, s[i].spec_end_pos()) {
        old_inner(
            s.update(j, with_height(s[j], clamp_height(s[j].stack_height - (slider_stack + 1)))),
            i,
            j + 1,
            s[j].spec_end_time(),
            slider_stack + 1,
            thr,
        )
    } else {
        old_inner(s, i, j + 1, start_time, slider_stack, thr)
    }
}

/// One step of the legacy variant's outer scan.
pub open spec fn old_step(s: Seq<StackObject>, i: int, thr: int) -> Seq<StackObject> {
    if s[i].stack_height != 0 && !(s[i].kind is Slider) {
        s
    } else {
        old_inner(s, i, i + 1, s[i].spec_end_time(), 0, thr)
    }
}

/// The legacy variant's outer scan from index `i` up to `n`, the
/// length of the sequence (which every step preserves).
pub open spec fn old_outer(s: Seq<StackObject>, i: int, n: int, thr: int) -> Seq<StackObject>
    decreases n - i,
{
    if i < 0 || i >= n {
        s
    } else {
        old_outer(old_step(s, i, thr), i + 1, n, thr)
    }
}

/// What the legacy stacking pass assigns.
pub open spec fn spec_old_stacking(s: Seq<StackObject>, thr: int) -> Seq<StackObject> {
    old_outer(s, 0, s.len() as int, thr)
}

/// Resolves stacking the way early format versions did: a single
/// forward scan per object.
pub fn old_stacking(hit_objects: &mut Vec<StackObject>, stack_threshold: i64)
    requires
        forall|j: int|
            0 <= j < old(hit_objects)@.len() ==> (#[trigger] old(hit_objects)@[j]).wf(),
        old(hit_objects)@.len() <= 0x7fff_ffff,
        -TIME_LIMIT <= stack_threshold <= TIME_LIMIT,
    ensures
        final(hit_objects)@ == spec_old_stacking(old(hit_objects)@, stack_threshold as int),
        shapes_eq(final(hit_objects)@, old(hit_objects)@),
{
    let ghost orig = hit_objects@;
    let ghost thr = stack_threshold as int;
    let n = hit_objects.len();
    let mut i: usize = 0;
    while i < n
        invariant
            n == hit_objects@.len(),
            n <= 0x7fff_ffff,
            0 <= i <= n,
            shapes_eq(hit_objects@, orig),
            forall|j: int| 0 <= j < orig.len() ==> (#[trigger] orig[j]).wf(),
            -TIME_LIMIT <= stack_threshold <= TIME_LIMIT,
            thr == stack_threshold as int,
            old_outer(hit_objects@, i as int, n as int, thr) == old_outer(orig, 0, n as int, thr),
        decreases n - i,
    {
        let ghost entry = hit_objects@;
        proof {
            assert(orig[i as int].wf());
            assert(same_shape(entry[i as int], orig[i as int]));
        }
        let skip = hit_objects[i].stack_height != 0 && !matches!(
            hit_objects[i].kind,
            StackedKind::Slider { .. },
        );
        if !skip {
            let mut start_time = hit_objects[i].end_time();
            let end_pos = hit_objects[i].end_pos();
            let head_pos = hit_objects[i].pos;
            let mut slider_stack: i64 = 0;
            let mut j = i + 1;
            while j < n
                invariant_except_break
                    n == hit_objects@.len(),
                    n <= 0x7fff_ffff,
                    entry.len() == n,
                    0 <= i < j <= n,
                    shapes_eq(hit_objects@, orig),
                    forall|k: int| 0 <= k < orig.len() ==> (#[trigger] orig[k]).wf(),
                    -TIME_LIMIT <= stack_threshold <= TIME_LIMIT,
                    thr == stack_threshold as int,
                    head_pos == hit_objects@[i as int].pos,
                    end_pos == hit_objects@[i as int].spec_end_pos(),
                    -TIME_LIMIT <= start_time <= TIME_LIMIT,
                    0 <= slider_stack <= j,
                    old_inner(
                        hit_objects@,
                        i as int,
                        j as int,
                        start_time as int,
                        slider_stack as int,
                        thr,
                    ) == old_inner(entry, i as int, i + 1, entry[i as int].spec_end_time(), 0, thr),
                ensures
                    n == hit_objects@.len(),
                    shapes_eq(hit_objects@, orig),
                    hit_objects@ == old_inner(
                        entry,
                        i as int,
                        i + 1,
                        entry[i as int].spec_end_time(),
                        0,
                        thr,
                    ),
                decreases n - j,
            {
                proof {
                    assert(same_shape(hit_objects@[j as int], orig[j as int]));
                    assert(orig[j as int].wf());
                    assert(same_shape(hit_objects@[i as int], orig[i as int]));
                    assert(orig[i as int].wf());
                }
                if hit_objects[j].time - stack_threshold > start_time {
                    break;
                }
                if is_close(hit_objects[j].pos, head_pos) {
                    let ghost before = hit_objects@;
                    let mut oi = hit_objects[i];
                    oi.stack_height = clamped_add_one(oi.stack_height);
                    hit_objects.set(i, oi);
                    proof {
                        assert(hit_objects@ == before.update(
                            i as int,
                            with_height(
                                before[i as int],
                                clamp_height(before[i as int].stack_height + 1),
                            ),
                        ));
                    }
                    start_time = hit_objects[j].end_time();
                } else if is_close(hit_objects[j].pos, end_pos) {
                    let ghost before = hit_objects@;
                    let mut oj = hit_objects[j];
                    oj.stack_height = clamped_sub(oj.stack_height, slider_stack + 1);
                    hit_objects.set(j, oj);
                    proof {
                        assert(hit_objects@ == before.update(
                            j as int,
                            with_height(
                                before[j as int],
                                clamp_height(before[j as int].stack_height - (slider_stack + 1)),
                            ),
                        ));
                    }
                    slider_stack += 1;
                    start_time = hit_objects[j].end_time();
                }
                j += 1;
            }
        }
        proof {
            assert(old_step(entry, i as int, thr) == hit_objects@);
            assert(old_outer(entry, i as int, n as int, thr) == old_outer(hit_objects@, i + 1, n as int, thr));
        }
        i += 1;
    }
}

// --- the modern variant ---

/// Circles stacked under the end of the slider at `n` are pushed below
/// it: every object between `n` and `i` whose head sits on that end
/// has its height lowered by `off`.
pub open spec fn offset_under(s: Seq<StackObject>, n: int, i: int, off: int) -> Seq<StackObject> {
    Seq::new(
        s.len(),
        |j: int|
            if n < j <= i && close(s[n].spec_end_pos(), s[j].pos) {
                with_height(s[j], clamp_height(s[j].stack_height - off))
            } else {
                s[j]
            },
    )
}

/// The modern variant's backward walk for a circle at `i`: gather the
/// chain of prior objects within the time window whose heads coincide,
/// raising each one's height over the chain's current head `obj_i`;
/// meeting a slider whose end the chain's head sits on instead pushes
/// the chain below that slider and stops.
pub open spec fn circle_scan(
    s: Seq<StackObject>,
    i: int,
    n: int,
    obj_i: int,
    thr: int,
) -> Seq<StackObject>
    decreases n + 1,
{
    if n < 0 || n >= s.len() || obj_i < 0 || obj_i >= s.len() || i >= s.len() {
        s
    } else if s[n].kind is Spinner {
        circle_scan(s, i, n - 1, obj_i, thr)
    } else if s[obj_i].time - s[n].spec_end_time() > thr {
        s
    } else if s[n].kind is Slider && close(s[n].spec_end_pos(), s[obj_i].pos) {
        offset_under(
            s,
            n,
            i,
            clamp_height(s[obj_i].stack_height - s[n].stack_height + 1),
        )
    } else if close(s[n].pos, s[obj_i].pos) {
        circle_scan(
            s.update(n, with_height(s[n], clamp_height(s[obj_i].stack_height + 1))),
            i,
            n - 1,
            n,
            thr,
        )
    } else {
        circle_scan(s, i, n - 1, obj_i, thr)
    }
}

/// The modern variant's backward walk for a slider: from the first
/// slider of a possible stack on, the chain always stacks upward, and
/// the window is measured between head times.
pub open spec fn slider_scan(s: Seq<StackObject>, n: int, obj_i: int, thr: int) -> Seq<
    StackObject,
>
    decreases n + 1,
{
    if n < 0 || n >= s.len() || obj_i < 0 || obj_i >= s.len() {
        s
    } else if s[n].kind is Spinner {
        slider_scan(s, n - 1, obj_i, thr)
    } else if s[obj_i].time - s[n].time > thr {
        s
    } else if close(s[n].spec_end_pos(), s[obj_i].pos) {
        slider_scan(
            s.update(n, with_height(s[n], clamp_height(s[obj_i].stack_height + 1))),
            n - 1,
            n,
            thr,
        )
    } else {
        slider_scan(s, n - 1, obj_i, thr)
    }
}

/// One step of the modern variant's outer scan: objects already
/// stacked, and spinners, are left alone.
pub open spec fn stack_step(s: Seq<StackObject>, i: int, thr: int) -> Seq<StackObject> {
    if i < 0 || i >= s.len() {
        s
    } else if s[i].stack_height != 0 || s[i].kind is Spinner {
        s
    } else if s[i].kind is Circle {
        circle_scan(s, i, i - 1, i, thr)
    } else if s[i].kind is Slider {
        slider_scan(s, i - 1, i, thr)
    } else {
        s
    }
}

/// The modern variant's outer scan, from index `i` down to 1.
pub open spec fn stack_outer(s: Seq<StackObject>, i: int, thr: int) -> Seq<StackObject>
    decreases i,
{
    if i < 1 {
        s
    } else {
        stack_outer(stack_step(s, i, thr), i - 1, thr)
    }
}

/// What the modern stacking pass assigns.
pub open spec fn spec_stacking(s: Seq<StackObject>, thr: int) -> Seq<StackObject> {
    if s.len() == 0 {
        s
    } else {
        stack_outer(s, s.len() - 1, thr)
    }
}

/// Resolves stacking the way modern format versions do: a backward
/// scan from the last object, with negative stacking under sliders.
pub fn stacking(hit_objects: &mut Vec<StackObject>, stack_threshold: i64)
    requires
        forall|j: int|
            0 <= j < old(hit_objects)@.len() ==> (#[trigger] old(hit_objects)@[j]).wf(),
        old(hit_objects)@.len() <= 0x7fff_ffff,
        -TIME_LIMIT <= stack_threshold <= TIME_LIMIT,
    ensures
        final(hit_objects)@ == spec_stacking(old(hit_objects)@, stack_threshold as int),
        shapes_eq(final(hit_objects)@, old(hit_objects)@),
{
    let ghost orig = hit_objects@;
    let ghost thr = stack_threshold as int;
    let n = hit_objects.len();
    if n == 0 {
        return ;
    }
    let mut i: usize = n - 1;
    while i >= 1
        invariant
            n == hit_objects@.len(),
            n <= 0x7fff_ffff,
            1 <= n,
            0 <= i <= n - 1,
            shapes_eq(hit_objects@, orig),
            forall|j: int| 0 <= j < orig.len() ==> (#[trigger] orig[j]).wf(),
            -TIME_LIMIT <= stack_threshold <= TIME_LIMIT,
            thr == stack_threshold as int,
            stack_outer(hit_objects@, i as int, thr) == stack_outer(orig, n - 1, thr),
        decreases i,
    {
        let ghost entry = hit_objects@;
        proof {
            assert(same_shape(entry[i as int], orig[i as int]));
            assert(orig[i as int].wf());
        }
        let is_spin = matches!(hit_objects[i].kind, StackedKind::Spinner { .. });
        if hit_objects[i].stack_height == 0 && !is_spin {
            if matches!(hit_objects[i].kind, StackedKind::Circle) {
                circle_walk(hit_objects, i, stack_threshold, Ghost(orig));
                proof {
                    assert(stack_step(entry, i as int, thr) == hit_objects@);
                }
            } else {
                slider_walk(hit_objects, i, stack_threshold, Ghost(orig));
                proof {
                    assert(stack_step(entry, i as int, thr) == hit_objects@);
                }
            }
        } else {
            proof {
                assert(stack_step(entry, i as int, thr) == hit_objects@);
            }
        }
        proof {
            assert(stack_outer(entry, i as int, thr) == stack_outer(hit_objects@, i - 1, thr));
        }
        i -= 1;
    }
}

/// The modern variant's backward walk below a circle.
fn circle_walk(
    hit_objects: &mut Vec<StackObject>,
    i: usize,
    stack_threshold: i64,
    Ghost(orig): Ghost<Seq<StackObject>>,
)
    requires
        shapes_eq(old(hit_objects)@, orig),
        forall|j: int| 0 <= j < orig.len() ==> (#[trigger] orig[j]).wf(),
        old(hit_objects)@.len() <= 0x7fff_ffff,
        0 <= i < old(hit_objects)@.len(),
        -TIME_LIMIT <= stack_threshold <= TIME_LIMIT,
    ensures
        final(hit_objects)@ == circle_scan(
            old(hit_objects)@,
            i as int,
            i - 1,
            i as int,
            stack_threshold as int,
        ),
        shapes_eq(final(hit_objects)@, orig),
{
    let ghost entry = hit_objects@;
    let ghost thr = stack_threshold as int;
    let n = hit_objects.len();
    let mut obj_i = i;
    let mut m = i;
    loop
        invariant_except_break
            n == hit_objects@.len(),
            n <= 0x7fff_ffff,
            entry.len() == n,
            shapes_eq(hit_objects@, orig),
            forall|k: int| 0 <= k < orig.len() ==> (#[trigger] orig[k]).wf(),
            -TIME_LIMIT <= stack_threshold <= TIME_LIMIT,
            thr == stack_threshold as int,
            0 <= m <= i < n,
            0 <= obj_i < n,
            circle_scan(hit_objects@, i as int, m - 1, obj_i as int, thr) == circle_scan(
                entry,
                i as int,
                i - 1,
                i as int,
                thr,
            ),
        ensures
            n == hit_objects@.len(),
            shapes_eq(hit_objects@, orig),
            hit_objects@ == circle_scan(entry, i as int, i - 1, i as int, thr),
        decreases m,
    {
        if m == 0 {
            break ;
        }
        let nn = m - 1;
        proof {
            assert(same_shape(hit_objects@[nn as int], orig[nn as int]));
            assert(orig[nn as int].wf());
            assert(same_shape(hit_objects@[obj_i as int], orig[obj_i as int]));
            assert(orig[obj_i as int].wf());
        }
        let is_spin = matches!(hit_objects[nn].kind, StackedKind::Spinner { .. });
        if !is_spin {
            if hit_objects[obj_i].time - hit_objects[nn].end_time() > stack_threshold {
                // No longer within stacking range of the previous object.
                break ;
            }
            let slider_hit = matches!(hit_objects[nn].kind, StackedKind::Slider { .. })
                && is_close(hit_objects[nn].end_pos(), hit_objects[obj_i].pos);
            if slider_hit {
                // The chain's head sits on this slider's end: push
                // every chain member below the slider and stop.
                let off = clamped_offset(
                    hit_objects[obj_i].stack_height,
                    hit_objects[nn].stack_height,
                );
                let ghost pre = hit_objects@;
                let mut j = nn + 1;
                while j <= i
                    invariant
                        n == hit_objects@.len(),
                        pre.len() == n,
                        0 <= nn < j <= i + 1,
                        i < n,
                        0 <= obj_i < n,
                        forall|k: int| 0 <= k < orig.len() ==> (#[trigger] orig[k]).wf(),
                        shapes_eq(pre, orig),
                        off == clamp_height(
                            pre[obj_i as int].stack_height - pre[nn as int].stack_height + 1,
                        ),
                        forall|k: int|
                            0 <= k < n ==> #[trigger] hit_objects@[k] == (if nn < k < j && close(
                                pre[nn as int].spec_end_pos(),
                                pre[k].pos,
                            ) {
                                with_height(
                                    pre[k],
                                    clamp_height(pre[k].stack_height - off),
                                )
                            } else {
                                pre[k]
                            }),
                    decreases i + 1 - j,
                {
                    proof {
                        assert(hit_objects@[nn as int] == pre[nn as int]);
                        assert(hit_objects@[j as int].pos == pre[j as int].pos);
                    }
                    if is_close(hit_objects[nn].end_pos(), hit_objects[j].pos) {
                        let mut oj = hit_objects[j];
                        oj.stack_height = clamped_sub_any(oj.stack_height, off);
                        hit_objects.set(j, oj);
                    }
                    j += 1;
                }
                proof {
                    assert(hit_objects@ =~= offset_under(pre, nn as int, i as int, off as int));
                    assert(circle_scan(pre, i as int, nn as int, obj_i as int, thr)
                        == offset_under(pre, nn as int, i as int, off as int));
                }
                break ;
            }
            if is_close(hit_objects[nn].pos, hit_objects[obj_i].pos) {
                // Keep processing as if there were no sliders; the
                // chain's head moves to this object.
                let ghost before = hit_objects@;
                let h = clamped_add_one(hit_objects[obj_i].stack_height);
                let mut on = hit_objects[nn];
                on.stack_height = h;
                hit_objects.set(nn, on);
                proof {
                    assert(hit_objects@ == before.update(
                        nn as int,
                        with_height(
                            before[nn as int],
                            clamp_height(before[obj_i as int].stack_height + 1),
                        ),
                    ));
                }
                obj_i = nn;
            }
        }
        m = nn;
    }
}

/// The modern variant's backward walk below a slider.
fn slider_walk(
    hit_objects: &mut Vec<StackObject>,
    i: usize,
    stack_threshold: i64,
    Ghost(orig): Ghost<Seq<StackObject>>,
)
    requires
        shapes_eq(old(hit_objects)@, orig),
        forall|j: int| 0 <= j < orig.len() ==> (#[trigger] orig[j]).wf(),
        old(hit_objects)@.len() <= 0x7fff_ffff,
        0 <= i < old(hit_objects)@.len(),
        -TIME_LIMIT <= stack_threshold <= TIME_LIMIT,
    ensures
        final(hit_objects)@ == slider_scan(
            old(hit_objects)@,
            i - 1,
            i as int,
            stack_threshold as int,
        ),
        shapes_eq(final(hit_objects)@, orig),
{
    let ghost entry = hit_objects@;
    let ghost thr = stack_threshold as int;
    let n = hit_objects.len();
    let mut obj_i = i;
    let mut m = i;
    loop
        invariant_except_break
            n == hit_objects@.len(),
            n <= 0x7fff_ffff,
            entry.len() == n,
            shapes_eq(hit_objects@, orig),
            forall|k: int| 0 <= k < orig.len() ==> (#[trigger] orig[k]).wf(),
            -TIME_LIMIT <= stack_threshold <= TIME_LIMIT,
            thr == stack_threshold as int,
            0 <= m <= i < n,
            0 <= obj_i < n,
            slider_scan(hit_objects@, m - 1, obj_i as int, thr) == slider_scan(
                entry,
                i - 1,
                i as int,
                thr,
            ),
        ensures
            n == hit_objects@.len(),
            shapes_eq(hit_objects@, orig),
            hit_objects@ == slider_scan(entry, i - 1, i as int, thr),
        decreases m,
    {
        if m == 0 {
            break ;
        }
        let nn = m - 1;
        proof {
            assert(same_shape(hit_objects@[nn as int], orig[nn as int]));
            assert(orig[nn as int].wf());
            assert(same_shape(hit_objects@[obj_i as int], orig[obj_i as int]));
            assert(orig[obj_i as int].wf());
        }
        let is_spin = matches!(hit_objects[nn].kind, StackedKind::Spinner { .. });
        if !is_spin {
            if hit_objects[obj_i].time - hit_objects[nn].time > stack_threshold {
                // No longer within stacking range of the previous object.
                break ;
            }
            if is_close(hit_objects[nn].end_pos(), hit_objects[obj_i].pos) {
                let ghost before = hit_objects@;
                let h = clamped_add_one(hit_objects[obj_i].stack_height);
                let mut on = hit_objects[nn];
                on.stack_height = h;
                hit_objects.set(nn, on);
                proof {
                    assert(hit_objects@ == before.update(
                        nn as int,
                        with_height(
                            before[nn as int],
                            clamp_height(before[obj_i as int].stack_height + 1),
                        ),
                    ));
                }
                obj_i = nn;
            }
        }
        m = nn;
    }
}

/// `a - b + 1`, held inside `i64`.
fn clamped_offset(a: i64, b: i64) -> (r: i64)
    ensures
        r == clamp_height(a - b + 1),
{
    let wide = a as i128 - b as i128 + 1;
    if wide > i64::MAX as i128 {
        i64::MAX
    } else if wide < i64::MIN as i128 {
        i64::MIN
    } else {
        wide as i64
    }
}

/// `h - d`, held inside `i64`.
fn clamped_sub_any(h: i64, d: i64) -> (r: i64)
    ensures
        r == clamp_height(h - d),
{
    let wide = h as i128 - d as i128;
    if wide > i64::MAX as i128 {
        i64::MAX
    } else if wide < i64::MIN as i128 {
        i64::MIN
    } else {
        wide as i64
    }
}

/// `h + 1`, held inside `i64`.
fn clamped_add_one(h: i64) -> (r: i64)
    ensures
        r == clamp_height(h + 1),
{
    if h == i64::MAX {
        h
    } else {
        h + 1
    }
}

/// A chart with no objects, or a single one, leaves both stacking
/// passes with nothing to resolve: the sequence comes back unchanged.
pub proof fn lemma_stacking_trivial_chart(s: Seq<StackObject>, thr: int)
    requires
        s.len() <= 1,
    ensures
        spec_stacking(s, thr) == s,
        spec_old_stacking(s, thr) == s,
{
    if s.len() == 1 {
        assert(old_inner(s, 0, 1, s[0].spec_end_time(), 0, thr) == s);
        assert(old_step(s, 0, thr) == s);
        assert(old_outer(s, 1, 1, thr) == s);
        assert(old_outer(s, 0, 1, thr) == s);
    }
}

/// No two of the objects sit within stacking distance of each other,
/// head or tail.
pub open spec fn all_apart(s: Seq<StackObject>) -> bool {
    forall|i: int, j: int|
        0 <= i < s.len() && 0 <= j < s.len() && i != j ==> !close(
            (#[trigger] s[i]).pos,
            (#[trigger] s[j]).pos,
        ) && !close(s[i].spec_end_pos(), s[j].pos) && !close(s[j].pos, s[i].spec_end_pos())
}

/// Stacking is driven by proximity alone: when no two objects come
/// within stacking distance, neither variant changes a single height.
pub proof fn lemma_apart_objects_never_stack(s: Seq<StackObject>, thr: int)
    requires
        all_apart(s),
    ensures
        spec_stacking(s, thr) == s,
        spec_old_stacking(s, thr) == s,
{
    if s.len() > 0 {
        lemma_apart_stack_outer(s, s.len() - 1, thr);
    }
    lemma_apart_old_outer(s, 0, thr);
}

proof fn lemma_apart_circle_scan(s: Seq<StackObject>, i: int, n: int, obj_i: int, thr: int)
    requires
        all_apart(s),
        n < obj_i < s.len(),
    ensures
        circle_scan(s, i, n, obj_i, thr) == s,
    decreases n + 1,
{
    if 0 <= n < s.len() {
        lemma_apart_circle_scan(s, i, n - 1, obj_i, thr);
    }
}

proof fn lemma_apart_slider_scan(s: Seq<StackObject>, n: int, obj_i: int, thr: int)
    requires
        all_apart(s),
        n < obj_i < s.len(),
    ensures
        slider_scan(s, n, obj_i, thr) == s,
    decreases n + 1,
{
    if 0 <= n < s.len() {
        lemma_apart_slider_scan(s, n - 1, obj_i, thr);
    }
}

proof fn lemma_apart_stack_outer(s: Seq<StackObject>, i: int, thr: int)
    requires
        all_apart(s),
        i < s.len(),
    ensures
        stack_outer(s, i, thr) == s,
    decreases i,
{
    if i >= 1 {
        lemma_apart_circle_scan(s, i, i - 1, i, thr);
        lemma_apart_slider_scan(s, i - 1, i, thr);
        assert(stack_step(s, i, thr) == s);
        lemma_apart_stack_outer(s, i - 1, thr);
    }
}

proof fn lemma_apart_old_inner(
    s: Seq<StackObject>,
    i: int,
    j: int,
    start_time: int,
    slider_stack: int,
    thr: int,
)
    requires
        all_apart(s),
        0 <= i < j,
    ensures
        old_inner(s, i, j, start_time, slider_stack, thr) == s,
    decreases s.len() - j,
{
    if 0 <= j < s.len() && i < s.len() && !(s[j].time - thr > start_time) {
        lemma_apart_old_inner(s, i, j + 1, start_time, slider_stack, thr);
    }
}

proof fn lemma_apart_old_outer(s: Seq<StackObject>, i: int, thr: int)
    requires
        all_apart(s),
        i >= 0,
    ensures
        old_outer(s, i, s.len() as int, thr) == s,
    decreases s.len() - i,
{
    if 0 <= i < s.len() {
        lemma_apart_old_inner(s, i, i + 1, s[i].spec_end_time(), 0, thr);
        assert(old_step(s, i, thr) == s);
        lemma_apart_old_outer(s, i + 1, thr);
    }
}

/// For a fixed chart and threshold, repeated modern stacking
/// resolution yields identical stack heights: any two results the
/// contract of [`stacking`] admits are the same sequence.
pub proof fn lemma_stacking_deterministic(
    s: Seq<StackObject>,
    thr: int,
    r1: Seq<StackObject>,
    r2: Seq<StackObject>,
)
    requires
        r1 == spec_stacking(s, thr),
        r2 == spec_stacking(s, thr),
    ensures
        r1 == r2,
{
}

/// For a fixed chart and threshold, repeated legacy stacking
/// resolution yields identical stack heights: any two results the
/// contract of [`old_stacking`] admits are the same sequence. The two
/// variants may still differ from each other; this is intentional.
pub proof fn lemma_old_stacking_deterministic(
    s: Seq<StackObject>,
    thr: int,
    r1: Seq<StackObject>,
    r2: Seq<StackObject>,
)
    requires
        r1 == spec_old_stacking(s, thr),
        r2 == spec_old_stacking(s, thr),
    ensures
        r1 == r2,
{
}

/// `h - d` for a non-negative `d`, held inside `i64`.
fn clamped_sub(h: i64, d: i64) -> (r: i64)
    requires
        d >= 0,
    ensures
        r == clamp_height(h - d),
{
    if h >= i64::MIN + d {
        h - d
    } else {
        i64::MIN
    }
}

} // verus!
