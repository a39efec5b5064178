//! Monitor layout arithmetic: the overlay spanning all monitors and the
//! choice of primary and active monitor.

use vstd::prelude::*;

verus! {

/// A monitor in desktop coordinates: its top-left corner and its size.
#[derive(Debug, Clone, Copy, PartialEq, Eq, Structural)]
pub struct MonitorRect {
    pub x: i32,
    pub y: i32,
    pub width: u32,
    pub height: u32,
}

/// Placement of the overlay window covering every monitor, and each monitor
/// as `(left, top, right, bottom)` relative to the overlay's top-left corner.
#[derive(Debug)]
pub struct OverlayLayout {
    pub x: i32,
    pub y: i32,
    pub width: u32,
    pub height: u32,
    pub monitors: Vec<(i32, i32, i32, i32)>,
    pub primary: usize,
}

pub open spec fn min_int(a: int, b: int) -> int {
    if a < b {
        a
    } else {
        b
    }
}

pub open spec fn max_int(a: int, b: int) -> int {
    if a > b {
        a
    } else {
        b
    }
}

/// Leftmost edge among the first `n` monitors.
pub open spec fn min_left(s: Seq<MonitorRect>, n: int) -> int
    decreases n,
{
    if n <= 1 {
        s[0].x as int
    } else {
        min_int(min_left(s, n - 1), s[n - 1].x as int)
    }
}

/// Topmost edge among the first `n` monitors.
pub open spec fn min_top(s: Seq<MonitorRect>, n: int) -> int
    decreases n,
{
    if n <= 1 {
        s[0].y as int
    } else {
        min_int(min_top(s, n - 1), s[n - 1].y as int)
    }
}

/// Rightmost edge among the first `n` monitors.
pub open spec fn max_right(s: Seq<MonitorRect>, n: int) -> int
    decreases n,
{
    if n <= 1 {
        s[0].x + s[0].width
    } else {
        max_int(max_right(s, n - 1), s[n - 1].x + s[n - 1].width)
    }
}

/// Bottom edge among the first `n` monitors.
pub open spec fn max_bottom(s: Seq<MonitorRect>, n: int) -> int
    decreases n,
{
    if n <= 1 {
        s[0].y + s[0].height
    } else {
        max_int(max_bottom(s, n - 1), s[n - 1].y + s[n - 1].height)
    }
}

/// The monitor coordinates fit the 32-bit arithmetic of the layout: every
/// far edge is representable and so is the width and height of the union.
pub open spec fn layout_fits_i32(s: Seq<MonitorRect>) -> bool {
    &&& forall|i: int|
        0 <= i < s.len() ==> {
            &&& (#[trigger] s[i]).width <= i32::MAX
            &&& s[i].height <= i32::MAX
            &&& s[i].x + s[i].width <= i32::MAX
            &&& s[i].y + s[i].height <= i32::MAX
        }
    &&& s.len() > 0 ==> max_right(s, s.len() as int) - min_left(s, s.len() as int) <= i32::MAX
    &&& s.len() > 0 ==> max_bottom(s, s.len() as int) - min_top(s, s.len() as int) <= i32::MAX
}

/// `index` clamped into a list of `count` elements (to 0 for an empty list).
pub open spec fn clamp_index_spec(index: int, count: int) -> int {
    if index < count - 1 {
        index
    } else if count >= 1 {
        count - 1
    } else {
        0
    }
}

/// `primary` (the position of the primary monitor, if known) as an index
/// into a list of `count` monitors, defaulting to the first.
pub open spec fn primary_index_spec(primary: Option<usize>, count: int) -> int {
    clamp_index_spec(
        match primary {
            Some(p) => p as int,
            None => 0,
        },
        count,
    )
}

/// `index.min(count.saturating_sub(1))`: an index kept inside a list of
/// `count` elements.
pub fn clamp_index(index: usize, count: usize) -> (r: usize)
    ensures
        r == clamp_index_spec(index as int, count as int),
        count > 0 ==> r < count,
{
    let last = if count >= 1 { count - 1 } else { 0 };
    if index < last {
        index
    } else {
        last
    }
}

proof fn lemma_extremes_step(s: Seq<MonitorRect>, n: int)
    requires
        1 <= n <= s.len(),
    ensures
        forall|i: int|
            0 <= i < n ==> min_left(s, n) <= s[i].x && min_top(s, n) <= s[i].y && s[i].x
                + s[i].width <= max_right(s, n) && s[i].y + s[i].height <= max_bottom(s, n),
    decreases n,
{
    if n > 1 {
        lemma_extremes_step(s, n - 1);
    }
}

/// Every monitor lies within the union rectangle computed from the first `n`
/// monitors.
pub proof fn lemma_union_bounds_each_monitor(s: Seq<MonitorRect>)
    requires
        s.len() > 0,
    ensures
        forall|i: int|
            0 <= i < s.len() ==> min_left(s, s.len() as int) <= #[trigger] s[i].x && min_top(
                s,
                s.len() as int,
            ) <= s[i].y && s[i].x + s[i].width <= max_right(s, s.len() as int) && s[i].y
                + s[i].height <= max_bottom(s, s.len() as int),
{
    lemma_extremes_step(s, s.len() as int);
}

/// A single monitor's far edges and size are representable in `i32`.
pub open spec fn rect_fits_i32(r: MonitorRect) -> bool {
    &&& r.width <= i32::MAX
    &&& r.height <= i32::MAX
    &&& r.x + r.width <= i32::MAX
    &&& r.y + r.height <= i32::MAX
}

/// Whether [`overlay_layout`] can lay out these monitors: false exactly when
/// its 32-bit edge arithmetic would overflow.
pub fn layout_fits(rects: &[MonitorRect]) -> (b: bool)
    ensures
        b == layout_fits_i32(rects@),
{
    let n = rects.len();
    if n == 0 {
        return true;
    }
    let mut left: i64 = 0;
    let mut top: i64 = 0;
    let mut right: i64 = 0;
    let mut bottom: i64 = 0;
    let mut i: usize = 0;
    while i < n
        invariant
            n == rects@.len(),
            n > 0,
            i <= n,
            forall|k: int| 0 <= k < i ==> rect_fits_i32(#[trigger] rects@[k]),
            i > 0 ==> left == min_left(rects@, i as int) && top == min_top(rects@, i as int)
                && right == max_right(rects@, i as int) && bottom == max_bottom(rects@, i as int),
            i32::MIN <= left <= i32::MAX,
            i32::MIN <= top <= i32::MAX,
            i > 0 ==> i32::MIN <= right <= i32::MAX,
            i > 0 ==> i32::MIN <= bottom <= i32::MAX,
            i == 0 ==> right == 0 && bottom == 0,
        decreases n - i,
    {
        let r = rects[i];
        assert(r == rects@[i as int]);
        if r.width > 0x7fff_ffff || r.height > 0x7fff_ffff {
            return false;
        }
        let r_right = r.x as i64 + r.width as i64;
        let r_bottom = r.y as i64 + r.height as i64;
        if r_right > 0x7fff_ffff || r_bottom > 0x7fff_ffff {
            return false;
        }
        if i == 0 {
            left = r.x as i64;
            top = r.y as i64;
            right = r_right;
            bottom = r_bottom;
        } else {
            if (r.x as i64) < left {
                left = r.x as i64;
            }
            if (r.y as i64) < top {
                top = r.y as i64;
            }
            if r_right > right {
                right = r_right;
            }
            if r_bottom > bottom {
                bottom = r_bottom;
            }
        }
        i = i + 1;
    }
    right - left <= 0x7fff_ffff && bottom - top <= 0x7fff_ffff
}

/// Place the overlay over the union of all monitors, or `None` when the
/// monitor coordinates are too large for its 32-bit edge arithmetic.
pub fn checked_overlay_layout(rects: &[MonitorRect], primary: Option<usize>) -> (r: Option<
    OverlayLayout,
>)
    ensures
        r is Some <==> layout_fits_i32(rects@),
        r matches Some(layout) ==> overlay_layout_post(rects@, primary, layout),
{
    if layout_fits(rects) {
        Some(overlay_layout(rects, primary))
    } else {
        None
    }
}

/// What [`overlay_layout`] promises of its result.
pub open spec fn overlay_layout_post(
    rects: Seq<MonitorRect>,
    primary: Option<usize>,
    layout: OverlayLayout,
) -> bool {
    &&& rects.len() == 0 ==> {
        &&& layout.x == 0 && layout.y == 0
        &&& layout.width == 1280 && layout.height == 720
        &&& layout.monitors@ == seq![(0i32, 0i32, 1280i32, 720i32)]
        &&& layout.primary == 0
    }
    &&& rects.len() > 0 ==> {
        let n = rects.len() as int;
        &&& layout.x == min_left(rects, n)
        &&& layout.y == min_top(rects, n)
        &&& layout.width == max_int(1, max_right(rects, n) - min_left(rects, n))
        &&& layout.height == max_int(1, max_bottom(rects, n) - min_top(rects, n))
        &&& layout.monitors@.len() == n
        &&& forall|i: int|
            0 <= i < n ==> #[trigger] layout.monitors@[i] == (
                (rects[i].x - layout.x) as i32,
                (rects[i].y - layout.y) as i32,
                (rects[i].x - layout.x + rects[i].width) as i32,
                (rects[i].y - layout.y + rects[i].height) as i32,
            )
        &&& layout.primary == primary_index_spec(primary, n)
    }
    &&& forall|i: int|
        0 <= i < layout.monitors@.len() ==> {
            &&& 0 <= (#[trigger] layout.monitors@[i]).0 <= layout.monitors@[i].2 <= layout.width
            &&& 0 <= layout.monitors@[i].1 <= layout.monitors@[i].3 <= layout.height
        }
    &&& layout.primary < layout.monitors@.len()
}

/// Place the overlay over the union of all monitors. Without any monitor the
/// overlay falls back to a single 1280x720 area at the origin. The overlay is
/// at least one pixel wide and tall.
pub fn overlay_layout(rects: &[MonitorRect], primary: Option<usize>) -> (layout: OverlayLayout)
    requires
        layout_fits_i32(rects@),
    ensures
        overlay_layout_post(rects@, primary, layout),
{
    let n = rects.len();
    if n == 0 {
        let mut monitors: Vec<(i32, i32, i32, i32)> = Vec::new();
        monitors.push((0, 0, 1280, 720));
        return OverlayLayout { x: 0, y: 0, width: 1280, height: 720, monitors, primary: 0 };
    }
    proof {
        lemma_union_bounds_each_monitor(rects@);
    }
    let mut left = rects[0].x;
    let mut top = rects[0].y;
    let mut right = rects[0].x + rects[0].width as i32;
    let mut bottom = rects[0].y + rects[0].height as i32;
    let mut i: usize = 1;
    while i < n
        invariant
            n == rects@.len(),
            1 <= i <= n,
            layout_fits_i32(rects@),
            left == min_left(rects@, i as int),
            top == min_top(rects@, i as int),
            right == max_right(rects@, i as int),
            bottom == max_bottom(rects@, i as int),
        decreases n - i,
    {
        let r = rects[i];
        assert(r == rects@[i as int]);
        let r_right = r.x + r.width as i32;
        let r_bottom = r.y + r.height as i32;
        if r.x < left {
            left = r.x;
        }
        if r.y < top {
            top = r.y;
        }
        if r_right > right {
            right = r_right;
        }
        if r_bottom > bottom {
            bottom = r_bottom;
        }
        i = i + 1;
    }
    let mut monitors: Vec<(i32, i32, i32, i32)> = Vec::with_capacity(n);
    let mut j: usize = 0;
    while j < n
        invariant
            n == rects@.len(),
            n > 0,
            j <= n,
            layout_fits_i32(rects@),
            left == min_left(rects@, n as int),
            top == min_top(rects@, n as int),
            right == max_right(rects@, n as int),
            bottom == max_bottom(rects@, n as int),
            forall|k: int|
                0 <= k < n ==> min_left(rects@, n as int) <= #[trigger] rects@[k].x && min_top(
                    rects@,
                    n as int,
                ) <= rects@[k].y && rects@[k].x + rects@[k].width <= max_right(rects@, n as int)
                    && rects@[k].y + rects@[k].height <= max_bottom(rects@, n as int),
            monitors@.len() == j,
            forall|k: int|
                0 <= k < j ==> #[trigger] monitors@[k] == (
                    (rects@[k].x - left) as i32,
                    (rects@[k].y - top) as i32,
                    (rects@[k].x - left + rects@[k].width) as i32,
                    (rects@[k].y - top + rects@[k].height) as i32,
                ),
        decreases n - j,
    {
        let r = rects[j];
        assert(r == rects@[j as int]);
        monitors.push(
            (r.x - left, r.y - top, r.x - left + r.width as i32, r.y - top + r.height as i32),
        );
        j = j + 1;
    }
    let span_x = right - left;
    let span_y = bottom - top;
    let width: u32 = if span_x < 1 { 1 } else { span_x as u32 };
    let height: u32 = if span_y < 1 { 1 } else { span_y as u32 };
    let p = match primary {
        Some(p) => p,
        None => 0,
    };
    let primary_index = clamp_index(p, n);
    OverlayLayout { x: left, y: top, width, height, monitors, primary: primary_index }
}

/// Index of the first monitor flagged primary, or of the first monitor when
/// none is.
pub fn first_primary(flags: &[bool]) -> (index: usize)
    ensures
        index == (if exists|k: int| 0 <= k < flags@.len() && flags@[k] {
            choose|k: int| 0 <= k < flags@.len() && flags@[k] && forall|j: int| 0 <= j < k ==> !flags@[j]
        } else {
            0
        }),
        flags@.len() > 0 ==> index < flags@.len(),
{
    let mut i: usize = 0;
    while i < flags.len()
        invariant
            i <= flags@.len(),
            forall|j: int| 0 <= j < i ==> !flags@[j],
        decreases flags@.len() - i,
    {
        if flags[i] {
            assert(forall|k: int|
                0 <= k < flags@.len() && flags@[k] && (forall|j: int| 0 <= j < k ==> !flags@[j])
                    ==> k == i);
            return i;
        }
        i = i + 1;
    }
    0
}

/// Primary and active monitor after the shell reports a monitor layout of
/// `count` usable monitors, and whether the ball must be reset onto the
/// active monitor. The primary index is clamped into the list. In
/// single-monitor mode the first reported layout makes the primary monitor
/// active and resets the ball; otherwise the active index is kept, clamped.
pub fn layout_indices(
    count: usize,
    primary: usize,
    active: usize,
    single_monitor: bool,
    had_layout: bool,
) -> (r: (usize, usize, bool))
    requires
        count >= 1,
    ensures
        r.0 == clamp_index_spec(primary as int, count as int),
        r.1 == (if single_monitor && !had_layout {
            r.0 as int
        } else {
            clamp_index_spec(active as int, count as int)
        }),
        r.2 == (single_monitor && !had_layout),
        r.0 < count && r.1 < count,
{
    let p = clamp_index(primary, count);
    let reset = single_monitor && !had_layout;
    let a = if reset {
        p
    } else {
        clamp_index(active, count)
    };
    (p, a, reset)
}

} // verus!
