//! Selection rectangles and the bounding box of a multi-monitor desktop.

use vstd::prelude::*;

verus! {

/// A rectangular screen selection: origin and size in pixels.
#[derive(Debug, Clone, Copy)]
pub struct SelectionRect {
    pub x: u32,
    pub y: u32,
    pub width: u32,
    pub height: u32,
}

/// The smaller of two integers.
pub open spec fn min_int(a: int, b: int) -> int {
    if a <= b { a } else { b }
}

/// The larger of two integers.
pub open spec fn max_int(a: int, b: int) -> int {
    if a >= b { a } else { b }
}

/// The distance between two integers.
pub open spec fn dist(a: int, b: int) -> int {
    if a <= b { b - a } else { a - b }
}

/// `a - b`, or zero where that would be negative.
pub open spec fn sat_sub(a: int, b: int) -> int {
    if a >= b { a - b } else { 0 }
}

/// The rectangle spanned by two corner points: its origin is the smaller
/// coordinate on each axis (floored at zero), its size the distance between
/// the two points.
pub open spec fn spec_from_points(x1: i32, y1: i32, x2: i32, y2: i32) -> SelectionRect {
    SelectionRect {
        x: max_int(min_int(x1 as int, x2 as int), 0) as u32,
        y: max_int(min_int(y1 as int, y2 as int), 0) as u32,
        width: dist(x1 as int, x2 as int) as u32,
        height: dist(y1 as int, y2 as int) as u32,
    }
}

/// The rectangle pulled inside a `sw` x `sh` screen: the origin is pinned to
/// the last pixel at most, and the size is cut at the screen's edge.
pub open spec fn spec_clamped(r: SelectionRect, sw: u32, sh: u32) -> SelectionRect {
    let x = min_int(r.x as int, sat_sub(sw as int, 1));
    let y = min_int(r.y as int, sat_sub(sh as int, 1));
    SelectionRect {
        x: x as u32,
        y: y as u32,
        width: min_int(r.width as int, sat_sub(sw as int, x)) as u32,
        height: min_int(r.height as int, sat_sub(sh as int, y)) as u32,
    }
}

/// A selection has meaningful area when it is at least two pixels on each axis.
pub open spec fn spec_is_valid(r: SelectionRect) -> bool {
    r.width >= 2 && r.height >= 2
}

/// The distance between two `i32` values, which always fits in a `u32`.
fn distance(a: i32, b: i32) -> (d: u32)
    ensures
        d == dist(a as int, b as int),
{
    let diff: i64 = b as i64 - a as i64;
    if diff < 0 {
        (-diff) as u32
    } else {
        diff as u32
    }
}

impl SelectionRect {
    /// Creates the selection spanned by two corner points, whatever the drag
    /// direction.
    pub fn from_points(x1: i32, y1: i32, x2: i32, y2: i32) -> (r: Self)
        ensures
            r == spec_from_points(x1, y1, x2, y2),
    {
        let lo_x = if x1 <= x2 { x1 } else { x2 };
        let lo_y = if y1 <= y2 { y1 } else { y2 };
        let x: u32 = if lo_x < 0 { 0 } else { lo_x as u32 };
        let y: u32 = if lo_y < 0 { 0 } else { lo_y as u32 };
        SelectionRect { x, y, width: distance(x1, x2), height: distance(y1, y2) }
    }

    /// Clamps the selection to a `sw` x `sh` screen so that it never extends
    /// past the edges.
    pub fn clamped_to(&self, sw: u32, sh: u32) -> (r: Self)
        ensures
            r == spec_clamped(*self, sw, sh),
    {
        let last_x = sw.saturating_sub(1);
        let last_y = sh.saturating_sub(1);
        let x = if self.x <= last_x { self.x } else { last_x };
        let y = if self.y <= last_y { self.y } else { last_y };
        let room_w = sw.saturating_sub(x);
        let room_h = sh.saturating_sub(y);
        let width = if self.width <= room_w { self.width } else { room_w };
        let height = if self.height <= room_h { self.height } else { room_h };
        SelectionRect { x, y, width, height }
    }

    /// Whether the selection has meaningful area.
    pub fn is_valid(&self) -> (b: bool)
        ensures
            b == spec_is_valid(*self),
    {
        self.width >= 2 && self.height >= 2
    }
}

/// Dragging from either corner to the other gives the same selection.
pub proof fn lemma_from_points_direction_independent(x1: i32, y1: i32, x2: i32, y2: i32)
    ensures
        spec_from_points(x1, y1, x2, y2) == spec_from_points(x2, y2, x1, y1),
{
}

/// A click without a drag spans no area, so it is never a valid selection.
pub proof fn lemma_single_click_is_invalid(x: i32, y: i32)
    ensures
        spec_from_points(x, y, x, y).width == 0,
        spec_from_points(x, y, x, y).height == 0,
        !spec_is_valid(spec_from_points(x, y, x, y)),
{
}

/// Clamping twice to the same screen is the same as clamping once.
pub proof fn lemma_clamped_idempotent(r: SelectionRect, sw: u32, sh: u32)
    ensures
        spec_clamped(spec_clamped(r, sw, sh), sw, sh) == spec_clamped(r, sw, sh),
{
}

/// A clamped selection never extends past the screen's right or bottom edge,
/// and on a screen with pixels its origin is one of them.
pub proof fn lemma_clamped_within_screen(r: SelectionRect, sw: u32, sh: u32)
    ensures
        spec_clamped(r, sw, sh).x + spec_clamped(r, sw, sh).width <= sw,
        spec_clamped(r, sw, sh).y + spec_clamped(r, sw, sh).height <= sh,
        sw > 0 ==> spec_clamped(r, sw, sh).x < sw,
        sh > 0 ==> spec_clamped(r, sw, sh).y < sh,
        spec_clamped(r, sw, sh).width <= r.width,
        spec_clamped(r, sw, sh).height <= r.height,
{
}

/// A selection that already lies on the screen is left as it is.
pub proof fn lemma_clamped_keeps_inner_selection(r: SelectionRect, sw: u32, sh: u32)
    requires
        r.x < sw,
        r.y < sh,
        r.x + r.width <= sw,
        r.y + r.height <= sh,
    ensures
        spec_clamped(r, sw, sh) == r,
{
}

/// The area of the desktop that the overlay covers, in root coordinates;
/// `x` and `y` are negative when a monitor sits left of or above the
/// primary one. `root` is the root window of the default screen.
#[derive(Debug, Clone, Copy, PartialEq, Eq, Structural)]
pub struct DesktopGeometry {
    pub x: i32,
    pub y: i32,
    pub width: u32,
    pub height: u32,
    pub root: u64,
}

// ─── Bounding box of several screens ─────────────────────────────────────

/// A screen rectangle `(x, y, w, h)` in root coordinates.
pub type ScreenRect = (i32, i32, u32, u32);

/// The right edge of a screen as the `i32` arithmetic of the desktop computes
/// it: the width is taken as an `i32`.
pub open spec fn right_edge(s: ScreenRect) -> int {
    s.0 + (s.2 as i32)
}

/// The bottom edge of a screen, computed as `right_edge` is.
pub open spec fn bottom_edge(s: ScreenRect) -> int {
    s.1 + (s.3 as i32)
}

/// The smallest left edge of a non-empty list of screens.
pub open spec fn min_left(s: Seq<ScreenRect>) -> int
    decreases s.len(),
{
    if s.len() <= 1 {
        s[0].0 as int
    } else {
        min_int(min_left(s.drop_last()), s.last().0 as int)
    }
}

/// The smallest top edge of a non-empty list of screens.
pub open spec fn min_top(s: Seq<ScreenRect>) -> int
    decreases s.len(),
{
    if s.len() <= 1 {
        s[0].1 as int
    } else {
        min_int(min_top(s.drop_last()), s.last().1 as int)
    }
}

/// The largest right edge of a non-empty list of screens.
pub open spec fn max_right(s: Seq<ScreenRect>) -> int
    decreases s.len(),
{
    if s.len() <= 1 {
        right_edge(s[0])
    } else {
        max_int(max_right(s.drop_last()), right_edge(s.last()))
    }
}

/// The largest bottom edge of a non-empty list of screens.
pub open spec fn max_bottom(s: Seq<ScreenRect>) -> int
    decreases s.len(),
{
    if s.len() <= 1 {
        bottom_edge(s[0])
    } else {
        max_int(max_bottom(s.drop_last()), bottom_edge(s.last()))
    }
}

/// The inputs on which the desktop's `i32` edge arithmetic stays in range:
/// every screen's edges, and the width and height of the box, fit an `i32`.
pub open spec fn edges_fit_i32(s: Seq<ScreenRect>) -> bool {
    &&& forall|i: int|
        0 <= i < s.len() ==> i32::MIN <= #[trigger] right_edge(s[i]) <= i32::MAX
            && i32::MIN <= bottom_edge(s[i]) <= i32::MAX
    &&& s.len() > 0 ==> i32::MIN <= max_right(s) - min_left(s) <= i32::MAX
    &&& s.len() > 0 ==> i32::MIN <= max_bottom(s) - min_top(s) <= i32::MAX
}

/// The bounding box of a non-empty list of screens.
pub open spec fn spec_bounding_box(s: Seq<ScreenRect>) -> ScreenRect {
    (
        min_left(s) as i32,
        min_top(s) as i32,
        (max_right(s) - min_left(s)) as u32,
        (max_bottom(s) - min_top(s)) as u32,
    )
}

/// Bounding box of a set of screen rectangles, each `(x, y, w, h)`.
///
/// Coordinates may be negative: a monitor left of or above the primary one
/// has a negative origin. Returns `None` for an empty input.
pub fn bounding_box(screens: &[ScreenRect]) -> (r: Option<ScreenRect>)
    requires
        edges_fit_i32(screens@),
    ensures
        screens@.len() == 0 ==> r is None,
        screens@.len() > 0 ==> r == Some(spec_bounding_box(screens@)),
{
    if screens.len() == 0 {
        return None;
    }
    let (x0, y0, w0, h0) = screens[0];
    assert(i32::MIN <= right_edge(screens@[0]) <= i32::MAX);
    assert(i32::MIN <= bottom_edge(screens@[0]) <= i32::MAX);
    let mut min_x: i32 = x0;
    let mut min_y: i32 = y0;
    let mut max_x: i32 = x0 + #[verifier::truncate] (w0 as i32);
    let mut max_y: i32 = y0 + #[verifier::truncate] (h0 as i32);
    assert(screens@.take(1).drop_last() =~= screens@.take(0));
    let mut i: usize = 1;
    while i < screens.len()
        invariant
            1 <= i <= screens@.len(),
            edges_fit_i32(screens@),
            min_x == min_left(screens@.take(i as int)),
            min_y == min_top(screens@.take(i as int)),
            max_x == max_right(screens@.take(i as int)),
            max_y == max_bottom(screens@.take(i as int)),
        decreases screens@.len() - i,
    {
        let (x, y, w, h) = screens[i];
        assert(screens@.take(i + 1).drop_last() =~= screens@.take(i as int));
        assert(screens@.take(i + 1).last() == screens@[i as int]);
        assert(i32::MIN <= right_edge(screens@[i as int]) <= i32::MAX);
        assert(i32::MIN <= bottom_edge(screens@[i as int]) <= i32::MAX);
        if x < min_x {
            min_x = x;
        }
        if y < min_y {
            min_y = y;
        }
        let rx = x + #[verifier::truncate] (w as i32);
        let by = y + #[verifier::truncate] (h as i32);
        if rx > max_x {
            max_x = rx;
        }
        if by > max_y {
            max_y = by;
        }
        i = i + 1;
    }
    assert(screens@.take(screens@.len() as int) =~= screens@);
    Some((min_x, min_y, #[verifier::truncate] ((max_x - min_x) as u32), #[verifier::truncate] ((max_y - min_y) as u32)))
}

/// Every screen's left and top edge lies on or after the box's, and its
/// right and bottom edge on or before the box's far edges.
pub proof fn lemma_extremes_bound_every_screen(s: Seq<ScreenRect>, i: int)
    requires
        0 <= i < s.len(),
    ensures
        min_left(s) <= s[i].0,
        min_top(s) <= s[i].1,
        right_edge(s[i]) <= max_right(s),
        bottom_edge(s[i]) <= max_bottom(s),
    decreases s.len(),
{
    if s.len() > 1 && i < s.len() - 1 {
        lemma_extremes_bound_every_screen(s.drop_last(), i);
        assert(s.drop_last()[i] == s[i]);
    }
}

/// Each extreme edge is the edge of some screen.
pub proof fn lemma_extremes_attained(s: Seq<ScreenRect>)
    requires
        s.len() > 0,
    ensures
        exists|i: int| 0 <= i < s.len() && s[i].0 == min_left(s),
        exists|i: int| 0 <= i < s.len() && s[i].1 == min_top(s),
        exists|i: int| 0 <= i < s.len() && right_edge(s[i]) == max_right(s),
        exists|i: int| 0 <= i < s.len() && bottom_edge(s[i]) == max_bottom(s),
    decreases s.len(),
{
    if s.len() > 1 {
        let t = s.drop_last();
        lemma_extremes_attained(t);
        let a = choose|i: int| 0 <= i < t.len() && t[i].0 == min_left(t);
        let b = choose|i: int| 0 <= i < t.len() && t[i].1 == min_top(t);
        let c = choose|i: int| 0 <= i < t.len() && right_edge(t[i]) == max_right(t);
        let d = choose|i: int| 0 <= i < t.len() && bottom_edge(t[i]) == max_bottom(t);
        let l = s.len() - 1;
        assert(s[a] == t[a] && s[b] == t[b] && s[c] == t[c] && s[d] == t[d]);
        assert(s[l] == s.last());
        if min_left(s) == min_left(t) { assert(s[a].0 == min_left(s)); } else { assert(s[l].0 == min_left(s)); }
        if min_top(s) == min_top(t) { assert(s[b].1 == min_top(s)); } else { assert(s[l].1 == min_top(s)); }
        if max_right(s) == max_right(t) { assert(right_edge(s[c]) == max_right(s)); } else { assert(right_edge(s[l]) == max_right(s)); }
        if max_bottom(s) == max_bottom(t) { assert(bottom_edge(s[d]) == max_bottom(s)); } else { assert(bottom_edge(s[l]) == max_bottom(s)); }
    } else {
        assert(s[0].0 == min_left(s));
        assert(s[0].1 == min_top(s));
        assert(right_edge(s[0]) == max_right(s));
        assert(bottom_edge(s[0]) == max_bottom(s));
    }
}

/// The bounding box covers every screen, and it is the smallest such box:
/// each of its four edges is an edge of some screen.
pub proof fn lemma_bounding_box_is_tight_cover(s: Seq<ScreenRect>)
    requires
        s.len() > 0,
        edges_fit_i32(s),
        forall|i: int| 0 <= i < s.len() ==> (#[trigger] s[i]).2 <= i32::MAX && s[i].3 <= i32::MAX,
    ensures
        forall|i: int|
            0 <= i < s.len() ==> {
                let b = spec_bounding_box(s);
                &&& b.0 <= (#[trigger] s[i]).0
                &&& b.1 <= s[i].1
                &&& s[i].0 + s[i].2 <= b.0 + b.2
                &&& s[i].1 + s[i].3 <= b.1 + b.3
            },
        exists|i: int| 0 <= i < s.len() && s[i].0 == spec_bounding_box(s).0,
        exists|i: int| 0 <= i < s.len() && s[i].1 == spec_bounding_box(s).1,
        exists|i: int| 0 <= i < s.len() && s[i].0 + s[i].2 == spec_bounding_box(s).0 + spec_bounding_box(s).2,
        exists|i: int| 0 <= i < s.len() && s[i].1 + s[i].3 == spec_bounding_box(s).1 + spec_bounding_box(s).3,
{
    assert forall|i: int| 0 <= i < s.len() implies {
        let b = spec_bounding_box(s);
        &&& b.0 <= (#[trigger] s[i]).0
        &&& b.1 <= s[i].1
        &&& s[i].0 + s[i].2 <= b.0 + b.2
        &&& s[i].1 + s[i].3 <= b.1 + b.3
    } by {
        lemma_extremes_bound_every_screen(s, i);
        lemma_extremes_bound_every_screen(s, 0);
        lemma_extremes_attained(s);
        assert(right_edge(s[i]) == s[i].0 + s[i].2);
        assert(min_left(s) <= max_right(s));
        assert(min_top(s) <= max_bottom(s));
        assert(i32::MIN <= min_left(s) <= i32::MAX);
        assert(i32::MIN <= min_top(s) <= i32::MAX);
    }
    lemma_extremes_attained(s);
    lemma_extremes_bound_every_screen(s, 0);
    let c = choose|i: int| 0 <= i < s.len() && right_edge(s[i]) == max_right(s);
    let d = choose|i: int| 0 <= i < s.len() && bottom_edge(s[i]) == max_bottom(s);
    assert(s[c].0 + s[c].2 == spec_bounding_box(s).0 + spec_bounding_box(s).2);
    assert(s[d].1 + s[d].3 == spec_bounding_box(s).1 + spec_bounding_box(s).3);
}

/// When every screen of `s1` is also a screen of `s2`, the extremes of `s2`
/// reach at least as far as those of `s1`.
proof fn lemma_extremes_of_subset(s1: Seq<ScreenRect>, s2: Seq<ScreenRect>)
    requires
        s1.len() > 0,
        forall|i: int| 0 <= i < s1.len() ==> s2.contains(#[trigger] s1[i]),
    ensures
        min_left(s2) <= min_left(s1),
        min_top(s2) <= min_top(s1),
        max_right(s1) <= max_right(s2),
        max_bottom(s1) <= max_bottom(s2),
{
    lemma_extremes_attained(s1);
    let a = choose|i: int| 0 <= i < s1.len() && s1[i].0 == min_left(s1);
    let b = choose|i: int| 0 <= i < s1.len() && s1[i].1 == min_top(s1);
    let c = choose|i: int| 0 <= i < s1.len() && right_edge(s1[i]) == max_right(s1);
    let d = choose|i: int| 0 <= i < s1.len() && bottom_edge(s1[i]) == max_bottom(s1);
    assert(s2.contains(s1[a]));
    assert(s2.contains(s1[b]));
    assert(s2.contains(s1[c]));
    assert(s2.contains(s1[d]));
    let ka = choose|k: int| 0 <= k < s2.len() && s2[k] == s1[a];
    let kb = choose|k: int| 0 <= k < s2.len() && s2[k] == s1[b];
    let kc = choose|k: int| 0 <= k < s2.len() && s2[k] == s1[c];
    let kd = choose|k: int| 0 <= k < s2.len() && s2[k] == s1[d];
    lemma_extremes_bound_every_screen(s2, ka);
    lemma_extremes_bound_every_screen(s2, kb);
    lemma_extremes_bound_every_screen(s2, kc);
    lemma_extremes_bound_every_screen(s2, kd);
}

/// Whether the edge arithmetic stays in range depends only on which screens
/// there are, not on their order or repetition.
proof fn lemma_edges_fit_same_screens(s1: Seq<ScreenRect>, s2: Seq<ScreenRect>)
    requires
        s1.len() > 0,
        s2.len() > 0,
        forall|i: int| 0 <= i < s1.len() ==> s2.contains(#[trigger] s1[i]),
        forall|i: int| 0 <= i < s2.len() ==> s1.contains(#[trigger] s2[i]),
        edges_fit_i32(s1),
    ensures
        edges_fit_i32(s2),
{
    lemma_extremes_of_subset(s1, s2);
    lemma_extremes_of_subset(s2, s1);
    assert forall|i: int| 0 <= i < s2.len() implies i32::MIN <= #[trigger] right_edge(s2[i])
        <= i32::MAX && i32::MIN <= bottom_edge(s2[i]) <= i32::MAX by {
        assert(s1.contains(s2[i]));
        let k = choose|k: int| 0 <= k < s1.len() && s1[k] == s2[i];
        assert(i32::MIN <= right_edge(s1[k]) <= i32::MAX);
    }
}

/// The order in which the screens are listed does not matter: two lists
/// that hold the same screens, each as often, have the same bounding box,
/// and the box of one can be computed exactly when that of the other can.
pub proof fn lemma_bounding_box_order_independent(s1: Seq<ScreenRect>, s2: Seq<ScreenRect>)
    requires
        s1.to_multiset() == s2.to_multiset(),
    ensures
        s1.len() == s2.len(),
        edges_fit_i32(s1) == edges_fit_i32(s2),
        s1.len() > 0 ==> spec_bounding_box(s1) == spec_bounding_box(s2),
{
    vstd::seq_lib::to_multiset_len(s1);
    vstd::seq_lib::to_multiset_len(s2);
    if s1.len() > 0 {
        assert forall|i: int| 0 <= i < s1.len() implies s2.contains(#[trigger] s1[i]) by {
            assert(s1.contains(s1[i]));
            vstd::seq_lib::to_multiset_contains(s1, s1[i]);
            vstd::seq_lib::to_multiset_contains(s2, s1[i]);
        }
        assert forall|i: int| 0 <= i < s2.len() implies s1.contains(#[trigger] s2[i]) by {
            assert(s2.contains(s2[i]));
            vstd::seq_lib::to_multiset_contains(s1, s2[i]);
            vstd::seq_lib::to_multiset_contains(s2, s2[i]);
        }
        lemma_extremes_of_subset(s1, s2);
        lemma_extremes_of_subset(s2, s1);
        if edges_fit_i32(s1) {
            lemma_edges_fit_same_screens(s1, s2);
        }
        if edges_fit_i32(s2) {
            lemma_edges_fit_same_screens(s2, s1);
        }
    }
}

/// The far edges of a box, recomputed from its origin and its `u32` size,
/// are the extreme edges it was made from.
proof fn lemma_box_edges(s: Seq<ScreenRect>)
    requires
        s.len() > 0,
        edges_fit_i32(s),
    ensures
        spec_bounding_box(s).0 == min_left(s),
        spec_bounding_box(s).1 == min_top(s),
        right_edge(spec_bounding_box(s)) == max_right(s),
        bottom_edge(spec_bounding_box(s)) == max_bottom(s),
{
    lemma_extremes_attained(s);
    let a = choose|i: int| 0 <= i < s.len() && s[i].0 == min_left(s);
    let b = choose|i: int| 0 <= i < s.len() && s[i].1 == min_top(s);
    assert(i32::MIN <= min_left(s) <= i32::MAX);
    assert(i32::MIN <= min_top(s) <= i32::MAX);
    let dw: i32 = (max_right(s) - min_left(s)) as i32;
    let dh: i32 = (max_bottom(s) - min_top(s)) as i32;
    assert((dw as u32) as i32 == dw) by (bit_vector);
    assert((dh as u32) as i32 == dh) by (bit_vector);
}

/// The box of two lists joined is the box of their two boxes.
pub proof fn lemma_bounding_box_of_concatenation(a: Seq<ScreenRect>, b: Seq<ScreenRect>)
    requires
        a.len() > 0,
        b.len() > 0,
        edges_fit_i32(a + b),
    ensures
        edges_fit_i32(a),
        edges_fit_i32(b),
        edges_fit_i32(seq![spec_bounding_box(a), spec_bounding_box(b)]),
        spec_bounding_box(a + b) == spec_bounding_box(
            seq![spec_bounding_box(a), spec_bounding_box(b)],
        ),
{
    let ab = a + b;
    assert forall|i: int| 0 <= i < a.len() implies ab.contains(#[trigger] a[i]) by {
        assert(ab[i] == a[i]);
    }
    assert forall|i: int| 0 <= i < b.len() implies ab.contains(#[trigger] b[i]) by {
        assert(ab[a.len() + i] == b[i]);
    }
    lemma_extremes_of_subset(a, ab);
    lemma_extremes_of_subset(b, ab);
    lemma_extremes_bound_every_screen(a, 0);
    lemma_extremes_bound_every_screen(b, 0);
    assert(ab[0] == a[0]);
    assert(ab[a.len() as int] == b[0]);
    assert forall|i: int| 0 <= i < a.len() implies i32::MIN <= #[trigger] right_edge(a[i])
        <= i32::MAX && i32::MIN <= bottom_edge(a[i]) <= i32::MAX by {
        assert(ab[i] == a[i]);
    }
    assert forall|i: int| 0 <= i < b.len() implies i32::MIN <= #[trigger] right_edge(b[i])
        <= i32::MAX && i32::MIN <= bottom_edge(b[i]) <= i32::MAX by {
        assert(ab[a.len() + i] == b[i]);
    }
    assert(i32::MIN <= right_edge(a[0]) - a[0].0 <= i32::MAX);
    assert(i32::MIN <= bottom_edge(a[0]) - a[0].1 <= i32::MAX);
    assert(i32::MIN <= right_edge(b[0]) - b[0].0 <= i32::MAX);
    assert(i32::MIN <= bottom_edge(b[0]) - b[0].1 <= i32::MAX);
    lemma_box_edges(a);
    lemma_box_edges(b);
    let ba = spec_bounding_box(a);
    let bb = spec_bounding_box(b);
    let pair = seq![ba, bb];
    assert(pair.drop_last() =~= seq![ba]);
    assert(pair.last() == bb);
    assert(min_left(seq![ba]) == ba.0);
    assert(min_top(seq![ba]) == ba.1);
    assert(max_right(seq![ba]) == right_edge(ba));
    assert(max_bottom(seq![ba]) == bottom_edge(ba));
    assert(min_left(pair) == min_int(min_left(a), min_left(b)));
    assert(min_top(pair) == min_int(min_top(a), min_top(b)));
    assert(max_right(pair) == max_int(max_right(a), max_right(b)));
    assert(max_bottom(pair) == max_int(max_bottom(a), max_bottom(b)));
    // The extremes of the joined list are those of one of its halves.
    lemma_extremes_attained(ab);
    let p = choose|i: int| 0 <= i < ab.len() && ab[i].0 == min_left(ab);
    let q = choose|i: int| 0 <= i < ab.len() && ab[i].1 == min_top(ab);
    let r = choose|i: int| 0 <= i < ab.len() && right_edge(ab[i]) == max_right(ab);
    let t = choose|i: int| 0 <= i < ab.len() && bottom_edge(ab[i]) == max_bottom(ab);
    if p < a.len() { lemma_extremes_bound_every_screen(a, p); } else { lemma_extremes_bound_every_screen(b, p - a.len()); }
    if q < a.len() { lemma_extremes_bound_every_screen(a, q); } else { lemma_extremes_bound_every_screen(b, q - a.len()); }
    if r < a.len() { lemma_extremes_bound_every_screen(a, r); } else { lemma_extremes_bound_every_screen(b, r - a.len()); }
    if t < a.len() { lemma_extremes_bound_every_screen(a, t); } else { lemma_extremes_bound_every_screen(b, t - a.len()); }
    assert(min_left(ab) == min_left(pair));
    assert(min_top(ab) == min_top(pair));
    assert(max_right(ab) == max_right(pair));
    assert(max_bottom(ab) == max_bottom(pair));
    assert forall|i: int| 0 <= i < pair.len() implies i32::MIN <= #[trigger] right_edge(pair[i])
        <= i32::MAX && i32::MIN <= bottom_edge(pair[i]) <= i32::MAX by {
        lemma_extremes_attained(a);
        lemma_extremes_attained(b);
    }
}

} // verus!
