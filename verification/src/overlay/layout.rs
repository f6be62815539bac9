//! Where the overlay draws its guides, handles, tooltip, panel and help bar.
//!
//! All positions are in window pixels. X11 coordinates are 16-bit, so the
//! selections and screens handled here lie far inside the `i32` range.

use vstd::prelude::*;
use crate::selection::SelectionRect;
use crate::overlay::CursorPos;
use vstd::string::StringSliceAdditionalSpecFns;
use crate::text::{push_decimal, push_signed, decimal, signed_decimal};

verus! {

/// A straight line from `(x1, y1)` to `(x2, y2)`.
#[derive(Debug, Clone, Copy, PartialEq, Eq)]
pub struct Segment {
    pub x1: i32,
    pub y1: i32,
    pub x2: i32,
    pub y2: i32,
}

/// A rectangle by its top-left corner and size.
#[derive(Debug, Clone, Copy, PartialEq, Eq)]
pub struct Rect {
    pub x: i32,
    pub y: i32,
    pub width: u32,
    pub height: u32,
}

/// The side of a corner handle in pixels.
pub const CORNER_SIZE: i32 = 8;

/// The height of the help bar at the top of the screen.
pub const HELP_BAR_HEIGHT: u32 = 28;

/// The height of the selection's info panel.
pub const PANEL_HEIGHT: u32 = 52;

/// The height of the coordinate tooltip.
pub const TOOLTIP_HEIGHT: i32 = 20;

/// A selection whose far edges fit the `i32` drawing coordinates.
pub open spec fn drawable(sel: SelectionRect) -> bool {
    sel.x + sel.width <= i32::MAX && sel.y + sel.height <= i32::MAX
}

fn seg(x1: i32, y1: i32, x2: i32, y2: i32) -> (s: Segment)
    ensures
        s == (Segment { x1, y1, x2, y2 }),
{
    Segment { x1, y1, x2, y2 }
}

/// The dashed guides that run from the selection's corners to the screen
/// edges: up and down from the left and right edges, left from the left
/// edge and right from the right edge, at the top and bottom.
pub fn edge_guides(sel: SelectionRect, sw: u32, sh: u32) -> (r: Vec<Segment>)
    requires
        drawable(sel),
        sw <= i32::MAX,
        sh <= i32::MAX,
    ensures
        ({
            let sx = sel.x as i32;
            let sy = sel.y as i32;
            let ex = (sel.x + sel.width) as i32;
            let ey = (sel.y + sel.height) as i32;
            r@ == seq![
                Segment { x1: sx, y1: 0, x2: sx, y2: sy },
                Segment { x1: ex, y1: 0, x2: ex, y2: sy },
                Segment { x1: sx, y1: ey, x2: sx, y2: sh as i32 },
                Segment { x1: ex, y1: ey, x2: ex, y2: sh as i32 },
                Segment { x1: 0, y1: sy, x2: sx, y2: sy },
                Segment { x1: 0, y1: ey, x2: sx, y2: ey },
                Segment { x1: ex, y1: sy, x2: sw as i32, y2: sy },
                Segment { x1: ex, y1: ey, x2: sw as i32, y2: ey },
            ]
        }),
{
    let sx = sel.x as i32;
    let sy = sel.y as i32;
    let ex = sx + sel.width as i32;
    let ey = sy + sel.height as i32;
    let sw_i = sw as i32;
    let sh_i = sh as i32;
    let r = vec![
        seg(sx, 0, sx, sy),
        seg(ex, 0, ex, sy),
        seg(sx, ey, sx, sh_i),
        seg(ex, ey, ex, sh_i),
        seg(0, sy, sx, sy),
        seg(0, ey, sx, ey),
        seg(ex, sy, sw_i, sy),
        seg(ex, ey, sw_i, ey),
    ];
    assert(r@ =~= seq![
        Segment { x1: sx, y1: 0, x2: sx, y2: sy },
        Segment { x1: ex, y1: 0, x2: ex, y2: sy },
        Segment { x1: sx, y1: ey, x2: sx, y2: sh_i },
        Segment { x1: ex, y1: ey, x2: ex, y2: sh_i },
        Segment { x1: 0, y1: sy, x2: sx, y2: sy },
        Segment { x1: 0, y1: ey, x2: sx, y2: ey },
        Segment { x1: ex, y1: sy, x2: sw_i, y2: sy },
        Segment { x1: ex, y1: ey, x2: sw_i, y2: ey },
    ]);
    r
}

/// The selection's outline rectangle.
pub fn selection_outline(sel: SelectionRect) -> (r: Rect)
    requires
        drawable(sel),
    ensures
        r == (Rect { x: sel.x as i32, y: sel.y as i32, width: sel.width, height: sel.height }),
{
    Rect { x: sel.x as i32, y: sel.y as i32, width: sel.width, height: sel.height }
}

/// The top-left corners of the eight square handles, centred on the
/// selection's corners and edge midpoints: top-left, top-right,
/// bottom-left, bottom-right, top-middle, bottom-middle, left-middle,
/// right-middle.
pub fn corner_handles(sel: SelectionRect) -> (r: Vec<(i32, i32)>)
    requires
        drawable(sel),
    ensures
        ({
            let sx = sel.x as int;
            let sy = sel.y as int;
            let ex = sel.x + sel.width;
            let ey = sel.y + sel.height;
            let mx = sel.x + sel.width / 2;
            let my = sel.y + sel.height / 2;
            let h = CORNER_SIZE / 2;
            r@ == seq![
                ((sx - h) as i32, (sy - h) as i32),
                ((ex - h) as i32, (sy - h) as i32),
                ((sx - h) as i32, (ey - h) as i32),
                ((ex - h) as i32, (ey - h) as i32),
                ((mx - h) as i32, (sy - h) as i32),
                ((mx - h) as i32, (ey - h) as i32),
                ((sx - h) as i32, (my - h) as i32),
                ((ex - h) as i32, (my - h) as i32),
            ]
        }),
{
    let sx = sel.x as i32;
    let sy = sel.y as i32;
    let ex = sx + sel.width as i32;
    let ey = sy + sel.height as i32;
    let half = CORNER_SIZE / 2;
    let mid_x = sx + sel.width as i32 / 2;
    let mid_y = sy + sel.height as i32 / 2;
    let left = sx - half;
    let top = sy - half;
    let right = ex - half;
    let bottom = ey - half;
    let centre_x = mid_x - half;
    let centre_y = mid_y - half;
    let r = vec![
        (left, top),
        (right, top),
        (left, bottom),
        (right, bottom),
        (centre_x, top),
        (centre_x, bottom),
        (left, centre_y),
        (right, centre_y),
    ];
    assert(r@ =~= seq![
        (left, top),
        (right, top),
        (left, bottom),
        (right, bottom),
        (centre_x, top),
        (centre_x, bottom),
        (left, centre_y),
        (right, centre_y),
    ]);
    r
}

/// The dashed crosshair through the pointer, across the whole screen.
pub fn crosshair_guides(c: CursorPos, sw: u32, sh: u32) -> (r: (Segment, Segment))
    requires
        sw <= i32::MAX,
        sh <= i32::MAX,
    ensures
        r == (Segment { x1: 0, y1: c.y, x2: sw as i32, y2: c.y }, Segment {
            x1: c.x,
            y1: 0,
            x2: c.x,
            y2: sh as i32,
        }),
{
    (seg(0, c.y, sw as i32, c.y), seg(c.x, 0, c.x, sh as i32))
}

/// The crosshair through the pointer inside a selection being dragged,
/// from edge to edge of the selection.
pub fn selection_crosshair(sel: SelectionRect, c: CursorPos) -> (r: (Segment, Segment))
    requires
        drawable(sel),
    ensures
        r == (Segment {
            x1: sel.x as i32,
            y1: c.y,
            x2: (sel.x + sel.width) as i32,
            y2: c.y,
        }, Segment { x1: c.x, y1: sel.y as i32, x2: c.x, y2: (sel.y + sel.height) as i32 }),
{
    let sx = sel.x as i32;
    let sy = sel.y as i32;
    (seg(sx, c.y, sx + sel.width as i32, c.y), seg(c.x, sy, c.x, sy + sel.height as i32))
}

/// The width of a text: the font's measurement when a font is loaded and
/// the text is not empty, otherwise an estimate of seven pixels per byte.
pub fn text_width(text: &str, font_width: Option<i32>) -> (w: i32)
    requires
        text.spec_bytes().len() * 7 <= i32::MAX,
    ensures
        (font_width is None || text@.len() == 0) ==> w == text.spec_bytes().len() * 7,
        (font_width is Some && text@.len() > 0) ==> w == font_width->0,
{
    match font_width {
        Some(m) => {
            if text.is_empty() {
                text.len() as i32 * 7
            } else {
                m
            }
        },
        None => text.len() as i32 * 7,
    }
}

/// The pointer's coordinates as the tooltip shows them: `x, y`.
pub fn coord_label(c: CursorPos) -> (s: String)
    ensures
        s@ == signed_decimal(c.x as int) + ", "@ + signed_decimal(c.y as int),
{
    let mut s = String::new();
    push_signed(&mut s, c.x as i64);
    s.append(", ");
    push_signed(&mut s, c.y as i64);
    assert(s@ =~= signed_decimal(c.x as int) + ", "@ + signed_decimal(c.y as int));
    s
}

/// The coordinate tooltip beside the pointer: fifteen pixels below and to
/// the right, or above and to the left where it would run off the screen.
/// Its width is the label's width plus twelve pixels of padding.
pub fn tooltip_box(c: CursorPos, label_width: i32, sw: u32, sh: u32) -> (r: Rect)
    requires
        sw <= i32::MAX,
        sh <= i32::MAX,
        0 <= label_width,
        c.x + 15 + label_width + 12 <= i32::MAX,
        c.x - 15 - label_width - 12 >= i32::MIN,
        c.y + 15 + TOOLTIP_HEIGHT <= i32::MAX,
        c.y - 15 - TOOLTIP_HEIGHT >= i32::MIN,
    ensures
        ({
            let w = label_width + 12;
            &&& r.x == if c.x + 15 + w < sw { c.x + 15 } else { c.x - 15 - w }
            &&& r.y == if c.y + 15 + TOOLTIP_HEIGHT < sh { c.y + 15 } else { c.y - 15
                - TOOLTIP_HEIGHT }
            &&& r.width == w
            &&& r.height == TOOLTIP_HEIGHT
        }),
{
    let text_w = label_width + 12;
    let pad: i32 = 15;
    let tx = if c.x + pad + text_w < sw as i32 {
        c.x + pad
    } else {
        c.x - pad - text_w
    };
    let ty = if c.y + pad + TOOLTIP_HEIGHT < sh as i32 {
        c.y + pad
    } else {
        c.y - pad - TOOLTIP_HEIGHT
    };
    Rect { x: tx, y: ty, width: text_w as u32, height: TOOLTIP_HEIGHT as u32 }
}

/// The two lines of the selection's info panel: its size, then its
/// position.
pub fn info_panel_lines(sel: SelectionRect) -> (r: (String, String))
    ensures
        r.0@ == " "@ + decimal(sel.width as nat) + "  ×  "@ + decimal(sel.height as nat)
            + " px"@,
        r.1@ == " Position: ("@ + decimal(sel.x as nat) + ", "@ + decimal(sel.y as nat) + ")"@,
{
    let mut a = String::new();
    a.append(" ");
    push_decimal(&mut a, sel.width as u64);
    a.append("  ×  ");
    push_decimal(&mut a, sel.height as u64);
    a.append(" px");
    let mut b = String::new();
    b.append(" Position: (");
    push_decimal(&mut b, sel.x as u64);
    b.append(", ");
    push_decimal(&mut b, sel.y as u64);
    b.append(")");
    assert(a@ =~= " "@ + decimal(sel.width as nat) + "  ×  "@ + decimal(sel.height as nat)
        + " px"@);
    assert(b@ =~= " Position: ("@ + decimal(sel.x as nat) + ", "@ + decimal(sel.y as nat)
        + ")"@);
    (a, b)
}

/// The info panel under the selection (or above it where there is no room
/// below), centred on it but never closer than eight pixels to the left
/// edge. It is wide enough for the wider of its two lines plus fifty
/// pixels, and at least 240 pixels wide.
pub fn info_panel_box(sel: SelectionRect, line1_width: i32, line2_width: i32, sh: u32) -> (r: Rect)
    requires
        drawable(sel),
        line1_width <= i32::MAX - 50,
        line2_width <= i32::MAX - 50,
        sh <= i32::MAX,
    ensures
        ({
            let content = if line1_width >= line2_width { line1_width as int } else { line2_width as int };
            let w = if content + 50 >= 240 { content + 50 } else { 240 };
            let centred = sel.x + sel.width / 2 - w / 2;
            &&& r.width == w
            &&& r.height == PANEL_HEIGHT
            &&& r.x == if centred >= 8 { centred } else { 8 }
            &&& r.y == if sel.y + sel.height + PANEL_HEIGHT + 12 < sh { sel.y + sel.height + 10 } else {
                sel.y - PANEL_HEIGHT - 10
            }
        }),
{
    let content_w = if line1_width >= line2_width { line1_width } else { line2_width };
    let wide = content_w + 50;
    let panel_w: u32 = if wide >= 240 { wide as u32 } else { 240 };
    let margin: i32 = 8;
    let centred = (sel.x as i32 + sel.width as i32 / 2) - panel_w as i32 / 2;
    let px = if centred >= margin { centred } else { margin };
    let py = if sel.y + sel.height + PANEL_HEIGHT + 12 < sh {
        (sel.y + sel.height) as i32 + 10
    } else {
        sel.y as i32 - PANEL_HEIGHT as i32 - 10
    };
    Rect { x: px, y: py, width: panel_w, height: PANEL_HEIGHT }
}

/// The key and description pairs of the help bar: how to finish a
/// selection in progress, or how to start one.
pub fn help_instructions(has_selection: bool) -> (r: [(&'static str, &'static str); 4])
    ensures
        has_selection ==> r@ == seq![
            ("Release", "Capture"),
            ("Enter", "Confirm"),
            ("ESC", "Cancel"),
            ("Q", "Cancel"),
        ],
        !has_selection ==> r@ == seq![
            ("Click+Drag", "Select area"),
            ("ESC", "Cancel"),
            ("Q", "Cancel"),
            ("Right Click", "Cancel"),
        ],
{
    if has_selection {
        let r = [("Release", "Capture"), ("Enter", "Confirm"), ("ESC", "Cancel"), ("Q", "Cancel")];
        assert(r@ =~= seq![
            ("Release", "Capture"),
            ("Enter", "Confirm"),
            ("ESC", "Cancel"),
            ("Q", "Cancel"),
        ]);
        r
    } else {
        let r = [
            ("Click+Drag", "Select area"),
            ("ESC", "Cancel"),
            ("Q", "Cancel"),
            ("Right Click", "Cancel"),
        ];
        assert(r@ =~= seq![
            ("Click+Drag", "Select area"),
            ("ESC", "Cancel"),
            ("Q", "Cancel"),
            ("Right Click", "Cancel"),
        ]);
        r
    }
}

/// Where one instruction of the help bar goes: the key's box (its left
/// edge and width) and the description's left edge.
#[derive(Debug, Clone, Copy, PartialEq, Eq)]
pub struct HelpItem {
    pub key_x: i32,
    pub key_width: i32,
    pub desc_x: i32,
}

/// The left edge of instruction `i` of the help bar: the first starts at
/// 92 pixels, and each takes its key's width plus ten, four pixels of gap,
/// its description's width and sixteen pixels of gap.
pub open spec fn help_offset(key_widths: Seq<i32>, desc_widths: Seq<i32>, i: int) -> int
    decreases i,
{
    if i <= 0 {
        92
    } else {
        help_offset(key_widths, desc_widths, i - 1) + key_widths[i - 1] + 10 + 4 + desc_widths[i
            - 1] + 16
    }
}

proof fn lemma_help_offset_grows(key_widths: Seq<i32>, desc_widths: Seq<i32>, i: int, j: int)
    requires
        0 <= i <= j <= key_widths.len(),
        key_widths.len() == desc_widths.len(),
        forall|k: int| 0 <= k < key_widths.len() ==> key_widths[k] >= 0 && desc_widths[k] >= 0,
    ensures
        help_offset(key_widths, desc_widths, i) <= help_offset(key_widths, desc_widths, j),
    decreases j - i,
{
    if i < j {
        lemma_help_offset_grows(key_widths, desc_widths, i, j - 1);
    }
}

/// Lays out the help bar's instructions from the measured widths of their
/// keys and descriptions.
pub fn help_bar_layout(key_widths: &[i32], desc_widths: &[i32]) -> (r: Vec<HelpItem>)
    requires
        key_widths@.len() == desc_widths@.len(),
        forall|k: int|
            0 <= k < key_widths@.len() ==> key_widths@[k] >= 0 && desc_widths@[k] >= 0,
        help_offset(key_widths@, desc_widths@, key_widths@.len() as int) <= i32::MAX,
    ensures
        r@.len() == key_widths@.len(),
        forall|i: int|
            0 <= i < r@.len() ==> {
                let o = help_offset(key_widths@, desc_widths@, i);
                &&& (#[trigger] r@[i]).key_x == o
                &&& r@[i].key_width == key_widths@[i] + 10
                &&& r@[i].desc_x == o + key_widths@[i] + 10 + 4
            },
{
    let n = key_widths.len();
    let mut items: Vec<HelpItem> = Vec::new();
    let mut offset_x: i32 = 92;
    let mut i: usize = 0;
    while i < n
        invariant
            n == key_widths@.len(),
            key_widths@.len() == desc_widths@.len(),
            forall|k: int|
                0 <= k < key_widths@.len() ==> key_widths@[k] >= 0 && desc_widths@[k] >= 0,
            help_offset(key_widths@, desc_widths@, n as int) <= i32::MAX,
            i <= n,
            offset_x == help_offset(key_widths@, desc_widths@, i as int),
            items@.len() == i,
            forall|j: int|
                0 <= j < i ==> {
                    let o = help_offset(key_widths@, desc_widths@, j);
                    &&& (#[trigger] items@[j]).key_x == o
                    &&& items@[j].key_width == key_widths@[j] + 10
                    &&& items@[j].desc_x == o + key_widths@[j] + 10 + 4
                },
        decreases n - i,
    {
        proof {
            lemma_help_offset_grows(key_widths@, desc_widths@, i + 1, n as int);
            lemma_help_offset_grows(key_widths@, desc_widths@, 0, i as int);
        }
        let key_w = key_widths[i] + 10;
        let desc_x = offset_x + key_w + 4;
        items.push(HelpItem { key_x: offset_x, key_width: key_w, desc_x });
        offset_x = desc_x + desc_widths[i] + 16;
        i = i + 1;
    }
    items
}

} // verus!
