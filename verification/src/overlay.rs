//! The region-selection overlay: its drag state, its decisions on input
//! events, the layout of what it draws, and the pixels it hands back.

pub mod layout;
pub mod pixels;

use vstd::prelude::*;
use crate::selection::{SelectionRect, spec_from_points, spec_is_valid, spec_clamped};
use self::pixels::{RawImage, extract_region, rgba_in, slot};

verus! {

/// The keysym of the Escape key.
pub const XK_ESCAPE: u64 = 0xFF1B;

/// The keysym of the lower-case `q` key.
pub const XK_LOWER_Q: u64 = 0x71;

/// The keysym of the upper-case `Q` key.
pub const XK_UPPER_Q: u64 = 0x51;

/// The keysym of the Return key.
pub const XK_RETURN: u64 = 0xFF0D;

/// How many times a failed pointer or keyboard grab is retried.
pub const GRAB_RETRIES: u32 = 20;

/// The state of a left-button drag.
#[derive(Debug, Clone, Copy)]
pub struct DragState {
    pub active: bool,
    pub start_x: i32,
    pub start_y: i32,
}

impl DragState {
    /// No drag in progress.
    pub fn new() -> (d: Self)
        ensures
            !d.active,
            d.start_x == 0,
            d.start_y == 0,
    {
        DragState { active: false, start_x: 0, start_y: 0 }
    }

    /// Starts a drag at the given point.
    pub fn begin(&mut self, x: i32, y: i32)
        ensures
            final(self).active,
            final(self).start_x == x,
            final(self).start_y == y,
    {
        self.active = true;
        self.start_x = x;
        self.start_y = y;
    }

    /// Ends the drag; the start point is kept.
    pub fn reset(&mut self)
        ensures
            !final(self).active,
            final(self).start_x == old(self).start_x,
            final(self).start_y == old(self).start_y,
    {
        self.active = false;
    }

    /// The selection from the drag's start point to the given point.
    pub fn to_selection(&self, end_x: i32, end_y: i32) -> (r: SelectionRect)
        ensures
            r == spec_from_points(self.start_x, self.start_y, end_x, end_y),
    {
        SelectionRect::from_points(self.start_x, self.start_y, end_x, end_y)
    }
}

/// The last known pointer position.
#[derive(Debug, Clone, Copy)]
pub struct CursorPos {
    pub x: i32,
    pub y: i32,
}

/// The keycodes of the keys that cancel (Escape, `q`) and confirm (Return)
/// a selection, as the keyboard mapping gives them.
#[derive(Debug, Clone, Copy)]
pub struct OverlayKeys {
    pub escape: u32,
    pub q: u32,
    pub enter: u32,
}

/// An input event delivered to the overlay window. For a key press both its
/// keycode and the keysym that the keyboard mapping gives it are carried.
#[derive(Debug, Clone, Copy)]
pub enum OverlayEvent {
    Expose,
    FocusIn,
    FocusOut,
    ButtonPress { button: u32, x: i32, y: i32 },
    /// The latest pointer position, after any queued motion was drained.
    Motion { x: i32, y: i32 },
    ButtonRelease { button: u32, x: i32, y: i32 },
    KeyPress { keycode: u32, keysym: u64 },
    Other,
}

/// What the overlay does in answer to an event.
#[derive(Debug, Clone, Copy)]
pub enum OverlayAction {
    /// Nothing to do.
    Nothing,
    /// Copy the back buffer to the window again.
    Blit,
    /// Grab the keyboard and take the input focus back.
    Regrab,
    /// Redraw the back buffer with this selection and pointer, then show it.
    Redraw { selection: Option<SelectionRect>, cursor: Option<CursorPos> },
    /// Close the overlay without a selection.
    Cancel,
    /// Close the overlay with this selection.
    Confirm(SelectionRect),
}

/// The overlay's state between events.
#[derive(Debug, Clone, Copy)]
pub struct OverlaySession {
    pub drag: DragState,
    pub cursor: Option<CursorPos>,
    pub keys: OverlayKeys,
}

/// Whether a key press cancels the selection: Escape or `q` by keycode, or
/// Escape, `q` or `Q` by keysym.
pub open spec fn is_cancel_key(keys: OverlayKeys, keycode: u32, keysym: u64) -> bool {
    keycode == keys.escape || keycode == keys.q || keysym == XK_ESCAPE || keysym == XK_LOWER_Q
        || keysym == XK_UPPER_Q
}

/// Whether a key press is the confirming Return key.
pub open spec fn is_confirm_key(keys: OverlayKeys, keycode: u32, keysym: u64) -> bool {
    keycode == keys.enter || keysym == XK_RETURN
}

/// The overlay's answer to one event, and its state after it.
///
/// - A left press starts a drag; a right press cancels.
/// - Motion records the pointer and redraws, with the selection so far
///   while a drag is on.
/// - Releasing the left button ends the drag: a selection of at least two
///   pixels each way confirms; a smaller one is dropped and the overlay stays
///   open for another try.
/// - Escape or `q` cancels; Return confirms the selection up to the pointer
///   when a drag is on and that selection is large enough.
pub open spec fn overlay_step(s: OverlaySession, e: OverlayEvent) -> (OverlaySession, OverlayAction) {
    match e {
        OverlayEvent::Expose => (s, OverlayAction::Blit),
        OverlayEvent::FocusIn => (s, OverlayAction::Nothing),
        OverlayEvent::FocusOut => (s, OverlayAction::Regrab),
        OverlayEvent::ButtonPress { button, x, y } => {
            if button == 1 {
                (
                    OverlaySession { drag: DragState { active: true, start_x: x, start_y: y }, ..s },
                    OverlayAction::Nothing,
                )
            } else if button == 3 {
                (s, OverlayAction::Cancel)
            } else {
                (s, OverlayAction::Nothing)
            }
        },
        OverlayEvent::Motion { x, y } => {
            let cursor = CursorPos { x, y };
            let selection = if s.drag.active {
                Some(spec_from_points(s.drag.start_x, s.drag.start_y, x, y))
            } else {
                None
            };
            (
                OverlaySession { cursor: Some(cursor), ..s },
                OverlayAction::Redraw { selection, cursor: Some(cursor) },
            )
        },
        OverlayEvent::ButtonRelease { button, x, y } => {
            if button == 1 && s.drag.active {
                let sel = spec_from_points(s.drag.start_x, s.drag.start_y, x, y);
                let next = OverlaySession { drag: DragState { active: false, ..s.drag }, ..s };
                if spec_is_valid(sel) {
                    (next, OverlayAction::Confirm(sel))
                } else {
                    (next, OverlayAction::Redraw { selection: None, cursor: s.cursor })
                }
            } else {
                (s, OverlayAction::Nothing)
            }
        },
        OverlayEvent::KeyPress { keycode, keysym } => {
            if is_cancel_key(s.keys, keycode, keysym) {
                (s, OverlayAction::Cancel)
            } else if s.drag.active && is_confirm_key(s.keys, keycode, keysym) && s.cursor is Some {
                let c = s.cursor->0;
                let sel = spec_from_points(s.drag.start_x, s.drag.start_y, c.x, c.y);
                if spec_is_valid(sel) {
                    (s, OverlayAction::Confirm(sel))
                } else {
                    (s, OverlayAction::Nothing)
                }
            } else {
                (s, OverlayAction::Nothing)
            }
        },
        OverlayEvent::Other => (s, OverlayAction::Nothing),
    }
}

impl OverlaySession {
    /// A fresh overlay: no drag, no known pointer position.
    pub fn new(keys: OverlayKeys) -> (s: Self)
        ensures
            !s.drag.active,
            s.cursor is None,
            s.keys == keys,
    {
        OverlaySession { drag: DragState::new(), cursor: None, keys }
    }

    /// Decides the overlay's answer to one event and updates its state.
    pub fn handle_event(&mut self, event: OverlayEvent) -> (action: OverlayAction)
        ensures
            (*final(self), action) == overlay_step(*old(self), event),
    {
        match event {
            OverlayEvent::Expose => OverlayAction::Blit,
            OverlayEvent::FocusIn => OverlayAction::Nothing,
            OverlayEvent::FocusOut => OverlayAction::Regrab,
            OverlayEvent::ButtonPress { button, x, y } => {
                if button == 1 {
                    self.drag.begin(x, y);
                    OverlayAction::Nothing
                } else if button == 3 {
                    OverlayAction::Cancel
                } else {
                    OverlayAction::Nothing
                }
            },
            OverlayEvent::Motion { x, y } => {
                let cursor = CursorPos { x, y };
                self.cursor = Some(cursor);
                let selection = if self.drag.active {
                    Some(self.drag.to_selection(x, y))
                } else {
                    None
                };
                OverlayAction::Redraw { selection, cursor: Some(cursor) }
            },
            OverlayEvent::ButtonRelease { button, x, y } => {
                if button == 1 && self.drag.active {
                    let sel = self.drag.to_selection(x, y);
                    self.drag.reset();
                    if sel.is_valid() {
                        OverlayAction::Confirm(sel)
                    } else {
                        OverlayAction::Redraw { selection: None, cursor: self.cursor }
                    }
                } else {
                    OverlayAction::Nothing
                }
            },
            OverlayEvent::KeyPress { keycode, keysym } => {
                let keys = self.keys;
                if keycode == keys.escape || keycode == keys.q || keysym == XK_ESCAPE || keysym
                    == XK_LOWER_Q || keysym == XK_UPPER_Q {
                    OverlayAction::Cancel
                } else if self.drag.active && (keycode == keys.enter || keysym == XK_RETURN) {
                    match self.cursor {
                        Some(c) => {
                            let sel = self.drag.to_selection(c.x, c.y);
                            if sel.is_valid() {
                                OverlayAction::Confirm(sel)
                            } else {
                                OverlayAction::Nothing
                            }
                        },
                        None => OverlayAction::Nothing,
                    }
                } else {
                    OverlayAction::Nothing
                }
            },
            OverlayEvent::Other => OverlayAction::Nothing,
        }
    }
}

/// The overlay only ever closes with a selection of at least two pixels on
/// each axis.
pub proof fn lemma_confirmed_selection_is_valid(s: OverlaySession, e: OverlayEvent)
    ensures
        overlay_step(s, e).1 matches OverlayAction::Confirm(sel) ==> spec_is_valid(sel),
{
}

/// A click without a drag (press and release at one point) never closes
/// the overlay, and leaves no drag behind.
pub proof fn lemma_click_without_drag_keeps_overlay_open(s: OverlaySession, x: i32, y: i32)
    ensures
        ({
            let (s1, a1) = overlay_step(s, OverlayEvent::ButtonPress { button: 1, x, y });
            let (s2, a2) = overlay_step(s1, OverlayEvent::ButtonRelease { button: 1, x, y });
            &&& a1 is Nothing
            &&& a2 is Redraw
            &&& !s2.drag.active
        }),
{
    crate::selection::lemma_single_click_is_invalid(x, y);
}

/// The right button, Escape and `q` always close the overlay without a
/// selection, whatever the state.
pub proof fn lemma_cancel_inputs_always_cancel(s: OverlaySession, x: i32, y: i32, keysym: u64)
    ensures
        overlay_step(s, OverlayEvent::ButtonPress { button: 3, x, y }).1 is Cancel,
        overlay_step(s, OverlayEvent::KeyPress { keycode: s.keys.escape, keysym }).1 is Cancel,
        overlay_step(s, OverlayEvent::KeyPress { keycode: s.keys.q, keysym }).1 is Cancel,
{
}

/// Only the left button starts a drag: a press of any other button leaves
/// the drag as it was, and no other event turns an idle overlay into one
/// with a drag on. A left press starts the drag where it happens.
pub proof fn lemma_only_left_button_starts_a_drag(s: OverlaySession, e: OverlayEvent)
    ensures
        ({
            let t = overlay_step(s, e).0;
            match e {
                OverlayEvent::ButtonPress { button, x, y } => if button == 1 {
                    t.drag.active && t.drag.start_x == x && t.drag.start_y == y
                } else {
                    t.drag == s.drag
                },
                _ => !s.drag.active ==> !t.drag.active,
            }
        }),
{
}

/// The overlay confirms only a region the user dragged: a drag was on, and
/// the selection spans from where it started to where the left button was
/// released, or to the pointer when Return is pressed.
pub proof fn lemma_confirm_spans_the_drag(s: OverlaySession, e: OverlayEvent)
    ensures
        overlay_step(s, e).1 matches OverlayAction::Confirm(r) ==> {
            &&& s.drag.active
            &&& match e {
                OverlayEvent::ButtonRelease { button, x, y } => button == 1 && r
                    == spec_from_points(s.drag.start_x, s.drag.start_y, x, y),
                OverlayEvent::KeyPress { .. } => s.cursor matches Some(c) && r == spec_from_points(
                    s.drag.start_x,
                    s.drag.start_y,
                    c.x,
                    c.y,
                ),
                _ => false,
            }
        },
{
}

/// After a pointer or keyboard grab fails `attempts` times, whether to try
/// again: up to twenty retries, then give up.
pub fn retry_grab(attempts: u32) -> (next: Option<u32>)
    ensures
        attempts < GRAB_RETRIES ==> next == Some((attempts + 1) as u32),
        attempts >= GRAB_RETRIES ==> next is None,
{
    if attempts < GRAB_RETRIES {
        Some(attempts + 1)
    } else {
        None
    }
}

/// What one redraw of the back buffer shows, besides the dimmed screen.
#[derive(Debug, Clone, Copy)]
pub struct RedrawPlan {
    /// A selection large enough to draw, with its border, handles and panel.
    pub selection: Option<SelectionRect>,
    /// Where to draw the crosshair guides and coordinate tooltip, when no
    /// selection is drawn.
    pub guides: Option<CursorPos>,
    /// Whether the help bar shows the instructions for a selection in
    /// progress.
    pub help_has_selection: bool,
}

/// Decides what a redraw shows: a valid selection, or else the crosshair at
/// the pointer; the help bar follows whether any selection is in progress.
pub fn redraw_plan(selection: Option<SelectionRect>, cursor: Option<CursorPos>) -> (p: RedrawPlan)
    ensures
        p.help_has_selection == selection is Some,
        (selection matches Some(s) && spec_is_valid(s)) ==> p.selection == selection && p.guides
            is None,
        !(selection matches Some(s) && spec_is_valid(s)) ==> p.selection is None && p.guides
            == cursor,
{
    let has = selection.is_some();
    match selection {
        Some(s) => {
            if s.is_valid() {
                RedrawPlan { selection: Some(s), guides: None, help_has_selection: has }
            } else {
                RedrawPlan { selection: None, guides: cursor, help_has_selection: has }
            }
        },
        None => RedrawPlan { selection: None, guides: cursor, help_has_selection: has },
    }
}

/// Why the overlay closed without pixels.
#[derive(Debug, Clone, Copy, PartialEq, Eq)]
pub enum OverlayError {
    /// The screen could not be read before the overlay was shown.
    BackgroundCaptureFailed,
    /// The pointer could not be grabbed.
    PointerGrabFailed,
    /// The keyboard could not be grabbed.
    KeyboardGrabFailed,
    /// The user cancelled, or the selection had no area on the screen.
    Cancelled,
}

/// The message of an overlay error.
pub open spec fn overlay_error_message(e: OverlayError) -> Seq<char> {
    match e {
        OverlayError::BackgroundCaptureFailed => "XGetImage failed — cannot capture background"@,
        OverlayError::PointerGrabFailed =>
            "Failed to grab pointer after 20 retries — another app may be holding a grab"@,
        OverlayError::KeyboardGrabFailed => "Failed to grab keyboard after 20 retries"@,
        OverlayError::Cancelled => "Selection cancelled"@,
    }
}

impl OverlayError {
    /// The error's message.
    pub fn message(&self) -> (s: &'static str)
        ensures
            s@ == overlay_error_message(*self),
    {
        match self {
            OverlayError::BackgroundCaptureFailed => "XGetImage failed — cannot capture background",
            OverlayError::PointerGrabFailed =>
                "Failed to grab pointer after 20 retries — another app may be holding a grab",
            OverlayError::KeyboardGrabFailed => "Failed to grab keyboard after 20 retries",
            OverlayError::Cancelled => "Selection cancelled",
        }
    }
}

/// The selection rectangle and the RGBA pixels under it, read from the
/// screen before the overlay was shown.
pub struct CaptureResult {
    pub selection: SelectionRect,
    pub pixels: Vec<u8>,
}

/// Turns the overlay's outcome into its result: the confirmed selection is
/// clamped to the screen, and if it still has area its pixels are copied
/// out of the background image; otherwise the overlay counts as cancelled.
pub fn finish_overlay(outcome: Option<SelectionRect>, background: &RawImage, sw: u32, sh: u32) -> (r:
    Result<CaptureResult, OverlayError>)
    requires
        background.wf(),
    ensures
        match outcome {
            None => r == Err::<CaptureResult, OverlayError>(OverlayError::Cancelled),
            Some(sel) => {
                let c = spec_clamped(sel, sw, sh);
                if !spec_is_valid(c) {
                    r == Err::<CaptureResult, OverlayError>(OverlayError::Cancelled)
                } else {
                    r matches Ok(res) && res.selection == c && {
                        let p = spec_clamped(c, background.width, background.height);
                        &&& res.pixels@.len() == p.width * p.height * 4
                        &&& forall|row: int, col: int, k: int|
                            0 <= row < p.height && 0 <= col < p.width && 0 <= k < 4
                                ==> #[trigger] res.pixels@[slot(p.width as int, row, col, k)]
                                == rgba_in(background, p, row, col, k)
                    }
                }
            },
        },
{
    match outcome {
        None => Err(OverlayError::Cancelled),
        Some(sel) => {
            let sel = sel.clamped_to(sw, sh);
            if !sel.is_valid() {
                return Err(OverlayError::Cancelled);
            }
            let pixels = extract_region(background, &sel);
            Ok(CaptureResult { selection: sel, pixels })
        },
    }
}

} // verus!
