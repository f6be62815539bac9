//! The capture session: the desktop's geometry, the order of the steps of a
//! partial screenshot, and the errors that end it.

use vstd::prelude::*;
use crate::selection::{
    DesktopGeometry, ScreenRect, bounding_box, spec_bounding_box, edges_fit_i32, min_left,
    min_top, max_right, max_bottom, right_edge, bottom_edge, lemma_extremes_attained,
    lemma_bounding_box_is_tight_cover,
};
use crate::overlay::{OverlayError, overlay_error_message};
use crate::text::{contains_str, contains_seq, push_decimal, decimal};

verus! {

/// Why a capture ended without a saved screenshot.
#[derive(Debug)]
pub enum CaptureError {
    /// The user pressed Escape, `q` or the right button: a normal exit.
    Cancelled,
    /// The X display could not be opened.
    DisplayNotFound(String),
    /// The screen could not be read.
    ScreenCaptureFailed(String),
    /// The PNG could not be encoded or written.
    SaveFailed(String),
    /// Any other failure.
    Other(String),
}

/// The kind of failure that a message describes.
#[derive(Debug, Clone, Copy, PartialEq, Eq, Structural)]
pub enum FailureKind {
    Cancelled,
    DisplayNotFound,
    ScreenCaptureFailed,
    Other,
}

/// Classifies a failure by the words in its message: a cancellation, a
/// missing display, a failed screen read, or anything else, tested in that
/// order.
pub open spec fn classify(msg: Seq<char>) -> FailureKind {
    if contains_seq(msg, "cancelled"@) || contains_seq(msg, "Selection cancelled"@) {
        FailureKind::Cancelled
    } else if contains_seq(msg, "X display"@) || contains_seq(msg, "XOpenDisplay"@) {
        FailureKind::DisplayNotFound
    } else if contains_seq(msg, "XGetImage"@) || contains_seq(msg, "capture background"@) {
        FailureKind::ScreenCaptureFailed
    } else {
        FailureKind::Other
    }
}

/// The error for a failure message of the given kind; apart from a
/// cancellation, the message is kept.
pub open spec fn error_matches(e: CaptureError, kind: FailureKind, msg: Seq<char>) -> bool {
    match kind {
        FailureKind::Cancelled => e is Cancelled,
        FailureKind::DisplayNotFound => e matches CaptureError::DisplayNotFound(m) && m@ == msg,
        FailureKind::ScreenCaptureFailed => e matches CaptureError::ScreenCaptureFailed(m) && m@
            == msg,
        FailureKind::Other => e matches CaptureError::Other(m) && m@ == msg,
    }
}

impl CaptureError {
    /// Turns a failure message from the overlay into a typed error, by the
    /// words it contains.
    pub fn from_message(msg: String) -> (e: CaptureError)
        ensures
            error_matches(e, classify(msg@), msg@),
    {
        if contains_str(msg.as_str(), "cancelled") || contains_str(
            msg.as_str(),
            "Selection cancelled",
        ) {
            CaptureError::Cancelled
        } else if contains_str(msg.as_str(), "X display") || contains_str(
            msg.as_str(),
            "XOpenDisplay",
        ) {
            CaptureError::DisplayNotFound(msg)
        } else if contains_str(msg.as_str(), "XGetImage") || contains_str(
            msg.as_str(),
            "capture background",
        ) {
            CaptureError::ScreenCaptureFailed(msg)
        } else {
            CaptureError::Other(msg)
        }
    }

    /// The error's message, as it is shown to the user.
    pub fn message(&self) -> (s: String)
        ensures
            match self {
                CaptureError::Cancelled => s@ == "screenshot cancelled by user"@,
                CaptureError::DisplayNotFound(m) => s@ == "X display not available: "@ + m@,
                CaptureError::ScreenCaptureFailed(m) => s@ == "screen capture failed: "@ + m@,
                CaptureError::SaveFailed(m) => s@ == "failed to save PNG: "@ + m@,
                CaptureError::Other(m) => s@ == m@,
            },
    {
        match self {
            CaptureError::Cancelled => String::from_str("screenshot cancelled by user"),
            CaptureError::DisplayNotFound(m) => {
                let mut s = String::from_str("X display not available: ");
                s.append(m.as_str());
                s
            },
            CaptureError::ScreenCaptureFailed(m) => {
                let mut s = String::from_str("screen capture failed: ");
                s.append(m.as_str());
                s
            },
            CaptureError::SaveFailed(m) => {
                let mut s = String::from_str("failed to save PNG: ");
                s.append(m.as_str());
                s
            },
            CaptureError::Other(m) => m.clone(),
        }
    }
}

/// `pat` occurs in `s` at position `i`, shown by the characters.
proof fn lemma_found_at(s: Seq<char>, pat: Seq<char>, i: int)
    requires
        0 <= i,
        i + pat.len() <= s.len(),
        forall|k: int| 0 <= k < pat.len() ==> s[i + k] == pat[k],
    ensures
        contains_seq(s, pat),
{
    assert(s.subrange(i, i + pat.len()) =~= pat);
    assert(crate::text::occurs_at(s, pat, i));
}

/// A cancelled overlay is reported as a cancellation, which ends the
/// program normally, not as an error.
pub proof fn lemma_cancelled_overlay_is_cancellation()
    ensures
        classify(overlay_error_message(OverlayError::Cancelled)) == FailureKind::Cancelled,
{
    reveal_strlit("Selection cancelled");
    reveal_strlit("cancelled");
    lemma_found_at("Selection cancelled"@, "cancelled"@, 10);
}

// ─── Desktop geometry ────────────────────────────────────────────────────

/// One monitor as the Xinerama extension reports it.
#[derive(Debug, Clone, Copy)]
pub struct XineramaScreen {
    pub x_org: i16,
    pub y_org: i16,
    pub width: i16,
    pub height: i16,
}

/// What the Xinerama extension says about the monitors.
#[derive(Debug)]
pub enum Xinerama {
    /// The extension is not present.
    Absent,
    /// The extension is present but not active.
    Inactive,
    /// The monitors it reports (possibly none).
    Screens(Vec<XineramaScreen>),
}

/// A monitor as a screen rectangle; a negative width or height counts as
/// zero.
pub open spec fn screen_rect(s: XineramaScreen) -> ScreenRect {
    (
        s.x_org as i32,
        s.y_org as i32,
        (if s.width < 0 { 0 } else { s.width as int }) as u32,
        (if s.height < 0 { 0 } else { s.height as int }) as u32,
    )
}

/// A monitor's width or height, a negative one counting as zero.
pub open spec fn clamped_size(v: i16) -> int {
    if v < 0 { 0 } else { v as int }
}

/// The desktop that the overlay covers: the bounding box of every monitor
/// that Xinerama reports; the default screen (at the origin) when Xinerama
/// is absent or inactive, reports no monitor, or the box has no area.
pub open spec fn spec_desktop_geometry(
    default_width: u32,
    default_height: u32,
    root: u64,
    xinerama: Xinerama,
) -> DesktopGeometry {
    let fallback = DesktopGeometry {
        x: 0,
        y: 0,
        width: default_width,
        height: default_height,
        root,
    };
    match xinerama {
        Xinerama::Screens(v) => {
            let rects = v@.map_values(|s: XineramaScreen| screen_rect(s));
            if rects.len() == 0 {
                fallback
            } else {
                let b = spec_bounding_box(rects);
                if b.2 == 0 || b.3 == 0 {
                    fallback
                } else {
                    DesktopGeometry { x: b.0, y: b.1, width: b.2, height: b.3, root }
                }
            }
        },
        _ => fallback,
    }
}

/// Monitor rectangles from 16-bit coordinates keep every edge, and the
/// extent of their box, well inside the `i32` range.
proof fn lemma_short_screens_fit(rects: Seq<ScreenRect>)
    requires
        forall|i: int|
            0 <= i < rects.len() ==> -32768 <= (#[trigger] rects[i]).0 <= 32767 && -32768
                <= rects[i].1 <= 32767 && rects[i].2 <= 32767 && rects[i].3 <= 32767,
    ensures
        edges_fit_i32(rects),
{
    if rects.len() > 0 {
        lemma_extremes_attained(rects);
        let a = choose|i: int| 0 <= i < rects.len() && rects[i].0 == min_left(rects);
        let b = choose|i: int| 0 <= i < rects.len() && rects[i].1 == min_top(rects);
        let c = choose|i: int| 0 <= i < rects.len() && right_edge(rects[i]) == max_right(rects);
        let d = choose|i: int| 0 <= i < rects.len() && bottom_edge(rects[i]) == max_bottom(rects);
        assert(right_edge(rects[c]) == rects[c].0 + rects[c].2);
        assert(bottom_edge(rects[d]) == rects[d].1 + rects[d].3);
    }
    assert forall|i: int| 0 <= i < rects.len() implies i32::MIN <= #[trigger] right_edge(rects[i])
        <= i32::MAX && i32::MIN <= bottom_edge(rects[i]) <= i32::MAX by {
        assert(right_edge(rects[i]) == rects[i].0 + rects[i].2);
        assert(bottom_edge(rects[i]) == rects[i].1 + rects[i].3);
    }
}

/// Works out the desktop that the overlay covers, from the default screen's
/// size and root window and from what Xinerama reports.
pub fn desktop_geometry(default_width: u32, default_height: u32, root: u64, xinerama: &Xinerama) -> (g:
    DesktopGeometry)
    ensures
        g == spec_desktop_geometry(default_width, default_height, root, *xinerama),
{
    let fallback = DesktopGeometry { x: 0, y: 0, width: default_width, height: default_height, root };
    match xinerama {
        Xinerama::Screens(infos) => {
            let mut rects: Vec<ScreenRect> = Vec::new();
            let mut i: usize = 0;
            while i < infos.len()
                invariant
                    i <= infos@.len(),
                    rects@ == infos@.take(i as int).map_values(|s: XineramaScreen| screen_rect(s)),
                decreases infos@.len() - i,
            {
                let s = infos[i];
                let w: u32 = if s.width < 0 { 0 } else { s.width as u32 };
                let h: u32 = if s.height < 0 { 0 } else { s.height as u32 };
                rects.push((s.x_org as i32, s.y_org as i32, w, h));
                assert(infos@.take(i + 1).map_values(|s: XineramaScreen| screen_rect(s))
                    =~= infos@.take(i as int).map_values(|s: XineramaScreen| screen_rect(s)).push(
                    screen_rect(infos@[i as int]),
                ));
                i = i + 1;
            }
            assert(infos@.take(infos@.len() as int) =~= infos@);
            proof {
                lemma_short_screens_fit(rects@);
            }
            match bounding_box(rects.as_slice()) {
                Some((x, y, w, h)) => {
                    if w == 0 || h == 0 {
                        fallback
                    } else {
                        DesktopGeometry { x, y, width: w, height: h, root }
                    }
                },
                None => fallback,
            }
        },
        _ => fallback,
    }
}

/// The desktop covers every monitor that Xinerama reports, and no more:
/// once some monitor has a width and some monitor a height, each monitor
/// lies inside the desktop and each of the desktop's four edges is an edge
/// of some monitor (a negative size counting as none). Without Xinerama, or
/// with no monitor reported, it is the default screen at the origin. The
/// root window is always the default screen's.
pub proof fn lemma_desktop_covers_every_monitor(
    default_width: u32,
    default_height: u32,
    root: u64,
    xinerama: Xinerama,
)
    ensures
        ({
            let g = spec_desktop_geometry(default_width, default_height, root, xinerama);
            &&& g.root == root
            &&& match xinerama {
                Xinerama::Screens(v) => {
                    let m = v@;
                    &&& m.len() == 0 ==> g.x == 0 && g.y == 0 && g.width == default_width
                        && g.height == default_height
                    &&& (exists|i: int| 0 <= i < m.len() && m[i].width > 0) && (exists|j: int|
                        0 <= j < m.len() && m[j].height > 0) ==> {
                        &&& forall|i: int|
                            0 <= i < m.len() ==> {
                                &&& g.x <= (#[trigger] m[i]).x_org
                                &&& g.y <= m[i].y_org
                                &&& m[i].x_org + clamped_size(m[i].width) <= g.x + g.width
                                &&& m[i].y_org + clamped_size(m[i].height) <= g.y + g.height
                            }
                        &&& exists|i: int| 0 <= i < m.len() && m[i].x_org == g.x
                        &&& exists|i: int| 0 <= i < m.len() && m[i].y_org == g.y
                        &&& exists|i: int|
                            0 <= i < m.len() && m[i].x_org + clamped_size(m[i].width) == g.x
                                + g.width
                        &&& exists|i: int|
                            0 <= i < m.len() && m[i].y_org + clamped_size(m[i].height) == g.y
                                + g.height
                    }
                },
                _ => g.x == 0 && g.y == 0 && g.width == default_width && g.height
                    == default_height,
            }
        }),
{
    match xinerama {
        Xinerama::Screens(v) => {
            let m = v@;
            let rects = m.map_values(|s: XineramaScreen| screen_rect(s));
            if m.len() > 0 {
                assert forall|i: int| 0 <= i < rects.len() implies -32768 <= (#[trigger] rects[i]).0
                    <= 32767 && -32768 <= rects[i].1 <= 32767 && rects[i].2 <= 32767 && rects[i].3
                    <= 32767 by {
                    assert(rects[i] == screen_rect(m[i]));
                }
                lemma_short_screens_fit(rects);
                lemma_bounding_box_is_tight_cover(rects);
                let b = spec_bounding_box(rects);
                if (exists|i: int| 0 <= i < m.len() && m[i].width > 0) && (exists|j: int|
                    0 <= j < m.len() && m[j].height > 0) {
                    let i = choose|i: int| 0 <= i < m.len() && m[i].width > 0;
                    let j = choose|j: int| 0 <= j < m.len() && m[j].height > 0;
                    assert(rects[i] == screen_rect(m[i]));
                    assert(rects[j] == screen_rect(m[j]));
                    assert(b.2 > 0 && b.3 > 0);
                    assert forall|k: int| 0 <= k < m.len() implies {
                        let g = spec_desktop_geometry(default_width, default_height, root, xinerama);
                        &&& g.x <= (#[trigger] m[k]).x_org
                        &&& g.y <= m[k].y_org
                        &&& m[k].x_org + clamped_size(m[k].width) <= g.x + g.width
                        &&& m[k].y_org + clamped_size(m[k].height) <= g.y + g.height
                    } by {
                        assert(rects[k] == screen_rect(m[k]));
                    }
                    let a = choose|i: int| 0 <= i < rects.len() && rects[i].0 == b.0;
                    let c = choose|i: int| 0 <= i < rects.len() && rects[i].1 == b.1;
                    let d = choose|i: int| 0 <= i < rects.len() && rects[i].0 + rects[i].2 == b.0 + b.2;
                    let e = choose|i: int| 0 <= i < rects.len() && rects[i].1 + rects[i].3 == b.1 + b.3;
                    assert(rects[a] == screen_rect(m[a]));
                    assert(rects[c] == screen_rect(m[c]));
                    assert(rects[d] == screen_rect(m[d]));
                    assert(rects[e] == screen_rect(m[e]));
                }
            }
        },
        _ => {},
    }
}

// ─── The capture session ─────────────────────────────────────────────────

/// Where a capture session stands.
#[derive(Debug)]
pub enum CaptureStage {
    /// Nothing done yet.
    Start,
    /// Waiting for the X display to open.
    OpeningDisplay,
    /// The overlay is up; waiting for the user's selection.
    SelectingRegion,
    /// Display closed; waiting for the PNG of a `width` x `height` region to
    /// be saved.
    Saving { width: u32, height: u32 },
    /// Saved to `filepath`; waiting for the clipboard copy.
    CopyingToClipboard { filepath: String, width: u32, height: u32 },
    /// Waiting for the desktop notification to be sent.
    Notifying { filepath: String },
    /// The session is over.
    Finished,
}

/// What the last step of a capture session came to.
#[derive(Debug)]
pub enum CaptureEvent {
    /// The session starts.
    Begin,
    /// The display opened; the desktop it shows.
    DisplayOpened { geometry: DesktopGeometry },
    /// The display could not be opened; the `DISPLAY` variable, if set.
    DisplayUnavailable { display_env: Option<String> },
    /// The user selected a region of this size and its pixels were read.
    RegionSelected { width: u32, height: u32 },
    /// The overlay closed without pixels.
    OverlayFailed { error: OverlayError },
    /// The PNG was saved at this path.
    Saved { filepath: String },
    /// The PNG could not be saved, for this reason.
    SaveFailed { message: String },
    /// The clipboard copy is done; whether it worked.
    ClipboardDone { ok: bool },
    /// The notification was sent (or could not be: that does not matter).
    Notified,
}

/// What the capture session does next.
#[derive(Debug)]
pub enum CaptureAction {
    /// Open the X display.
    OpenDisplay,
    /// Show the selection overlay over this desktop.
    ShowOverlay { geometry: DesktopGeometry },
    /// Close the display, then save the selected pixels as a PNG.
    SavePng { width: u32, height: u32 },
    /// Copy the saved PNG (or, failing that, its path) to the clipboard.
    CopyToClipboard { filepath: String, width: u32, height: u32 },
    /// Send a desktop notification with this body.
    Notify { body: String },
    /// The session is over, with this result.
    Finish { result: Result<String, CaptureError> },
}

/// Whether an event is one that the session can receive where it stands.
pub open spec fn expects(stage: CaptureStage, event: CaptureEvent) -> bool {
    match stage {
        CaptureStage::Start => event is Begin,
        CaptureStage::OpeningDisplay => event is DisplayOpened || event is DisplayUnavailable,
        CaptureStage::SelectingRegion => event is RegionSelected || event is OverlayFailed,
        CaptureStage::Saving { .. } => event is Saved || event is SaveFailed,
        CaptureStage::CopyingToClipboard { .. } => event is ClipboardDone,
        CaptureStage::Notifying { .. } => event is Notified,
        CaptureStage::Finished => false,
    }
}

/// The message for a display that could not be opened.
pub open spec fn display_not_found_message(display_env: Option<String>) -> Seq<char> {
    "XOpenDisplay failed. DISPLAY="@ + (match display_env {
        Some(v) => v@,
        None => "(unset)"@,
    }) + ". Is the X server running?"@
}

/// The clipboard line of the notification.
pub open spec fn clipboard_status(ok: bool) -> Seq<char> {
    if ok {
        "📋 Copied to clipboard — Ctrl+V to paste!"@
    } else {
        "⚠ Clipboard unavailable — file saved only"@
    }
}

/// The body of the notification: the size, the clipboard status and the
/// file's path, one per line.
pub open spec fn notification_body(width: u32, height: u32, ok: bool, filepath: Seq<char>) -> Seq<
    char,
> {
    decimal(width as nat) + "×"@ + decimal(height as nat) + " px\n"@ + clipboard_status(ok) + "\n"@
        + filepath
}

/// Advances a partial-screenshot session by one step: from what the last
/// step came to, decides the next one.
///
/// The steps run in order: open the display, show the overlay, save the
/// PNG, copy it to the clipboard, notify. A display that cannot be opened,
/// an overlay that closes without pixels and a failed save each end the
/// session with their error; a failed clipboard copy does not, since the
/// file is already saved.
pub fn take_partial_screenshot(stage: &mut CaptureStage, event: CaptureEvent) -> (action:
    CaptureAction)
    requires
        expects(*old(stage), event),
    ensures
        match (*old(stage), event) {
            (CaptureStage::Start, _) => *final(stage) is OpeningDisplay && action is OpenDisplay,
            (CaptureStage::OpeningDisplay, CaptureEvent::DisplayOpened { geometry }) => {
                &&& *final(stage) is SelectingRegion
                &&& action == CaptureAction::ShowOverlay { geometry }
            },
            (CaptureStage::OpeningDisplay, CaptureEvent::DisplayUnavailable { display_env }) => {
                &&& *final(stage) is Finished
                &&& action matches CaptureAction::Finish {
                    result: Err(CaptureError::DisplayNotFound(m)),
                } && m@ == display_not_found_message(display_env)
            },
            (CaptureStage::SelectingRegion, CaptureEvent::RegionSelected { width, height }) => {
                &&& *final(stage) == CaptureStage::Saving { width, height }
                &&& action == CaptureAction::SavePng { width, height }
            },
            (CaptureStage::SelectingRegion, CaptureEvent::OverlayFailed { error }) => {
                &&& *final(stage) is Finished
                &&& action matches CaptureAction::Finish { result: Err(e) } && error_matches(
                    e,
                    classify(overlay_error_message(error)),
                    overlay_error_message(error),
                )
            },
            (CaptureStage::Saving { width, height }, CaptureEvent::Saved { filepath }) => {
                &&& *final(stage) matches CaptureStage::CopyingToClipboard {
                    filepath: f,
                    width: w,
                    height: h,
                } && f@ == filepath@ && w == width && h == height
                &&& action matches CaptureAction::CopyToClipboard {
                    filepath: f,
                    width: w,
                    height: h,
                } && f@ == filepath@ && w == width && h == height
            },
            (CaptureStage::Saving { .. }, CaptureEvent::SaveFailed { message }) => {
                &&& *final(stage) is Finished
                &&& action matches CaptureAction::Finish {
                    result: Err(CaptureError::SaveFailed(m)),
                } && m@ == message@
            },
            (
                CaptureStage::CopyingToClipboard { filepath, width, height },
                CaptureEvent::ClipboardDone { ok },
            ) => {
                &&& *final(stage) matches CaptureStage::Notifying { filepath: f } && f@
                    == filepath@
                &&& action matches CaptureAction::Notify { body } && body@ == notification_body(
                    width,
                    height,
                    ok,
                    filepath@,
                )
            },
            (CaptureStage::Notifying { filepath }, _) => {
                &&& *final(stage) is Finished
                &&& action matches CaptureAction::Finish { result: Ok(f) } && f@ == filepath@
            },
            _ => false,
        },
{
    let mut current = CaptureStage::Finished;
    std::mem::swap(stage, &mut current);
    match (current, event) {
        (CaptureStage::Start, _) => {
            *stage = CaptureStage::OpeningDisplay;
            CaptureAction::OpenDisplay
        },
        (CaptureStage::OpeningDisplay, CaptureEvent::DisplayOpened { geometry }) => {
            *stage = CaptureStage::SelectingRegion;
            CaptureAction::ShowOverlay { geometry }
        },
        (CaptureStage::OpeningDisplay, CaptureEvent::DisplayUnavailable { display_env }) => {
            let mut m = String::from_str("XOpenDisplay failed. DISPLAY=");
            match &display_env {
                Some(v) => m.append(v.as_str()),
                None => m.append("(unset)"),
            }
            m.append(". Is the X server running?");
            CaptureAction::Finish { result: Err(CaptureError::DisplayNotFound(m)) }
        },
        (CaptureStage::SelectingRegion, CaptureEvent::RegionSelected { width, height }) => {
            *stage = CaptureStage::Saving { width, height };
            CaptureAction::SavePng { width, height }
        },
        (CaptureStage::SelectingRegion, CaptureEvent::OverlayFailed { error }) => {
            let e = CaptureError::from_message(String::from_str(error.message()));
            CaptureAction::Finish { result: Err(e) }
        },
        (CaptureStage::Saving { width, height }, CaptureEvent::Saved { filepath }) => {
            let f = filepath.clone();
            *stage = CaptureStage::CopyingToClipboard { filepath, width, height };
            CaptureAction::CopyToClipboard { filepath: f, width, height }
        },
        (CaptureStage::Saving { .. }, CaptureEvent::SaveFailed { message }) => {
            CaptureAction::Finish { result: Err(CaptureError::SaveFailed(message)) }
        },
        (
            CaptureStage::CopyingToClipboard { filepath, width, height },
            CaptureEvent::ClipboardDone { ok },
        ) => {
            let mut body = String::new();
            push_decimal(&mut body, width as u64);
            body.append("×");
            push_decimal(&mut body, height as u64);
            body.append(" px\n");
            if ok {
                body.append("📋 Copied to clipboard — Ctrl+V to paste!");
            } else {
                body.append("⚠ Clipboard unavailable — file saved only");
            }
            body.append("\n");
            body.append(filepath.as_str());
            assert(body@ =~= notification_body(width, height, ok, filepath@));
            *stage = CaptureStage::Notifying { filepath };
            CaptureAction::Notify { body }
        },
        (CaptureStage::Notifying { filepath }, _) => {
            CaptureAction::Finish { result: Ok(filepath) }
        },
        _ => {
            CaptureAction::Finish { result: Err(CaptureError::Cancelled) }
        },
    }
}

} // verus!
