use mintshot::capture::{
    desktop_geometry, take_partial_screenshot, CaptureAction, CaptureError, CaptureEvent,
    CaptureStage, Xinerama, XineramaScreen,
};
use mintshot::overlay::OverlayError;
use mintshot::selection::DesktopGeometry;

fn screen(x: i16, y: i16, w: i16, h: i16) -> XineramaScreen {
    XineramaScreen { x_org: x, y_org: y, width: w, height: h }
}

fn fallback() -> DesktopGeometry {
    DesktopGeometry { x: 0, y: 0, width: 1920, height: 1080, root: 42 }
}

#[test]
fn geometry_falls_back_to_the_default_screen() {
    assert_eq!(desktop_geometry(1920, 1080, 42, &Xinerama::Absent), fallback());
    assert_eq!(desktop_geometry(1920, 1080, 42, &Xinerama::Inactive), fallback());
    assert_eq!(desktop_geometry(1920, 1080, 42, &Xinerama::Screens(vec![])), fallback());
    // Negative sizes count as zero, and a box without area is not used.
    assert_eq!(
        desktop_geometry(1920, 1080, 42, &Xinerama::Screens(vec![screen(0, 0, -5, 100)])),
        fallback()
    );
}

#[test]
fn geometry_spans_every_monitor() {
    let g = desktop_geometry(
        1920,
        1080,
        7,
        &Xinerama::Screens(vec![screen(0, 0, 1920, 1080), screen(-1280, -200, 1280, 1024)]),
    );
    assert_eq!(g, DesktopGeometry { x: -1280, y: -200, width: 3200, height: 1280, root: 7 });
}

#[test]
fn failure_messages_are_classified() {
    assert!(matches!(
        CaptureError::from_message(OverlayError::Cancelled.message().to_string()),
        CaptureError::Cancelled
    ));
    match CaptureError::from_message(OverlayError::BackgroundCaptureFailed.message().to_string()) {
        CaptureError::ScreenCaptureFailed(m) => {
            assert_eq!(m, "XGetImage failed — cannot capture background")
        }
        other => panic!("unexpected {:?}", other),
    }
    assert!(matches!(
        CaptureError::from_message(OverlayError::PointerGrabFailed.message().to_string()),
        CaptureError::Other(_)
    ));
    assert!(matches!(
        CaptureError::from_message("cannot open X display :0".to_string()),
        CaptureError::DisplayNotFound(_)
    ));
    assert!(matches!(
        CaptureError::from_message("XOpenDisplay failed".to_string()),
        CaptureError::DisplayNotFound(_)
    ));
    assert!(matches!(
        CaptureError::from_message("could not capture background".to_string()),
        CaptureError::ScreenCaptureFailed(_)
    ));
    // A cancellation wins over the other words.
    assert!(matches!(
        CaptureError::from_message("XGetImage cancelled".to_string()),
        CaptureError::Cancelled
    ));
}

#[test]
fn error_messages() {
    assert_eq!(CaptureError::Cancelled.message(), "screenshot cancelled by user");
    assert_eq!(
        CaptureError::DisplayNotFound("x".to_string()).message(),
        "X display not available: x"
    );
    assert_eq!(
        CaptureError::ScreenCaptureFailed("y".to_string()).message(),
        "screen capture failed: y"
    );
    assert_eq!(CaptureError::SaveFailed("z".to_string()).message(), "failed to save PNG: z");
    assert_eq!(CaptureError::Other("w".to_string()).message(), "w");
}

#[test]
fn a_session_runs_its_steps_in_order() {
    let mut stage = CaptureStage::Start;
    assert!(matches!(
        take_partial_screenshot(&mut stage, CaptureEvent::Begin),
        CaptureAction::OpenDisplay
    ));
    let g = fallback();
    match take_partial_screenshot(&mut stage, CaptureEvent::DisplayOpened { geometry: g }) {
        CaptureAction::ShowOverlay { geometry } => assert_eq!(geometry, g),
        other => panic!("unexpected {:?}", other),
    }
    assert!(matches!(
        take_partial_screenshot(&mut stage, CaptureEvent::RegionSelected { width: 640, height: 480 }),
        CaptureAction::SavePng { width: 640, height: 480 }
    ));
    match take_partial_screenshot(
        &mut stage,
        CaptureEvent::Saved { filepath: "/tmp/a.png".to_string() },
    ) {
        CaptureAction::CopyToClipboard { filepath, width: 640, height: 480 } => {
            assert_eq!(filepath, "/tmp/a.png")
        }
        other => panic!("unexpected {:?}", other),
    }
    match take_partial_screenshot(&mut stage, CaptureEvent::ClipboardDone { ok: true }) {
        CaptureAction::Notify { body } => assert_eq!(
            body,
            "640×480 px\n📋 Copied to clipboard — Ctrl+V to paste!\n/tmp/a.png"
        ),
        other => panic!("unexpected {:?}", other),
    }
    match take_partial_screenshot(&mut stage, CaptureEvent::Notified) {
        CaptureAction::Finish { result: Ok(p) } => assert_eq!(p, "/tmp/a.png"),
        other => panic!("unexpected {:?}", other),
    }
    assert!(matches!(stage, CaptureStage::Finished));
}

#[test]
fn clipboard_failure_does_not_fail_the_capture() {
    let mut stage = CaptureStage::CopyingToClipboard {
        filepath: "/p.png".to_string(),
        width: 3,
        height: 4,
    };
    match take_partial_screenshot(&mut stage, CaptureEvent::ClipboardDone { ok: false }) {
        CaptureAction::Notify { body } => {
            assert_eq!(body, "3×4 px\n⚠ Clipboard unavailable — file saved only\n/p.png")
        }
        other => panic!("unexpected {:?}", other),
    }
    assert!(matches!(
        take_partial_screenshot(&mut stage, CaptureEvent::Notified),
        CaptureAction::Finish { result: Ok(_) }
    ));
}

#[test]
fn failures_end_the_session_with_their_error() {
    let mut stage = CaptureStage::OpeningDisplay;
    match take_partial_screenshot(&mut stage, CaptureEvent::DisplayUnavailable { display_env: None }) {
        CaptureAction::Finish { result: Err(CaptureError::DisplayNotFound(m)) } => assert_eq!(
            m,
            "XOpenDisplay failed. DISPLAY=(unset). Is the X server running?"
        ),
        other => panic!("unexpected {:?}", other),
    }
    let mut stage = CaptureStage::OpeningDisplay;
    match take_partial_screenshot(
        &mut stage,
        CaptureEvent::DisplayUnavailable { display_env: Some(":1".to_string()) },
    ) {
        CaptureAction::Finish { result: Err(CaptureError::DisplayNotFound(m)) } => {
            assert_eq!(m, "XOpenDisplay failed. DISPLAY=:1. Is the X server running?")
        }
        other => panic!("unexpected {:?}", other),
    }
    let mut stage = CaptureStage::SelectingRegion;
    assert!(matches!(
        take_partial_screenshot(
            &mut stage,
            CaptureEvent::OverlayFailed { error: OverlayError::Cancelled }
        ),
        CaptureAction::Finish { result: Err(CaptureError::Cancelled) }
    ));
    let mut stage = CaptureStage::SelectingRegion;
    assert!(matches!(
        take_partial_screenshot(
            &mut stage,
            CaptureEvent::OverlayFailed { error: OverlayError::BackgroundCaptureFailed }
        ),
        CaptureAction::Finish { result: Err(CaptureError::ScreenCaptureFailed(_)) }
    ));
    let mut stage = CaptureStage::Saving { width: 1, height: 1 };
    match take_partial_screenshot(&mut stage, CaptureEvent::SaveFailed { message: "disk full".to_string() }) {
        CaptureAction::Finish { result: Err(CaptureError::SaveFailed(m)) } => assert_eq!(m, "disk full"),
        other => panic!("unexpected {:?}", other),
    }
}
