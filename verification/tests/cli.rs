use mintshot::capture::CaptureError;
use mintshot::cli::{
    capture_exit_code, daemon_exit_code, display_server, help_text, parse_mode, version_text,
    DisplayServer, Mode,
};
use mintshot::hotkey::HotkeyError;

#[test]
fn modes_from_the_first_argument() {
    assert!(matches!(parse_mode(None), Mode::Capture));
    assert!(matches!(parse_mode(Some("--capture")), Mode::Capture));
    assert!(matches!(parse_mode(Some("--daemon")), Mode::Daemon));
    assert!(matches!(parse_mode(Some("--version")), Mode::Version));
    assert!(matches!(parse_mode(Some("-v")), Mode::Version));
    assert!(matches!(parse_mode(Some("--help")), Mode::Help));
    assert!(matches!(parse_mode(Some("-h")), Mode::Help));
    match parse_mode(Some("--dæmon")) {
        Mode::Unknown(a) => assert_eq!(a, "--dæmon"),
        other => panic!("unexpected {:?}", other),
    }
}

#[test]
fn display_servers() {
    assert_eq!(display_server(true, false), DisplayServer::PureWayland);
    assert_eq!(display_server(true, true), DisplayServer::XWayland);
    assert_eq!(display_server(false, true), DisplayServer::X11);
    assert_eq!(display_server(false, false), DisplayServer::NoDisplay);
}

#[test]
fn exit_codes() {
    assert_eq!(capture_exit_code(&Ok("/x.png".to_string())), 0);
    assert_eq!(capture_exit_code(&Err(CaptureError::Cancelled)), 0);
    assert_eq!(capture_exit_code(&Err(CaptureError::DisplayNotFound(String::new()))), 2);
    assert_eq!(capture_exit_code(&Err(CaptureError::ScreenCaptureFailed(String::new()))), 3);
    assert_eq!(capture_exit_code(&Err(CaptureError::SaveFailed(String::new()))), 4);
    assert_eq!(capture_exit_code(&Err(CaptureError::Other(String::new()))), 1);
    assert_eq!(daemon_exit_code(&Ok(())), 0);
    assert_eq!(daemon_exit_code(&Err(HotkeyError::Conflict)), 0);
    assert_eq!(daemon_exit_code(&Err(HotkeyError::Other(String::new()))), 1);
}

#[test]
fn version_and_help_texts() {
    assert_eq!(
        version_text("1.2.3"),
        "MintShot v1.2.3\nLightweight partial screenshot tool for Linux\n"
    );
    let h = help_text("1.2.3");
    assert!(h.starts_with("MintShot v1.2.3 — Lightweight Partial Screenshot Tool\n\nUSAGE:\n"));
    assert!(h.contains("  --daemon     Run as background hotkey listener\n"));
    assert!(h.ends_with("Screenshots are auto-copied to clipboard (Ctrl+V ready).\n"));
}
