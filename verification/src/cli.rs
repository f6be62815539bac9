//! The command line: modes, the display-server check, help text and exit
//! codes.

use vstd::prelude::*;
use crate::capture::CaptureError;
use crate::hotkey::HotkeyError;
use crate::text::str_eq;

verus! {

/// What the program was asked to do.
#[derive(Debug)]
pub enum Mode {
    /// Take one screenshot (no argument, or `--capture`).
    Capture,
    /// Run as the hotkey daemon (`--daemon`).
    Daemon,
    /// Print the version (`--version` or `-v`).
    Version,
    /// Print the help (`--help` or `-h`).
    Help,
    /// An argument that is none of these.
    Unknown(String),
}

/// Reads the mode from the program's first argument.
pub fn parse_mode(arg: Option<&str>) -> (m: Mode)
    ensures
        match arg {
            None => m is Capture,
            Some(a) => if a@ == "--capture"@ {
                m is Capture
            } else if a@ == "--daemon"@ {
                m is Daemon
            } else if a@ == "--version"@ || a@ == "-v"@ {
                m is Version
            } else if a@ == "--help"@ || a@ == "-h"@ {
                m is Help
            } else {
                m matches Mode::Unknown(u) && u@ == a@
            },
        },
{
    match arg {
        None => Mode::Capture,
        Some(a) => {
            if str_eq(a, "--capture") {
                Mode::Capture
            } else if str_eq(a, "--daemon") {
                Mode::Daemon
            } else if str_eq(a, "--version") || str_eq(a, "-v") {
                Mode::Version
            } else if str_eq(a, "--help") || str_eq(a, "-h") {
                Mode::Help
            } else {
                Mode::Unknown(String::from_str(a))
            }
        },
    }
}

/// The kind of graphical session the program runs in.
#[derive(Debug, Clone, Copy, PartialEq, Eq, Structural)]
pub enum DisplayServer {
    /// Wayland without XWayland: the program cannot work.
    PureWayland,
    /// Wayland with XWayland: the program works through XWayland.
    XWayland,
    /// A plain X11 session.
    X11,
    /// No display server at all: the program cannot work.
    NoDisplay,
}

/// Tells the session kind from whether `WAYLAND_DISPLAY` and `DISPLAY` are
/// set.
pub fn display_server(wayland_set: bool, display_set: bool) -> (d: DisplayServer)
    ensures
        d == if wayland_set && !display_set {
            DisplayServer::PureWayland
        } else if wayland_set {
            DisplayServer::XWayland
        } else if display_set {
            DisplayServer::X11
        } else {
            DisplayServer::NoDisplay
        },
{
    if wayland_set && !display_set {
        DisplayServer::PureWayland
    } else if wayland_set {
        DisplayServer::XWayland
    } else if display_set {
        DisplayServer::X11
    } else {
        DisplayServer::NoDisplay
    }
}

/// The exit code of a capture: 0 for a screenshot or a cancellation, 2 for
/// a missing display, 3 for a failed screen read, 4 for a failed save and 1
/// for anything else.
pub fn capture_exit_code(result: &Result<String, CaptureError>) -> (code: i32)
    ensures
        code == match result {
            Ok(_) => 0i32,
            Err(CaptureError::Cancelled) => 0,
            Err(CaptureError::DisplayNotFound(_)) => 2,
            Err(CaptureError::ScreenCaptureFailed(_)) => 3,
            Err(CaptureError::SaveFailed(_)) => 4,
            Err(CaptureError::Other(_)) => 1,
        },
{
    match result {
        Ok(_) => 0,
        Err(CaptureError::Cancelled) => 0,
        Err(CaptureError::DisplayNotFound(_)) => 2,
        Err(CaptureError::ScreenCaptureFailed(_)) => 3,
        Err(CaptureError::SaveFailed(_)) => 4,
        Err(CaptureError::Other(_)) => 1,
    }
}

/// The exit code of the daemon: 0 when it stopped cleanly or another
/// application owns the hotkey (so that a supervisor does not restart it in
/// a loop), 1 for any other failure.
pub fn daemon_exit_code(result: &Result<(), HotkeyError>) -> (code: i32)
    ensures
        code == match result {
            Ok(_) => 0i32,
            Err(HotkeyError::Conflict) => 0,
            Err(HotkeyError::Other(_)) => 1,
        },
{
    match result {
        Ok(_) => 0,
        Err(HotkeyError::Conflict) => 0,
        Err(HotkeyError::Other(_)) => 1,
    }
}

/// The text printed by `--version`.
pub fn version_text(version: &str) -> (s: String)
    ensures
        s@ == "MintShot v"@ + version@ + "\nLightweight partial screenshot tool for Linux\n"@,
{
    let mut s = String::from_str("MintShot v");
    s.append(version);
    s.append("\nLightweight partial screenshot tool for Linux\n");
    s
}

/// Everything of the help text after its first line.
pub open spec fn help_body() -> Seq<char> {
    " — Lightweight Partial Screenshot Tool

USAGE:
  mintshot [OPTIONS]

OPTIONS:
  (no args)    Take a screenshot immediately
  --capture    Same as no args
  --daemon     Run as background hotkey listener
  --version    Show version
  --help       Show this help

HOTKEY (daemon mode):
  Ctrl+Shift+S    Take screenshot

CONTROLS (during capture):
  Click+Drag      Select region
  Release         Confirm & save
  Enter           Confirm current selection
  ESC / Q         Cancel
  Right Click     Cancel

FILES:
  ~/Pictures/MintShot/    Screenshot save directory

EXIT CODES:
  0    Success or user cancelled
  1    General error
  2    X display not available
  3    Screen capture failed
  4    File save failed

Screenshots are auto-copied to clipboard (Ctrl+V ready).
"@
}

/// The text printed by `--help`.
pub fn help_text(version: &str) -> (s: String)
    ensures
        s@ == "MintShot v"@ + version@ + help_body(),
{
    let mut s = String::from_str("MintShot v");
    s.append(version);
    s.append(
        " — Lightweight Partial Screenshot Tool

USAGE:
  mintshot [OPTIONS]

OPTIONS:
  (no args)    Take a screenshot immediately
  --capture    Same as no args
  --daemon     Run as background hotkey listener
  --version    Show version
  --help       Show this help

HOTKEY (daemon mode):
  Ctrl+Shift+S    Take screenshot

CONTROLS (during capture):
  Click+Drag      Select region
  Release         Confirm & save
  Enter           Confirm current selection
  ESC / Q         Cancel
  Right Click     Cancel

FILES:
  ~/Pictures/MintShot/    Screenshot save directory

EXIT CODES:
  0    Success or user cancelled
  1    General error
  2    X display not available
  3    Screen capture failed
  4    File save failed

Screenshots are auto-copied to clipboard (Ctrl+V ready).
",
    );
    s
}

} // verus!
