//! A partial-screenshot tool for X11: region selection, pixel extraction,
//! file naming, PNG encoding and the decisions of the capture, clipboard and
//! hotkey flows, each with its contract.

pub mod selection;
pub mod text;
pub mod overlay;
pub mod capture;
pub mod clipboard;
pub mod hotkey;
pub mod save;
pub mod cli;
