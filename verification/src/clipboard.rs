//! The order in which the clipboard is tried.
//!
//! Every way of copying an image keeps working after this process exits
//! except `arboard`, whose selection lasts only while the process lives; the
//! last resort copies the saved file's path as text.

use vstd::prelude::*;

verus! {

/// One way of putting the screenshot on the clipboard.
#[derive(Debug, Clone, Copy, PartialEq, Eq, Structural)]
pub enum ClipboardMethod {
    /// `xclip` with the PNG bytes as `image/png`.
    XclipImage,
    /// The `arboard` crate with the raw RGBA pixels.
    Arboard,
    /// `xclip` with the file's path as text.
    XclipText,
    /// `xsel` with the file's path as text.
    XselText,
}

/// Why nothing could be put on the clipboard.
#[derive(Debug, Clone, Copy, PartialEq, Eq, Structural)]
pub enum ClipboardError {
    /// No tool could take even the file's path as text.
    NoTextTool,
}

impl ClipboardError {
    /// The error's message.
    pub fn message(&self) -> (s: &'static str)
        ensures
            s@ == "No clipboard tool available for text fallback"@,
    {
        "No clipboard tool available for text fallback"
    }
}

/// What to do next to fill the clipboard.
#[derive(Debug, Clone, Copy, PartialEq, Eq, Structural)]
pub enum ClipboardStep {
    /// Try this method.
    Try(ClipboardMethod),
    /// Stop: this method worked.
    Copied(ClipboardMethod),
    /// Stop: no method worked.
    Failed(ClipboardError),
}

/// The method tried after `m` fails, if there is one.
pub open spec fn next_method(m: ClipboardMethod) -> Option<ClipboardMethod> {
    match m {
        ClipboardMethod::XclipImage => Some(ClipboardMethod::Arboard),
        ClipboardMethod::Arboard => Some(ClipboardMethod::XclipText),
        ClipboardMethod::XclipText => Some(ClipboardMethod::XselText),
        ClipboardMethod::XselText => None,
    }
}

/// Decides the next step of copying a screenshot to the clipboard, from
/// the method tried last and whether it worked (nothing tried yet at the
/// start).
///
/// The methods are tried in a fixed order: `xclip` with the image, then
/// `arboard`, then the file's path as text with `xclip`, then with `xsel`.
/// The first one that works ends the copy; if all fail, so does the copy.
pub fn copy_to_clipboard(last: Option<(ClipboardMethod, bool)>) -> (step: ClipboardStep)
    ensures
        last is None ==> step == ClipboardStep::Try(ClipboardMethod::XclipImage),
        last matches Some((m, true)) ==> step == ClipboardStep::Copied(m),
        last matches Some((m, false)) ==> match next_method(m) {
            Some(n) => step == ClipboardStep::Try(n),
            None => step == ClipboardStep::Failed(ClipboardError::NoTextTool),
        },
{
    match last {
        None => ClipboardStep::Try(ClipboardMethod::XclipImage),
        Some((m, true)) => ClipboardStep::Copied(m),
        Some((m, false)) => match m {
            ClipboardMethod::XclipImage => ClipboardStep::Try(ClipboardMethod::Arboard),
            ClipboardMethod::Arboard => ClipboardStep::Try(ClipboardMethod::XclipText),
            ClipboardMethod::XclipText => ClipboardStep::Try(ClipboardMethod::XselText),
            ClipboardMethod::XselText => ClipboardStep::Failed(ClipboardError::NoTextTool),
        },
    }
}

/// The copy fails only when every method has failed: each method but the
/// last is followed by another.
pub proof fn lemma_fails_only_after_every_method(m: ClipboardMethod)
    ensures
        next_method(m) is None <==> m == ClipboardMethod::XselText,
{
}

} // verus!
