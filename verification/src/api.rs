//! What the control endpoint hands to the pipeline and reports of it.

use vstd::prelude::*;

verus! {

/// A command from the control endpoint.
#[derive(Debug, Clone, Copy, PartialEq, Eq, Structural)]
pub enum ApiCommand {
    ToggleRecording,
}

/// The word that reports the recording flag.
pub open spec fn status_label_spec(recording: bool) -> Seq<char> {
    if recording {
        "recording"@
    } else {
        "idle"@
    }
}

/// The word that reports the recording flag.
pub fn status_label(recording: bool) -> (r: &'static str)
    ensures
        r@ == status_label_spec(recording),
{
    if recording {
        "recording"
    } else {
        "idle"
    }
}

} // verus!
