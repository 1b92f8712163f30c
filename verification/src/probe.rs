//! Looking up helper programs on the search path.

use vstd::prelude::*;

verus! {

/// `which::which`: the path of the executable called `name` that the search
/// path leads to, if there is one. The answer depends on the environment and
/// on what is on disk, so nothing is claimed of it.
#[verifier::external_body]
pub(crate) fn which_path(name: &str) -> (r: Option<String>) {
    which::which(name).ok().map(|p| p.to_string_lossy().into_owned())
}

/// Whether an executable called `name` is on the search path right now.
pub fn tool_present(name: &str) -> (r: bool) {
    which_path(name).is_some()
}

} // verus!
