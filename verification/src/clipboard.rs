//! What is done to put a text into the clipboard.

use vstd::prelude::*;
use crate::text_injection::{CommandSpec, ToolCommand};

verus! {

/// Puts texts into the clipboard.
#[derive(Debug, Clone, Copy, PartialEq, Eq, Structural)]
pub struct ClipboardManager {
    preserve_previous: bool,
}

/// What a copy comes to.
#[derive(Debug, Clone, Copy, PartialEq, Eq, Structural)]
pub enum CopyPlan {
    /// Nothing is written: the text is empty.
    Nothing,
    /// The text is written, after the clipboard was read where its content is
    /// to be kept.
    Write { read_previous: bool },
}

/// The command that takes `text` where the clipboard itself refuses it.
pub open spec fn wayland_fallback_spec(text: Seq<char>) -> CommandSpec {
    CommandSpec { program: "wl-copy"@, args: Seq::empty(), stdin: Some(text) }
}

impl ClipboardManager {
    /// Whether the content of the clipboard is read before it is replaced.
    pub closed spec fn preserve(&self) -> bool {
        self.preserve_previous
    }

    /// A manager that does not keep what the clipboard held.
    pub fn new() -> (r: Self)
        ensures
            !r.preserve(),
    {
        ClipboardManager { preserve_previous: false }
    }

    /// The manager with keeping switched on or off.
    pub fn with_preserve(self, preserve: bool) -> (r: Self)
        ensures
            r.preserve() == preserve,
    {
        ClipboardManager { preserve_previous: preserve }
    }

    /// What copying `text` comes to.
    pub fn copy_text(&self, text: &str) -> (r: CopyPlan)
        ensures
            text@.len() == 0 ==> r == CopyPlan::Nothing,
            text@.len() > 0 ==> r == (CopyPlan::Write { read_previous: self.preserve() }),
    {
        if text.is_empty() {
            CopyPlan::Nothing
        } else {
            CopyPlan::Write { read_previous: self.preserve_previous }
        }
    }

    /// The command that takes `text` where the clipboard itself refuses it.
    pub fn copy_with_wayland_fallback(text: &str) -> (r: ToolCommand)
        ensures
            r@ == wayland_fallback_spec(text@),
    {
        let args: Vec<String> = Vec::new();
        assert(crate::text::string_views(args@) =~= Seq::<Seq<char>>::empty());
        ToolCommand { program: "wl-copy".to_owned(), args, stdin: Some(text.to_owned()) }
    }
}

} // verus!
