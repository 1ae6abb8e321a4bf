//! The status bar at the bottom of the window.

use vstd::prelude::*;

verus! {

/// What the status bar shows: a fixed caption, then a message.
#[derive(Debug, PartialEq)]
pub struct StatusBar {
    pub caption: String,
    pub message: String,
}

/// The caption that every status bar starts with.
pub const CAPTION: &'static str = "Message";

/// Describes a status bar that shows `message` behind the caption.
pub fn status_bar(message: &str) -> (bar: StatusBar)
    ensures
        bar.caption@ == CAPTION@,
        bar.message@ == message@,
{
    StatusBar { caption: CAPTION.to_owned(), message: message.to_owned() }
}

} // verus!
