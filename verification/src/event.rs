//! What the terminal reports to the dispatch loop.

use crate::input::EditRequest;
use crate::keys::KeyEvent;
use vstd::prelude::*;

verus! {

/// One report of the terminal.
#[derive(Debug, Copy, Clone, PartialEq, Eq, Structural)]
pub enum Event {
    /// The terminal asks the application to end.
    Quit,
    /// The tick period is over.
    Tick,
    /// The frame period is over.
    Render,
    /// The terminal now has this width and this height.
    Resize(u16, u16),
    /// A key was pressed; `edit` is what the press asks of a line of text,
    /// if anything.
    Key { key: KeyEvent, edit: Option<EditRequest> },
}

} // verus!
