//! Actions of the process lifecycle.

use crate::app::Mode;
use crate::text::{decimal, push_decimal};
use vstd::prelude::*;

verus! {

/// What the dispatch loop itself reacts to.
#[derive(Debug, PartialEq, Eq)]
pub enum EngineAction {
    Tick,
    Render,
    Resize(u16, u16),
    Suspend,
    Resume,
    Quit,
    Refresh,
    ToggleShowHelp,
    ToggleShowModeSwitcher,
    ChangeMode(Mode),
    Error(String),
}

/// An `EngineAction` with its text as a sequence of characters.
pub enum EngineActionView {
    Tick,
    Render,
    Resize(u16, u16),
    Suspend,
    Resume,
    Quit,
    Refresh,
    ToggleShowHelp,
    ToggleShowModeSwitcher,
    ChangeMode(Mode),
    Error(Seq<char>),
}

impl View for EngineAction {
    type V = EngineActionView;

    open spec fn view(&self) -> EngineActionView {
        match *self {
            EngineAction::Tick => EngineActionView::Tick,
            EngineAction::Render => EngineActionView::Render,
            EngineAction::Resize(w, h) => EngineActionView::Resize(w, h),
            EngineAction::Suspend => EngineActionView::Suspend,
            EngineAction::Resume => EngineActionView::Resume,
            EngineAction::Quit => EngineActionView::Quit,
            EngineAction::Refresh => EngineActionView::Refresh,
            EngineAction::ToggleShowHelp => EngineActionView::ToggleShowHelp,
            EngineAction::ToggleShowModeSwitcher => EngineActionView::ToggleShowModeSwitcher,
            EngineAction::ChangeMode(m) => EngineActionView::ChangeMode(m),
            EngineAction::Error(s) => EngineActionView::Error(s@),
        }
    }
}

impl EngineActionView {
    /// The textual form of the action, without the name of its family.
    pub open spec fn text(self) -> Seq<char> {
        match self {
            EngineActionView::Tick => "Tick"@,
            EngineActionView::Render => "Render"@,
            EngineActionView::Resize(w, h) => "Resize("@ + decimal(w as nat) + ", "@ + decimal(
                h as nat,
            ) + ")"@,
            EngineActionView::Suspend => "Suspend"@,
            EngineActionView::Resume => "Resume"@,
            EngineActionView::Quit => "Quit"@,
            EngineActionView::Refresh => "Refresh"@,
            EngineActionView::ToggleShowHelp => "ToggleShowHelp"@,
            EngineActionView::ToggleShowModeSwitcher => "ToggleShowModeSwitcher"@,
            EngineActionView::ChangeMode(m) => "ChangeMode("@ + m.name_spec() + ")"@,
            EngineActionView::Error(s) => "Error("@ + s + ")"@,
        }
    }
}

impl Clone for EngineAction {
    fn clone(&self) -> (r: EngineAction)
        ensures
            r == *self,
    {
        match self {
            EngineAction::Tick => EngineAction::Tick,
            EngineAction::Render => EngineAction::Render,
            EngineAction::Resize(w, h) => EngineAction::Resize(*w, *h),
            EngineAction::Suspend => EngineAction::Suspend,
            EngineAction::Resume => EngineAction::Resume,
            EngineAction::Quit => EngineAction::Quit,
            EngineAction::Refresh => EngineAction::Refresh,
            EngineAction::ToggleShowHelp => EngineAction::ToggleShowHelp,
            EngineAction::ToggleShowModeSwitcher => EngineAction::ToggleShowModeSwitcher,
            EngineAction::ChangeMode(m) => EngineAction::ChangeMode(*m),
            EngineAction::Error(s) => EngineAction::Error(s.clone()),
        }
    }
}

impl EngineAction {
    /// Whether two actions are the same: the same variant with the same
    /// arguments.
    pub fn same(&self, other: &EngineAction) -> (b: bool)
        ensures
            b == (self@ == other@),
    {
        match (self, other) {
            (EngineAction::Tick, EngineAction::Tick) => true,
            (EngineAction::Render, EngineAction::Render) => true,
            (EngineAction::Resize(w, h), EngineAction::Resize(x, y)) => *w == *x && *h == *y,
            (EngineAction::Suspend, EngineAction::Suspend) => true,
            (EngineAction::Resume, EngineAction::Resume) => true,
            (EngineAction::Quit, EngineAction::Quit) => true,
            (EngineAction::Refresh, EngineAction::Refresh) => true,
            (EngineAction::ToggleShowHelp, EngineAction::ToggleShowHelp) => true,
            (EngineAction::ToggleShowModeSwitcher, EngineAction::ToggleShowModeSwitcher) => true,
            (EngineAction::ChangeMode(m), EngineAction::ChangeMode(n)) => *m == *n,
            (EngineAction::Error(s), EngineAction::Error(t)) => *s == *t,
            _ => false,
        }
    }

    /// The textual form of the action, without the name of its family.
    pub fn to_string(&self) -> (s: String)
        ensures
            s@ == self@.text(),
    {
        match self {
            EngineAction::Tick => String::from_str("Tick"),
            EngineAction::Render => String::from_str("Render"),
            EngineAction::Resize(w, h) => {
                let mut s = String::from_str("Resize(");
                push_decimal(&mut s, *w as u64);
                s.append(", ");
                push_decimal(&mut s, *h as u64);
                s.append(")");
                s
            },
            EngineAction::Suspend => String::from_str("Suspend"),
            EngineAction::Resume => String::from_str("Resume"),
            EngineAction::Quit => String::from_str("Quit"),
            EngineAction::Refresh => String::from_str("Refresh"),
            EngineAction::ToggleShowHelp => String::from_str("ToggleShowHelp"),
            EngineAction::ToggleShowModeSwitcher => String::from_str("ToggleShowModeSwitcher"),
            EngineAction::ChangeMode(m) => {
                let mut s = String::from_str("ChangeMode(");
                s.append(m.name());
                s.append(")");
                s
            },
            EngineAction::Error(message) => {
                let mut s = String::from_str("Error(");
                s.append(message.as_str());
                s.append(")");
                s
            },
        }
    }
}

} // verus!
