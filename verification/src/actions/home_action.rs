//! Actions of the content screen.

use crate::text::{decimal, push_decimal};
use vstd::prelude::*;

verus! {

/// A direction in which a list selection moves.
#[derive(Debug, Copy, Clone, PartialEq, Eq, Structural)]
pub enum ListNavDirection {
    Left,
    Right,
    Up,
    Down,
}

impl ListNavDirection {
    /// The name of the direction as it is written in the textual form of
    /// actions.
    pub open spec fn name_spec(self) -> Seq<char> {
        match self {
            ListNavDirection::Left => "Left"@,
            ListNavDirection::Right => "Right"@,
            ListNavDirection::Up => "Up"@,
            ListNavDirection::Down => "Down"@,
        }
    }

    /// The label shown to the user: the move drawn as an arrow.
    pub open spec fn label_spec(self) -> Seq<char> {
        match self {
            ListNavDirection::Up => "NavigateList(\u{1F781})"@,
            ListNavDirection::Down => "NavigateList(\u{1F783})"@,
            ListNavDirection::Left => "NavigateList(\u{1F780})"@,
            ListNavDirection::Right => "NavigateList(\u{1F782})"@,
        }
    }

    /// The name of the direction as it is written in the textual form of
    /// actions.
    pub fn name(&self) -> (s: &'static str)
        ensures
            s@ == self.name_spec(),
    {
        match self {
            ListNavDirection::Left => "Left",
            ListNavDirection::Right => "Right",
            ListNavDirection::Up => "Up",
            ListNavDirection::Down => "Down",
        }
    }

    /// The label shown to the user: the move drawn as an arrow.
    pub fn to_string(&self) -> (s: String)
        ensures
            s@ == self.label_spec(),
    {
        match self {
            ListNavDirection::Up => String::from_str("NavigateList(\u{1F781})"),
            ListNavDirection::Down => String::from_str("NavigateList(\u{1F783})"),
            ListNavDirection::Left => String::from_str("NavigateList(\u{1F780})"),
            ListNavDirection::Right => String::from_str("NavigateList(\u{1F782})"),
        }
    }
}

/// What the content screen reacts to.
#[derive(Debug, PartialEq, Eq)]
pub enum HomeAction {
    Help,
    ToggleShowHelp,
    ScheduleIncrement,
    ScheduleDecrement,
    Increment(usize),
    Decrement(usize),
    CompleteInput(String),
    EnterNormal,
    EnterInsert,
    EnterProcessing,
    ExitProcessing,
    Update,
    NavigateList(ListNavDirection),
}

/// A `HomeAction` with its text as a sequence of characters.
pub enum HomeActionView {
    Help,
    ToggleShowHelp,
    ScheduleIncrement,
    ScheduleDecrement,
    Increment(usize),
    Decrement(usize),
    CompleteInput(Seq<char>),
    EnterNormal,
    EnterInsert,
    EnterProcessing,
    ExitProcessing,
    Update,
    NavigateList(ListNavDirection),
}

impl View for HomeAction {
    type V = HomeActionView;

    open spec fn view(&self) -> HomeActionView {
        match *self {
            HomeAction::Help => HomeActionView::Help,
            HomeAction::ToggleShowHelp => HomeActionView::ToggleShowHelp,
            HomeAction::ScheduleIncrement => HomeActionView::ScheduleIncrement,
            HomeAction::ScheduleDecrement => HomeActionView::ScheduleDecrement,
            HomeAction::Increment(n) => HomeActionView::Increment(n),
            HomeAction::Decrement(n) => HomeActionView::Decrement(n),
            HomeAction::CompleteInput(s) => HomeActionView::CompleteInput(s@),
            HomeAction::EnterNormal => HomeActionView::EnterNormal,
            HomeAction::EnterInsert => HomeActionView::EnterInsert,
            HomeAction::EnterProcessing => HomeActionView::EnterProcessing,
            HomeAction::ExitProcessing => HomeActionView::ExitProcessing,
            HomeAction::Update => HomeActionView::Update,
            HomeAction::NavigateList(d) => HomeActionView::NavigateList(d),
        }
    }
}

impl HomeActionView {
    /// The textual form of the action, without the name of its family.
    pub open spec fn text(self) -> Seq<char> {
        match self {
            HomeActionView::Help => "Help"@,
            HomeActionView::ToggleShowHelp => "ToggleShowHelp"@,
            HomeActionView::ScheduleIncrement => "ScheduleIncrement"@,
            HomeActionView::ScheduleDecrement => "ScheduleDecrement"@,
            HomeActionView::Increment(n) => "Increment("@ + decimal(n as nat) + ")"@,
            HomeActionView::Decrement(n) => "Decrement("@ + decimal(n as nat) + ")"@,
            HomeActionView::CompleteInput(s) => "CompleteInput("@ + s + ")"@,
            HomeActionView::EnterNormal => "EnterNormal"@,
            HomeActionView::EnterInsert => "EnterInsert"@,
            HomeActionView::EnterProcessing => "EnterProcessing"@,
            HomeActionView::ExitProcessing => "ExitProcessing"@,
            HomeActionView::Update => "Update"@,
            HomeActionView::NavigateList(d) => "NavigateList("@ + d.name_spec() + ")"@,
        }
    }
}

impl Clone for HomeAction {
    fn clone(&self) -> (r: HomeAction)
        ensures
            r == *self,
    {
        match self {
            HomeAction::Help => HomeAction::Help,
            HomeAction::ToggleShowHelp => HomeAction::ToggleShowHelp,
            HomeAction::ScheduleIncrement => HomeAction::ScheduleIncrement,
            HomeAction::ScheduleDecrement => HomeAction::ScheduleDecrement,
            HomeAction::Increment(n) => HomeAction::Increment(*n),
            HomeAction::Decrement(n) => HomeAction::Decrement(*n),
            HomeAction::CompleteInput(s) => HomeAction::CompleteInput(s.clone()),
            HomeAction::EnterNormal => HomeAction::EnterNormal,
            HomeAction::EnterInsert => HomeAction::EnterInsert,
            HomeAction::EnterProcessing => HomeAction::EnterProcessing,
            HomeAction::ExitProcessing => HomeAction::ExitProcessing,
            HomeAction::Update => HomeAction::Update,
            HomeAction::NavigateList(d) => HomeAction::NavigateList(*d),
        }
    }
}

impl HomeAction {
    /// Whether two actions are the same: the same variant with the same
    /// arguments.
    pub fn same(&self, other: &HomeAction) -> (b: bool)
        ensures
            b == (self@ == other@),
    {
        match (self, other) {
            (HomeAction::Help, HomeAction::Help) => true,
            (HomeAction::ToggleShowHelp, HomeAction::ToggleShowHelp) => true,
            (HomeAction::ScheduleIncrement, HomeAction::ScheduleIncrement) => true,
            (HomeAction::ScheduleDecrement, HomeAction::ScheduleDecrement) => true,
            (HomeAction::Increment(n), HomeAction::Increment(m)) => *n == *m,
            (HomeAction::Decrement(n), HomeAction::Decrement(m)) => *n == *m,
            (HomeAction::CompleteInput(s), HomeAction::CompleteInput(t)) => *s == *t,
            (HomeAction::EnterNormal, HomeAction::EnterNormal) => true,
            (HomeAction::EnterInsert, HomeAction::EnterInsert) => true,
            (HomeAction::EnterProcessing, HomeAction::EnterProcessing) => true,
            (HomeAction::ExitProcessing, HomeAction::ExitProcessing) => true,
            (HomeAction::Update, HomeAction::Update) => true,
            (HomeAction::NavigateList(d), HomeAction::NavigateList(e)) => *d == *e,
            _ => false,
        }
    }

    /// The textual form of the action, without the name of its family.
    pub fn to_string(&self) -> (s: String)
        ensures
            s@ == self@.text(),
    {
        match self {
            HomeAction::Help => String::from_str("Help"),
            HomeAction::ToggleShowHelp => String::from_str("ToggleShowHelp"),
            HomeAction::ScheduleIncrement => String::from_str("ScheduleIncrement"),
            HomeAction::ScheduleDecrement => String::from_str("ScheduleDecrement"),
            HomeAction::Increment(n) => {
                let mut s = String::from_str("Increment(");
                push_decimal(&mut s, *n as u64);
                s.append(")");
                s
            },
            HomeAction::Decrement(n) => {
                let mut s = String::from_str("Decrement(");
                push_decimal(&mut s, *n as u64);
                s.append(")");
                s
            },
            HomeAction::CompleteInput(text) => {
                let mut s = String::from_str("CompleteInput(");
                s.append(text.as_str());
                s.append(")");
                s
            },
            HomeAction::EnterNormal => String::from_str("EnterNormal"),
            HomeAction::EnterInsert => String::from_str("EnterInsert"),
            HomeAction::EnterProcessing => String::from_str("EnterProcessing"),
            HomeAction::ExitProcessing => String::from_str("ExitProcessing"),
            HomeAction::Update => String::from_str("Update"),
            HomeAction::NavigateList(d) => {
                let mut s = String::from_str("NavigateList(");
                s.append(d.name());
                s.append(")");
                s
            },
        }
    }
}

} // verus!
