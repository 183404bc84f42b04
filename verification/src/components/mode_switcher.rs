//! The mode switcher: a list of the modes, from which one is chosen.

use crate::actions::{
    action_view, Action, ActionView, EngineAction, EngineActionView, HomeAction, HomeActionView,
    ListNavDirection,
};
use crate::app::Mode;
use vstd::prelude::*;

verus! {

/// The number of modes that the switcher lists.
pub const MODES_LEN: usize = 2;

/// The modes in the order in which the switcher lists them.
pub open spec fn modes() -> Seq<Mode> {
    seq![Mode::MainMenu, Mode::Home]
}

/// The place of `mode` in the list.
pub open spec fn mode_index(mode: Mode) -> usize {
    match mode {
        Mode::MainMenu => 0,
        Mode::Home => 1,
    }
}

/// The label of `mode` in the list.
pub open spec fn mode_label_spec(mode: Mode) -> Seq<char> {
    match mode {
        Mode::MainMenu => "Main Menu"@,
        Mode::Home => "Home"@,
    }
}

/// The mode at place `index` of the list.
pub fn mode_at(index: usize) -> (mode: Option<Mode>)
    ensures
        mode == if index < MODES_LEN {
            Some(modes()[index as int])
        } else {
            None
        },
{
    if index == 0 {
        Some(Mode::MainMenu)
    } else if index == 1 {
        Some(Mode::Home)
    } else {
        None
    }
}

/// The label of `mode` in the list.
pub fn mode_label(mode: Mode) -> (label: &'static str)
    ensures
        label@ == mode_label_spec(mode),
{
    match mode {
        Mode::MainMenu => "Main Menu",
        Mode::Home => "Home",
    }
}

/// The place that a move by `offset` from `index` selects: the sum, held
/// back at the last place of the list. A sum that is no index selects
/// nothing.
pub open spec fn select(index: usize, offset: isize) -> Option<usize> {
    let target = index + offset;
    if target < 0 || target > usize::MAX {
        None
    } else if target > MODES_LEN - 1 {
        Some((MODES_LEN - 1) as usize)
    } else {
        Some(target as usize)
    }
}

/// The mode switcher: whether its list is shown, the place of the chosen
/// mode, and the place that the list highlights.
#[derive(Debug, Copy, Clone, PartialEq, Eq, Structural)]
pub struct ModeSwitcher {
    show_menu: bool,
    current_index: usize,
    selected: Option<usize>,
}

/// The mode switcher as mathematical values.
pub struct ModeSwitcherView {
    pub show_menu: bool,
    pub current_index: usize,
    pub selected: Option<usize>,
}

impl ModeSwitcherView {
    /// The validity of the switcher: the chosen place is one of the list.
    pub open spec fn wf(self) -> bool {
        self.current_index < MODES_LEN
    }

    /// The switcher after a move by `offset`, and the action that it answers
    /// with: the change to the mode that is now chosen. A move that selects
    /// nothing changes nothing and is answered with nothing.
    pub open spec fn select_mode(self, offset: isize) -> (ModeSwitcherView, Option<ActionView>) {
        match select(self.current_index, offset) {
            Some(index) => (
                ModeSwitcherView { current_index: index, selected: Some(index), ..self },
                Some(ActionView::Engine(EngineActionView::ChangeMode(modes()[index as int]))),
            ),
            None => (self, None),
        }
    }

    /// The switcher after it has reacted to `action`, and the action that it
    /// answers with: a move up or down in a list moves the choice, and the
    /// toggle shows or hides the list.
    pub open spec fn update(self, action: ActionView) -> (ModeSwitcherView, Option<ActionView>) {
        match action {
            ActionView::Home(HomeActionView::NavigateList(ListNavDirection::Up)) =>
                self.select_mode(-1isize),
            ActionView::Home(HomeActionView::NavigateList(ListNavDirection::Down)) =>
                self.select_mode(1isize),
            ActionView::Engine(EngineActionView::ToggleShowModeSwitcher) => (
                ModeSwitcherView { show_menu: !self.show_menu, ..self },
                None,
            ),
            _ => (self, None),
        }
    }
}

impl View for ModeSwitcher {
    type V = ModeSwitcherView;

    closed spec fn view(&self) -> ModeSwitcherView {
        ModeSwitcherView {
            show_menu: self.show_menu,
            current_index: self.current_index,
            selected: self.selected,
        }
    }
}

impl Default for ModeSwitcher {
    fn default() -> (switcher: ModeSwitcher)
        ensures
            switcher@ == (ModeSwitcherView { show_menu: false, current_index: 0, selected: None }),
            switcher@.wf(),
    {
        ModeSwitcher { show_menu: false, current_index: 0, selected: None }
    }
}

impl ModeSwitcher {
    /// A hidden switcher with `active_mode` chosen and highlighted.
    pub fn new(active_mode: Mode) -> (switcher: ModeSwitcher)
        ensures
            switcher@ == (ModeSwitcherView {
                show_menu: false,
                current_index: mode_index(active_mode),
                selected: Some(mode_index(active_mode)),
            }),
            switcher@.wf(),
    {
        let index: usize = match active_mode {
            Mode::MainMenu => 0,
            Mode::Home => 1,
        };
        ModeSwitcher { show_menu: false, current_index: index, selected: Some(index) }
    }

    /// Whether the list is shown.
    pub fn show_menu(&self) -> (b: bool)
        ensures
            b == self@.show_menu,
    {
        self.show_menu
    }

    /// The place of the chosen mode.
    pub fn current_index(&self) -> (i: usize)
        ensures
            i == self@.current_index,
    {
        self.current_index
    }

    /// The place that the list highlights.
    pub fn selected(&self) -> (i: Option<usize>)
        ensures
            i == self@.selected,
    {
        self.selected
    }

    /// Moves the choice by `offset` places.
    pub fn select_mode(&mut self, offset: isize) -> (r: Option<Action>)
        ensures
            (final(self)@, action_view(r)) == old(self)@.select_mode(offset),
            final(self)@.wf() || final(self)@ == old(self)@,
    {
        match self.current_index.checked_add_signed(offset) {
            Some(target) => {
                self.current_index = if target > MODES_LEN - 1 {
                    MODES_LEN - 1
                } else {
                    target
                };
            },
            None => {
                return None;
            },
        }
        self.selected = Some(self.current_index);
        match mode_at(self.current_index) {
            Some(mode) => Some(Action::Engine(EngineAction::ChangeMode(mode))),
            None => None,
        }
    }

    /// Reacts to `action`.
    pub fn update(&mut self, action: Action) -> (r: Option<Action>)
        ensures
            (final(self)@, action_view(r)) == old(self)@.update(action@),
            old(self)@.wf() ==> final(self)@.wf(),
    {
        match action {
            Action::Home(HomeAction::NavigateList(ListNavDirection::Up)) => self.select_mode(-1),
            Action::Home(HomeAction::NavigateList(ListNavDirection::Down)) => self.select_mode(1),
            Action::Engine(EngineAction::ToggleShowModeSwitcher) => {
                self.show_menu = !self.show_menu;
                None
            },
            _ => None,
        }
    }
}

} // verus!
