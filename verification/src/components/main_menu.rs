//! The main menu: a row of tabs, one of them selected.

use crate::actions::{Action, ActionView, HomeAction, HomeActionView, ListNavDirection};
use crate::app::Mode;
use crate::bus::{action_views, ActionSender};
use crate::components::home::{navigate, LIST_OPS_LEN};
use crate::config::{BindingView, Config, ConfigError, KeyMap};
use vstd::prelude::*;

verus! {

/// The tabs of the main menu: the index of the selected one, among as many
/// as there are list operations.
#[derive(Debug, Copy, Clone, PartialEq, Eq, Structural)]
pub struct MainMenuTabs {
    pub item_index: usize,
    pub is_item_selected: bool,
}

impl Default for MainMenuTabs {
    fn default() -> (tabs: MainMenuTabs)
        ensures
            tabs == (MainMenuTabs { item_index: 0, is_item_selected: false }),
    {
        MainMenuTabs { item_index: 0, is_item_selected: false }
    }
}

impl MainMenuTabs {
    /// The validity of the tabs: the selected tab is one of them.
    pub open spec fn wf(self) -> bool {
        self.item_index < LIST_OPS_LEN
    }

    /// Moves the selection: left and right go round, up and down leave it.
    pub fn navigate_list(&mut self, dir: ListNavDirection)
        requires
            old(self).wf(),
        ensures
            final(self).wf(),
            final(self).item_index == navigate(old(self).item_index, LIST_OPS_LEN, dir),
            final(self).is_item_selected == old(self).is_item_selected,
    {
        match dir {
            ListNavDirection::Left => {
                if self.item_index == 0 {
                    self.item_index = LIST_OPS_LEN - 1;
                } else {
                    self.item_index -= 1;
                }
            },
            ListNavDirection::Right => {
                self.item_index = if self.item_index == LIST_OPS_LEN - 1 {
                    0
                } else {
                    self.item_index + 1
                };
            },
            _ => {},
        }
    }
}

/// The main menu.
#[derive(Debug)]
pub struct MainMenu {
    pub show_help: bool,
    pub action_tx: Option<ActionSender>,
    pub keymap: KeyMap,
    main_menu_tabs: MainMenuTabs,
}

/// The main menu as mathematical values.
pub struct MainMenuView {
    pub show_help: bool,
    pub action_tx: Option<Seq<ActionView>>,
    pub keymap: Seq<BindingView>,
    pub tabs: MainMenuTabs,
}

impl MainMenuView {
    /// The validity of the menu: that of its tabs.
    pub open spec fn wf(self) -> bool {
        self.tabs.wf()
    }

    /// The menu after it has reacted to `action`: a move in a list moves the
    /// selected tab, and nothing else changes anything.
    pub open spec fn update(self, action: ActionView) -> MainMenuView {
        match action {
            ActionView::Home(HomeActionView::NavigateList(dir)) => MainMenuView {
                tabs: MainMenuTabs {
                    item_index: navigate(self.tabs.item_index, LIST_OPS_LEN, dir),
                    ..self.tabs
                },
                ..self
            },
            _ => self,
        }
    }
}

impl View for MainMenu {
    type V = MainMenuView;

    closed spec fn view(&self) -> MainMenuView {
        MainMenuView {
            show_help: self.show_help,
            action_tx: match self.action_tx {
                Some(tx) => Some(tx@),
                None => None,
            },
            keymap: self.keymap.entries(),
            tabs: self.main_menu_tabs,
        }
    }
}

impl Default for MainMenu {
    fn default() -> (menu: MainMenu)
        ensures
            menu@ == MainMenu::initial(),
    {
        MainMenu::new()
    }
}

impl MainMenu {
    /// The menu as it is made: the first tab selected, no key bound and no
    /// handle to emit through.
    pub open spec fn initial() -> MainMenuView {
        MainMenuView {
            show_help: false,
            action_tx: None,
            keymap: Seq::empty(),
            tabs: MainMenuTabs { item_index: 0, is_item_selected: false },
        }
    }

    /// A menu with the first tab selected, no key bound and no handle to
    /// emit through.
    pub fn new() -> (menu: MainMenu)
        ensures
            menu@ == MainMenu::initial(),
    {
        MainMenu {
            show_help: false,
            action_tx: None,
            keymap: KeyMap::new(),
            main_menu_tabs: MainMenuTabs::default(),
        }
    }

    /// The tabs.
    pub fn tabs(&self) -> (tabs: MainMenuTabs)
        ensures
            tabs == self@.tabs,
    {
        self.main_menu_tabs
    }

    /// Gives the menu its table of key bindings.
    pub fn set_keymap(&mut self, keymap: KeyMap)
        ensures
            final(self)@ == (MainMenuView { keymap: keymap.entries(), ..old(self)@ }),
    {
        self.keymap = keymap;
    }

    /// Takes the table of the main menu's mode out of `config`. A
    /// configuration without that table is refused.
    pub fn register_config_handler(&mut self, config: &Config) -> (r: Result<(), ConfigError>)
        ensures
            match r {
                Ok(()) => config.keybindings@.dom().contains(Mode::MainMenu) && final(self)@ == (
                    MainMenuView { keymap: config.keybindings@[Mode::MainMenu], ..old(self)@ }
                ),
                Err(e) => !config.keybindings@.dom().contains(Mode::MainMenu) && e
                    == ConfigError::MissingMode(Mode::MainMenu) && final(self)@ == old(self)@,
            },
    {
        match config.keybindings.get(Mode::MainMenu) {
            Some(map) => {
                self.set_keymap(map.clone());
                Ok(())
            },
            None => Err(ConfigError::MissingMode(Mode::MainMenu)),
        }
    }

    /// Gives the menu the handle through which it emits actions.
    pub fn register_action_handler(&mut self, tx: ActionSender)
        ensures
            final(self)@ == (MainMenuView { action_tx: Some(tx@), ..old(self)@ }),
    {
        self.action_tx = Some(tx);
    }

    /// Hands out what waits in the handle of the menu, oldest first.
    pub fn take_sent(&mut self) -> (actions: Vec<Action>)
        ensures
            action_views(actions@) == match old(self)@.action_tx {
                Some(waiting) => waiting,
                None => Seq::empty(),
            },
            final(self)@ == match old(self)@.action_tx {
                Some(_) => MainMenuView { action_tx: Some(Seq::empty()), ..old(self)@ },
                None => old(self)@,
            },
    {
        match self.action_tx.take() {
            Some(tx) => {
                let mut tx = tx;
                let actions = tx.take();
                self.action_tx = Some(tx);
                actions
            },
            None => {
                let actions: Vec<Action> = Vec::new();
                proof {
                    assert(action_views(actions@) =~= Seq::<ActionView>::empty());
                }
                actions
            },
        }
    }

    /// Reacts to `action`. The menu never answers with an action of its own.
    pub fn update(&mut self, action: Action) -> (r: Option<Action>)
        requires
            old(self)@.wf(),
        ensures
            r is None,
            final(self)@ == old(self)@.update(action@),
            final(self)@.wf(),
    {
        match action {
            Action::Home(HomeAction::NavigateList(dir)) => {
                self.main_menu_tabs.navigate_list(dir);
            },
            _ => {},
        }
        None
    }
}

} // verus!
