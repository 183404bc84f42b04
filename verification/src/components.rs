//! The components: the stateful units that the dispatch loop forwards every
//! action to.

use crate::actions::{action_view, Action, ActionView, HomeActionView, ListNavDirection};
use crate::bus::{action_views, ActionSender};
use crate::config::{Config, ConfigError};
use crate::event::Event;
use vstd::prelude::*;

pub mod help_screen;
pub mod home;
pub mod list_todos;
pub mod main_menu;
pub mod mode_switcher;

use self::help_screen::{HelpScreen, HelpScreenView};
use self::home::{Home, HomeView};
use self::main_menu::{MainMenu, MainMenuView};
use self::mode_switcher::{ModeSwitcher, ModeSwitcherView};

verus! {

/// One of the components. The roster is closed: these four kinds are all
/// there are.
#[derive(Debug)]
pub enum Component {
    MainMenu(MainMenu),
    Home(Home),
    HelpScreen(HelpScreen),
    ModeSwitcher(ModeSwitcher),
}

/// A component as mathematical values.
pub enum ComponentView {
    MainMenu(MainMenuView),
    Home(HomeView),
    HelpScreen(HelpScreenView),
    ModeSwitcher(ModeSwitcherView),
}

impl View for Component {
    type V = ComponentView;

    open spec fn view(&self) -> ComponentView {
        match *self {
            Component::MainMenu(c) => ComponentView::MainMenu(c@),
            Component::Home(c) => ComponentView::Home(c@),
            Component::HelpScreen(c) => ComponentView::HelpScreen(c@),
            Component::ModeSwitcher(c) => ComponentView::ModeSwitcher(c@),
        }
    }
}

/// Whether a component answers `action`, or emits through its handle when it
/// gets it: the scheduled changes of the counter, and the moves up and down
/// in a list.
pub open spec fn cascades(action: ActionView) -> bool {
    match action {
        ActionView::Home(HomeActionView::ScheduleIncrement) => true,
        ActionView::Home(HomeActionView::ScheduleDecrement) => true,
        ActionView::Home(HomeActionView::NavigateList(ListNavDirection::Up)) => true,
        ActionView::Home(HomeActionView::NavigateList(ListNavDirection::Down)) => true,
        _ => false,
    }
}

impl ComponentView {
    /// What waits in the handle of the component, if it has one.
    pub open spec fn sent(self) -> Seq<ActionView> {
        match self {
            ComponentView::MainMenu(c) => match c.action_tx {
                Some(waiting) => waiting,
                None => Seq::empty(),
            },
            ComponentView::Home(c) => match c.action_tx {
                Some(waiting) => waiting,
                None => Seq::empty(),
            },
            _ => Seq::empty(),
        }
    }

    /// The component with nothing waiting in its handle.
    pub open spec fn flushed(self) -> ComponentView {
        match self {
            ComponentView::MainMenu(c) => match c.action_tx {
                Some(_) => ComponentView::MainMenu(
                    MainMenuView { action_tx: Some(Seq::empty()), ..c },
                ),
                None => self,
            },
            ComponentView::Home(c) => match c.action_tx {
                Some(_) => ComponentView::Home(HomeView { action_tx: Some(Seq::empty()), ..c }),
                None => self,
            },
            _ => self,
        }
    }

    /// The validity of a component: its own validity, and a handle to emit
    /// through where it uses one.
    pub open spec fn valid(self) -> bool {
        match self {
            ComponentView::MainMenu(c) => c.wf(),
            ComponentView::Home(c) => c.wf() && c.action_tx is Some,
            ComponentView::HelpScreen(_) => true,
            ComponentView::ModeSwitcher(c) => c.wf(),
        }
    }

    /// Whether the component can react to `action`: it is valid as far as it
    /// reacts at all, and has its handle where the action makes it emit.
    pub open spec fn accepts(self, action: ActionView) -> bool {
        match self {
            ComponentView::MainMenu(c) => c.wf(),
            ComponentView::Home(c) => c.wf() && c.accepts(action),
            _ => true,
        }
    }

    /// The validity of a component between two calls of the dispatch loop:
    /// it is valid, and nothing waits in its handle.
    pub open spec fn wf(self) -> bool {
        self.valid() && self.sent() == Seq::<ActionView>::empty()
    }

    /// The component after it has reacted to `action`, and the action that
    /// it answers with.
    pub open spec fn update(self, action: ActionView) -> (ComponentView, Option<ActionView>) {
        match self {
            ComponentView::MainMenu(c) => (ComponentView::MainMenu(c.update(action)), None),
            ComponentView::Home(c) => (ComponentView::Home(c.update(action)), None),
            ComponentView::HelpScreen(c) => (ComponentView::HelpScreen(c.update(action)), None),
            ComponentView::ModeSwitcher(c) => (
                ComponentView::ModeSwitcher(c.update(action).0),
                c.update(action).1,
            ),
        }
    }

    /// The component after it has seen `event`, and the action that it
    /// answers with. Only the content screen looks at events, and only at
    /// key presses.
    pub open spec fn handle_event(self, event: Event) -> (ComponentView, Option<ActionView>) {
        match (self, event) {
            (ComponentView::Home(c), Event::Key { key, edit }) => (
                ComponentView::Home(c.handle_key(key, edit).0),
                c.handle_key(key, edit).1,
            ),
            _ => (self, None),
        }
    }
}

/// What a component puts on the bus in one call: what it emitted through its
/// handle, then its answer.
pub open spec fn emitted(after: ComponentView, answer: Option<ActionView>) -> Seq<ActionView> {
    match answer {
        Some(action) => after.sent().push(action),
        None => after.sent(),
    }
}

impl Component {
    /// Whether the component is in focus while `mode` is active: the main
    /// menu and the content screen each in their own mode, the overlays in
    /// every mode.
    pub fn is_focused(&self, mode: crate::app::Mode) -> (b: bool)
        ensures
            b == match self@ {
                ComponentView::MainMenu(_) => mode == crate::app::Mode::MainMenu,
                ComponentView::Home(_) => mode == crate::app::Mode::Home,
                _ => true,
            },
    {
        match self {
            Component::MainMenu(_) => mode == crate::app::Mode::MainMenu,
            Component::Home(_) => mode == crate::app::Mode::Home,
            _ => true,
        }
    }

    /// Gives the component the handle through which it emits actions. A
    /// component that emits nothing drops it.
    pub fn register_action_handler(&mut self, tx: ActionSender)
        ensures
            final(self)@ == match old(self)@ {
                ComponentView::MainMenu(c) => ComponentView::MainMenu(
                    MainMenuView { action_tx: Some(tx@), ..c },
                ),
                ComponentView::Home(c) => ComponentView::Home(
                    HomeView { action_tx: Some(tx@), ..c },
                ),
                other => other,
            },
    {
        match self {
            Component::MainMenu(c) => c.register_action_handler(tx),
            Component::Home(c) => c.register_action_handler(tx),
            _ => {},
        }
    }

    /// Gives the component the configuration. The main menu and the content
    /// screen refuse one that has no table of key bindings for their mode.
    pub fn register_config_handler(&mut self, config: &Config) -> (r: Result<(), ConfigError>)
        ensures
            match r {
                Ok(()) => final(self)@ == match old(self)@ {
                    ComponentView::MainMenu(c) => ComponentView::MainMenu(
                        MainMenuView {
                            keymap: config.keybindings@[crate::app::Mode::MainMenu],
                            ..c
                        },
                    ),
                    ComponentView::Home(c) => ComponentView::Home(
                        HomeView { keymap: config.keybindings@[crate::app::Mode::Home], ..c },
                    ),
                    ComponentView::HelpScreen(c) => ComponentView::HelpScreen(
                        HelpScreenView { bindings: config.keybindings@, ..c },
                    ),
                    other => other,
                },
                Err(e) => final(self)@ == old(self)@ && e == ConfigError::MissingMode(
                    if old(self)@ is MainMenu {
                        crate::app::Mode::MainMenu
                    } else {
                        crate::app::Mode::Home
                    },
                ),
            },
            r is Err <==> (old(self)@ is MainMenu && !config.keybindings@.dom().contains(
                crate::app::Mode::MainMenu,
            )) || (old(self)@ is Home && !config.keybindings@.dom().contains(
                crate::app::Mode::Home,
            )),
    {
        match self {
            Component::MainMenu(c) => c.register_config_handler(config),
            Component::Home(c) => c.register_config_handler(config),
            Component::HelpScreen(c) => {
                c.register_config_handler(config);
                Ok(())
            },
            Component::ModeSwitcher(_) => Ok(()),
        }
    }

    /// Hands out what waits in the handle of the component, oldest first.
    pub fn take_sent(&mut self) -> (actions: Vec<Action>)
        ensures
            action_views(actions@) == old(self)@.sent(),
            final(self)@ == old(self)@.flushed(),
    {
        match self {
            Component::MainMenu(c) => c.take_sent(),
            Component::Home(c) => c.take_sent(),
            _ => {
                let actions: Vec<Action> = Vec::new();
                proof {
                    assert(action_views(actions@) =~= Seq::<ActionView>::empty());
                }
                actions
            },
        }
    }

    /// Shows the component a terminal event, before and apart from the
    /// resolution of keys.
    pub fn handle_events(&mut self, event: Event) -> (r: Option<Action>)
        ensures
            (final(self)@, action_view(r)) == old(self)@.handle_event(event),
    {
        match self {
            Component::Home(c) => match event {
                Event::Key { key, edit } => c.handle_key_events(key, edit),
                _ => None,
            },
            _ => None,
        }
    }

    /// The one-time setup after construction and configuration. None of the
    /// components needs any, so it changes nothing and never fails.
    pub fn init(&mut self) -> (r: Result<(), ConfigError>)
        ensures
            r is Ok,
            final(self)@ == old(self)@,
    {
        Ok(())
    }

    /// Lets the component react to `action`.
    pub fn update(&mut self, action: Action) -> (r: Option<Action>)
        requires
            old(self)@.accepts(action@),
        ensures
            (final(self)@, action_view(r)) == old(self)@.update(action@),
            old(self)@.valid() ==> final(self)@.valid(),
    {
        match self {
            Component::MainMenu(c) => c.update(action),
            Component::Home(c) => c.update(action),
            Component::HelpScreen(c) => c.update(action),
            Component::ModeSwitcher(c) => c.update(action),
        }
    }
}

} // verus!
