//! The content screen: a counter, the lines that were entered, and the line
//! being edited.

use crate::actions::{
    action_view, Action, ActionView, EngineAction, EngineActionView, HomeAction, HomeActionView,
    ListNavDirection,
};
use crate::app;
use crate::bus::{action_views, ActionSender};
use crate::config::{BindingView, Config, ConfigError, KeyMap};
use crate::input::{edited, EditRequest, InputLine};
use crate::keys::{KeyCode, KeyEvent};
use vstd::prelude::*;

verus! {

/// The number of list operations that the screen offers.
pub const LIST_OPS_LEN: usize = 4;

/// What the content screen is doing.
#[derive(Debug, Copy, Clone, PartialEq, Eq, Structural)]
pub enum Mode {
    Normal,
    Insert,
    Processing,
}

impl Default for Mode {
    fn default() -> (m: Mode)
        ensures
            m == Mode::Normal,
    {
        Mode::Normal
    }
}

/// The content screen.
#[derive(Debug)]
pub struct Home {
    pub counter: usize,
    pub app_ticker: usize,
    pub render_ticker: usize,
    pub mode: Mode,
    pub input: InputLine,
    pub action_tx: Option<ActionSender>,
    pub keymap: KeyMap,
    pub text: Vec<String>,
    pub last_events: Vec<KeyEvent>,
    pub todo_op_index: usize,
}

/// The content screen as mathematical values.
pub struct HomeView {
    pub counter: usize,
    pub app_ticker: usize,
    pub render_ticker: usize,
    pub mode: Mode,
    pub input: (Seq<char>, nat),
    pub action_tx: Option<Seq<ActionView>>,
    pub keymap: Seq<BindingView>,
    pub text: Seq<Seq<char>>,
    pub last_events: Seq<KeyEvent>,
    pub todo_op_index: usize,
}

/// The lines as sequences of characters.
pub open spec fn line_views(lines: Seq<String>) -> Seq<Seq<char>> {
    lines.map_values(|s: String| s@)
}

/// `a + b`, or the largest number where the sum does not fit.
pub open spec fn saturating_add(a: usize, b: usize) -> usize {
    if a + b > usize::MAX {
        usize::MAX
    } else {
        (a + b) as usize
    }
}

/// `a - b`, or zero where `b` is the larger.
pub open spec fn saturating_sub(a: usize, b: usize) -> usize {
    if a < b {
        0
    } else {
        (a - b) as usize
    }
}

/// The index that a list of `len` entries selects after a move in `dir` from
/// `index`: left and right go round, up and down leave it.
pub open spec fn navigate(index: usize, len: usize, dir: ListNavDirection) -> usize {
    match dir {
        ListNavDirection::Left => if index == 0 {
            (len - 1) as usize
        } else {
            (index - 1) as usize
        },
        ListNavDirection::Right => if index == len - 1 {
            0
        } else {
            (index + 1) as usize
        },
        _ => index,
    }
}

/// The three actions that a scheduled change of the counter is made of.
pub open spec fn scheduled(change: HomeActionView) -> Seq<ActionView> {
    seq![
        ActionView::Home(HomeActionView::EnterProcessing),
        ActionView::Home(change),
        ActionView::Home(HomeActionView::ExitProcessing),
    ]
}

impl HomeView {
    /// The validity of the screen: the selected list operation is one of
    /// those on offer.
    pub open spec fn wf(self) -> bool {
        self.todo_op_index < LIST_OPS_LEN
    }

    /// The screen after a tick.
    pub open spec fn tick(self) -> HomeView {
        HomeView {
            app_ticker: saturating_add(self.app_ticker, 1),
            last_events: Seq::empty(),
            ..self
        }
    }

    /// The screen after a frame.
    pub open spec fn render_tick(self) -> HomeView {
        HomeView { render_ticker: saturating_add(self.render_ticker, 1), ..self }
    }

    /// The screen with the line `s` entered.
    pub open spec fn add(self, s: Seq<char>) -> HomeView {
        HomeView { text: self.text.push(s), ..self }
    }

    /// The screen with the counter `i` higher, as far as it goes.
    pub open spec fn increment(self, i: usize) -> HomeView {
        HomeView { counter: saturating_add(self.counter, i), ..self }
    }

    /// The screen with the counter `i` lower, as far as it goes.
    pub open spec fn decrement(self, i: usize) -> HomeView {
        HomeView { counter: saturating_sub(self.counter, i), ..self }
    }

    /// The screen after a move in the list of operations, which only the
    /// normal mode follows.
    pub open spec fn navigate_list(self, dir: ListNavDirection) -> HomeView {
        if self.mode == Mode::Normal {
            HomeView { todo_op_index: navigate(self.todo_op_index, LIST_OPS_LEN, dir), ..self }
        } else {
            self
        }
    }

    /// The screen with `actions` emitted through its handle.
    pub open spec fn send(self, actions: Seq<ActionView>) -> HomeView {
        HomeView { action_tx: Some(self.action_tx->0 + actions), ..self }
    }

    /// The screen in the mode `mode`.
    pub open spec fn enter(self, mode: Mode) -> HomeView {
        HomeView { mode, ..self }
    }

    /// Whether the screen can react to `action`: a scheduled change needs
    /// the handle to emit through.
    pub open spec fn accepts(self, action: ActionView) -> bool {
        action matches ActionView::Home(h) && (h is ScheduleIncrement || h is ScheduleDecrement)
            ==> self.action_tx is Some
    }

    /// The screen after it has reacted to `action`.
    pub open spec fn update(self, action: ActionView) -> HomeView {
        match action {
            ActionView::Engine(EngineActionView::Tick) => self.tick(),
            ActionView::Engine(EngineActionView::Render) => self.render_tick(),
            ActionView::Engine(_) => self,
            ActionView::Home(h) => match h {
                HomeActionView::ScheduleIncrement => self.send(
                    scheduled(HomeActionView::Increment(1)),
                ),
                HomeActionView::ScheduleDecrement => self.send(
                    scheduled(HomeActionView::Decrement(1)),
                ),
                HomeActionView::Increment(i) => self.increment(i),
                HomeActionView::Decrement(i) => self.decrement(i),
                HomeActionView::CompleteInput(s) => self.add(s),
                HomeActionView::EnterNormal => self.enter(Mode::Normal),
                HomeActionView::EnterInsert => self.enter(Mode::Insert),
                HomeActionView::EnterProcessing => self.enter(Mode::Processing),
                HomeActionView::ExitProcessing => self.enter(Mode::Normal),
                HomeActionView::NavigateList(dir) => self.navigate_list(dir),
                _ => self,
            },
        }
    }

    /// The screen after the press of `key`, and the action that it answers
    /// with. The press is remembered in any mode. Only the insert mode
    /// reacts: escape leaves it; enter emits the line through the handle,
    /// where there is one, and leaves it; any other key goes to the line
    /// editor as `edit`.
    pub open spec fn handle_key(self, key: KeyEvent, edit: Option<EditRequest>) -> (
        HomeView,
        Option<ActionView>,
    ) {
        let seen = HomeView { last_events: self.last_events.push(key), ..self };
        match self.mode {
            Mode::Normal | Mode::Processing => (seen, None),
            Mode::Insert => match key.code {
                KeyCode::Esc => (seen, Some(ActionView::Home(HomeActionView::EnterNormal))),
                KeyCode::Enter => (
                    if seen.action_tx is Some {
                        seen.send(
                            seq![ActionView::Home(HomeActionView::CompleteInput(seen.input.0))],
                        )
                    } else {
                        seen
                    },
                    Some(ActionView::Home(HomeActionView::EnterNormal)),
                ),
                _ => (
                    match edit {
                        Some(request) => HomeView {
                            input: edited(seen.input.0, seen.input.1, request),
                            ..seen
                        },
                        None => seen,
                    },
                    Some(ActionView::Home(HomeActionView::Update)),
                ),
            },
        }
    }
}

impl View for Home {
    type V = HomeView;

    open spec fn view(&self) -> HomeView {
        HomeView {
            counter: self.counter,
            app_ticker: self.app_ticker,
            render_ticker: self.render_ticker,
            mode: self.mode,
            input: self.input@,
            action_tx: match self.action_tx {
                Some(tx) => Some(tx@),
                None => None,
            },
            keymap: self.keymap.entries(),
            text: line_views(self.text@),
            last_events: self.last_events@,
            todo_op_index: self.todo_op_index,
        }
    }
}

impl Default for Home {
    fn default() -> (home: Home)
        ensures
            home@ == Home::initial(),
    {
        Home::new()
    }
}

impl Home {
    /// The screen as it is made: in the normal mode with everything at zero,
    /// nothing entered, no key bound and no handle to emit through.
    pub open spec fn initial() -> HomeView {
        HomeView {
            counter: 0,
            app_ticker: 0,
            render_ticker: 0,
            mode: Mode::Normal,
            input: (Seq::empty(), 0nat),
            action_tx: None,
            keymap: Seq::empty(),
            text: Seq::empty(),
            last_events: Seq::empty(),
            todo_op_index: 0,
        }
    }

    /// A screen in the normal mode with everything at zero, nothing entered,
    /// no key bound and no handle to emit through.
    pub fn new() -> (home: Home)
        ensures
            home@ == Home::initial(),
    {
        let home = Home {
            counter: 0,
            app_ticker: 0,
            render_ticker: 0,
            mode: Mode::Normal,
            input: InputLine::new(),
            action_tx: None,
            keymap: KeyMap::new(),
            text: Vec::new(),
            last_events: Vec::new(),
            todo_op_index: 0,
        };
        proof {
            assert(line_views(home.text@) =~= Seq::<Seq<char>>::empty());
        }
        home
    }

    /// Gives the screen its table of key bindings.
    pub fn set_keymap(&mut self, keymap: KeyMap)
        ensures
            final(self)@ == (HomeView { keymap: keymap.entries(), ..old(self)@ }),
    {
        self.keymap = keymap;
    }

    /// A tick: one more on the ticker, and the remembered keys are forgotten.
    pub fn tick(&mut self)
        ensures
            final(self)@ == old(self)@.tick(),
    {
        self.app_ticker = self.app_ticker.saturating_add(1);
        self.last_events.clear();
    }

    /// A frame: one more on the frame ticker.
    pub fn render_tick(&mut self)
        ensures
            final(self)@ == old(self)@.render_tick(),
    {
        self.render_ticker = self.render_ticker.saturating_add(1);
    }

    /// Enters the line `s`.
    pub fn add(&mut self, s: String)
        ensures
            final(self)@ == old(self)@.add(s@),
    {
        self.text.push(s);
        proof {
            assert(line_views(self.text@) =~= line_views(old(self).text@).push(s@));
        }
    }

    /// Emits, through the handle, the three actions that raise the counter
    /// by `i`.
    pub fn schedule_increment(&mut self, i: usize)
        requires
            old(self).action_tx is Some,
        ensures
            final(self)@ == old(self)@.send(scheduled(HomeActionView::Increment(i))),
    {
        self.schedule(HomeAction::Increment(i));
    }

    /// Emits, through the handle, the three actions that lower the counter
    /// by `i`.
    pub fn schedule_decrement(&mut self, i: usize)
        requires
            old(self).action_tx is Some,
        ensures
            final(self)@ == old(self)@.send(scheduled(HomeActionView::Decrement(i))),
    {
        self.schedule(HomeAction::Decrement(i));
    }

    fn schedule(&mut self, change: HomeAction)
        requires
            old(self).action_tx is Some,
        ensures
            final(self)@ == old(self)@.send(scheduled(change@)),
    {
        let mut tx = self.action_tx.take().unwrap();
        let ghost before = tx@;
        tx.send(Action::Home(HomeAction::EnterProcessing));
        tx.send(Action::Home(change));
        tx.send(Action::Home(HomeAction::ExitProcessing));
        proof {
            assert(tx@ =~= before + scheduled(change@));
        }
        self.action_tx = Some(tx);
    }

    /// Raises the counter by `i`, as far as it goes.
    pub fn increment(&mut self, i: usize)
        ensures
            final(self)@ == old(self)@.increment(i),
    {
        self.counter = self.counter.saturating_add(i);
    }

    /// Lowers the counter by `i`, as far as it goes.
    pub fn decrement(&mut self, i: usize)
        ensures
            final(self)@ == old(self)@.decrement(i),
    {
        self.counter = self.counter.saturating_sub(i);
    }

    /// Moves the selection in the list of operations.
    pub fn navigate_list(&mut self, dir: ListNavDirection)
        requires
            old(self)@.wf(),
        ensures
            final(self)@ == old(self)@.navigate_list(dir),
            final(self)@.wf(),
    {
        if self.mode == Mode::Normal {
            match dir {
                ListNavDirection::Left => {
                    if self.todo_op_index == 0 {
                        self.todo_op_index = LIST_OPS_LEN - 1;
                    } else {
                        self.todo_op_index -= 1;
                    }
                },
                ListNavDirection::Right => {
                    self.todo_op_index = if self.todo_op_index == LIST_OPS_LEN - 1 {
                        0
                    } else {
                        self.todo_op_index + 1
                    };
                },
                _ => {},
            }
        }
    }

    /// Takes the table of the content screen's mode out of `config`. A
    /// configuration without that table is refused.
    pub fn register_config_handler(&mut self, config: &Config) -> (r: Result<(), ConfigError>)
        ensures
            match r {
                Ok(()) => config.keybindings@.dom().contains(app::Mode::Home) && final(self)@ == (
                    HomeView { keymap: config.keybindings@[app::Mode::Home], ..old(self)@ }
                ),
                Err(e) => !config.keybindings@.dom().contains(app::Mode::Home) && e
                    == ConfigError::MissingMode(app::Mode::Home) && final(self)@ == old(self)@,
            },
    {
        match config.keybindings.get(app::Mode::Home) {
            Some(map) => {
                self.set_keymap(map.clone());
                Ok(())
            },
            None => Err(ConfigError::MissingMode(app::Mode::Home)),
        }
    }

    /// Gives the screen the handle through which it emits actions.
    pub fn register_action_handler(&mut self, tx: ActionSender)
        ensures
            final(self)@ == (HomeView { action_tx: Some(tx@), ..old(self)@ }),
    {
        self.action_tx = Some(tx);
    }

    /// Hands out what waits in the handle of the screen, oldest first.
    pub fn take_sent(&mut self) -> (actions: Vec<Action>)
        ensures
            action_views(actions@) == match old(self)@.action_tx {
                Some(waiting) => waiting,
                None => Seq::empty(),
            },
            final(self)@ == match old(self)@.action_tx {
                Some(_) => HomeView { action_tx: Some(Seq::empty()), ..old(self)@ },
                None => old(self)@,
            },
    {
        match self.action_tx.take() {
            Some(tx) => {
                let mut tx = tx;
                let actions = tx.take();
                self.action_tx = Some(tx);
                actions
            },
            None => {
                let actions: Vec<Action> = Vec::new();
                proof {
                    assert(action_views(actions@) =~= Seq::<ActionView>::empty());
                }
                actions
            },
        }
    }

    /// Reacts to the press of `key`, which asks `edit` of a line of text.
    pub fn handle_key_events(&mut self, key: KeyEvent, edit: Option<EditRequest>) -> (r: Option<
        Action,
    >)
        ensures
            (final(self)@, action_view(r)) == old(self)@.handle_key(key, edit),
    {
        self.last_events.push(key);
        match self.mode {
            Mode::Normal | Mode::Processing => None,
            Mode::Insert => match key.code {
                KeyCode::Esc => Some(Action::Home(HomeAction::EnterNormal)),
                KeyCode::Enter => {
                    let line = String::from_str(self.input.value());
                    match self.action_tx.take() {
                        Some(tx) => {
                            let mut tx = tx;
                            let ghost before = tx@;
                            tx.send(Action::Home(HomeAction::CompleteInput(line)));
                            proof {
                                assert(tx@ =~= before + seq![
                                    ActionView::Home(HomeActionView::CompleteInput(line@)),
                                ]);
                            }
                            self.action_tx = Some(tx);
                        },
                        None => {},
                    }
                    Some(Action::Home(HomeAction::EnterNormal))
                },
                _ => {
                    match edit {
                        Some(request) => {
                            self.input.handle(request);
                        },
                        None => {},
                    }
                    Some(Action::Home(HomeAction::Update))
                },
            },
        }
    }

    /// Reacts to `action`. The screen never answers with an action of its
    /// own; what it emits goes through its handle.
    pub fn update(&mut self, action: Action) -> (r: Option<Action>)
        requires
            old(self)@.wf(),
            old(self)@.accepts(action@),
        ensures
            r is None,
            final(self)@ == old(self)@.update(action@),
            final(self)@.wf(),
    {
        match action {
            Action::Engine(e) => match e {
                EngineAction::Tick => self.tick(),
                EngineAction::Render => self.render_tick(),
                _ => {},
            },
            Action::Home(h) => match h {
                HomeAction::ScheduleIncrement => self.schedule_increment(1),
                HomeAction::ScheduleDecrement => self.schedule_decrement(1),
                HomeAction::Increment(i) => self.increment(i),
                HomeAction::Decrement(i) => self.decrement(i),
                HomeAction::CompleteInput(s) => self.add(s),
                HomeAction::EnterNormal => {
                    self.mode = Mode::Normal;
                },
                HomeAction::EnterInsert => {
                    self.mode = Mode::Insert;
                },
                HomeAction::EnterProcessing => {
                    self.mode = Mode::Processing;
                },
                HomeAction::NavigateList(dir) => {
                    self.navigate_list(dir);
                },
                HomeAction::ExitProcessing => {
                    self.mode = Mode::Normal;
                },
                _ => {},
            },
        }
        None
    }
}

} // verus!
