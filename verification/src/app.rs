//! The dispatch loop: its state, and what it does with each event and action.

use crate::actions::{
    action_view, Action, ActionView, EngineAction, EngineActionView, HomeActionView,
};
use crate::bus::{action_views, ActionBus, ActionSender};
use crate::components::help_screen::HelpScreen;
use crate::components::home::Home;
use crate::components::main_menu::MainMenu;
use crate::components::mode_switcher::ModeSwitcher;
use crate::components::{cascades, emitted, Component, ComponentView};
use crate::config::{bindings_wf, map_of, BindingView, Config, ConfigError};
use crate::event::Event;
use crate::keys::KeyEvent;
use crate::resolver::{press_spec, Resolver};
use vstd::prelude::*;

verus! {

/// The focus of the interface. Exactly one mode is active at any time; it
/// selects the table of key bindings that key presses are resolved against.
#[derive(Debug, Copy, Clone, PartialEq, Eq, Hash, Structural)]
pub enum Mode {
    MainMenu,
    Home,
}

impl Default for Mode {
    fn default() -> (m: Mode)
        ensures
            m == Mode::MainMenu,
    {
        Mode::MainMenu
    }
}

impl Mode {
    /// The name of the mode as it is written in the textual form of actions.
    pub open spec fn name_spec(self) -> Seq<char> {
        match self {
            Mode::MainMenu => "MainMenu"@,
            Mode::Home => "Home"@,
        }
    }

    /// The name of the mode as it is written in the textual form of actions.
    pub fn name(&self) -> (s: &'static str)
        ensures
            s@ == self.name_spec(),
    {
        match self {
            Mode::MainMenu => "MainMenu",
            Mode::Home => "Home",
        }
    }
}

/// Where the dispatch loop stands.
#[derive(Debug, Copy, Clone, PartialEq, Eq, Structural)]
pub enum LoopState {
    Running,
    Suspending,
    Quitting,
}

/// What the terminal owes for an action, before the components get it.
#[derive(Debug, Copy, Clone, PartialEq, Eq, Structural)]
pub enum Effect {
    /// Nothing.
    Nothing,
    /// A full redraw.
    Draw,
    /// A resize to this width and height, and then a full redraw.
    Resize(u16, u16),
}

/// How the loop goes on when the bus is drained.
#[derive(Debug, Copy, Clone, PartialEq, Eq, Structural)]
pub enum LoopControl {
    /// It waits for the next terminal event.
    Continue,
    /// It gives up the terminal, and takes a fresh one when the process
    /// goes on.
    Suspend,
    /// It tears the terminal down and ends.
    Quit,
}

/// The state of the dispatch loop as mathematical values.
pub struct AppView {
    pub bindings: Map<Mode, Seq<BindingView>>,
    pub components: Seq<ComponentView>,
    pub should_quit: bool,
    pub should_suspend: bool,
    pub mode: Mode,
    pub pending: Seq<KeyEvent>,
}

/// The components as mathematical values.
pub open spec fn component_views(components: Seq<Component>) -> Seq<ComponentView> {
    components.map_values(|c: Component| c@)
}

/// What forwarding `action` to `components`, in their order, makes of them,
/// and what they put on the bus, in order.
pub open spec fn fan_out(components: Seq<ComponentView>, action: ActionView) -> (
    Seq<ComponentView>,
    Seq<ActionView>,
)
    decreases components.len(),
{
    if components.len() == 0 {
        (Seq::empty(), Seq::empty())
    } else {
        let before = fan_out(components.drop_last(), action);
        let last = components.last().update(action);
        (before.0.push(last.0.flushed()), before.1 + emitted(last.0, last.1))
    }
}

/// What showing `event` to `components`, in their order, makes of them, and
/// what they put on the bus, in order.
pub open spec fn show(components: Seq<ComponentView>, event: Event) -> (
    Seq<ComponentView>,
    Seq<ActionView>,
)
    decreases components.len(),
{
    if components.len() == 0 {
        (Seq::empty(), Seq::empty())
    } else {
        let before = show(components.drop_last(), event);
        let last = components.last().handle_event(event);
        (before.0.push(last.0.flushed()), before.1 + emitted(last.0, last.1))
    }
}

/// What the terminal owes for `action`.
pub open spec fn effect_of(action: ActionView) -> Effect {
    match action {
        ActionView::Engine(EngineActionView::Resize(w, h)) => Effect::Resize(w, h),
        ActionView::Engine(EngineActionView::Render) => Effect::Draw,
        _ => Effect::Nothing,
    }
}

impl AppView {
    /// The validity of the state: that of the key bindings and of every
    /// component.
    pub open spec fn wf(self) -> bool {
        &&& bindings_wf(self.bindings)
        &&& forall|i: int| 0 <= i < self.components.len() ==> (#[trigger] self.components[i]).wf()
    }

    /// Where the loop stands.
    pub open spec fn state(self) -> LoopState {
        if self.should_suspend {
            LoopState::Suspending
        } else if self.should_quit {
            LoopState::Quitting
        } else {
            LoopState::Running
        }
    }

    /// The state after `action` is applied to the loop itself: a tick drops
    /// the waiting keys, a change of mode swaps the active mode, and quit,
    /// suspend and resume set where the loop stands.
    pub open spec fn lifecycle(self, action: ActionView) -> AppView {
        match action {
            ActionView::Engine(EngineActionView::Tick) => AppView { pending: Seq::empty(), ..self },
            ActionView::Engine(EngineActionView::ChangeMode(mode)) => AppView { mode, ..self },
            ActionView::Engine(EngineActionView::Quit) => AppView { should_quit: true, ..self },
            ActionView::Engine(EngineActionView::Suspend) => AppView {
                should_suspend: true,
                ..self
            },
            ActionView::Engine(EngineActionView::Resume) => AppView {
                should_suspend: false,
                ..self
            },
            _ => self,
        }
    }

    /// The state after `action` is dispatched, and what goes on the bus: the
    /// action is applied to the loop itself and then forwarded to every
    /// component.
    pub open spec fn dispatch(self, action: ActionView) -> (AppView, Seq<ActionView>) {
        let applied = self.lifecycle(action);
        let forwarded = fan_out(applied.components, action);
        (AppView { components: forwarded.0, ..applied }, forwarded.1)
    }

    /// What the press of `key` resolves to against the table of the active
    /// mode: the keys that wait afterwards, and the action, if any. Where
    /// the mode has no table the press resolves to nothing.
    pub open spec fn resolve(self, key: KeyEvent) -> (Seq<KeyEvent>, Option<ActionView>) {
        if self.bindings.dom().contains(self.mode) {
            press_spec(map_of(self.bindings[self.mode]), self.pending, key)
        } else {
            (self.pending, None)
        }
    }

    /// The state after the terminal event `event`, and what goes on the bus:
    /// first the action that the event itself stands for, a key press being
    /// resolved against the table of the active mode, and then what the
    /// components answer when they are shown the event.
    pub open spec fn handle_event(self, event: Event) -> (AppView, Seq<ActionView>) {
        let first: (Seq<KeyEvent>, Option<ActionView>) = match event {
            Event::Quit => (self.pending, Some(ActionView::Engine(EngineActionView::Quit))),
            Event::Tick => (self.pending, Some(ActionView::Engine(EngineActionView::Tick))),
            Event::Render => (self.pending, Some(ActionView::Engine(EngineActionView::Render))),
            Event::Resize(w, h) => (
                self.pending,
                Some(ActionView::Engine(EngineActionView::Resize(w, h))),
            ),
            Event::Key { key, edit } => self.resolve(key),
        };
        let shown = show(self.components, event);
        (
            AppView { pending: first.0, components: shown.0, ..self },
            match first.1 {
                Some(action) => seq![action] + shown.1,
                None => shown.1,
            },
        )
    }

    /// What the loop does when the bus is drained: it goes on to suspend
    /// where a suspension is asked for, else to quit where that is asked
    /// for, else to the next event.
    pub open spec fn control(self) -> LoopControl {
        if self.should_suspend {
            LoopControl::Suspend
        } else if self.should_quit {
            LoopControl::Quit
        } else {
            LoopControl::Continue
        }
    }

    /// An upper bound on the dispatches that `action` leads to: itself, and
    /// for every component at most three actions that lead to nothing more.
    pub open spec fn weight(self, action: ActionView) -> nat {
        if cascades(action) {
            1 + 3 * self.components.len()
        } else {
            1
        }
    }

    /// An upper bound on the dispatches that the actions of `queue` lead to.
    pub open spec fn load(self, queue: Seq<ActionView>) -> nat
        decreases queue.len(),
    {
        if queue.len() == 0 {
            0
        } else {
            self.weight(queue[0]) + self.load(queue.drop_first())
        }
    }
}

/// A valid component that gets `action` stays valid, and puts on the bus at
/// most three actions, none of which makes a component put anything on the
/// bus; it puts nothing there unless `action` is one that does.
pub proof fn lemma_component_update(c: ComponentView, action: ActionView)
    requires
        c.wf(),
    ensures
        c.update(action).0.flushed().wf(),
        emitted(c.update(action).0, c.update(action).1).len() <= 3,
        !cascades(action) ==> emitted(c.update(action).0, c.update(action).1).len() == 0,
        forall|i: int|
            0 <= i < emitted(c.update(action).0, c.update(action).1).len() ==> !cascades(
                #[trigger] emitted(c.update(action).0, c.update(action).1)[i],
            ),
{
    let after = c.update(action).0;
    let answer = c.update(action).1;
    let out = emitted(after, answer);
    match c {
        ComponentView::Home(h) => {
            assert(h.action_tx == Some(Seq::<ActionView>::empty()));
            assert(after.flushed().sent() =~= Seq::<ActionView>::empty());
            match action {
                ActionView::Home(HomeActionView::ScheduleIncrement) => {
                    assert(out =~= crate::components::home::scheduled(
                        HomeActionView::Increment(1),
                    ));
                },
                ActionView::Home(HomeActionView::ScheduleDecrement) => {
                    assert(out =~= crate::components::home::scheduled(
                        HomeActionView::Decrement(1),
                    ));
                },
                _ => {
                    assert(out =~= Seq::<ActionView>::empty());
                },
            }
        },
        ComponentView::MainMenu(m) => {
            assert(out =~= Seq::<ActionView>::empty());
            assert(after.flushed().sent() =~= Seq::<ActionView>::empty());
        },
        ComponentView::HelpScreen(_) => {
            assert(out =~= Seq::<ActionView>::empty());
        },
        ComponentView::ModeSwitcher(_) => {},
    }
}

/// Forwarding an action to valid components leaves as many components, all
/// valid, and puts on the bus at most three actions for each, none of which
/// makes a component put anything on the bus; it puts nothing there unless
/// `action` is one that does.
pub proof fn lemma_fan_out(components: Seq<ComponentView>, action: ActionView)
    requires
        forall|i: int| 0 <= i < components.len() ==> (#[trigger] components[i]).wf(),
    ensures
        fan_out(components, action).0.len() == components.len(),
        forall|i: int|
            0 <= i < components.len() ==> (#[trigger] fan_out(components, action).0[i]).wf(),
        fan_out(components, action).1.len() <= 3 * components.len(),
        !cascades(action) ==> fan_out(components, action).1.len() == 0,
        forall|i: int|
            0 <= i < fan_out(components, action).1.len() ==> !cascades(
                #[trigger] fan_out(components, action).1[i],
            ),
    decreases components.len(),
{
    if components.len() > 0 {
        let front = components.drop_last();
        assert forall|i: int| 0 <= i < front.len() implies (#[trigger] front[i]).wf() by {
            assert(front[i] == components[i]);
        }
        lemma_fan_out(front, action);
        lemma_component_update(components.last(), action);
    }
}

/// Showing an event to valid components leaves as many components, all
/// valid.
pub proof fn lemma_show(components: Seq<ComponentView>, event: Event)
    requires
        forall|i: int| 0 <= i < components.len() ==> (#[trigger] components[i]).wf(),
    ensures
        show(components, event).0.len() == components.len(),
        forall|i: int| 0 <= i < components.len() ==> (#[trigger] show(components, event).0[i]).wf(),
    decreases components.len(),
{
    if components.len() > 0 {
        let front = components.drop_last();
        assert forall|i: int| 0 <= i < front.len() implies (#[trigger] front[i]).wf() by {
            assert(front[i] == components[i]);
        }
        lemma_show(front, event);
    }
}

/// Dispatching an action in a valid state leaves a valid state with the
/// same key bindings and as many components, and puts on the bus at most
/// three actions for each component, none of which makes a component put
/// anything on the bus; it puts nothing there unless `action` is one that
/// does.
pub proof fn lemma_dispatch(app: AppView, action: ActionView)
    requires
        app.wf(),
    ensures
        app.dispatch(action).0.wf(),
        app.dispatch(action).0.bindings == app.bindings,
        app.dispatch(action).0.components.len() == app.components.len(),
        app.dispatch(action).1.len() <= 3 * app.components.len(),
        !cascades(action) ==> app.dispatch(action).1.len() == 0,
        forall|i: int|
            0 <= i < app.dispatch(action).1.len() ==> !cascades(
                #[trigger] app.dispatch(action).1[i],
            ),
{
    lemma_fan_out(app.lifecycle(action).components, action);
}

/// The load of two queues, one behind the other, is the sum of their loads.
proof fn lemma_load_concat(app: AppView, a: Seq<ActionView>, b: Seq<ActionView>)
    ensures
        app.load(a + b) == app.load(a) + app.load(b),
    decreases a.len(),
{
    if a.len() == 0 {
        assert(a + b =~= b);
    } else {
        assert((a + b).drop_first() =~= a.drop_first() + b);
        lemma_load_concat(app, a.drop_first(), b);
    }
}

/// A queue of actions that lead to nothing more has its length as load.
proof fn lemma_load_plain(app: AppView, queue: Seq<ActionView>)
    requires
        forall|i: int| 0 <= i < queue.len() ==> !cascades(#[trigger] queue[i]),
    ensures
        app.load(queue) == queue.len(),
    decreases queue.len(),
{
    if queue.len() > 0 {
        let rest = queue.drop_first();
        assert forall|i: int| 0 <= i < rest.len() implies !cascades(#[trigger] rest[i]) by {
            assert(rest[i] == queue[i + 1]);
        }
        lemma_load_plain(app, rest);
    }
}

/// The load of a queue depends on the state only through the number of
/// components.
proof fn lemma_load_same(a: AppView, b: AppView, queue: Seq<ActionView>)
    requires
        a.components.len() == b.components.len(),
    ensures
        a.load(queue) == b.load(queue),
    decreases queue.len(),
{
    if queue.len() > 0 {
        lemma_load_same(a, b, queue.drop_first());
    }
}

/// Dispatching the oldest action of a queue, and putting what that brings
/// behind the rest, leaves a queue of smaller load.
proof fn lemma_load_decreases(app: AppView, queue: Seq<ActionView>)
    requires
        app.wf(),
        queue.len() > 0,
    ensures
        app.dispatch(queue[0]).0.load(queue.drop_first() + app.dispatch(queue[0]).1) < app.load(
            queue,
        ),
{
    let next = app.dispatch(queue[0]);
    lemma_dispatch(app, queue[0]);
    lemma_load_same(app, next.0, queue.drop_first() + next.1);
    lemma_load_concat(app, queue.drop_first(), next.1);
    lemma_load_plain(app, next.1);
}

/// What draining `queue` makes of the state, and the actions that are
/// dispatched on the way, in order: the oldest action is dispatched, what
/// that brings is put behind the rest, and so on until nothing waits.
pub open spec fn drain_spec(app: AppView, queue: Seq<ActionView>) -> (AppView, Seq<ActionView>)
    decreases app.load(queue),
    when app.wf()
    via drain_spec_decreases
{
    if queue.len() == 0 {
        (app, Seq::empty())
    } else {
        let next = app.dispatch(queue[0]);
        let rest = drain_spec(next.0, queue.drop_first() + next.1);
        (rest.0, seq![queue[0]] + rest.1)
    }
}

#[via_fn]
proof fn drain_spec_decreases(app: AppView, queue: Seq<ActionView>) {
    if queue.len() > 0 {
        lemma_load_decreases(app, queue);
    }
}

/// The state in which the loop starts with the key bindings `bindings`:
/// the main menu, the content screen, the help overlay and the mode
/// switcher, in this order, each configured and with its handle; the main
/// menu active; nothing asked for and no key waiting.
pub open spec fn initial(bindings: Map<Mode, Seq<BindingView>>) -> AppView {
    AppView {
        bindings,
        components: seq![
            ComponentView::MainMenu(
                crate::components::main_menu::MainMenuView {
                    show_help: false,
                    action_tx: Some(Seq::empty()),
                    keymap: bindings[Mode::MainMenu],
                    tabs: crate::components::main_menu::MainMenuTabs {
                        item_index: 0,
                        is_item_selected: false,
                    },
                },
            ),
            ComponentView::Home(
                crate::components::home::HomeView {
                    counter: 0,
                    app_ticker: 0,
                    render_ticker: 0,
                    mode: crate::components::home::Mode::Normal,
                    input: (Seq::empty(), 0nat),
                    action_tx: Some(Seq::empty()),
                    keymap: bindings[Mode::Home],
                    text: Seq::empty(),
                    last_events: Seq::empty(),
                    todo_op_index: 0,
                },
            ),
            ComponentView::HelpScreen(
                crate::components::help_screen::HelpScreenView {
                    show_help: false,
                    watched_modes: seq![Mode::MainMenu],
                    bindings,
                },
            ),
            ComponentView::ModeSwitcher(
                crate::components::mode_switcher::ModeSwitcherView {
                    show_menu: false,
                    current_index: 0,
                    selected: Some(0usize),
                },
            ),
        ],
        should_quit: false,
        should_suspend: false,
        mode: Mode::MainMenu,
        pending: Seq::empty(),
    }
}

/// How a failure to draw is told: the words that come before the reason.
pub open spec fn draw_failure_prefix() -> Seq<char> {
    "Failed to draw: "@
}

/// Tells of a failure to draw, which must not end the loop: puts on `bus`
/// the error action that carries `reason`.
pub fn report_draw_failure(bus: &mut ActionBus, reason: &str)
    ensures
        final(bus)@ == old(bus)@.push(
            ActionView::Engine(EngineActionView::Error(draw_failure_prefix() + reason@)),
        ),
{
    let mut message = String::from_str("Failed to draw: ");
    message.append(reason);
    bus.send(Action::Engine(EngineAction::Error(message)));
}

/// What the terminal owes for `action`, before the components get it.
pub fn effect(action: &Action) -> (e: Effect)
    ensures
        e == effect_of(action@),
{
    match action {
        Action::Engine(EngineAction::Resize(w, h)) => Effect::Resize(*w, *h),
        Action::Engine(EngineAction::Render) => Effect::Draw,
        _ => Effect::Nothing,
    }
}

/// The dispatch loop: the configuration, the components in the order of
/// their registration, where the loop stands, the active mode, and the
/// resolver with the keys that wait.
#[derive(Debug)]
pub struct App {
    config: Config,
    components: Vec<Component>,
    should_quit: bool,
    should_suspend: bool,
    mode: Mode,
    last_tick_key_events: Resolver,
}

impl View for App {
    type V = AppView;

    closed spec fn view(&self) -> AppView {
        AppView {
            bindings: self.config.keybindings@,
            components: component_views(self.components@),
            should_quit: self.should_quit,
            should_suspend: self.should_suspend,
            mode: self.mode,
            pending: self.last_tick_key_events@,
        }
    }
}

impl App {
    /// The validity of the loop.
    pub open spec fn wf(&self) -> bool {
        self@.wf()
    }

    /// Sets the loop up with `config`: makes the components, gives each its
    /// handle and the configuration. A configuration in which the main menu
    /// or the content screen has no table of key bindings is refused.
    pub fn new(config: Config) -> (r: Result<App, ConfigError>)
        requires
            config.keybindings.wf(),
        ensures
            match r {
                Ok(app) => {
                    &&& config.keybindings@.dom().contains(Mode::MainMenu)
                    &&& config.keybindings@.dom().contains(Mode::Home)
                    &&& app@ == initial(config.keybindings@)
                    &&& app.wf()
                },
                Err(e) => e == if !config.keybindings@.dom().contains(Mode::MainMenu) {
                    ConfigError::MissingMode(Mode::MainMenu)
                } else {
                    ConfigError::MissingMode(Mode::Home)
                } && !(config.keybindings@.dom().contains(Mode::MainMenu)
                    && config.keybindings@.dom().contains(Mode::Home)),
            },
    {
        let mode = Mode::MainMenu;
        let mut main_menu = MainMenu::new();
        main_menu.register_action_handler(ActionSender::new());
        match main_menu.register_config_handler(&config) {
            Ok(()) => {},
            Err(e) => {
                return Err(e);
            },
        }
        let mut home = Home::new();
        home.register_action_handler(ActionSender::new());
        match home.register_config_handler(&config) {
            Ok(()) => {},
            Err(e) => {
                return Err(e);
            },
        }
        let mut watched: Vec<Mode> = Vec::new();
        watched.push(mode);
        let mut help_screen = HelpScreen::new(watched);
        help_screen.register_config_handler(&config);
        let mode_switcher = ModeSwitcher::new(mode);
        let mut components: Vec<Component> = Vec::new();
        components.push(Component::MainMenu(main_menu));
        components.push(Component::Home(home));
        components.push(Component::HelpScreen(help_screen));
        components.push(Component::ModeSwitcher(mode_switcher));
        proof {
            assert(component_views(components@) =~= initial(config.keybindings@).components);
        }
        let mut i: usize = 0;
        while i < components.len()
            invariant
                i <= components.len(),
                component_views(components@) == initial(config.keybindings@).components,
            decreases components.len() - i,
        {
            let ghost before = components@;
            match components[i].init() {
                Ok(()) => {},
                Err(e) => {
                    return Err(e);
                },
            }
            proof {
                assert(component_views(components@) =~= component_views(before));
            }
            i += 1;
        }
        let app = App {
            config,
            components,
            should_quit: false,
            should_suspend: false,
            mode,
            last_tick_key_events: Resolver::new(),
        };
        proof {
            assert(app@.components =~= initial(config.keybindings@).components);
            assert(app@ == initial(config.keybindings@));
        }
        Ok(app)
    }

    /// Whether the loop is asked to end.
    pub fn should_quit(&self) -> (b: bool)
        ensures
            b == self@.should_quit,
    {
        self.should_quit
    }

    /// Whether the loop is asked to suspend.
    pub fn should_suspend(&self) -> (b: bool)
        ensures
            b == self@.should_suspend,
    {
        self.should_suspend
    }

    /// The active mode.
    pub fn mode(&self) -> (m: Mode)
        ensures
            m == self@.mode,
    {
        self.mode
    }

    /// Where the loop stands.
    pub fn state(&self) -> (s: LoopState)
        ensures
            s == self@.state(),
    {
        if self.should_suspend {
            LoopState::Suspending
        } else if self.should_quit {
            LoopState::Quitting
        } else {
            LoopState::Running
        }
    }

    /// The configuration.
    pub fn config(&self) -> (c: &Config)
        ensures
            c.keybindings@ == self@.bindings,
    {
        &self.config
    }

    /// The components in the order of their registration.
    pub fn components(&self) -> (all: &Vec<Component>)
        ensures
            component_views(all@) == self@.components,
    {
        &self.components
    }

    /// The resolver with the keys that wait.
    pub fn resolver(&self) -> (r: &Resolver)
        ensures
            r@ == self@.pending,
    {
        &self.last_tick_key_events
    }

    /// How the loop goes on now that the bus is drained. Where it goes on to
    /// suspend, the action that ends the suspension is put on the bus.
    pub fn end_of_iteration(&self, bus: &mut ActionBus) -> (control: LoopControl)
        ensures
            control == self@.control(),
            final(bus)@ == if control == LoopControl::Suspend {
                old(bus)@.push(ActionView::Engine(EngineActionView::Resume))
            } else {
                old(bus)@
            },
    {
        if self.should_suspend {
            bus.send(Action::Engine(EngineAction::Resume));
            LoopControl::Suspend
        } else if self.should_quit {
            LoopControl::Quit
        } else {
            LoopControl::Continue
        }
    }

    fn apply(&mut self, action: &Action)
        ensures
            final(self)@ == old(self)@.lifecycle(action@),
    {
        match action {
            Action::Engine(EngineAction::Tick) => {
                self.last_tick_key_events.tick();
            },
            Action::Engine(EngineAction::ChangeMode(mode)) => {
                self.mode = *mode;
            },
            Action::Engine(EngineAction::Quit) => {
                self.should_quit = true;
            },
            Action::Engine(EngineAction::Suspend) => {
                self.should_suspend = true;
            },
            Action::Engine(EngineAction::Resume) => {
                self.should_suspend = false;
            },
            _ => {},
        }
    }

    /// Dispatches `action`: applies it to the loop itself, forwards it to
    /// every component in the order of registration, and puts behind the
    /// actions on `bus` what each component emits and answers.
    pub fn dispatch(&mut self, action: Action, bus: &mut ActionBus)
        requires
            old(self).wf(),
        ensures
            final(self).wf(),
            final(self)@ == old(self)@.dispatch(action@).0,
            final(bus)@ == old(bus)@ + old(self)@.dispatch(action@).1,
            action@ == ActionView::Engine(EngineActionView::Tick) ==> final(self)@.pending
                == Seq::<KeyEvent>::empty(),
            action@ matches ActionView::Engine(EngineActionView::ChangeMode(mode))
                ==> final(self)@.mode == mode,
    {
        self.apply(&action);
        let ghost applied = self@;
        let ghost start = old(bus)@;
        proof {
            lemma_dispatch(old(self)@, action@);
            assert(applied.components.take(0) =~= Seq::<ComponentView>::empty());
            assert(applied.components.skip(0) =~= applied.components);
            assert(start + fan_out(applied.components.take(0), action@).1 =~= start);
        }
        let mut i: usize = 0;
        while i < self.components.len()
            invariant
                i <= self.components.len(),
                self.components.len() == applied.components.len(),
                applied == old(self)@.lifecycle(action@),
                forall|k: int|
                    0 <= k < applied.components.len() ==> (#[trigger] applied.components[k]).wf(),
                self@ == (AppView {
                    components: fan_out(applied.components.take(i as int), action@).0
                        + applied.components.skip(i as int),
                    ..applied
                }),
                bus@ == start + fan_out(applied.components.take(i as int), action@).1,
            decreases self.components.len() - i,
        {
            let ghost done = fan_out(applied.components.take(i as int), action@);
            let ghost before = self@.components;
            let ghost waiting = bus@;
            proof {
                lemma_fan_out(applied.components.take(i as int), action@);
                assert(before[i as int] == applied.components[i as int]);
                assert(applied.components.take(i + 1).drop_last() =~= applied.components.take(
                    i as int,
                ));
                assert(applied.components.take(i + 1).last() == applied.components[i as int]);
            }
            let ghost comps0 = self.components@;
            let answer = self.components[i].update(action.clone());
            let ghost comps1 = self.components@;
            let ghost after = self.components@[i as int]@;
            let sent = self.components[i].take_sent();
            let ghost comps2 = self.components@;
            bus.send_all(sent);
            match answer {
                Some(a) => {
                    bus.send(a);
                },
                None => {},
            }
            proof {
                let next = fan_out(applied.components.take(i + 1), action@);
                assert(bus@ =~= waiting + emitted(after, action_view(answer)));
                assert(bus@ =~= start + next.1);
                assert(comps1.len() == comps0.len());
                assert(comps2.len() == comps0.len());
                assert(forall|k: int| 0 <= k < comps0.len() && k != i ==> comps2[k] == comps0[k]);
                assert(comps2[i as int]@ == after.flushed());
                assert(after == applied.components[i as int].update(action@).0);
                let target = next.0 + applied.components.skip(i + 1);
                assert(target.len() == comps0.len());
                assert forall|k: int| 0 <= k < comps0.len() implies self@.components[k]
                    == target[k] by {
                    if k < i {
                        assert(self@.components[k] == before[k]);
                        assert(before[k] == done.0[k]);
                        assert(target[k] == next.0[k]);
                    } else if k == i {
                        assert(target[k] == next.0[k]);
                    } else {
                        assert(self@.components[k] == before[k]);
                        assert(before[k] == applied.components.skip(i as int)[k - i]);
                        assert(target[k] == applied.components.skip(i + 1)[k - i - 1]);
                    }
                }
                assert(self@.components =~= target);
            }
            i += 1;
        }
        proof {
            assert(applied.components.take(i as int) =~= applied.components);
            assert(self@.components =~= fan_out(applied.components, action@).0);
        }
    }

    fn first_action(&mut self, event: Event) -> (first: Option<Action>)
        requires
            old(self).wf(),
        ensures
            final(self)@ == (AppView {
                pending: match event {
                    Event::Key { key, edit } => old(self)@.resolve(key).0,
                    _ => old(self)@.pending,
                },
                ..old(self)@
            }),
            action_view(first) == match event {
                Event::Quit => Some(ActionView::Engine(EngineActionView::Quit)),
                Event::Tick => Some(ActionView::Engine(EngineActionView::Tick)),
                Event::Render => Some(ActionView::Engine(EngineActionView::Render)),
                Event::Resize(w, h) => Some(ActionView::Engine(EngineActionView::Resize(w, h))),
                Event::Key { key, edit } => old(self)@.resolve(key).1,
            },
    {
        match event {
            Event::Quit => Some(Action::Engine(EngineAction::Quit)),
            Event::Tick => Some(Action::Engine(EngineAction::Tick)),
            Event::Render => Some(Action::Engine(EngineAction::Render)),
            Event::Resize(w, h) => Some(Action::Engine(EngineAction::Resize(w, h))),
            Event::Key { key, edit } => match self.config.keybindings.get(self.mode) {
                Some(table) => {
                    assert(self@.bindings.dom().contains(self@.mode));
                    assert(table.wf());
                    self.last_tick_key_events.press(table, key)
                },
                None => None,
            },
        }
    }

    /// Takes the terminal event `event`: puts on `bus` first the action
    /// that the event itself stands for, a key press being resolved against
    /// the table of the active mode, and then what each component emits and
    /// answers when it is shown the event.
    pub fn handle_event(&mut self, event: Event, bus: &mut ActionBus)
        requires
            old(self).wf(),
        ensures
            final(self).wf(),
            final(self)@ == old(self)@.handle_event(event).0,
            final(bus)@ == old(bus)@ + old(self)@.handle_event(event).1,
    {
        let ghost first_state = old(self)@.components;
        let ghost start = old(bus)@;
        let first = self.first_action(event);
        let ghost resolved = self@;
        match first {
            Some(action) => {
                bus.send(action);
            },
            None => {},
        }
        let ghost begun = bus@;
        proof {
            lemma_show(first_state, event);
            assert(first_state.take(0) =~= Seq::<ComponentView>::empty());
            assert(first_state.skip(0) =~= first_state);
            assert(begun + show(first_state.take(0), event).1 =~= begun);
        }
        let mut i: usize = 0;
        while i < self.components.len()
            invariant
                i <= self.components.len(),
                self.components.len() == first_state.len(),
                resolved.components == first_state,
                bindings_wf(resolved.bindings),
                forall|k: int| 0 <= k < first_state.len() ==> (#[trigger] first_state[k]).wf(),
                self@ == (AppView {
                    components: show(first_state.take(i as int), event).0 + first_state.skip(
                        i as int,
                    ),
                    ..resolved
                }),
                bus@ == begun + show(first_state.take(i as int), event).1,
            decreases self.components.len() - i,
        {
            let ghost done = show(first_state.take(i as int), event);
            let ghost before = self@.components;
            let ghost waiting = bus@;
            proof {
                lemma_show(first_state.take(i as int), event);
                assert(before[i as int] == first_state[i as int]);
                assert(first_state.take(i + 1).drop_last() =~= first_state.take(i as int));
                assert(first_state.take(i + 1).last() == first_state[i as int]);
            }
            let ghost comps0 = self.components@;
            let answer = self.components[i].handle_events(event);
            let ghost comps1 = self.components@;
            let ghost after = self.components@[i as int]@;
            let sent = self.components[i].take_sent();
            let ghost comps2 = self.components@;
            bus.send_all(sent);
            match answer {
                Some(a) => {
                    bus.send(a);
                },
                None => {},
            }
            proof {
                let next = show(first_state.take(i + 1), event);
                assert(bus@ =~= waiting + emitted(after, action_view(answer)));
                assert(bus@ =~= begun + next.1);
                assert(comps1.len() == comps0.len());
                assert(comps2.len() == comps0.len());
                assert(forall|k: int| 0 <= k < comps0.len() && k != i ==> comps2[k] == comps0[k]);
                assert(comps2[i as int]@ == after.flushed());
                assert(after == first_state[i as int].handle_event(event).0);
                let target = next.0 + first_state.skip(i + 1);
                assert(target.len() == comps0.len());
                assert forall|k: int| 0 <= k < comps0.len() implies self@.components[k]
                    == target[k] by {
                    if k < i {
                        assert(self@.components[k] == before[k]);
                        assert(before[k] == done.0[k]);
                        assert(target[k] == next.0[k]);
                    } else if k == i {
                        assert(target[k] == next.0[k]);
                    } else {
                        assert(self@.components[k] == before[k]);
                        assert(before[k] == first_state.skip(i as int)[k - i]);
                        assert(target[k] == first_state.skip(i + 1)[k - i - 1]);
                    }
                }
                assert(self@.components =~= target);
            }
            i += 1;
        }
        proof {
            assert(first_state.take(i as int) =~= first_state);
            assert(self@.components =~= show(first_state, event).0);
            let shown = show(first_state, event);
            match action_view(first) {
                Some(a) => {
                    assert(bus@ =~= start + (seq![a] + shown.1));
                },
                None => {},
            }
        }
    }

    /// Drains `bus`: dispatches the oldest action, again and again, with
    /// what each dispatch brings put behind the rest, until nothing waits.
    /// The actions that were dispatched are handed back in order.
    pub fn drain(&mut self, bus: &mut ActionBus) -> (dispatched: Vec<Action>)
        requires
            old(self).wf(),
        ensures
            final(self).wf(),
            final(bus)@ == Seq::<ActionView>::empty(),
            final(self)@ == drain_spec(old(self)@, old(bus)@).0,
            action_views(dispatched@) == drain_spec(old(self)@, old(bus)@).1,
    {
        let mut dispatched: Vec<Action> = Vec::new();
        proof {
            assert(action_views(dispatched@) + drain_spec(self@, bus@).1 =~= drain_spec(
                self@,
                bus@,
            ).1);
        }
        loop
            invariant
                self.wf(),
                drain_spec(self@, bus@).0 == drain_spec(old(self)@, old(bus)@).0,
                action_views(dispatched@) + drain_spec(self@, bus@).1 == drain_spec(
                    old(self)@,
                    old(bus)@,
                ).1,
            ensures
                self.wf(),
                bus@ == Seq::<ActionView>::empty(),
                self@ == drain_spec(old(self)@, old(bus)@).0,
                action_views(dispatched@) == drain_spec(old(self)@, old(bus)@).1,
            decreases self@.load(bus@),
        {
            let ghost state = self@;
            let ghost queue = bus@;
            let ghost log = action_views(dispatched@);
            match bus.try_recv() {
                Some(action) => {
                    proof {
                        lemma_load_decreases(state, queue);
                        assert(bus@ + state.dispatch(queue[0]).1 =~= queue.drop_first()
                            + state.dispatch(queue[0]).1);
                    }
                    dispatched.push(action.clone());
                    self.dispatch(action, bus);
                    proof {
                        let rest = drain_spec(self@, bus@).1;
                        assert(action_views(dispatched@) =~= log.push(queue[0]));
                        assert(action_views(dispatched@) + rest =~= log + (seq![queue[0]] + rest));
                    }
                },
                None => {
                    proof {
                        assert(queue =~= Seq::<ActionView>::empty());
                        assert(log + Seq::<ActionView>::empty() =~= log);
                    }
                    break ;
                },
            }
        }
        dispatched
    }
}

/// The state after the actions of `actions` are dispatched one after the
/// other, whatever they put on the bus.
pub open spec fn run(app: AppView, actions: Seq<ActionView>) -> AppView
    decreases actions.len(),
{
    if actions.len() == 0 {
        app
    } else {
        run(app.dispatch(actions[0]).0, actions.drop_first())
    }
}

/// Whether `action` stands in `log` at a place behind `i`.
pub open spec fn occurs_after(log: Seq<ActionView>, i: int, action: ActionView) -> bool {
    exists|j: int| i < j < log.len() && #[trigger] log[j] == action
}

/// The mode that is active after the actions of `actions` are dispatched,
/// `mode` being active before: that of the last change of mode among them.
pub open spec fn mode_after(mode: Mode, actions: Seq<ActionView>) -> Mode
    decreases actions.len(),
{
    if actions.len() == 0 {
        mode
    } else {
        mode_after(
            match actions[0] {
                ActionView::Engine(EngineActionView::ChangeMode(m)) => m,
                _ => mode,
            },
            actions.drop_first(),
        )
    }
}

/// A drain dispatches every action that waits on the bus when it begins:
/// the `k`-th of them stands in the record of the drain, at the `k`-th place
/// or behind it.
pub proof fn lemma_drain_dispatches_queue(app: AppView, queue: Seq<ActionView>, k: int)
    requires
        app.wf(),
        0 <= k < queue.len(),
    ensures
        occurs_after(drain_spec(app, queue).1, k - 1, queue[k]),
    decreases app.load(queue),
{
    let next = app.dispatch(queue[0]);
    let rest = queue.drop_first() + next.1;
    let log = drain_spec(app, queue).1;
    let tail = drain_spec(next.0, rest).1;
    lemma_dispatch(app, queue[0]);
    lemma_load_decreases(app, queue);
    assert(log == seq![queue[0]] + tail);
    if k == 0 {
        assert(log[0] == queue[0]);
    } else {
        assert(rest[k - 1] == queue[k]);
        lemma_drain_dispatches_queue(next.0, rest, k - 1);
        let j = choose|j: int| k - 2 < j < tail.len() && #[trigger] tail[j] == queue[k];
        assert(log[j + 1] == tail[j]);
    }
}

/// Draining is exhaustive. Whatever the `i`-th dispatch of a drain puts on
/// the bus is dispatched later in the same drain, by the loop itself and
/// every component: it stands in the record of the drain behind the `i`-th
/// place.
pub proof fn lemma_drain_exhaustive(app: AppView, queue: Seq<ActionView>, i: int, k: int)
    requires
        app.wf(),
        0 <= i < drain_spec(app, queue).1.len(),
        0 <= k < run(app, drain_spec(app, queue).1.take(i)).dispatch(
            drain_spec(app, queue).1[i],
        ).1.len(),
    ensures
        occurs_after(
            drain_spec(app, queue).1,
            i,
            run(app, drain_spec(app, queue).1.take(i)).dispatch(drain_spec(app, queue).1[i]).1[k],
        ),
    decreases app.load(queue),
{
    let log = drain_spec(app, queue).1;
    assert(queue.len() > 0);
    let next = app.dispatch(queue[0]);
    let rest = queue.drop_first() + next.1;
    let tail = drain_spec(next.0, rest).1;
    lemma_dispatch(app, queue[0]);
    lemma_load_decreases(app, queue);
    assert(log == seq![queue[0]] + tail);
    if i == 0 {
        assert(log.take(0) =~= Seq::<ActionView>::empty());
        assert(log[0] == queue[0]);
        let b = next.1[k];
        assert(rest[queue.len() - 1 + k] == b);
        lemma_drain_dispatches_queue(next.0, rest, queue.len() - 1 + k);
        let j = choose|j: int|
            queue.len() - 1 + k - 1 < j < tail.len() && #[trigger] tail[j] == b;
        assert(log[j + 1] == tail[j]);
    } else {
        assert(log.take(i)[0] == queue[0]);
        assert(log.take(i).drop_first() =~= tail.take(i - 1));
        assert(log[i] == tail[i - 1]);
        let b = run(next.0, tail.take(i - 1)).dispatch(tail[i - 1]).1[k];
        lemma_drain_exhaustive(next.0, rest, i - 1, k);
        let j = choose|j: int| i - 1 < j < tail.len() && #[trigger] tail[j] == b;
        assert(log[j + 1] == tail[j]);
    }
}

/// A drain leaves the state that dispatching the actions of its record, one
/// after the other, leaves.
pub proof fn lemma_drain_is_run(app: AppView, queue: Seq<ActionView>)
    requires
        app.wf(),
    ensures
        drain_spec(app, queue).0 == run(app, drain_spec(app, queue).1),
    decreases app.load(queue),
{
    if queue.len() > 0 {
        let next = app.dispatch(queue[0]);
        let rest = queue.drop_first() + next.1;
        let log = drain_spec(app, queue).1;
        let tail = drain_spec(next.0, rest).1;
        lemma_dispatch(app, queue[0]);
        lemma_load_decreases(app, queue);
        lemma_drain_is_run(next.0, rest);
        assert(log == seq![queue[0]] + tail);
        assert(log.drop_first() =~= tail);
    }
}

/// A drain keeps the key bindings, leaves a valid state, and leaves active
/// the mode of the last change of mode that it dispatched.
pub proof fn lemma_drain_mode(app: AppView, queue: Seq<ActionView>)
    requires
        app.wf(),
    ensures
        drain_spec(app, queue).0.wf(),
        drain_spec(app, queue).0.bindings == app.bindings,
        drain_spec(app, queue).0.mode == mode_after(app.mode, drain_spec(app, queue).1),
    decreases app.load(queue),
{
    if queue.len() > 0 {
        let next = app.dispatch(queue[0]);
        let rest = queue.drop_first() + next.1;
        let log = drain_spec(app, queue).1;
        let tail = drain_spec(next.0, rest).1;
        lemma_dispatch(app, queue[0]);
        lemma_load_decreases(app, queue);
        lemma_drain_mode(next.0, rest);
        assert(log == seq![queue[0]] + tail);
        assert(log.drop_first() =~= tail);
    }
}

/// A change of mode takes effect before the next key press is resolved: a
/// key press that follows a drain is resolved against the table of the mode
/// of the last change of mode that the drain dispatched.
pub proof fn lemma_change_mode_before_next_key(
    app: AppView,
    queue: Seq<ActionView>,
    key: KeyEvent,
)
    requires
        app.wf(),
    ensures
        ({
            let after = drain_spec(app, queue).0;
            let mode = mode_after(app.mode, drain_spec(app, queue).1);
            after.resolve(key) == if app.bindings.dom().contains(mode) {
                press_spec(map_of(app.bindings[mode]), after.pending, key)
            } else {
                (after.pending, None::<ActionView>)
            }
        }),
{
    lemma_drain_mode(app, queue);
}

} // verus!
