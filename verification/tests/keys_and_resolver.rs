use tui_dispatch::actions::{Action, ActionParseError, EngineAction, HomeAction};
use tui_dispatch::app::Mode;
use tui_dispatch::config::{Config, ConfigError, KeyBindings, KeyMap};
use tui_dispatch::keys::{
    keys_equal, keys_prefix, KeyCode, KeyEvent, MODIFIER_ALT, MODIFIER_CONTROL, MODIFIER_NONE,
    MODIFIER_SHIFT,
};
use tui_dispatch::resolver::{Resolver, ResolverState};

fn ch(c: char) -> KeyEvent {
    KeyEvent::char(c)
}

fn ctrl(c: char) -> KeyEvent {
    KeyEvent::new(KeyCode::Char(c), MODIFIER_CONTROL)
}

fn decrement() -> Action {
    Action::Home(HomeAction::Decrement(1))
}

fn enter_normal() -> Action {
    Action::Home(HomeAction::EnterNormal)
}

fn quit() -> Action {
    Action::Engine(EngineAction::Quit)
}

#[test]
fn keys_are_equal_by_code_and_modifiers() {
    assert_eq!(ch('j'), KeyEvent::new(KeyCode::Char('j'), MODIFIER_NONE));
    assert_ne!(ch('j'), ctrl('j'));
    assert_ne!(ch('j'), KeyEvent::new(KeyCode::Char('j'), MODIFIER_SHIFT));
    assert_ne!(ch('j'), ch('k'));
    assert_ne!(KeyEvent::new(KeyCode::Enter, 0), KeyEvent::new(KeyCode::Esc, 0));
    assert!(keys_equal(&vec![ch('g'), ch('g')], &vec![ch('g'), ch('g')]));
    assert!(!keys_equal(&vec![ch('g'), ch('g')], &vec![ch('g')]));
    assert!(!keys_equal(&vec![ch('g'), ch('g')], &vec![ch('g'), ch('h')]));
    assert!(keys_equal(&vec![], &vec![]));
    assert!(keys_prefix(&vec![], &vec![ch('g')]));
    assert!(keys_prefix(&vec![ch('g')], &vec![ch('g'), ch('g')]));
    assert!(keys_prefix(&vec![ch('g')], &vec![ch('g')]));
    assert!(!keys_prefix(&vec![ch('g'), ch('g')], &vec![ch('g')]));
    assert!(!keys_prefix(&vec![ch('h')], &vec![ch('g'), ch('h')]));
}

#[test]
fn shift_and_capital_letters_are_brought_in_line() {
    let shift_j = KeyEvent::new(KeyCode::Char('J'), MODIFIER_SHIFT);
    assert_eq!(KeyEvent::new(KeyCode::Char('J'), MODIFIER_NONE).normalize_case(), shift_j);
    assert_eq!(KeyEvent::new(KeyCode::Char('j'), MODIFIER_SHIFT).normalize_case(), shift_j);
    assert_eq!(shift_j.normalize_case(), shift_j);
    assert_eq!(ch('j').normalize_case(), ch('j'));
    assert_eq!(ctrl('j').normalize_case(), ctrl('j'));
    assert_eq!(
        KeyEvent::new(KeyCode::Char('Z'), MODIFIER_CONTROL).normalize_case(),
        KeyEvent::new(KeyCode::Char('Z'), MODIFIER_CONTROL | MODIFIER_SHIFT)
    );
    assert_eq!(
        KeyEvent::new(KeyCode::Char('a'), MODIFIER_ALT | MODIFIER_SHIFT).normalize_case(),
        KeyEvent::new(KeyCode::Char('A'), MODIFIER_ALT | MODIFIER_SHIFT)
    );
    assert_eq!(
        KeyEvent::new(KeyCode::Char('1'), MODIFIER_SHIFT).normalize_case(),
        KeyEvent::new(KeyCode::Char('1'), MODIFIER_SHIFT)
    );
    assert_eq!(
        KeyEvent::new(KeyCode::Char('\u{e9}'), MODIFIER_SHIFT).normalize_case(),
        KeyEvent::new(KeyCode::Char('\u{e9}'), MODIFIER_SHIFT)
    );
    assert_eq!(
        KeyEvent::new(KeyCode::Enter, MODIFIER_SHIFT).normalize_case(),
        KeyEvent::new(KeyCode::Enter, MODIFIER_SHIFT)
    );
}

#[test]
fn lookup_is_exact() {
    let mut map = KeyMap::new();
    assert_eq!(map.len(), 0);
    assert_eq!(map.insert(vec![ch('g'), ch('g')], enter_normal()), Ok(()));
    assert_eq!(map.insert(vec![ch('j')], decrement()), Ok(()));
    assert_eq!(map.len(), 2);
    assert_eq!(map.get(&vec![ch('g'), ch('g')]), Some(&enter_normal()));
    assert_eq!(map.get(&vec![ch('j')]), Some(&decrement()));
    assert_eq!(map.get(&vec![ch('g')]), None);
    assert_eq!(map.get(&vec![ch('g'), ch('g'), ch('g')]), None);
    assert_eq!(map.get(&vec![]), None);
    assert_eq!(map.get(&vec![ctrl('j')]), None);
    assert!(map.begins_some(&vec![ch('g')]));
    assert!(map.begins_some(&vec![ch('g'), ch('g')]));
    assert!(map.begins_some(&vec![]));
    assert!(!map.begins_some(&vec![ch('x')]));
    assert!(!map.begins_some(&vec![ch('g'), ch('g'), ch('g')]));
    assert_eq!(map.bindings()[0].keys, vec![ch('g'), ch('g')]);
    assert_eq!(map.bindings()[1].action, decrement());
}

#[test]
fn bindings_in_each_others_way_are_refused() {
    let mut map = KeyMap::new();
    assert_eq!(map.insert(vec![], quit()), Err(ConfigError::EmptyKeySequence));
    assert_eq!(map.insert(vec![ch('g'), ch('g')], enter_normal()), Ok(()));
    assert_eq!(map.insert(vec![ch('g'), ch('g')], enter_normal()), Ok(()));
    assert_eq!(map.len(), 1);
    assert_eq!(
        map.insert(vec![ch('g'), ch('g')], quit()),
        Err(ConfigError::ConflictingKeySequence)
    );
    assert_eq!(map.insert(vec![ch('g')], quit()), Err(ConfigError::AmbiguousKeySequence));
    assert_eq!(
        map.insert(vec![ch('g'), ch('g'), ch('x')], quit()),
        Err(ConfigError::AmbiguousKeySequence)
    );
    assert_eq!(map.insert(vec![ch('g'), ch('x')], quit()), Ok(()));
    assert_eq!(map.len(), 2);
    assert_eq!(map.get(&vec![ch('g'), ch('g')]), Some(&enter_normal()));
    assert_eq!(map.get(&vec![ch('g'), ch('x')]), Some(&quit()));
}

#[test]
fn bindings_are_made_from_the_names_of_actions() {
    let mut map = KeyMap::new();
    assert_eq!(map.insert_named(vec![ch('q')], "Engine.Quit"), Ok(()));
    assert_eq!(map.insert_named(vec![ctrl('z')], "Engine.Suspend"), Ok(()));
    assert_eq!(map.get(&vec![ch('q')]), Some(&quit()));
    assert_eq!(map.get(&vec![ctrl('z')]), Some(&Action::Engine(EngineAction::Suspend)));
    assert_eq!(
        map.insert_named(vec![ch('x')], "Quit"),
        Err(ConfigError::UnknownAction(ActionParseError::UnknownActionFamily))
    );
    assert_eq!(
        map.insert_named(vec![ch('x')], "Home.Dance"),
        Err(ConfigError::UnknownAction(ActionParseError::UnknownHomeAction))
    );
    assert_eq!(map.insert_named(vec![ch('d')], "Home.Decrement(1)"), Ok(()));
    assert_eq!(map.get(&vec![ch('d')]), Some(&decrement()));
    assert_eq!(
        map.insert_named(vec![ch('e')], "Home.Decrement(one)"),
        Err(ConfigError::UnknownAction(ActionParseError::InvalidNumber))
    );
    assert_eq!(map.insert_named(vec![], "Engine.Quit"), Err(ConfigError::EmptyKeySequence));
    assert_eq!(
        map.insert_named(vec![ch('q')], "Engine.Tick"),
        Err(ConfigError::ConflictingKeySequence)
    );
    assert_eq!(
        map.insert_named(vec![ch('q'), ch('q')], "Engine.Tick"),
        Err(ConfigError::AmbiguousKeySequence)
    );
    assert_eq!(map.len(), 3);
}

#[test]
fn each_mode_has_its_own_table() {
    let mut home = KeyMap::new();
    assert_eq!(home.insert(vec![ch('j')], decrement()), Ok(()));
    let mut menu = KeyMap::new();
    assert_eq!(menu.insert(vec![ch('j')], quit()), Ok(()));
    let mut all = KeyBindings::new();
    assert!(all.get(Mode::Home).is_none());
    assert!(all.lookup(Mode::Home, &vec![ch('j')]).is_none());
    all.set(Mode::Home, home);
    assert!(all.get(Mode::MainMenu).is_none());
    assert_eq!(all.lookup(Mode::Home, &vec![ch('j')]), Some(&decrement()));
    assert_eq!(all.lookup(Mode::MainMenu, &vec![ch('j')]), None);
    all.set(Mode::MainMenu, menu);
    assert_eq!(all.lookup(Mode::MainMenu, &vec![ch('j')]), Some(&quit()));
    assert_eq!(all.lookup(Mode::Home, &vec![ch('j')]), Some(&decrement()));
    assert_eq!(all.lookup(Mode::Home, &vec![ch('j'), ch('j')]), None);
    let copy = all.clone();
    assert_eq!(copy.lookup(Mode::MainMenu, &vec![ch('j')]), Some(&quit()));
    let config = Config::new(copy);
    assert_eq!(config.clone().keybindings.get(Mode::Home).map(|m| m.len()), Some(1));
}

#[test]
fn a_single_key_emits_its_action_and_leaves_the_resolver_idle() {
    let mut map = KeyMap::new();
    assert_eq!(map.insert(vec![ch('j')], decrement()), Ok(()));
    let mut resolver = Resolver::new();
    assert!(resolver.is_idle());
    assert_eq!(resolver.press(&map, ch('j')), Some(decrement()));
    assert_eq!(resolver.state(), ResolverState::Idle);
    assert!(resolver.is_idle());
    assert!(resolver.pending().is_empty());
}

#[test]
fn a_chord_waits_for_its_second_key() {
    let mut map = KeyMap::new();
    assert_eq!(map.insert(vec![ch('g'), ch('g')], enter_normal()), Ok(()));
    let mut resolver = Resolver::new();
    assert_eq!(resolver.press(&map, ch('g')), None);
    assert_eq!(resolver.state(), ResolverState::Pending(vec![ch('g')]));
    assert!(!resolver.is_idle());
    assert_eq!(resolver.press(&map, ch('g')), Some(enter_normal()));
    assert_eq!(resolver.state(), ResolverState::Idle);
}

#[test]
fn a_tick_drops_the_waiting_keys() {
    let mut map = KeyMap::new();
    assert_eq!(map.insert(vec![ch('g'), ch('g'), ch('g')], enter_normal()), Ok(()));
    let mut resolver = Resolver::new();
    assert_eq!(resolver.press(&map, ch('g')), None);
    assert_eq!(resolver.press(&map, ch('g')), None);
    assert_eq!(resolver.state(), ResolverState::Pending(vec![ch('g'), ch('g')]));
    resolver.tick();
    assert_eq!(resolver.state(), ResolverState::Idle);
    assert_eq!(resolver.press(&map, ch('g')), None);
    assert_eq!(resolver.state(), ResolverState::Pending(vec![ch('g')]));
    resolver.tick();
    resolver.tick();
    assert!(resolver.is_idle());
}

#[test]
fn a_key_that_fits_nowhere_drops_the_oldest_keys() {
    let mut map = KeyMap::new();
    assert_eq!(map.insert(vec![ch('a'), ch('b'), ch('c')], quit()), Ok(()));
    assert_eq!(map.insert(vec![ch('b'), ch('d')], decrement()), Ok(()));
    assert_eq!(map.insert(vec![ch('z')], enter_normal()), Ok(()));
    let mut resolver = Resolver::new();
    assert_eq!(resolver.press(&map, ch('x')), None);
    assert_eq!(resolver.state(), ResolverState::Idle);
    assert_eq!(resolver.press(&map, ch('a')), None);
    assert_eq!(resolver.press(&map, ch('b')), None);
    assert_eq!(resolver.state(), ResolverState::Pending(vec![ch('a'), ch('b')]));
    assert_eq!(resolver.press(&map, ch('d')), Some(decrement()));
    assert_eq!(resolver.state(), ResolverState::Idle);
    assert_eq!(resolver.press(&map, ch('a')), None);
    assert_eq!(resolver.press(&map, ch('a')), None);
    assert_eq!(resolver.state(), ResolverState::Pending(vec![ch('a')]));
    assert_eq!(resolver.press(&map, ch('z')), Some(enter_normal()));
    assert_eq!(resolver.state(), ResolverState::Idle);
    assert_eq!(resolver.press(&map, ch('a')), None);
    assert_eq!(resolver.press(&map, ch('b')), None);
    assert_eq!(resolver.press(&map, ch('q')), None);
    assert_eq!(resolver.state(), ResolverState::Idle);
}

#[test]
fn every_bound_sequence_resolves_to_its_action() {
    let mut map = KeyMap::new();
    assert_eq!(map.insert(vec![ch('g'), ch('g')], enter_normal()), Ok(()));
    assert_eq!(map.insert(vec![ch('g'), ch('x'), ch('y')], quit()), Ok(()));
    assert_eq!(map.insert(vec![ch('j')], decrement()), Ok(()));
    assert_eq!(map.insert(vec![ctrl('c')], quit()), Ok(()));
    let count = map.len();
    for i in 0..count {
        let keys = map.bindings()[i].keys.clone();
        let action = map.bindings()[i].action.clone();
        let mut resolver = Resolver::new();
        for (n, key) in keys.iter().enumerate() {
            let emitted = resolver.press(&map, *key);
            if n + 1 == keys.len() {
                assert_eq!(emitted, Some(action.clone()));
            } else {
                assert_eq!(emitted, None);
                assert_eq!(resolver.state(), ResolverState::Pending(keys[..n + 1].to_vec()));
            }
        }
        assert_eq!(resolver.state(), ResolverState::Idle);
    }
}
