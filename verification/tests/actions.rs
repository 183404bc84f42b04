use tui_dispatch::actions::{Action, ActionParseError, EngineAction, HomeAction, ListNavDirection};
use tui_dispatch::app::Mode;
use tui_dispatch::text::push_decimal;

fn engine(e: EngineAction) -> Action {
    Action::Engine(e)
}

fn home(h: HomeAction) -> Action {
    Action::Home(h)
}

#[test]
fn engine_actions_have_their_textual_form() {
    assert_eq!(engine(EngineAction::Tick).to_string(), "Engine.Tick");
    assert_eq!(engine(EngineAction::Render).to_string(), "Engine.Render");
    assert_eq!(engine(EngineAction::Resize(80, 24)).to_string(), "Engine.Resize(80, 24)");
    assert_eq!(engine(EngineAction::Suspend).to_string(), "Engine.Suspend");
    assert_eq!(engine(EngineAction::Resume).to_string(), "Engine.Resume");
    assert_eq!(engine(EngineAction::Quit).to_string(), "Engine.Quit");
    assert_eq!(engine(EngineAction::Refresh).to_string(), "Engine.Refresh");
    assert_eq!(engine(EngineAction::ToggleShowHelp).to_string(), "Engine.ToggleShowHelp");
    assert_eq!(
        engine(EngineAction::ToggleShowModeSwitcher).to_string(),
        "Engine.ToggleShowModeSwitcher"
    );
    assert_eq!(engine(EngineAction::ChangeMode(Mode::Home)).to_string(), "Engine.ChangeMode(Home)");
    assert_eq!(
        engine(EngineAction::ChangeMode(Mode::MainMenu)).to_string(),
        "Engine.ChangeMode(MainMenu)"
    );
    assert_eq!(engine(EngineAction::Error("boom".to_string())).to_string(), "Engine.Error(boom)");
}

#[test]
fn home_actions_have_their_textual_form() {
    assert_eq!(home(HomeAction::Help).to_string(), "Home.Help");
    assert_eq!(home(HomeAction::ToggleShowHelp).to_string(), "Home.ToggleShowHelp");
    assert_eq!(home(HomeAction::ScheduleIncrement).to_string(), "Home.ScheduleIncrement");
    assert_eq!(home(HomeAction::ScheduleDecrement).to_string(), "Home.ScheduleDecrement");
    assert_eq!(home(HomeAction::Increment(3)).to_string(), "Home.Increment(3)");
    assert_eq!(home(HomeAction::Decrement(120)).to_string(), "Home.Decrement(120)");
    assert_eq!(
        home(HomeAction::CompleteInput("buy milk".to_string())).to_string(),
        "Home.CompleteInput(buy milk)"
    );
    assert_eq!(home(HomeAction::EnterNormal).to_string(), "Home.EnterNormal");
    assert_eq!(home(HomeAction::EnterInsert).to_string(), "Home.EnterInsert");
    assert_eq!(home(HomeAction::EnterProcessing).to_string(), "Home.EnterProcessing");
    assert_eq!(home(HomeAction::ExitProcessing).to_string(), "Home.ExitProcessing");
    assert_eq!(home(HomeAction::Update).to_string(), "Home.Update");
    assert_eq!(
        home(HomeAction::NavigateList(ListNavDirection::Left)).to_string(),
        "Home.NavigateList(Left)"
    );
}

#[test]
fn directions_have_a_name_and_an_arrow() {
    assert_eq!(ListNavDirection::Left.name(), "Left");
    assert_eq!(ListNavDirection::Right.name(), "Right");
    assert_eq!(ListNavDirection::Up.name(), "Up");
    assert_eq!(ListNavDirection::Down.name(), "Down");
    assert_eq!(ListNavDirection::Up.to_string(), "NavigateList(\u{1F781})");
    assert_eq!(ListNavDirection::Down.to_string(), "NavigateList(\u{1F783})");
    assert_eq!(ListNavDirection::Left.to_string(), "NavigateList(\u{1F780})");
    assert_eq!(ListNavDirection::Right.to_string(), "NavigateList(\u{1F782})");
}

#[test]
fn decimal_forms_are_exact() {
    let mut s = String::new();
    push_decimal(&mut s, 0);
    assert_eq!(s, "0");
    let mut s = String::from("x");
    push_decimal(&mut s, 65535);
    assert_eq!(s, "x65535");
    let mut s = String::new();
    push_decimal(&mut s, u64::MAX);
    assert_eq!(s, "18446744073709551615");
    let mut s = String::new();
    push_decimal(&mut s, 1000);
    assert_eq!(s, "1000");
}

#[test]
fn simple_names_are_read() {
    assert_eq!(Action::parse("Engine.Tick"), Ok(engine(EngineAction::Tick)));
    assert_eq!(Action::parse("Engine.Render"), Ok(engine(EngineAction::Render)));
    assert_eq!(Action::parse("Engine.Suspend"), Ok(engine(EngineAction::Suspend)));
    assert_eq!(Action::parse("Engine.Resume"), Ok(engine(EngineAction::Resume)));
    assert_eq!(Action::parse("Engine.Quit"), Ok(engine(EngineAction::Quit)));
    assert_eq!(Action::parse("Engine.Refresh"), Ok(engine(EngineAction::Refresh)));
    assert_eq!(Action::parse("Engine.ToggleShowHelp"), Ok(engine(EngineAction::ToggleShowHelp)));
    assert_eq!(Action::parse("Home.Help"), Ok(home(HomeAction::Help)));
    assert_eq!(Action::parse("Home.ScheduleIncrement"), Ok(home(HomeAction::ScheduleIncrement)));
    assert_eq!(Action::parse("Home.ScheduleDecrement"), Ok(home(HomeAction::ScheduleDecrement)));
    assert_eq!(Action::parse("Home.ToggleShowHelp"), Ok(home(HomeAction::ToggleShowHelp)));
    assert_eq!(Action::parse("Home.EnterInsert"), Ok(home(HomeAction::EnterInsert)));
    assert_eq!(Action::parse("Home.EnterNormal"), Ok(home(HomeAction::EnterNormal)));
    assert_eq!(Action::parse("Home.EnterProcessing"), Ok(home(HomeAction::EnterProcessing)));
    assert_eq!(Action::parse("Home.ExitProcessing"), Ok(home(HomeAction::ExitProcessing)));
    assert_eq!(Action::parse("Home.Update"), Ok(home(HomeAction::Update)));
    assert_eq!(
        Action::parse("Engine.ToggleShowModeSwitcher"),
        Ok(engine(EngineAction::ToggleShowModeSwitcher))
    );
}

#[test]
fn arguments_are_read() {
    assert_eq!(Action::parse("Engine.Resize(80, 24)"), Ok(engine(EngineAction::Resize(80, 24))));
    assert_eq!(Action::parse("Engine.Resize(0,65535)"), Ok(engine(EngineAction::Resize(0, 65535))));
    assert_eq!(
        Action::parse("Engine.Resize( \t80 , +24\u{a0})"),
        Ok(engine(EngineAction::Resize(80, 24)))
    );
    assert_eq!(Action::parse("Engine.Resize(007, 0)"), Ok(engine(EngineAction::Resize(7, 0))));
    assert_eq!(
        Action::parse("Engine.Error(disk full)"),
        Ok(engine(EngineAction::Error("disk full".to_string())))
    );
    assert_eq!(Action::parse("Engine.Error()"), Ok(engine(EngineAction::Error(String::new()))));
    assert_eq!(
        Action::parse("Engine.Error(Error(x)))"),
        Ok(engine(EngineAction::Error("Error(x))".to_string())))
    );
    assert_eq!(
        Action::parse("Engine.Error(caf\u{e9} \u{1F781})"),
        Ok(engine(EngineAction::Error("caf\u{e9} \u{1F781}".to_string())))
    );
    assert_eq!(
        Action::parse("Engine.ChangeMode(Home)"),
        Ok(engine(EngineAction::ChangeMode(Mode::Home)))
    );
    assert_eq!(
        Action::parse("Engine.ChangeMode(MainMenu)"),
        Ok(engine(EngineAction::ChangeMode(Mode::MainMenu)))
    );
    assert_eq!(Action::parse("Home.Increment(1)"), Ok(home(HomeAction::Increment(1))));
    assert_eq!(Action::parse("Home.Increment( +12 )"), Ok(home(HomeAction::Increment(12))));
    assert_eq!(Action::parse("Home.Decrement(0)"), Ok(home(HomeAction::Decrement(0))));
    assert_eq!(
        Action::parse(&format!("Home.Decrement({})", usize::MAX)),
        Ok(home(HomeAction::Decrement(usize::MAX)))
    );
    assert_eq!(
        Action::parse("Home.CompleteInput(buy milk (2l))"),
        Ok(home(HomeAction::CompleteInput("buy milk (2l)".to_string())))
    );
    assert_eq!(
        Action::parse("Home.CompleteInput()"),
        Ok(home(HomeAction::CompleteInput(String::new())))
    );
    assert_eq!(
        Action::parse("Home.NavigateList(Left)"),
        Ok(home(HomeAction::NavigateList(ListNavDirection::Left)))
    );
    assert_eq!(
        Action::parse("Home.NavigateList(Right)"),
        Ok(home(HomeAction::NavigateList(ListNavDirection::Right)))
    );
    assert_eq!(
        Action::parse("Home.NavigateList(Up)"),
        Ok(home(HomeAction::NavigateList(ListNavDirection::Up)))
    );
    assert_eq!(
        Action::parse("Home.NavigateList(Down)"),
        Ok(home(HomeAction::NavigateList(ListNavDirection::Down)))
    );
}

#[test]
fn a_text_without_a_family_is_refused() {
    assert_eq!(Action::parse("Tick"), Err(ActionParseError::UnknownActionFamily));
    assert_eq!(Action::parse(""), Err(ActionParseError::UnknownActionFamily));
    assert_eq!(Action::parse("engine.Tick"), Err(ActionParseError::UnknownActionFamily));
    assert_eq!(Action::parse("Engine"), Err(ActionParseError::UnknownActionFamily));
    assert_eq!(Action::parse(" Engine.Tick"), Err(ActionParseError::UnknownActionFamily));
    assert_eq!(Action::parse("NavigateList(Left)"), Err(ActionParseError::UnknownActionFamily));
}

#[test]
fn an_unknown_name_is_refused() {
    assert_eq!(Action::parse("Engine."), Err(ActionParseError::UnknownEngineAction));
    assert_eq!(Action::parse("Engine.Tock"), Err(ActionParseError::UnknownEngineAction));
    assert_eq!(Action::parse("Engine.Tick "), Err(ActionParseError::UnknownEngineAction));
    assert_eq!(Action::parse("Engine.TickEngine.Tick"), Err(ActionParseError::UnknownEngineAction));
    assert_eq!(Action::parse("Engine.Help"), Err(ActionParseError::UnknownEngineAction));
    assert_eq!(Action::parse("Engine.Error"), Err(ActionParseError::UnknownEngineAction));
    assert_eq!(Action::parse("Engine.Resize"), Err(ActionParseError::UnknownEngineAction));
    assert_eq!(Action::parse("Engine.tick"), Err(ActionParseError::UnknownEngineAction));
    assert_eq!(Action::parse("Home."), Err(ActionParseError::UnknownHomeAction));
    assert_eq!(Action::parse("Home.Tick"), Err(ActionParseError::UnknownHomeAction));
    assert_eq!(Action::parse("Home.Increment"), Err(ActionParseError::UnknownHomeAction));
    assert_eq!(Action::parse("Home.Updates"), Err(ActionParseError::UnknownHomeAction));
    assert_eq!(Action::parse("Home.Dance(1)"), Err(ActionParseError::UnknownHomeAction));
}

#[test]
fn malformed_arguments_are_refused() {
    assert_eq!(Action::parse("Engine.Error("), Err(ActionParseError::UnclosedArguments));
    assert_eq!(Action::parse("Engine.Error(abc"), Err(ActionParseError::UnclosedArguments));
    assert_eq!(Action::parse("Engine.Error(abc) "), Err(ActionParseError::UnclosedArguments));
    assert_eq!(Action::parse("Engine.Resize("), Err(ActionParseError::UnclosedArguments));
    assert_eq!(Action::parse("Engine.Resize(1, 2"), Err(ActionParseError::UnclosedArguments));
    assert_eq!(Action::parse("Home.Increment("), Err(ActionParseError::UnclosedArguments));
    assert_eq!(Action::parse("Home.Decrement(3"), Err(ActionParseError::UnclosedArguments));
    assert_eq!(Action::parse("Home.CompleteInput(abc"), Err(ActionParseError::UnclosedArguments));
    assert_eq!(Action::parse("Home.Increment()"), Err(ActionParseError::InvalidNumber));
    assert_eq!(Action::parse("Home.Increment(x)"), Err(ActionParseError::InvalidNumber));
    assert_eq!(Action::parse("Home.Decrement(-1)"), Err(ActionParseError::InvalidNumber));
    assert_eq!(Action::parse("Home.Decrement(1.5)"), Err(ActionParseError::InvalidNumber));
    assert_eq!(
        Action::parse("Home.Increment(340282366920938463463374607431768211456)"),
        Err(ActionParseError::InvalidNumber)
    );
    assert_eq!(Action::parse("Engine.ChangeMode"), Err(ActionParseError::UnknownMode));
    assert_eq!(Action::parse("Engine.ChangeMode()"), Err(ActionParseError::UnknownMode));
    assert_eq!(Action::parse("Engine.ChangeMode(Menu)"), Err(ActionParseError::UnknownMode));
    assert_eq!(Action::parse("Engine.ChangeMode(Home"), Err(ActionParseError::UnknownMode));
    assert_eq!(Action::parse("Engine.ChangeMode( Home )"), Err(ActionParseError::UnknownMode));
    assert_eq!(Action::parse("Engine.Resize(1)"), Err(ActionParseError::InvalidResizeFormat));
    assert_eq!(Action::parse("Engine.Resize()"), Err(ActionParseError::InvalidResizeFormat));
    assert_eq!(Action::parse("Engine.Resize(1, 2, 3)"), Err(ActionParseError::InvalidResizeFormat));
    assert_eq!(Action::parse("Engine.Resize(a, 2)"), Err(ActionParseError::InvalidNumber));
    assert_eq!(Action::parse("Engine.Resize(1, )"), Err(ActionParseError::InvalidNumber));
    assert_eq!(Action::parse("Engine.Resize(,)"), Err(ActionParseError::InvalidNumber));
    assert_eq!(Action::parse("Engine.Resize(-1, 2)"), Err(ActionParseError::InvalidNumber));
    assert_eq!(Action::parse("Engine.Resize(+, 2)"), Err(ActionParseError::InvalidNumber));
    assert_eq!(Action::parse("Engine.Resize(1 0, 2)"), Err(ActionParseError::InvalidNumber));
    assert_eq!(Action::parse("Engine.Resize(65536, 2)"), Err(ActionParseError::InvalidNumber));
    assert_eq!(
        Action::parse("Engine.Resize(1, 99999999999999999999999999)"),
        Err(ActionParseError::InvalidNumber)
    );
    assert_eq!(
        Action::parse("Engine.Resize(Resize(1, 2))"),
        Err(ActionParseError::InvalidNumber)
    );
    assert_eq!(Action::parse("Home.NavigateList"), Err(ActionParseError::UnknownDirection));
    assert_eq!(Action::parse("Home.NavigateList(Left"), Err(ActionParseError::UnknownDirection));
    assert_eq!(Action::parse("Home.NavigateList()"), Err(ActionParseError::UnknownDirection));
    assert_eq!(Action::parse("Home.NavigateList(left)"), Err(ActionParseError::UnknownDirection));
    assert_eq!(
        Action::parse("Home.NavigateList(Sideways)"),
        Err(ActionParseError::UnknownDirection)
    );
    assert_eq!(Action::parse("Home.NavigateList.Left"), Err(ActionParseError::UnknownDirection));
}

#[test]
fn errors_describe_themselves() {
    assert_eq!(
        ActionParseError::UnknownActionFamily.message("Tick"),
        "Unknown Action variant: Tick"
    );
    assert_eq!(
        ActionParseError::UnknownEngineAction.message("Engine.Tock"),
        "Unknown EngineAction variant: Engine.Tock"
    );
    assert_eq!(
        ActionParseError::UnknownHomeAction.message("Home.Tick"),
        "Unknown HomeAction variant: Home.Tick"
    );
    assert_eq!(
        ActionParseError::UnclosedArguments.message("Engine.Error(x"),
        "Unclosed arguments: Engine.Error(x"
    );
    assert_eq!(
        ActionParseError::UnknownMode.message("Engine.ChangeMode(X)"),
        "Unexpected mode in config: Engine.ChangeMode(X)"
    );
    assert_eq!(
        ActionParseError::InvalidResizeFormat.message("Engine.Resize(1)"),
        "Invalid Resize format: Engine.Resize(1)"
    );
    assert_eq!(
        ActionParseError::InvalidNumber.message("Engine.Resize(a, 1)"),
        "Invalid number: Engine.Resize(a, 1)"
    );
    assert_eq!(
        ActionParseError::UnknownDirection.message("Home.NavigateList(X)"),
        "Unexpected list navigation direction in config: Home.NavigateList(X)"
    );
}

#[test]
fn reading_the_textual_form_gives_the_action_back() {
    let actions = vec![
        engine(EngineAction::Tick),
        engine(EngineAction::Render),
        engine(EngineAction::Resize(0, 0)),
        engine(EngineAction::Resize(80, 24)),
        engine(EngineAction::Resize(65535, 65535)),
        engine(EngineAction::Suspend),
        engine(EngineAction::Resume),
        engine(EngineAction::Quit),
        engine(EngineAction::Refresh),
        engine(EngineAction::ToggleShowHelp),
        engine(EngineAction::ToggleShowModeSwitcher),
        engine(EngineAction::ChangeMode(Mode::MainMenu)),
        engine(EngineAction::ChangeMode(Mode::Home)),
        engine(EngineAction::Error(String::new())),
        engine(EngineAction::Error("Failed to draw: (1, 2)".to_string())),
        engine(EngineAction::Error("Error(".to_string())),
        engine(EngineAction::Error(")))".to_string())),
        home(HomeAction::Help),
        home(HomeAction::ToggleShowHelp),
        home(HomeAction::ScheduleIncrement),
        home(HomeAction::ScheduleDecrement),
        home(HomeAction::EnterNormal),
        home(HomeAction::EnterInsert),
        home(HomeAction::EnterProcessing),
        home(HomeAction::ExitProcessing),
        home(HomeAction::Update),
        home(HomeAction::Increment(0)),
        home(HomeAction::Increment(usize::MAX)),
        home(HomeAction::Decrement(1)),
        home(HomeAction::Decrement(1234567890)),
        home(HomeAction::CompleteInput(String::new())),
        home(HomeAction::CompleteInput("a (b) c)".to_string())),
        home(HomeAction::NavigateList(ListNavDirection::Left)),
        home(HomeAction::NavigateList(ListNavDirection::Right)),
        home(HomeAction::NavigateList(ListNavDirection::Up)),
        home(HomeAction::NavigateList(ListNavDirection::Down)),
    ];
    for action in actions {
        let text = action.to_string();
        assert_eq!(Action::parse(&text), Ok(action));
    }
}

#[test]
fn actions_of_either_family_become_actions() {
    let tick: Action = EngineAction::Tick.into();
    assert_eq!(tick, Action::Engine(EngineAction::Tick));
    let help: Action = HomeAction::Help.into();
    assert_eq!(help, Action::Home(HomeAction::Help));
    assert_eq!(Action::from(EngineAction::Resize(1, 2)), engine(EngineAction::Resize(1, 2)));
    assert_eq!(
        Action::from(HomeAction::CompleteInput("x".to_string())),
        home(HomeAction::CompleteInput("x".to_string()))
    );
}

#[test]
fn equal_actions_are_the_same() {
    let a = engine(EngineAction::Error("x".to_string()));
    let b = engine(EngineAction::Error("x".to_string()));
    let c = engine(EngineAction::Error("y".to_string()));
    assert!(a.same(&b));
    assert!(!a.same(&c));
    assert!(!a.same(&home(HomeAction::Help)));
    assert!(engine(EngineAction::Resize(1, 2)).same(&engine(EngineAction::Resize(1, 2))));
    assert!(!engine(EngineAction::Resize(1, 2)).same(&engine(EngineAction::Resize(2, 1))));
    assert!(home(HomeAction::Increment(1)).same(&home(HomeAction::Increment(1))));
    assert!(!home(HomeAction::Increment(1)).same(&home(HomeAction::Decrement(1))));
    assert_eq!(a.clone(), a);
    assert_eq!(
        home(HomeAction::CompleteInput("t".to_string())).clone(),
        home(HomeAction::CompleteInput("t".to_string()))
    );
    assert_eq!(Mode::default(), Mode::MainMenu);
    assert_eq!(Mode::Home.name(), "Home");
    assert_eq!(Mode::MainMenu.name(), "MainMenu");
}
