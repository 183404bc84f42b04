//! Actions: every event that the system can react to, and their textual form.

use crate::app::Mode;
use crate::text::{
    decimal, find_char, first_index_of, has_prefix, is_digit, lemma_decimal_digits,
    lemma_first_index_of_absent, lemma_first_index_of_found, lemma_parse_decimal,
    lemma_trim_decimal, parse_number, parse_number_spec, starts_with_at, to_chars, trim,
    trim_range, trim_start,
};
use vstd::prelude::*;

pub mod engine_actions;
pub mod home_action;

pub use self::engine_actions::{EngineAction, EngineActionView};
pub use self::home_action::{HomeAction, HomeActionView, ListNavDirection};

verus! {

/// An event that the system reacts to: one of the process lifecycle, or one
/// of the content screen.
#[derive(Debug, PartialEq, Eq)]
pub enum Action {
    Engine(EngineAction),
    Home(HomeAction),
}

/// An `Action` with its text as a sequence of characters.
pub enum ActionView {
    Engine(EngineActionView),
    Home(HomeActionView),
}

impl View for Action {
    type V = ActionView;

    open spec fn view(&self) -> ActionView {
        match *self {
            Action::Engine(e) => ActionView::Engine(e@),
            Action::Home(h) => ActionView::Home(h@),
        }
    }
}

impl ActionView {
    /// The textual form of the action: the name of its family, a dot, and
    /// the form of the action within the family.
    pub open spec fn text(self) -> Seq<char> {
        match self {
            ActionView::Engine(e) => "Engine."@ + e.text(),
            ActionView::Home(h) => "Home."@ + h.text(),
        }
    }
}

/// The view of an action that may be absent.
pub open spec fn action_view(action: Option<Action>) -> Option<ActionView> {
    match action {
        Some(a) => Some(a@),
        None => None,
    }
}

/// The view of a borrowed action that may be absent.
pub open spec fn action_ref_view(action: Option<&Action>) -> Option<ActionView> {
    match action {
        Some(a) => Some(a@),
        None => None,
    }
}

/// Why a text is not the textual form of an action.
#[derive(Debug, Copy, Clone, PartialEq, Eq, Structural)]
pub enum ActionParseError {
    /// The text begins with the name of no family of actions.
    UnknownActionFamily,
    /// What follows `Engine.` names no lifecycle action.
    UnknownEngineAction,
    /// What follows `Home.` names no action of the content screen.
    UnknownHomeAction,
    /// Arguments are opened by `(` and the text does not end with `)`.
    UnclosedArguments,
    /// A `Resize` does not hold exactly two arguments with a comma between
    /// them.
    InvalidResizeFormat,
    /// An argument that must be a number is none, or one too large.
    InvalidNumber,
    /// `NavigateList` is not followed by a direction in parentheses.
    UnknownDirection,
    /// `ChangeMode` is not followed by a mode in parentheses.
    UnknownMode,
}

impl ActionParseError {
    /// How the description of the error begins; the offending text follows.
    pub open spec fn message_prefix(self) -> Seq<char> {
        match self {
            ActionParseError::UnknownActionFamily => "Unknown Action variant: "@,
            ActionParseError::UnknownEngineAction => "Unknown EngineAction variant: "@,
            ActionParseError::UnknownHomeAction => "Unknown HomeAction variant: "@,
            ActionParseError::UnclosedArguments => "Unclosed arguments: "@,
            ActionParseError::InvalidResizeFormat => "Invalid Resize format: "@,
            ActionParseError::InvalidNumber => "Invalid number: "@,
            ActionParseError::UnknownDirection =>
                "Unexpected list navigation direction in config: "@,
            ActionParseError::UnknownMode => "Unexpected mode in config: "@,
        }
    }

    /// Describes the error for a reader, with the text that was refused.
    pub fn message(&self, text: &str) -> (s: String)
        ensures
            s@ == self.message_prefix() + text@,
    {
        let mut s = match self {
            ActionParseError::UnknownActionFamily => String::from_str("Unknown Action variant: "),
            ActionParseError::UnknownEngineAction => String::from_str(
                "Unknown EngineAction variant: ",
            ),
            ActionParseError::UnknownHomeAction => String::from_str(
                "Unknown HomeAction variant: ",
            ),
            ActionParseError::UnclosedArguments => String::from_str("Unclosed arguments: "),
            ActionParseError::InvalidResizeFormat => String::from_str("Invalid Resize format: "),
            ActionParseError::InvalidNumber => String::from_str("Invalid number: "),
            ActionParseError::UnknownDirection => String::from_str(
                "Unexpected list navigation direction in config: ",
            ),
            ActionParseError::UnknownMode => String::from_str("Unexpected mode in config: "),
        };
        s.append(text);
        s
    }
}

/// What stands between `open`, which `s` begins with and which ends with
/// `(`, and the `)` that ends `s`; nothing where `s` does not end so.
pub open spec fn arguments(s: Seq<char>, open: Seq<char>) -> Option<Seq<char>> {
    if s.len() > open.len() && s.last() == ')' {
        Some(s.subrange(open.len() as int, s.len() - 1))
    } else {
        None
    }
}

/// The number that the argument `inner` denotes, with white space around it
/// or none.
pub open spec fn decode_count(inner: Seq<char>) -> Result<usize, ActionParseError> {
    match parse_number_spec(trim(inner), usize::MAX as nat) {
        Some(n) => Ok(n as usize),
        None => Err(ActionParseError::InvalidNumber),
    }
}

/// The `Resize` that the arguments `inner` denote: a width and a height with
/// one comma between them, each with white space around it or none.
pub open spec fn decode_resize(inner: Seq<char>) -> Result<EngineActionView, ActionParseError> {
    let comma = first_index_of(inner, ',');
    let rest = inner.skip(comma + 1);
    if comma == inner.len() || first_index_of(rest, ',') != rest.len() {
        Err(ActionParseError::InvalidResizeFormat)
    } else {
        match (
            parse_number_spec(trim(inner.take(comma)), u16::MAX as nat),
            parse_number_spec(trim(rest), u16::MAX as nat),
        ) {
            (Some(w), Some(h)) => Ok(EngineActionView::Resize(w as u16, h as u16)),
            _ => Err(ActionParseError::InvalidNumber),
        }
    }
}

/// The lifecycle action that `s` denotes, `s` being what follows `Engine.`.
pub open spec fn decode_engine(s: Seq<char>) -> Result<EngineActionView, ActionParseError> {
    if s == "Tick"@ {
        Ok(EngineActionView::Tick)
    } else if s == "Render"@ {
        Ok(EngineActionView::Render)
    } else if s == "Suspend"@ {
        Ok(EngineActionView::Suspend)
    } else if s == "Resume"@ {
        Ok(EngineActionView::Resume)
    } else if s == "Quit"@ {
        Ok(EngineActionView::Quit)
    } else if s == "Refresh"@ {
        Ok(EngineActionView::Refresh)
    } else if s == "ToggleShowHelp"@ {
        Ok(EngineActionView::ToggleShowHelp)
    } else if s == "ToggleShowModeSwitcher"@ {
        Ok(EngineActionView::ToggleShowModeSwitcher)
    } else if has_prefix(s, "Error("@) {
        match arguments(s, "Error("@) {
            Some(message) => Ok(EngineActionView::Error(message)),
            None => Err(ActionParseError::UnclosedArguments),
        }
    } else if has_prefix(s, "Resize("@) {
        match arguments(s, "Resize("@) {
            Some(inner) => decode_resize(inner),
            None => Err(ActionParseError::UnclosedArguments),
        }
    } else if has_prefix(s, "ChangeMode"@) {
        if s == "ChangeMode(MainMenu)"@ {
            Ok(EngineActionView::ChangeMode(Mode::MainMenu))
        } else if s == "ChangeMode(Home)"@ {
            Ok(EngineActionView::ChangeMode(Mode::Home))
        } else {
            Err(ActionParseError::UnknownMode)
        }
    } else {
        Err(ActionParseError::UnknownEngineAction)
    }
}

/// The action of the content screen that `s` denotes, `s` being what follows
/// `Home.`.
pub open spec fn decode_home(s: Seq<char>) -> Result<HomeActionView, ActionParseError> {
    if s == "Help"@ {
        Ok(HomeActionView::Help)
    } else if s == "ScheduleIncrement"@ {
        Ok(HomeActionView::ScheduleIncrement)
    } else if s == "ScheduleDecrement"@ {
        Ok(HomeActionView::ScheduleDecrement)
    } else if s == "ToggleShowHelp"@ {
        Ok(HomeActionView::ToggleShowHelp)
    } else if s == "EnterInsert"@ {
        Ok(HomeActionView::EnterInsert)
    } else if s == "EnterNormal"@ {
        Ok(HomeActionView::EnterNormal)
    } else if s == "EnterProcessing"@ {
        Ok(HomeActionView::EnterProcessing)
    } else if s == "ExitProcessing"@ {
        Ok(HomeActionView::ExitProcessing)
    } else if s == "Update"@ {
        Ok(HomeActionView::Update)
    } else if has_prefix(s, "Increment("@) {
        match arguments(s, "Increment("@) {
            Some(inner) => match decode_count(inner) {
                Ok(n) => Ok(HomeActionView::Increment(n)),
                Err(e) => Err(e),
            },
            None => Err(ActionParseError::UnclosedArguments),
        }
    } else if has_prefix(s, "Decrement("@) {
        match arguments(s, "Decrement("@) {
            Some(inner) => match decode_count(inner) {
                Ok(n) => Ok(HomeActionView::Decrement(n)),
                Err(e) => Err(e),
            },
            None => Err(ActionParseError::UnclosedArguments),
        }
    } else if has_prefix(s, "CompleteInput("@) {
        match arguments(s, "CompleteInput("@) {
            Some(text) => Ok(HomeActionView::CompleteInput(text)),
            None => Err(ActionParseError::UnclosedArguments),
        }
    } else if has_prefix(s, "NavigateList"@) {
        if s == "NavigateList(Left)"@ {
            Ok(HomeActionView::NavigateList(ListNavDirection::Left))
        } else if s == "NavigateList(Right)"@ {
            Ok(HomeActionView::NavigateList(ListNavDirection::Right))
        } else if s == "NavigateList(Up)"@ {
            Ok(HomeActionView::NavigateList(ListNavDirection::Up))
        } else if s == "NavigateList(Down)"@ {
            Ok(HomeActionView::NavigateList(ListNavDirection::Down))
        } else {
            Err(ActionParseError::UnknownDirection)
        }
    } else {
        Err(ActionParseError::UnknownHomeAction)
    }
}

/// The action that `text` denotes, or why it denotes none.
pub open spec fn decode(text: Seq<char>) -> Result<ActionView, ActionParseError> {
    if has_prefix(text, "Engine."@) {
        match decode_engine(text.skip("Engine."@.len() as int)) {
            Ok(e) => Ok(ActionView::Engine(e)),
            Err(e) => Err(e),
        }
    } else if has_prefix(text, "Home."@) {
        match decode_home(text.skip("Home."@.len() as int)) {
            Ok(h) => Ok(ActionView::Home(h)),
            Err(e) => Err(e),
        }
    } else {
        Err(ActionParseError::UnknownActionFamily)
    }
}

/// Whether the characters of `s` from `at` on are exactly those of `lit`.
fn equals_at(s: &Vec<char>, at: usize, lit: &str) -> (b: bool)
    requires
        at <= s.len(),
    ensures
        b == (s@.skip(at as int) == lit@),
{
    let b = starts_with_at(s, at, lit) && s.len() - at == lit.unicode_len();
    proof {
        let rest = s@.skip(at as int);
        if rest.len() == lit@.len() {
            assert(rest.subrange(0, lit@.len() as int) =~= rest);
        }
    }
    b
}

/// Where the arguments stand that follow `open` at position `at` of `s`.
fn arguments_at(s: &Vec<char>, at: usize, open: &str) -> (r: Option<(usize, usize)>)
    requires
        at <= s.len(),
        has_prefix(s@.skip(at as int), open@),
    ensures
        match r {
            Some((from, to)) => at <= from <= to <= s.len() && arguments(
                s@.skip(at as int),
                open@,
            ) == Some(s@.subrange(from as int, to as int)),
            None => arguments(s@.skip(at as int), open@) is None,
        },
{
    let n = s.len();
    let width = open.unicode_len();
    if n - at > width && s[n - 1] == ')' {
        proof {
            let rest = s@.skip(at as int);
            assert(rest.subrange(width as int, rest.len() - 1) =~= s@.subrange(at + width, n - 1));
        }
        Some((at + width, n - 1))
    } else {
        None
    }
}

fn parse_count(s: &Vec<char>, from: usize, to: usize) -> (r: Result<usize, ActionParseError>)
    requires
        from <= to <= s.len(),
    ensures
        r == decode_count(s@.subrange(from as int, to as int)),
{
    let (a, b) = trim_range(s, from, to);
    match parse_number(s, a, b, usize::MAX as u64) {
        Some(n) => Ok(n as usize),
        None => Err(ActionParseError::InvalidNumber),
    }
}

fn parse_resize(s: &Vec<char>, from: usize, to: usize) -> (r: Result<
    EngineAction,
    ActionParseError,
>)
    requires
        from <= to <= s.len(),
    ensures
        match r {
            Ok(a) => decode_resize(s@.subrange(from as int, to as int)) == Ok::<
                EngineActionView,
                ActionParseError,
            >(a@),
            Err(e) => decode_resize(s@.subrange(from as int, to as int)) == Err::<
                EngineActionView,
                ActionParseError,
            >(e),
        },
{
    let ghost inner = s@.subrange(from as int, to as int);
    let comma = find_char(s, from, to, ',');
    if comma == to {
        return Err(ActionParseError::InvalidResizeFormat);
    }
    let second = find_char(s, comma + 1, to, ',');
    proof {
        assert(inner.skip(comma - from + 1) =~= s@.subrange(comma + 1, to as int));
        assert(inner.take(comma - from) =~= s@.subrange(from as int, comma as int));
    }
    if second != to {
        return Err(ActionParseError::InvalidResizeFormat);
    }
    let (wa, wb) = trim_range(s, from, comma);
    let (ha, hb) = trim_range(s, comma + 1, to);
    let width = parse_number(s, wa, wb, 65535);
    let height = parse_number(s, ha, hb, 65535);
    match (width, height) {
        (Some(w), Some(h)) => Ok(EngineAction::Resize(w as u16, h as u16)),
        _ => Err(ActionParseError::InvalidNumber),
    }
}

impl EngineAction {
    /// Reads a lifecycle action from its textual form without the name of
    /// the family. `chars` holds the characters of `text`; the form begins at
    /// position `at`.
    fn parse_at(text: &str, chars: &Vec<char>, at: usize) -> (r: Result<
        EngineAction,
        ActionParseError,
    >)
        requires
            chars@ == text@,
            at <= chars.len(),
        ensures
            match r {
                Ok(a) => decode_engine(text@.skip(at as int)) == Ok::<
                    EngineActionView,
                    ActionParseError,
                >(a@),
                Err(e) => decode_engine(text@.skip(at as int)) == Err::<
                    EngineActionView,
                    ActionParseError,
                >(e),
            },
    {
        if equals_at(chars, at, "Tick") {
            Ok(EngineAction::Tick)
        } else if equals_at(chars, at, "Render") {
            Ok(EngineAction::Render)
        } else if equals_at(chars, at, "Suspend") {
            Ok(EngineAction::Suspend)
        } else if equals_at(chars, at, "Resume") {
            Ok(EngineAction::Resume)
        } else if equals_at(chars, at, "Quit") {
            Ok(EngineAction::Quit)
        } else if equals_at(chars, at, "Refresh") {
            Ok(EngineAction::Refresh)
        } else if equals_at(chars, at, "ToggleShowHelp") {
            Ok(EngineAction::ToggleShowHelp)
        } else if equals_at(chars, at, "ToggleShowModeSwitcher") {
            Ok(EngineAction::ToggleShowModeSwitcher)
        } else if starts_with_at(chars, at, "Error(") {
            match arguments_at(chars, at, "Error(") {
                Some((from, to)) => Ok(
                    EngineAction::Error(String::from_str(text.substring_char(from, to))),
                ),
                None => Err(ActionParseError::UnclosedArguments),
            }
        } else if starts_with_at(chars, at, "Resize(") {
            match arguments_at(chars, at, "Resize(") {
                Some((from, to)) => parse_resize(chars, from, to),
                None => Err(ActionParseError::UnclosedArguments),
            }
        } else if starts_with_at(chars, at, "ChangeMode") {
            if equals_at(chars, at, "ChangeMode(MainMenu)") {
                Ok(EngineAction::ChangeMode(Mode::MainMenu))
            } else if equals_at(chars, at, "ChangeMode(Home)") {
                Ok(EngineAction::ChangeMode(Mode::Home))
            } else {
                Err(ActionParseError::UnknownMode)
            }
        } else {
            Err(ActionParseError::UnknownEngineAction)
        }
    }
}

impl HomeAction {
    /// Reads an action of the content screen from its textual form without
    /// the name of the family. `chars` holds the characters of `text`; the
    /// form begins at position `at`.
    fn parse_at(text: &str, chars: &Vec<char>, at: usize) -> (r: Result<
        HomeAction,
        ActionParseError,
    >)
        requires
            chars@ == text@,
            at <= chars.len(),
        ensures
            match r {
                Ok(a) => decode_home(text@.skip(at as int)) == Ok::<
                    HomeActionView,
                    ActionParseError,
                >(a@),
                Err(e) => decode_home(text@.skip(at as int)) == Err::<
                    HomeActionView,
                    ActionParseError,
                >(e),
            },
    {
        if equals_at(chars, at, "Help") {
            Ok(HomeAction::Help)
        } else if equals_at(chars, at, "ScheduleIncrement") {
            Ok(HomeAction::ScheduleIncrement)
        } else if equals_at(chars, at, "ScheduleDecrement") {
            Ok(HomeAction::ScheduleDecrement)
        } else if equals_at(chars, at, "ToggleShowHelp") {
            Ok(HomeAction::ToggleShowHelp)
        } else if equals_at(chars, at, "EnterInsert") {
            Ok(HomeAction::EnterInsert)
        } else if equals_at(chars, at, "EnterNormal") {
            Ok(HomeAction::EnterNormal)
        } else if equals_at(chars, at, "EnterProcessing") {
            Ok(HomeAction::EnterProcessing)
        } else if equals_at(chars, at, "ExitProcessing") {
            Ok(HomeAction::ExitProcessing)
        } else if equals_at(chars, at, "Update") {
            Ok(HomeAction::Update)
        } else if starts_with_at(chars, at, "Increment(") {
            match arguments_at(chars, at, "Increment(") {
                Some((from, to)) => match parse_count(chars, from, to) {
                    Ok(n) => Ok(HomeAction::Increment(n)),
                    Err(e) => Err(e),
                },
                None => Err(ActionParseError::UnclosedArguments),
            }
        } else if starts_with_at(chars, at, "Decrement(") {
            match arguments_at(chars, at, "Decrement(") {
                Some((from, to)) => match parse_count(chars, from, to) {
                    Ok(n) => Ok(HomeAction::Decrement(n)),
                    Err(e) => Err(e),
                },
                None => Err(ActionParseError::UnclosedArguments),
            }
        } else if starts_with_at(chars, at, "CompleteInput(") {
            match arguments_at(chars, at, "CompleteInput(") {
                Some((from, to)) => Ok(
                    HomeAction::CompleteInput(String::from_str(text.substring_char(from, to))),
                ),
                None => Err(ActionParseError::UnclosedArguments),
            }
        } else if starts_with_at(chars, at, "NavigateList") {
            if equals_at(chars, at, "NavigateList(Left)") {
                Ok(HomeAction::NavigateList(ListNavDirection::Left))
            } else if equals_at(chars, at, "NavigateList(Right)") {
                Ok(HomeAction::NavigateList(ListNavDirection::Right))
            } else if equals_at(chars, at, "NavigateList(Up)") {
                Ok(HomeAction::NavigateList(ListNavDirection::Up))
            } else if equals_at(chars, at, "NavigateList(Down)") {
                Ok(HomeAction::NavigateList(ListNavDirection::Down))
            } else {
                Err(ActionParseError::UnknownDirection)
            }
        } else {
            Err(ActionParseError::UnknownHomeAction)
        }
    }
}

impl From<EngineAction> for Action {
    fn from(value: EngineAction) -> (action: Action) {
        Action::Engine(value)
    }
}

impl vstd::std_specs::convert::FromSpecImpl<EngineAction> for Action {
    open spec fn obeys_from_spec() -> bool {
        true
    }

    open spec fn from_spec(value: EngineAction) -> Action {
        Action::Engine(value)
    }
}

impl From<HomeAction> for Action {
    fn from(value: HomeAction) -> (action: Action) {
        Action::Home(value)
    }
}

impl vstd::std_specs::convert::FromSpecImpl<HomeAction> for Action {
    open spec fn obeys_from_spec() -> bool {
        true
    }

    open spec fn from_spec(value: HomeAction) -> Action {
        Action::Home(value)
    }
}

impl Clone for Action {
    fn clone(&self) -> (r: Action)
        ensures
            r == *self,
    {
        match self {
            Action::Engine(e) => Action::Engine(e.clone()),
            Action::Home(h) => Action::Home(h.clone()),
        }
    }
}

impl Action {
    /// Whether two actions are the same: the same variant with the same
    /// arguments.
    pub fn same(&self, other: &Action) -> (b: bool)
        ensures
            b == (self@ == other@),
    {
        match (self, other) {
            (Action::Engine(e), Action::Engine(f)) => e.same(f),
            (Action::Home(h), Action::Home(g)) => h.same(g),
            _ => false,
        }
    }

    /// The textual form of the action.
    pub fn to_string(&self) -> (s: String)
        ensures
            s@ == self@.text(),
    {
        match self {
            Action::Engine(e) => {
                let mut s = String::from_str("Engine.");
                let inner = e.to_string();
                s.append(inner.as_str());
                s
            },
            Action::Home(h) => {
                let mut s = String::from_str("Home.");
                let inner = h.to_string();
                s.append(inner.as_str());
                s
            },
        }
    }

    /// Reads an action from its textual form: `Engine.` or `Home.`, then the
    /// name of the action, then its arguments in parentheses where it has
    /// any.
    pub fn parse(text: &str) -> (r: Result<Action, ActionParseError>)
        ensures
            match r {
                Ok(a) => decode(text@) == Ok::<ActionView, ActionParseError>(a@),
                Err(e) => decode(text@) == Err::<ActionView, ActionParseError>(e),
            },
    {
        let chars = to_chars(text);
        assert(chars@.skip(0) =~= chars@);
        if starts_with_at(&chars, 0, "Engine.") {
            match EngineAction::parse_at(text, &chars, "Engine.".unicode_len()) {
                Ok(e) => Ok(Action::Engine(e)),
                Err(e) => Err(e),
            }
        } else if starts_with_at(&chars, 0, "Home.") {
            match HomeAction::parse_at(text, &chars, "Home.".unicode_len()) {
                Ok(h) => Ok(Action::Home(h)),
                Err(e) => Err(e),
            }
        } else {
            Err(ActionParseError::UnknownActionFamily)
        }
    }
}

/// A text made of `open`, then `inner`, then `)` begins with `open` and has
/// `inner` as its arguments.
proof fn lemma_arguments(open: Seq<char>, inner: Seq<char>)
    ensures
        has_prefix(open + inner + ")"@, open),
        arguments(open + inner + ")"@, open) == Some(inner),
{
    reveal_strlit(")");
    let s = open + inner + ")"@;
    assert(s.subrange(0, open.len() as int) =~= open);
    assert(s.last() == ")"@[0]);
    assert(s.subrange(open.len() as int, s.len() - 1) =~= inner);
}

proof fn lemma_count_round_trip(n: usize)
    ensures
        decode_count(decimal(n as nat)) == Ok::<usize, ActionParseError>(n),
{
    lemma_trim_decimal(n as nat);
    lemma_parse_decimal(n as nat, usize::MAX as nat);
}

proof fn lemma_resize_round_trip(w: u16, h: u16)
    ensures
        decode_resize(decimal(w as nat) + ", "@ + decimal(h as nat)) == Ok::<
            EngineActionView,
            ActionParseError,
        >(EngineActionView::Resize(w, h)),
{
    reveal_strlit(", ");
    let dw = decimal(w as nat);
    let dh = decimal(h as nat);
    let inner = dw + ", "@ + dh;
    lemma_decimal_digits(w as nat);
    lemma_decimal_digits(h as nat);
    assert forall|i: int| 0 <= i < dw.len() implies inner[i] != ',' by {
        assert(inner[i] == dw[i]);
        assert(is_digit(dw[i]));
    }
    assert(inner[dw.len() as int] == ", "@[0]);
    lemma_first_index_of_found(inner, ',', dw.len() as int);
    let rest = inner.skip(dw.len() as int + 1);
    assert(rest =~= seq![' '] + dh);
    assert forall|i: int| 0 <= i < rest.len() implies rest[i] != ',' by {
        if i > 0 {
            assert(rest[i] == dh[i - 1]);
            assert(is_digit(dh[i - 1]));
        }
    }
    lemma_first_index_of_absent(rest, ',');
    assert(inner.take(dw.len() as int) =~= dw);
    lemma_trim_decimal(w as nat);
    lemma_trim_decimal(h as nat);
    lemma_parse_decimal(w as nat, u16::MAX as nat);
    lemma_parse_decimal(h as nat, u16::MAX as nat);
    assert(rest.drop_first() =~= dh);
    assert(is_digit(dh[0]));
    assert(trim_start(rest) == trim_start(dh));
    assert(trim_start(dh) == dh);
}

/// How the names of the lifecycle actions differ from one another.
proof fn lemma_engine_names()
    ensures
        "Tick"@[0] == 'T' && "Tick"@.len() == 4,
        "Render"@[0] == 'R' && "Render"@[2] == 'n',
        "Suspend"@[0] == 'S',
        "Resume"@[0] == 'R' && "Resume"@[2] == 's' && "Resume"@[3] == 'u',
        "Quit"@[0] == 'Q',
        "Refresh"@[0] == 'R' && "Refresh"@[2] == 'f',
        "ToggleShowHelp"@[0] == 'T' && "ToggleShowHelp"@.len() == 14,
        "ToggleShowModeSwitcher"@[0] == 'T' && "ToggleShowModeSwitcher"@.len() == 22,
        "Error("@[0] == 'E' && "Error("@.len() == 6,
        "Resize("@[0] == 'R' && "Resize("@[2] == 's' && "Resize("@[3] == 'i' && "Resize("@.len()
            == 7,
        "ChangeMode"@[0] == 'C' && "ChangeMode"@.len() == 10,
        "ChangeMode(MainMenu)"@[11] == 'M' && "ChangeMode(Home)"@[11] == 'H',
{
    reveal_strlit("Tick");
    reveal_strlit("Render");
    reveal_strlit("Suspend");
    reveal_strlit("Resume");
    reveal_strlit("Quit");
    reveal_strlit("Refresh");
    reveal_strlit("ToggleShowHelp");
    reveal_strlit("ToggleShowModeSwitcher");
    reveal_strlit("Error(");
    reveal_strlit("Resize(");
    reveal_strlit("ChangeMode");
    reveal_strlit("ChangeMode(MainMenu)");
    reveal_strlit("ChangeMode(Home)");
}

/// Reading the form of a lifecycle action gives the action back.
proof fn lemma_engine_round_trip(e: EngineActionView)
    ensures
        decode_engine(e.text()) == Ok::<EngineActionView, ActionParseError>(e),
{
    lemma_engine_names();
    let s = e.text();
    match e {
        EngineActionView::Error(m) => {
            lemma_arguments("Error("@, m);
            assert(s[0] == 'E');
        },
        EngineActionView::Resize(w, h) => {
            let inner = decimal(w as nat) + ", "@ + decimal(h as nat);
            assert(s =~= "Resize("@ + inner + ")"@);
            lemma_arguments("Resize("@, inner);
            assert(s[0] == 'R' && s[2] == 's' && s[3] == 'i');
            lemma_resize_round_trip(w, h);
        },
        EngineActionView::ChangeMode(m) => {
            reveal_strlit("ChangeMode(");
            reveal_strlit("ChangeMode");
            reveal_strlit("ChangeMode(MainMenu)");
            reveal_strlit("ChangeMode(Home)");
            reveal_strlit("MainMenu");
            reveal_strlit("Home");
            reveal_strlit(")");
            assert(s[0] == 'C');
            assert(s.subrange(0, 10) =~= "ChangeMode"@);
            match m {
                Mode::MainMenu => {
                    assert(s =~= "ChangeMode(MainMenu)"@);
                },
                Mode::Home => {
                    assert(s =~= "ChangeMode(Home)"@);
                    assert(s[11] == 'H');
                },
            }
        },
        _ => {},
    }
}

/// How the names of the actions of the content screen differ from one
/// another.
proof fn lemma_home_names()
    ensures
        "Help"@[0] == 'H',
        "ScheduleIncrement"@[0] == 'S' && "ScheduleIncrement"@[8] == 'I',
        "ScheduleDecrement"@[0] == 'S' && "ScheduleDecrement"@[8] == 'D',
        "ToggleShowHelp"@[0] == 'T',
        "EnterInsert"@[0] == 'E' && "EnterInsert"@[5] == 'I' && "EnterInsert"@.len() == 11,
        "EnterNormal"@[0] == 'E' && "EnterNormal"@[5] == 'N' && "EnterNormal"@.len() == 11,
        "EnterProcessing"@[0] == 'E' && "EnterProcessing"@.len() == 15,
        "ExitProcessing"@[0] == 'E' && "ExitProcessing"@.len() == 14,
        "Update"@[0] == 'U',
        "Increment("@[0] == 'I' && "Increment("@.len() == 10,
        "Decrement("@[0] == 'D' && "Decrement("@.len() == 10,
        "CompleteInput("@[0] == 'C' && "CompleteInput("@.len() == 14,
        "NavigateList"@[0] == 'N' && "NavigateList"@.len() == 12,
        "NavigateList(Left)"@[13] == 'L',
        "NavigateList(Right)"@[13] == 'R',
        "NavigateList(Up)"@[13] == 'U',
        "NavigateList(Down)"@[13] == 'D',
{
    reveal_strlit("Help");
    reveal_strlit("ScheduleIncrement");
    reveal_strlit("ScheduleDecrement");
    reveal_strlit("ToggleShowHelp");
    reveal_strlit("EnterInsert");
    reveal_strlit("EnterNormal");
    reveal_strlit("EnterProcessing");
    reveal_strlit("ExitProcessing");
    reveal_strlit("Update");
    reveal_strlit("Increment(");
    reveal_strlit("Decrement(");
    reveal_strlit("CompleteInput(");
    reveal_strlit("NavigateList");
    reveal_strlit("NavigateList(Left)");
    reveal_strlit("NavigateList(Right)");
    reveal_strlit("NavigateList(Up)");
    reveal_strlit("NavigateList(Down)");
}

/// Reading the form of an action of the content screen gives the action
/// back.
proof fn lemma_home_round_trip(h: HomeActionView)
    ensures
        decode_home(h.text()) == Ok::<HomeActionView, ActionParseError>(h),
{
    lemma_home_names();
    let s = h.text();
    match h {
        HomeActionView::Increment(n) => {
            lemma_arguments("Increment("@, decimal(n as nat));
            lemma_count_round_trip(n);
            assert(s[0] == 'I');
        },
        HomeActionView::Decrement(n) => {
            lemma_arguments("Decrement("@, decimal(n as nat));
            lemma_count_round_trip(n);
            assert(s[0] == 'D');
        },
        HomeActionView::CompleteInput(text) => {
            lemma_arguments("CompleteInput("@, text);
            assert(s[0] == 'C');
        },
        HomeActionView::NavigateList(d) => {
            reveal_strlit("NavigateList(");
            reveal_strlit("NavigateList");
            reveal_strlit("NavigateList(Left)");
            reveal_strlit("NavigateList(Right)");
            reveal_strlit("NavigateList(Up)");
            reveal_strlit("NavigateList(Down)");
            reveal_strlit("Left");
            reveal_strlit("Right");
            reveal_strlit("Up");
            reveal_strlit("Down");
            reveal_strlit(")");
            assert(s[0] == 'N');
            assert(s.subrange(0, 12) =~= "NavigateList"@);
            match d {
                ListNavDirection::Left => {
                    assert(s =~= "NavigateList(Left)"@);
                },
                ListNavDirection::Right => {
                    assert(s =~= "NavigateList(Right)"@);
                    assert(s[13] == 'R');
                },
                ListNavDirection::Up => {
                    assert(s =~= "NavigateList(Up)"@);
                    assert(s[13] == 'U');
                },
                ListNavDirection::Down => {
                    assert(s =~= "NavigateList(Down)"@);
                    assert(s[13] == 'D');
                },
            }
        },
        _ => {},
    }
}

/// Reading the textual form of an action gives the action back.
pub proof fn lemma_text_round_trip(a: ActionView)
    ensures
        decode(a.text()) == Ok::<ActionView, ActionParseError>(a),
{
    reveal_strlit("Engine.");
    reveal_strlit("Home.");
    let s = a.text();
    match a {
        ActionView::Engine(e) => {
            lemma_engine_round_trip(e);
            assert(s.subrange(0, 7) =~= "Engine."@);
            assert(s.skip(7) =~= e.text());
        },
        ActionView::Home(h) => {
            lemma_home_round_trip(h);
            assert(s[0] == 'H');
            assert(s.subrange(0, 5) =~= "Home."@);
            assert(s.skip(5) =~= h.text());
        },
    }
}

/// Two actions have the same textual form only if they are the same
/// action.
pub proof fn lemma_text_injective(a: ActionView, b: ActionView)
    requires
        a.text() == b.text(),
    ensures
        a == b,
{
    lemma_text_round_trip(a);
    lemma_text_round_trip(b);
}

} // verus!
