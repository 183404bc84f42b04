//! The help overlay: the key bindings of the watched modes, row by row.

use crate::actions::{Action, ActionView, EngineAction, EngineActionView};
use crate::app::Mode;
use crate::config::{Binding, BindingView, Config, ConfigError};
use crate::keys::KeyEvent;
use vstd::prelude::*;

verus! {

/// One row of the help overlay.
#[derive(Debug)]
pub enum HelpRow {
    /// An empty row, which stands before the heading of each mode.
    Blank,
    /// The heading of a mode.
    Heading(Mode),
    /// A key sequence and the textual form of the action it is bound to.
    Binding { keys: Vec<KeyEvent>, action: String },
}

/// A `HelpRow` as mathematical values.
pub enum HelpRowView {
    Blank,
    Heading(Mode),
    Binding { keys: Seq<KeyEvent>, action: Seq<char> },
}

impl View for HelpRow {
    type V = HelpRowView;

    open spec fn view(&self) -> HelpRowView {
        match *self {
            HelpRow::Blank => HelpRowView::Blank,
            HelpRow::Heading(mode) => HelpRowView::Heading(mode),
            HelpRow::Binding { keys, action } => HelpRowView::Binding {
                keys: keys@,
                action: action@,
            },
        }
    }
}

/// The rows as mathematical values.
pub open spec fn row_views(rows: Seq<HelpRow>) -> Seq<HelpRowView> {
    rows.map_values(|r: HelpRow| r@)
}

/// The rows of one mode: an empty row, the heading, and one row for each
/// binding in the order of the table.
pub open spec fn mode_rows(mode: Mode, entries: Seq<BindingView>) -> Seq<HelpRowView> {
    seq![HelpRowView::Blank, HelpRowView::Heading(mode)] + entries.map_values(
        |b: BindingView| HelpRowView::Binding { keys: b.keys, action: b.action.text() },
    )
}

/// The rows of the modes `watched`, mode after mode.
pub open spec fn help_rows(watched: Seq<Mode>, bindings: Map<Mode, Seq<BindingView>>) -> Seq<
    HelpRowView,
>
    decreases watched.len(),
{
    if watched.len() == 0 {
        Seq::empty()
    } else {
        help_rows(watched.drop_last(), bindings) + mode_rows(
            watched.last(),
            bindings[watched.last()],
        )
    }
}

/// The first of `watched` that has no table in `bindings`, if there is one.
pub open spec fn first_missing(watched: Seq<Mode>, bindings: Map<Mode, Seq<BindingView>>)
    -> Option<Mode>
    decreases watched.len(),
{
    if watched.len() == 0 {
        None
    } else if !bindings.dom().contains(watched[0]) {
        Some(watched[0])
    } else {
        first_missing(watched.drop_first(), bindings)
    }
}

/// The help overlay.
#[derive(Debug)]
pub struct HelpScreen {
    pub show_help: bool,
    watched_modes: Vec<Mode>,
    config: Config,
}

/// The help overlay as mathematical values.
pub struct HelpScreenView {
    pub show_help: bool,
    pub watched_modes: Seq<Mode>,
    pub bindings: Map<Mode, Seq<BindingView>>,
}

impl HelpScreenView {
    /// The overlay after it has reacted to `action`: the toggle shows or
    /// hides it, and nothing else changes anything.
    pub open spec fn update(self, action: ActionView) -> HelpScreenView {
        if action == ActionView::Engine(EngineActionView::ToggleShowHelp) {
            HelpScreenView { show_help: !self.show_help, ..self }
        } else {
            self
        }
    }

    /// The overlay that watches `mode` too.
    pub open spec fn add_mode(self, mode: Mode) -> HelpScreenView {
        if self.watched_modes.contains(mode) {
            self
        } else {
            HelpScreenView { watched_modes: self.watched_modes.push(mode), ..self }
        }
    }
}

impl View for HelpScreen {
    type V = HelpScreenView;

    closed spec fn view(&self) -> HelpScreenView {
        HelpScreenView {
            show_help: self.show_help,
            watched_modes: self.watched_modes@,
            bindings: self.config.keybindings@,
        }
    }
}

fn binding_rows(rows: &mut Vec<HelpRow>, bindings: &Vec<Binding>)
    ensures
        row_views(final(rows)@) == row_views(old(rows)@) + crate::config::binding_views(
            bindings@,
        ).map_values(
            |b: BindingView| HelpRowView::Binding { keys: b.keys, action: b.action.text() },
        ),
{
    let ghost start = row_views(rows@);
    let ghost all = crate::config::binding_views(bindings@).map_values(
        |b: BindingView| HelpRowView::Binding { keys: b.keys, action: b.action.text() },
    );
    let mut i: usize = 0;
    proof {
        assert(start + all.take(0) =~= start);
    }
    while i < bindings.len()
        invariant
            i <= bindings.len(),
            all == crate::config::binding_views(bindings@).map_values(
                |b: BindingView| HelpRowView::Binding { keys: b.keys, action: b.action.text() },
            ),
            row_views(rows@) == start + all.take(i as int),
        decreases bindings.len() - i,
    {
        let row = HelpRow::Binding {
            keys: bindings[i].keys.clone(),
            action: bindings[i].action.to_string(),
        };
        proof {
            assert(row@ == all[i as int]);
            assert(row_views(rows@.push(row)) =~= row_views(rows@).push(row@));
            assert(start + all.take(i + 1) =~= (start + all.take(i as int)).push(all[i as int]));
        }
        rows.push(row);
        i += 1;
    }
    proof {
        assert(all.take(i as int) =~= all);
    }
}

impl Default for HelpScreen {
    fn default() -> (screen: HelpScreen)
        ensures
            screen@ == (HelpScreenView {
                show_help: false,
                watched_modes: Seq::empty(),
                bindings: Map::empty(),
            }),
    {
        HelpScreen::new(Vec::new())
    }
}

impl HelpScreen {
    /// A hidden overlay that watches `watched_modes`, with no key bindings
    /// yet.
    pub fn new(watched_modes: Vec<Mode>) -> (screen: HelpScreen)
        ensures
            screen@ == (HelpScreenView {
                show_help: false,
                watched_modes: watched_modes@,
                bindings: Map::empty(),
            }),
    {
        HelpScreen {
            show_help: false,
            watched_modes,
            config: Config::new(crate::config::KeyBindings::new()),
        }
    }

    /// Watches `mode` too, unless it is watched already.
    pub fn add_mode(&mut self, mode: Mode)
        ensures
            final(self)@ == old(self)@.add_mode(mode),
    {
        let mut i: usize = 0;
        while i < self.watched_modes.len()
            invariant
                i <= self.watched_modes.len(),
                *self == *old(self),
                forall|k: int| 0 <= k < i ==> self.watched_modes@[k] != mode,
            decreases self.watched_modes.len() - i,
        {
            if self.watched_modes[i] == mode {
                return ;
            }
            i += 1;
        }
        self.watched_modes.push(mode);
    }

    /// The watched modes.
    pub fn watched_modes(&self) -> (modes: &Vec<Mode>)
        ensures
            modes@ == self@.watched_modes,
    {
        &self.watched_modes
    }

    /// Takes the key bindings out of `config`.
    pub fn register_config_handler(&mut self, config: &Config)
        ensures
            final(self)@ == (HelpScreenView { bindings: config.keybindings@, ..old(self)@ }),
    {
        self.config = config.clone();
    }

    /// Reacts to `action`. The overlay never answers with an action of its
    /// own.
    pub fn update(&mut self, action: Action) -> (r: Option<Action>)
        ensures
            r is None,
            final(self)@ == old(self)@.update(action@),
    {
        match action {
            Action::Engine(EngineAction::ToggleShowHelp) => {
                self.show_help = !self.show_help;
            },
            _ => {},
        }
        None
    }

    /// The rows of the overlay. A watched mode without a table of key
    /// bindings is an error.
    pub fn rows(&self) -> (r: Result<Vec<HelpRow>, ConfigError>)
        ensures
            match r {
                Ok(rows) => first_missing(self@.watched_modes, self@.bindings) is None
                    && row_views(rows@) == help_rows(self@.watched_modes, self@.bindings),
                Err(e) => first_missing(self@.watched_modes, self@.bindings) matches Some(mode)
                    && e == ConfigError::MissingMode(mode),
            },
    {
        let mut rows: Vec<HelpRow> = Vec::new();
        let mut i: usize = 0;
        let ghost watched = self.watched_modes@;
        let ghost bindings = self.config.keybindings@;
        proof {
            assert(watched.skip(0) =~= watched);
            assert(row_views(rows@) =~= help_rows(watched.take(0), bindings));
        }
        while i < self.watched_modes.len()
            invariant
                i <= self.watched_modes.len(),
                watched == self.watched_modes@,
                bindings == self.config.keybindings@,
                first_missing(watched, bindings) == first_missing(watched.skip(i as int), bindings),
                row_views(rows@) == help_rows(watched.take(i as int), bindings),
            decreases self.watched_modes.len() - i,
        {
            let mode = self.watched_modes[i];
            proof {
                assert(watched.skip(i as int)[0] == mode);
                assert(watched.skip(i as int).drop_first() =~= watched.skip(i + 1));
                assert(watched.take(i + 1).drop_last() =~= watched.take(i as int));
                assert(watched.take(i + 1).last() == mode);
            }
            match self.config.keybindings.get(mode) {
                Some(map) => {
                    let ghost before = row_views(rows@);
                    rows.push(HelpRow::Blank);
                    rows.push(HelpRow::Heading(mode));
                    proof {
                        assert(row_views(rows@) =~= before + seq![
                            HelpRowView::Blank,
                            HelpRowView::Heading(mode),
                        ]);
                    }
                    binding_rows(&mut rows, map.bindings());
                    proof {
                        assert(row_views(rows@) =~= before + mode_rows(mode, bindings[mode]));
                    }
                },
                None => {
                    return Err(ConfigError::MissingMode(mode));
                },
            }
            i += 1;
        }
        proof {
            assert(watched.take(i as int) =~= watched);
        }
        Ok(rows)
    }
}

} // verus!
