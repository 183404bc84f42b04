//! Key bindings: for each mode, which key sequence stands for which action.

use crate::actions::{action_ref_view, decode, Action, ActionParseError, ActionView};
use crate::app::Mode;
use crate::keys::{is_prefix, keys_equal, keys_prefix, KeyEvent};
use vstd::prelude::*;

verus! {

/// Why a set of key bindings is refused.
#[derive(Debug, Copy, Clone, PartialEq, Eq, Structural)]
pub enum ConfigError {
    /// A binding has no key at all.
    EmptyKeySequence,
    /// The key sequence is already bound to another action.
    ConflictingKeySequence,
    /// The key sequence begins another bound sequence, or another bound
    /// sequence begins it: one of the two could never be typed.
    AmbiguousKeySequence,
    /// The name of the action is no textual form of an action.
    UnknownAction(ActionParseError),
    /// A mode has no table of bindings.
    MissingMode(Mode),
}

/// One binding: a sequence of key presses and the action it stands for.
#[derive(Debug)]
pub struct Binding {
    pub keys: Vec<KeyEvent>,
    pub action: Action,
}

/// A `Binding` as mathematical values.
pub struct BindingView {
    pub keys: Seq<KeyEvent>,
    pub action: ActionView,
}

impl View for Binding {
    type V = BindingView;

    open spec fn view(&self) -> BindingView {
        BindingView { keys: self.keys@, action: self.action@ }
    }
}

impl Clone for Binding {
    fn clone(&self) -> (r: Binding)
        ensures
            r@ == self@,
    {
        Binding { keys: self.keys.clone(), action: self.action.clone() }
    }
}

/// The bindings as mathematical values.
pub open spec fn binding_views(bindings: Seq<Binding>) -> Seq<BindingView> {
    bindings.map_values(|b: Binding| b@)
}

/// The key sequence of the `i`-th binding.
pub open spec fn keys_at(entries: Seq<BindingView>, i: int) -> Seq<KeyEvent> {
    entries[i].keys
}

/// The bindings of one mode. No bound sequence is empty and none is a prefix
/// of another, so each can be typed and each stands for one action.
#[derive(Debug)]
pub struct KeyMap {
    bindings: Vec<Binding>,
}

impl View for KeyMap {
    type V = Map<Seq<KeyEvent>, ActionView>;

    open spec fn view(&self) -> Map<Seq<KeyEvent>, ActionView> {
        map_of(self.entries())
    }
}

/// The entries as a map from key sequence to action.
pub open spec fn map_of(entries: Seq<BindingView>) -> Map<Seq<KeyEvent>, ActionView> {
    Map::new(
        |keys: Seq<KeyEvent>| bound_in(entries, keys),
        |keys: Seq<KeyEvent>| entries[index_in(entries, keys)].action,
    )
}

/// Whether some entry binds exactly `keys`.
pub open spec fn bound_in(entries: Seq<BindingView>, keys: Seq<KeyEvent>) -> bool {
    exists|i: int| 0 <= i < entries.len() && #[trigger] keys_at(entries, i) == keys
}

/// The position of an entry that binds exactly `keys`.
pub open spec fn index_in(entries: Seq<BindingView>, keys: Seq<KeyEvent>) -> int {
    choose|i: int| 0 <= i < entries.len() && #[trigger] keys_at(entries, i) == keys
}

/// Whether `keys` begins some bound sequence, or is one.
pub open spec fn begins_in(entries: Seq<BindingView>, keys: Seq<KeyEvent>) -> bool {
    exists|i: int| 0 <= i < entries.len() && is_prefix(keys, #[trigger] keys_at(entries, i))
}

/// Whether `keys` and some bound sequence are in each other's way: one is a
/// prefix of the other.
pub open spec fn clashes_in(entries: Seq<BindingView>, keys: Seq<KeyEvent>) -> bool {
    exists|i: int|
        0 <= i < entries.len() && (is_prefix(keys, #[trigger] keys_at(entries, i)) || is_prefix(
            keys_at(entries, i),
            keys,
        ))
}

/// Whether `keys` begins some sequence that `map` binds, or is one.
pub open spec fn begins_bound(map: Map<Seq<KeyEvent>, ActionView>, keys: Seq<KeyEvent>) -> bool {
    exists|s: Seq<KeyEvent>| #[trigger] map.dom().contains(s) && is_prefix(keys, s)
}

/// Whether `keys` and some sequence that `map` binds are in each other's
/// way: one is a prefix of the other.
pub open spec fn clashes_bound(map: Map<Seq<KeyEvent>, ActionView>, keys: Seq<KeyEvent>) -> bool {
    exists|s: Seq<KeyEvent>|
        #[trigger] map.dom().contains(s) && (is_prefix(keys, s) || is_prefix(s, keys))
}

/// No sequence that `map` binds is empty, and none is a prefix of another.
pub open spec fn prefix_free_map(map: Map<Seq<KeyEvent>, ActionView>) -> bool {
    &&& forall|s: Seq<KeyEvent>| #[trigger] map.dom().contains(s) ==> s.len() > 0
    &&& forall|s: Seq<KeyEvent>, t: Seq<KeyEvent>|
        #[trigger] map.dom().contains(s) && #[trigger] map.dom().contains(t) && s != t
            ==> !is_prefix(s, t)
}

/// Whether `keys` can be bound to `action` in `map`, and why not: the
/// sequence must not be empty; where it is bound already, it must be bound
/// to `action`; else it must not be in the way of another bound sequence.
pub open spec fn insert_outcome(
    map: Map<Seq<KeyEvent>, ActionView>,
    keys: Seq<KeyEvent>,
    action: ActionView,
) -> Result<(), ConfigError> {
    if keys.len() == 0 {
        Err(ConfigError::EmptyKeySequence)
    } else if map.dom().contains(keys) {
        if map[keys] == action {
            Ok(())
        } else {
            Err(ConfigError::ConflictingKeySequence)
        }
    } else if clashes_bound(map, keys) {
        Err(ConfigError::AmbiguousKeySequence)
    } else {
        Ok(())
    }
}

/// No entry is empty, and none is a prefix of another.
pub open spec fn prefix_free(entries: Seq<BindingView>) -> bool {
    &&& forall|i: int| 0 <= i < entries.len() ==> (#[trigger] keys_at(entries, i)).len() > 0
    &&& forall|i: int, j: int|
        0 <= i < entries.len() && 0 <= j < entries.len() && i != j ==> !is_prefix(
            #[trigger] keys_at(entries, i),
            #[trigger] keys_at(entries, j),
        )
}

impl KeyMap {
    /// The bindings in the order in which they were made.
    pub closed spec fn entries(&self) -> Seq<BindingView> {
        binding_views(self.bindings@)
    }

    /// The validity of the table.
    pub open spec fn wf(&self) -> bool {
        prefix_free(self.entries())
    }

    /// What holds of the entries holds of the table as a map.
    pub proof fn lemma_bound(&self, keys: Seq<KeyEvent>)
        requires
            self.wf(),
        ensures
            prefix_free_map(self@),
            begins_in(self.entries(), keys) == begins_bound(self@, keys),
            clashes_in(self.entries(), keys) == clashes_bound(self@, keys),
    {
        self.lemma_view();
        let entries = self.entries();
        assert forall|s: Seq<KeyEvent>| #[trigger] self@.dom().contains(s) implies s.len() > 0 by {
            let i = index_in(entries, s);
            assert(keys_at(entries, i) == s);
        }
        assert forall|s: Seq<KeyEvent>, t: Seq<KeyEvent>|
            #[trigger] self@.dom().contains(s) && #[trigger] self@.dom().contains(t) && s
                != t implies !is_prefix(s, t) by {
            let i = index_in(entries, s);
            let j = index_in(entries, t);
            assert(keys_at(entries, i) == s);
            assert(keys_at(entries, j) == t);
        }
        if begins_in(entries, keys) {
            let i = choose|i: int|
                0 <= i < entries.len() && is_prefix(keys, #[trigger] keys_at(entries, i));
            assert(self@.dom().contains(keys_at(entries, i)));
        }
        if begins_bound(self@, keys) {
            let s = choose|s: Seq<KeyEvent>| #[trigger]
                self@.dom().contains(s) && is_prefix(keys, s);
            let i = index_in(entries, s);
            assert(keys_at(entries, i) == s);
        }
        if clashes_in(entries, keys) {
            let i = choose|i: int|
                0 <= i < entries.len() && (is_prefix(keys, #[trigger] keys_at(entries, i))
                    || is_prefix(keys_at(entries, i), keys));
            assert(self@.dom().contains(keys_at(entries, i)));
        }
        if clashes_bound(self@, keys) {
            let s = choose|s: Seq<KeyEvent>| #[trigger]
                self@.dom().contains(s) && (is_prefix(keys, s) || is_prefix(s, keys));
            let i = index_in(entries, s);
            assert(keys_at(entries, i) == s);
        }
    }

    /// How the table as a map follows from its entries.
    pub proof fn lemma_view(&self)
        requires
            self.wf(),
        ensures
            forall|keys: Seq<KeyEvent>|
                self@.dom().contains(keys) <==> bound_in(self.entries(), keys),
            forall|i: int|
                0 <= i < self.entries().len() ==> self@.dom().contains(
                    #[trigger] keys_at(self.entries(), i),
                ) && self@[keys_at(self.entries(), i)] == self.entries()[i].action,
    {
        let entries = self.entries();
        assert forall|i: int| 0 <= i < entries.len() implies self@.dom().contains(
            #[trigger] keys_at(entries, i),
        ) && self@[keys_at(entries, i)] == entries[i].action by {
            let keys = keys_at(entries, i);
            let j = index_in(entries, keys);
            assert(keys_at(entries, j) == keys);
            if i != j {
                assert(keys.take(keys.len() as int) =~= keys);
                assert(is_prefix(keys_at(entries, i), keys_at(entries, j)));
            }
        }
    }

    /// A table without bindings.
    pub fn new() -> (map: KeyMap)
        ensures
            map.wf(),
            map.entries() == Seq::<BindingView>::empty(),
    {
        KeyMap { bindings: Vec::new() }
    }

    /// The number of bindings.
    pub fn len(&self) -> (n: usize)
        ensures
            n == self.entries().len(),
    {
        self.bindings.len()
    }

    /// The bindings in the order in which they were made.
    pub fn bindings(&self) -> (all: &Vec<Binding>)
        ensures
            binding_views(all@) == self.entries(),
    {
        &self.bindings
    }

    /// The action that exactly `keys` is bound to.
    pub fn get(&self, keys: &Vec<KeyEvent>) -> (found: Option<&Action>)
        requires
            self.wf(),
        ensures
            match found {
                Some(action) => self@.dom().contains(keys@) && action@ == self@[keys@],
                None => !self@.dom().contains(keys@),
            },
    {
        let mut i: usize = 0;
        while i < self.bindings.len()
            invariant
                i <= self.bindings.len(),
                self.wf(),
                forall|k: int| 0 <= k < i ==> #[trigger] keys_at(self.entries(), k) != keys@,
            decreases self.bindings.len() - i,
        {
            if keys_equal(&self.bindings[i].keys, keys) {
                proof {
                    self.lemma_view();
                    assert(keys_at(self.entries(), i as int) == keys@);
                }
                return Some(&self.bindings[i].action);
            }
            i += 1;
        }
        proof {
            self.lemma_view();
        }
        None
    }

    /// Whether `keys` begins some bound sequence, or is one.
    pub fn begins_some(&self, keys: &Vec<KeyEvent>) -> (b: bool)
        requires
            self.wf(),
        ensures
            b == begins_bound(self@, keys@),
    {
        proof {
            self.lemma_bound(keys@);
        }
        let mut i: usize = 0;
        while i < self.bindings.len()
            invariant
                i <= self.bindings.len(),
                begins_in(self.entries(), keys@) == begins_bound(self@, keys@),
                forall|k: int|
                    0 <= k < i ==> !is_prefix(keys@, #[trigger] keys_at(self.entries(), k)),
            decreases self.bindings.len() - i,
        {
            if keys_prefix(keys, &self.bindings[i].keys) {
                assert(is_prefix(keys@, keys_at(self.entries(), i as int)));
                return true;
            }
            i += 1;
        }
        false
    }

    /// Binds `keys` to `action`. An empty sequence is refused, and so is one
    /// that is in the way of another bound sequence; to bind a sequence
    /// again to the action that it has changes nothing.
    pub fn insert(&mut self, keys: Vec<KeyEvent>, action: Action) -> (r: Result<(), ConfigError>)
        requires
            old(self).wf(),
        ensures
            final(self).wf(),
            r == insert_outcome(old(self)@, keys@, action@),
            final(self)@ == if r is Ok {
                old(self)@.insert(keys@, action@)
            } else {
                old(self)@
            },
            final(self).entries() == if r is Ok && !old(self)@.dom().contains(keys@) {
                old(self).entries().push((BindingView { keys: keys@, action: action@ }))
            } else {
                old(self).entries()
            },
    {
        proof {
            self.lemma_view();
            self.lemma_bound(keys@);
        }
        if keys.len() == 0 {
            return Err(ConfigError::EmptyKeySequence);
        }
        let mut i: usize = 0;
        while i < self.bindings.len()
            invariant
                i <= self.bindings.len(),
                *self == *old(self),
                self.wf(),
                keys@.len() > 0,
                forall|k: int|
                    0 <= k < i ==> !is_prefix(keys@, #[trigger] keys_at(self.entries(), k))
                        && !is_prefix(keys_at(self.entries(), k), keys@),
            decreases self.bindings.len() - i,
        {
            if keys_equal(&self.bindings[i].keys, &keys) {
                proof {
                    self.lemma_view();
                    assert(keys_at(self.entries(), i as int) == keys@);
                }
                if self.bindings[i].action.same(&action) {
                    proof {
                        assert(self@.insert(keys@, action@) =~= self@);
                    }
                    return Ok(());
                }
                return Err(ConfigError::ConflictingKeySequence);
            }
            if keys_prefix(&keys, &self.bindings[i].keys) || keys_prefix(
                &self.bindings[i].keys,
                &keys,
            ) {
                proof {
                    let k = i as int;
                    self.lemma_view();
                    self.lemma_bound(keys@);
                    assert(is_prefix(keys@, keys_at(self.entries(), k)) || is_prefix(
                        keys_at(self.entries(), k),
                        keys@,
                    ));
                    if self@.dom().contains(keys@) {
                        let j = index_in(self.entries(), keys@);
                        assert(keys_at(self.entries(), j) == keys@);
                        assert(j != k);
                    }
                }
                return Err(ConfigError::AmbiguousKeySequence);
            }
            i += 1;
        }
        let ghost before = self.entries();
        let ghost added = BindingView { keys: keys@, action: action@ };
        self.bindings.push(Binding { keys, action });
        proof {
            let after = self.entries();
            assert(after =~= before.push(added));
            assert forall|k: int| 0 <= k < before.len() implies keys_at(after, k) == keys_at(
                before,
                k,
            ) by {}
            assert(keys_at(after, before.len() as int) == keys@);
            assert(!bound_in(before, keys@)) by {
                if bound_in(before, keys@) {
                    let j = index_in(before, keys@);
                    assert(keys_at(before, j) == keys@);
                    assert(keys@.take(keys@.len() as int) =~= keys@);
                    assert(is_prefix(keys@, keys_at(before, j)));
                }
            }
            assert(prefix_free(after)) by {
                assert forall|a: int, b: int|
                    0 <= a < after.len() && 0 <= b < after.len() && a != b implies !is_prefix(
                    #[trigger] keys_at(after, a),
                    #[trigger] keys_at(after, b),
                ) by {
                    if a < before.len() && b < before.len() {
                        assert(keys_at(after, a) == keys_at(before, a));
                        assert(keys_at(after, b) == keys_at(before, b));
                    } else if a < before.len() {
                        assert(keys_at(after, a) == keys_at(before, a));
                    } else {
                        assert(keys_at(after, b) == keys_at(before, b));
                    }
                }
                assert forall|a: int| 0 <= a < after.len() implies (#[trigger] keys_at(
                    after,
                    a,
                )).len() > 0 by {
                    if a < before.len() {
                        assert(keys_at(after, a) == keys_at(before, a));
                    }
                }
            }
            assert(!clashes_in(before, keys@));
            self.lemma_view();
            assert(self@ =~= old(self)@.insert(keys@, action@)) by {
                assert forall|s: Seq<KeyEvent>| self@.dom().contains(s) <==> old(
                    self,
                )@.insert(keys@, action@).dom().contains(s) by {
                    if bound_in(after, s) {
                        let j = index_in(after, s);
                        assert(keys_at(after, j) == s);
                        if j < before.len() {
                            assert(keys_at(before, j) == s);
                        }
                    }
                    if bound_in(before, s) {
                        let j = index_in(before, s);
                        assert(keys_at(after, j) == s);
                    }
                }
                assert forall|s: Seq<KeyEvent>| self@.dom().contains(s) implies self@[s] == old(
                    self,
                )@.insert(keys@, action@)[s] by {
                    let j = index_in(after, s);
                    assert(keys_at(after, j) == s);
                    if j < before.len() {
                        assert(keys_at(before, j) == s);
                        assert(s != keys@) by {
                            if s == keys@ {
                                assert(bound_in(before, keys@));
                            }
                        }
                        assert(old(self)@[keys_at(before, j)] == before[j].action);
                        assert(self@[keys_at(after, j)] == after[j].action);
                    } else {
                        assert(self@[keys_at(after, j)] == after[j].action);
                    }
                }
            }
        }
        Ok(())
    }
}

impl KeyMap {
    /// Binds `keys` to the action that `name` denotes. A name that denotes
    /// no action is refused.
    pub fn insert_named(&mut self, keys: Vec<KeyEvent>, name: &str) -> (r: Result<(), ConfigError>)
        requires
            old(self).wf(),
        ensures
            final(self).wf(),
            r == match decode(name@) {
                Ok(action) => insert_outcome(old(self)@, keys@, action),
                Err(e) => Err(ConfigError::UnknownAction(e)),
            },
            final(self)@ == match decode(name@) {
                Ok(action) if r is Ok => old(self)@.insert(keys@, action),
                _ => old(self)@,
            },
    {
        match Action::parse(name) {
            Ok(action) => self.insert(keys, action),
            Err(e) => Err(ConfigError::UnknownAction(e)),
        }
    }
}

impl Clone for KeyMap {
    fn clone(&self) -> (r: KeyMap)
        ensures
            r.entries() == self.entries(),
    {
        let mut bindings: Vec<Binding> = Vec::new();
        let mut i: usize = 0;
        while i < self.bindings.len()
            invariant
                i <= self.bindings.len(),
                bindings.len() == i,
                binding_views(bindings@) == binding_views(self.bindings@).take(i as int),
            decreases self.bindings.len() - i,
        {
            let b = self.bindings[i].clone();
            proof {
                let before = binding_views(bindings@);
                let after = binding_views(bindings@.push(b));
                let all = binding_views(self.bindings@);
                assert(after.len() == i + 1);
                assert forall|k: int| 0 <= k < after.len() implies after[k] == all.take(
                    i + 1,
                )[k] by {
                    if k < i {
                        assert(after[k] == before[k]);
                        assert(before[k] == all.take(i as int)[k]);
                    }
                }
                assert(after =~= all.take(i + 1));
            }
            bindings.push(b);
            i += 1;
        }
        proof {
            assert(binding_views(self.bindings@).take(i as int) =~= binding_views(
                self.bindings@,
            ));
        }
        KeyMap { bindings }
    }
}

/// The key bindings of every mode.
#[derive(Debug)]
pub struct KeyBindings {
    main_menu: Option<KeyMap>,
    home: Option<KeyMap>,
}

impl View for KeyBindings {
    type V = Map<Mode, Seq<BindingView>>;

    closed spec fn view(&self) -> Map<Mode, Seq<BindingView>> {
        Map::new(
            |mode: Mode|
                match mode {
                    Mode::MainMenu => self.main_menu is Some,
                    Mode::Home => self.home is Some,
                },
            |mode: Mode|
                match mode {
                    Mode::MainMenu => self.main_menu->0.entries(),
                    Mode::Home => self.home->0.entries(),
                },
        )
    }
}

/// The validity of key bindings as a map: every table is valid.
pub open spec fn bindings_wf(all: Map<Mode, Seq<BindingView>>) -> bool {
    forall|mode: Mode| #[trigger] all.dom().contains(mode) ==> prefix_free(all[mode])
}

/// The action that exactly `keys` is bound to in `mode`.
pub open spec fn lookup_spec(all: Map<Mode, Seq<BindingView>>, mode: Mode, keys: Seq<KeyEvent>)
    -> Option<ActionView> {
    if all.dom().contains(mode) && map_of(all[mode]).dom().contains(keys) {
        Some(map_of(all[mode])[keys])
    } else {
        None
    }
}

impl Clone for KeyBindings {
    fn clone(&self) -> (r: KeyBindings)
        ensures
            r@ == self@,
    {
        let main_menu = match &self.main_menu {
            Some(map) => Some(map.clone()),
            None => None,
        };
        let home = match &self.home {
            Some(map) => Some(map.clone()),
            None => None,
        };
        let r = KeyBindings { main_menu, home };
        proof {
            assert(r@ =~= self@);
        }
        r
    }
}

impl KeyBindings {
    /// The validity of the bindings: every table is valid.
    pub open spec fn wf(&self) -> bool {
        bindings_wf(self@)
    }

    /// Bindings in which no mode has a table.
    pub fn new() -> (all: KeyBindings)
        ensures
            all@ == Map::<Mode, Seq<BindingView>>::empty(),
    {
        let all = KeyBindings { main_menu: None, home: None };
        proof {
            assert(all@ =~= Map::<Mode, Seq<BindingView>>::empty());
        }
        all
    }

    /// Gives `mode` the table `map`, in place of the one it had.
    pub fn set(&mut self, mode: Mode, map: KeyMap)
        ensures
            final(self)@ == old(self)@.insert(mode, map.entries()),
    {
        match mode {
            Mode::MainMenu => {
                self.main_menu = Some(map);
            },
            Mode::Home => {
                self.home = Some(map);
            },
        }
        proof {
            assert(self@ =~= old(self)@.insert(mode, map.entries()));
        }
    }

    /// The table of `mode`, where it has one.
    pub fn get(&self, mode: Mode) -> (found: Option<&KeyMap>)
        ensures
            match found {
                Some(map) => self@.dom().contains(mode) && map.entries() == self@[mode],
                None => !self@.dom().contains(mode),
            },
    {
        match mode {
            Mode::MainMenu => self.main_menu.as_ref(),
            Mode::Home => self.home.as_ref(),
        }
    }

    /// The action that exactly `keys` is bound to in `mode`. A sequence that
    /// only begins a bound sequence, or goes on after one, is bound to
    /// nothing.
    pub fn lookup(&self, mode: Mode, keys: &Vec<KeyEvent>) -> (found: Option<&Action>)
        requires
            self.wf(),
        ensures
            action_ref_view(found) == lookup_spec(self@, mode, keys@),
    {
        match self.get(mode) {
            Some(map) => map.get(keys),
            None => None,
        }
    }
}

/// What the application is configured with.
#[derive(Debug)]
pub struct Config {
    pub keybindings: KeyBindings,
}

impl Clone for Config {
    fn clone(&self) -> (r: Config)
        ensures
            r.keybindings@ == self.keybindings@,
    {
        Config { keybindings: self.keybindings.clone() }
    }
}

impl Default for Config {
    fn default() -> (config: Config)
        ensures
            config.keybindings@ == Map::<Mode, Seq<BindingView>>::empty(),
    {
        Config { keybindings: KeyBindings::new() }
    }
}

impl Config {
    /// A configuration with the given key bindings.
    pub fn new(keybindings: KeyBindings) -> (config: Config)
        ensures
            config.keybindings == keybindings,
    {
        Config { keybindings }
    }
}

} // verus!
