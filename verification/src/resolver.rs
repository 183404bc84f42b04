//! The keybinding resolver: it gathers key presses and turns them into
//! actions.
//!
//! A key press is appended to the keys that wait. If the keys that wait are
//! bound, their action is emitted and nothing waits any more. If they begin a
//! bound sequence, they go on waiting. Otherwise the oldest of them is
//! dropped and what is left is tried in the same way, down to nothing. A
//! tick drops every waiting key.

use crate::actions::{action_view, Action, ActionView};
use crate::config::{begins_bound, prefix_free_map, KeyMap};
use crate::keys::{is_prefix, KeyEvent};
use vstd::prelude::*;

verus! {

/// Where the resolver stands.
#[derive(Debug, PartialEq, Eq)]
pub enum ResolverState {
    /// No key waits.
    Idle,
    /// These keys wait for the rest of a sequence.
    Pending(Vec<KeyEvent>),
}

/// The resolver: the keys that wait, oldest first.
#[derive(Debug)]
pub struct Resolver {
    pending: Vec<KeyEvent>,
}

impl View for Resolver {
    type V = Seq<KeyEvent>;

    closed spec fn view(&self) -> Seq<KeyEvent> {
        self.pending@
    }
}

/// What becomes of the waiting keys `buffer`: the keys that go on waiting,
/// and the action that is emitted, if any.
pub open spec fn settle(table: Map<Seq<KeyEvent>, ActionView>, buffer: Seq<KeyEvent>) -> (
    Seq<KeyEvent>,
    Option<ActionView>,
)
    decreases buffer.len(),
{
    if buffer.len() == 0 {
        (Seq::empty(), None)
    } else if table.dom().contains(buffer) {
        (Seq::empty(), Some(table[buffer]))
    } else if begins_bound(table, buffer) {
        (buffer, None)
    } else {
        settle(table, buffer.drop_first())
    }
}

/// What one key press does while `buffer` waits.
pub open spec fn press_spec(
    table: Map<Seq<KeyEvent>, ActionView>,
    buffer: Seq<KeyEvent>,
    key: KeyEvent,
) -> (Seq<KeyEvent>, Option<ActionView>) {
    settle(table, buffer.push(key))
}

/// What the presses of `keys`, one after the other with no tick between
/// them, do while `buffer` waits: the keys that wait in the end, and the
/// actions that are emitted, in order.
pub open spec fn feed(
    table: Map<Seq<KeyEvent>, ActionView>,
    buffer: Seq<KeyEvent>,
    keys: Seq<KeyEvent>,
) -> (Seq<KeyEvent>, Seq<ActionView>)
    decreases keys.len(),
{
    if keys.len() == 0 {
        (buffer, Seq::empty())
    } else {
        let first = press_spec(table, buffer, keys[0]);
        let rest = feed(table, first.0, keys.drop_first());
        match first.1 {
            Some(action) => (rest.0, seq![action] + rest.1),
            None => rest,
        }
    }
}

impl Resolver {
    /// A resolver with no key waiting.
    pub fn new() -> (r: Resolver)
        ensures
            r@ == Seq::<KeyEvent>::empty(),
    {
        Resolver { pending: Vec::new() }
    }

    /// Whether no key waits.
    pub fn is_idle(&self) -> (b: bool)
        ensures
            b == (self@.len() == 0),
    {
        self.pending.len() == 0
    }

    /// The keys that wait, oldest first.
    pub fn pending(&self) -> (keys: &Vec<KeyEvent>)
        ensures
            keys@ == self@,
    {
        &self.pending
    }

    /// Where the resolver stands.
    pub fn state(&self) -> (s: ResolverState)
        ensures
            match s {
                ResolverState::Idle => self@.len() == 0,
                ResolverState::Pending(keys) => self@.len() > 0 && keys@ == self@,
            },
    {
        if self.pending.len() == 0 {
            ResolverState::Idle
        } else {
            ResolverState::Pending(self.pending.clone())
        }
    }

    /// A tick: every waiting key is dropped.
    pub fn tick(&mut self)
        ensures
            final(self)@ == Seq::<KeyEvent>::empty(),
    {
        self.pending.clear();
    }

    /// The press of `key`, resolved against `table`.
    pub fn press(&mut self, table: &KeyMap, key: KeyEvent) -> (emitted: Option<Action>)
        requires
            table.wf(),
        ensures
            (final(self)@, action_view(emitted)) == press_spec(table@, old(self)@, key),
    {
        self.pending.push(key);
        while self.pending.len() > 0
            invariant
                table.wf(),
                settle(table@, self.pending@) == press_spec(table@, old(self)@, key),
            decreases self.pending.len(),
        {
            match table.get(&self.pending) {
                Some(action) => {
                    let emitted = action.clone();
                    self.pending.clear();
                    return Some(emitted);
                },
                None => {},
            }
            if table.begins_some(&self.pending) {
                return None;
            }
            proof {
                assert(self.pending@.remove(0) =~= self.pending@.drop_first());
            }
            self.pending.remove(0);
        }
        None
    }
}

proof fn lemma_feed_prefix(table: Map<Seq<KeyEvent>, ActionView>, keys: Seq<KeyEvent>, k: int)
    requires
        prefix_free_map(table),
        table.dom().contains(keys),
        0 <= k < keys.len(),
    ensures
        feed(table, keys.take(k), keys.skip(k)) == (Seq::<KeyEvent>::empty(), seq![table[keys]]),
    decreases keys.len() - k,
{
    let waiting = keys.take(k).push(keys[k]);
    assert(waiting =~= keys.take(k + 1));
    assert(keys.skip(k)[0] == keys[k]);
    assert(keys.skip(k).drop_first() =~= keys.skip(k + 1));
    if k + 1 == keys.len() {
        assert(waiting =~= keys);
        assert(feed(table, Seq::<KeyEvent>::empty(), keys.skip(k + 1)) == (
            Seq::<KeyEvent>::empty(),
            Seq::<ActionView>::empty(),
        ));
        assert(seq![table[keys]] + Seq::<ActionView>::empty() =~= seq![table[keys]]);
    } else {
        assert(keys.take(waiting.len() as int) =~= waiting);
        assert(is_prefix(waiting, keys));
        assert(waiting != keys);
        assert(!table.dom().contains(waiting));
        assert(begins_bound(table, waiting));
        lemma_feed_prefix(table, keys, k + 1);
    }
}

/// Typing a bound key sequence, with nothing waiting before it and no tick
/// within it, emits the action that it is bound to, that action alone and
/// with the last key, and leaves nothing waiting.
pub proof fn lemma_bound_sequence_resolves(table: KeyMap, keys: Seq<KeyEvent>)
    requires
        table.wf(),
        table@.dom().contains(keys),
    ensures
        feed(table@, Seq::empty(), keys) == (Seq::<KeyEvent>::empty(), seq![table@[keys]]),
{
    table.lemma_bound(keys);
    assert(keys.take(0) =~= Seq::<KeyEvent>::empty());
    assert(keys.skip(0) =~= keys);
    lemma_feed_prefix(table@, keys, 0);
}

} // verus!
