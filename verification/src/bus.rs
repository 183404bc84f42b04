//! The action bus: the queue between those who emit actions and the dispatch
//! loop, which alone takes them out, oldest first.

use crate::actions::{Action, ActionView};
use std::collections::VecDeque;
use vstd::prelude::*;

verus! {

/// The actions as mathematical values.
pub open spec fn action_views(actions: Seq<Action>) -> Seq<ActionView> {
    actions.map_values(|a: Action| a@)
}

/// The handle through which one producer emits actions. What it was given
/// waits in it, in the order of sending, until the dispatch loop collects it.
#[derive(Debug)]
pub struct ActionSender {
    sent: Vec<Action>,
}

impl View for ActionSender {
    type V = Seq<ActionView>;

    closed spec fn view(&self) -> Seq<ActionView> {
        action_views(self.sent@)
    }
}

impl ActionSender {
    /// A handle in which nothing waits.
    pub fn new() -> (tx: ActionSender)
        ensures
            tx@ == Seq::<ActionView>::empty(),
    {
        let tx = ActionSender { sent: Vec::new() };
        proof {
            assert(tx@ =~= Seq::<ActionView>::empty());
        }
        tx
    }

    /// Emits `action`.
    pub fn send(&mut self, action: Action)
        ensures
            final(self)@ == old(self)@.push(action@),
    {
        self.sent.push(action);
        proof {
            assert(self@ =~= old(self)@.push(action@));
        }
    }

    /// Hands out what waits, oldest first, and keeps nothing.
    pub fn take(&mut self) -> (actions: Vec<Action>)
        ensures
            action_views(actions@) == old(self)@,
            final(self)@ == Seq::<ActionView>::empty(),
    {
        let mut actions: Vec<Action> = Vec::new();
        actions.append(&mut self.sent);
        proof {
            assert(actions@ =~= old(self).sent@);
            assert(self@ =~= Seq::<ActionView>::empty());
        }
        actions
    }
}

/// The queue of actions that wait for dispatch, oldest first.
#[derive(Debug)]
pub struct ActionBus {
    queue: VecDeque<Action>,
}

impl View for ActionBus {
    type V = Seq<ActionView>;

    closed spec fn view(&self) -> Seq<ActionView> {
        action_views(self.queue@)
    }
}

impl ActionBus {
    /// An empty bus.
    pub fn new() -> (bus: ActionBus)
        ensures
            bus@ == Seq::<ActionView>::empty(),
    {
        let bus = ActionBus { queue: VecDeque::new() };
        proof {
            assert(bus@ =~= Seq::<ActionView>::empty());
        }
        bus
    }

    /// The number of actions that wait.
    pub fn len(&self) -> (n: usize)
        ensures
            n == self@.len(),
    {
        self.queue.len()
    }

    /// Whether no action waits.
    pub fn is_empty(&self) -> (b: bool)
        ensures
            b == (self@.len() == 0),
    {
        self.queue.len() == 0
    }

    /// Puts `action` behind the actions that wait.
    pub fn send(&mut self, action: Action)
        ensures
            final(self)@ == old(self)@.push(action@),
    {
        self.queue.push_back(action);
        proof {
            assert(self@ =~= old(self)@.push(action@));
        }
    }

    /// Puts `actions`, in their order, behind the actions that wait.
    pub fn send_all(&mut self, actions: Vec<Action>)
        ensures
            final(self)@ == old(self)@ + action_views(actions@),
    {
        let mut rest = actions;
        let ghost all = action_views(actions@);
        proof {
            assert(self@ + all =~= old(self)@ + all);
        }
        while rest.len() > 0
            invariant
                self@ + action_views(rest@) == old(self)@ + all,
            decreases rest.len(),
        {
            let ghost before = self@;
            let ghost waiting = action_views(rest@);
            let action = rest.remove(0);
            self.queue.push_back(action);
            proof {
                assert(self@ =~= before.push(action@));
                assert(action_views(rest@) =~= waiting.drop_first());
                assert(action@ == waiting[0]);
                assert(self@ + action_views(rest@) =~= before + waiting);
            }
        }
        proof {
            assert(self@ + action_views(rest@) =~= self@);
        }
    }

    /// Takes out the oldest action, if any waits. It never blocks.
    pub fn try_recv(&mut self) -> (received: Option<Action>)
        ensures
            match received {
                Some(action) => old(self)@.len() > 0 && action@ == old(self)@[0] && final(self)@
                    == old(self)@.drop_first(),
                None => old(self)@.len() == 0 && final(self)@ == old(self)@,
            },
    {
        let received = self.queue.pop_front();
        proof {
            if received is Some {
                assert(self@ =~= old(self)@.drop_first());
            }
        }
        received
    }
}

} // verus!
