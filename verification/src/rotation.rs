//! Decision policies ("rotations") that pick the player's next action.
//!
//! A rotation is consulted once per tick with a read-only view of the player
//! and the current time, and answers with the action to attempt this tick, or
//! nothing. Every strategy re-checks the player's locks before answering, so
//! a returned action is never locked at decision time; the engine checks once
//! more before forwarding it, for defense in depth.

use vstd::prelude::*;
use crate::action::Action;
use crate::player::Player;
use crate::time::Timestamp;

verus! {

/// Never does anything.
pub struct Empty {}

impl Empty {
    pub fn action(&mut self, player: &Player, now: Timestamp) -> (r: Option<Action>)
        ensures
            r is None,
            *final(self) == *old(self),
    {
        None
    }
}

/// Performs the same sequence of actions over and over, waiting (never
/// skipping ahead) while the action under its cursor is locked.
pub struct Repeat {
    pub actions: Vec<Action>,
    pub current: usize,
}

impl Repeat {
    /// The cursor always stays inside the (non-empty) sequence.
    pub open spec fn wf(self) -> bool {
        self.current < self.actions@.len()
    }

    /// What the strategy answers: the action under the cursor if it is not
    /// locked, else nothing.
    pub open spec fn spec_decide(self, player: Player, now: Timestamp) -> Option<Action> {
        let a = self.actions@[self.current as int];
        if player.spec_locked(a, now) {
            None
        } else {
            Some(a)
        }
    }

    /// The strategy state after one decision: the cursor advances (cyclically)
    /// exactly when the action under it was not locked, and holds otherwise.
    pub open spec fn spec_next(self, player: Player, now: Timestamp) -> Repeat {
        let a = self.actions@[self.current as int];
        if player.spec_locked(a, now) {
            self
        } else {
            Repeat {
                actions: self.actions,
                current: (((self.current as int) + 1) % (self.actions@.len() as int)) as usize,
            }
        }
    }

    pub fn new(actions: Vec<Action>) -> (r: Repeat)
        requires
            actions@.len() > 0,
        ensures
            r.actions@ == actions@,
            r.current == 0,
            r.wf(),
    {
        Repeat { actions, current: 0 }
    }

    pub fn action(&mut self, player: &Player, now: Timestamp) -> (r: Option<Action>)
        requires
            old(self).wf(),
        ensures
            r == old(self).spec_decide(*player, now),
            *final(self) == old(self).spec_next(*player, now),
            final(self).wf(),
    {
        let action = self.actions[self.current];
        if player.locked(action, now) {
            None
        } else {
            let len = self.actions.len();
            self.current = (self.current + 1) % len;
            Some(action)
        }
    }
}

/// Resource-aware strategy: prefers `Hit` while the balance covers its cost,
/// falls back to `Recharge` otherwise, and answers nothing while its choice
/// is locked.
pub struct EagerHit {}

impl EagerHit {
    /// What the strategy answers at the given player state and time.
    pub open spec fn spec_decide(player: Player, now: Timestamp) -> Option<Action> {
        let a = if player.mp >= Action::Hit.spec_mp_cost() {
            Action::Hit
        } else {
            Action::Recharge
        };
        if player.spec_locked(a, now) {
            None
        } else {
            Some(a)
        }
    }

    pub fn action(&mut self, player: &Player, now: Timestamp) -> (r: Option<Action>)
        ensures
            r == EagerHit::spec_decide(*player, now),
            *final(self) == *old(self),
    {
        let action = if player.mp() >= Action::Hit.mp_cost() {
            Action::Hit
        } else {
            Action::Recharge
        };
        if player.locked(action, now) {
            None
        } else {
            Some(action)
        }
    }
}

/// The closed set of decision policies a simulation can be configured with,
/// as a tagged variant over the concrete strategies.
pub enum Rotation {
    Empty(Empty),
    Repeat(Repeat),
    EagerHit(EagerHit),
}

impl Rotation {
    pub open spec fn wf(self) -> bool {
        match self {
            Rotation::Repeat(r) => r.wf(),
            _ => true,
        }
    }

    /// What the configured strategy answers at the given player state and
    /// time.
    pub open spec fn spec_decide(self, player: Player, now: Timestamp) -> Option<Action> {
        match self {
            Rotation::Empty(_) => None,
            Rotation::Repeat(r) => r.spec_decide(player, now),
            Rotation::EagerHit(_) => EagerHit::spec_decide(player, now),
        }
    }

    /// The strategy state after one decision.
    pub open spec fn spec_next(self, player: Player, now: Timestamp) -> Rotation {
        match self {
            Rotation::Repeat(r) => Rotation::Repeat(r.spec_next(player, now)),
            _ => self,
        }
    }

    /// Determines what the player should do next.
    pub fn action(&mut self, player: &Player, now: Timestamp) -> (r: Option<Action>)
        requires
            old(self).wf(),
        ensures
            r == old(self).spec_decide(*player, now),
            *final(self) == old(self).spec_next(*player, now),
            final(self).wf(),
    {
        match self {
            Rotation::Empty(e) => e.action(player, now),
            Rotation::Repeat(r) => r.action(player, now),
            Rotation::EagerHit(e) => e.action(player, now),
        }
    }
}

/// Every strategy re-checks the player's locks: an action a rotation answers
/// with is never locked at the time of the decision.
pub proof fn lemma_decision_never_locked(rot: Rotation, player: Player, now: Timestamp)
    ensures
        rot.spec_decide(player, now) matches Some(a) ==> !player.spec_locked(a, now),
{
}

/// The resource-aware strategy never overspends: on a valid player, any
/// action it answers with is affordable at the time of the decision. (The
/// fixed-sequence strategy gives no such guarantee; it consults only the
/// locks.)
pub proof fn lemma_eager_hit_affordable(player: Player, now: Timestamp)
    requires
        player.wf(),
    ensures
        EagerHit::spec_decide(player, now) matches Some(a) ==> a.spec_mp_cost() <= player.mp,
{
}

} // verus!
