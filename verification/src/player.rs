//! The player state machine: resource balance, lock timers, and the
//! in-flight cast.

use vstd::prelude::*;
use crate::action::Action;
use crate::time::Timestamp;

verus! {

/// Resource balance a player starts a run with.
pub const INITIAL_MP: i64 = 10000;

/// An action committed-to but not yet resolved.
#[derive(Clone, Copy, PartialEq, Eq, Structural, Debug)]
pub struct Cast {
    /// When we'll have finished casting.
    pub finish: Timestamp,
    /// Whatever we're currently casting.
    pub action: Action,
}

/// Whether a lock expiring at the given timestamp (if set) permits action at
/// `now`. The boundary is inclusive: a lock expiring at `t` permits action at
/// exactly `t`.
pub open spec fn lock_expired(lock: Option<Timestamp>, now: Timestamp) -> bool {
    match lock {
        None => true,
        Some(t) => t.0 <= now.0,
    }
}

/// The player owns its resource balance, two lock timers, and at most one
/// in-flight cast. It is mutated only through `begin` and `perform`; queries
/// never change it.
///
/// The expected calling pattern per tick is `perform(now)`, then
/// `begin(action, now)` if some action should start, then advancing the clock.
#[derive(Clone, Debug)]
pub struct Player {
    /// Current resource balance. Never negative: spending more than the
    /// balance is a contract violation, not a silent clamp.
    pub mp: i64,
    /// When the player may execute their next main-sequence (GCD) action.
    /// `None` means unlocked. Off-GCD actions ignore this lock.
    pub recast_lock: Option<Timestamp>,
    /// When the player finishes their current animation. While set and not
    /// yet expired, the player can do *nothing*.
    pub animation_lock: Option<Timestamp>,
    /// The action the player is currently casting, if any.
    pub casting: Option<Cast>,
}

impl Player {
    /// A freshly created player: full resource, no locks, nothing casting.
    pub open spec fn spec_init() -> Player {
        Player { mp: INITIAL_MP, recast_lock: None, animation_lock: None, casting: None }
    }

    /// Validity of a player state: the balance is non-negative, and any
    /// in-flight cast was affordable when it was begun (the balance cannot
    /// have dropped since, so it still is).
    pub open spec fn wf(self) -> bool {
        &&& self.mp >= 0
        &&& (self.casting matches Some(c) ==> c.action.spec_mp_cost() <= self.mp)
    }

    /// Whether the lock timers prevent using `action` at time `now`: the
    /// animation lock must have expired, and, unless the action is off-GCD,
    /// the recast lock must have expired too.
    pub open spec fn spec_locked(self, action: Action, now: Timestamp) -> bool {
        !((lock_expired(self.recast_lock, now) || action.spec_is_ogcd())
            && lock_expired(self.animation_lock, now))
    }

    /// The player state after committing to `action` at time `now`: both
    /// locks are set (the recast lock unconditionally, even for off-GCD
    /// actions) and a cast completing at `now + cast_time` is in flight. The
    /// balance is untouched; the cost is paid at resolution.
    pub open spec fn spec_begin(self, action: Action, now: Timestamp) -> Player {
        Player {
            mp: self.mp,
            recast_lock: Some(now.spec_plus(action.spec_recast_time())),
            animation_lock: Some(now.spec_plus(action.spec_animation_time())),
            casting: Some(Cast { finish: now.spec_plus(action.spec_cast_time()), action }),
        }
    }

    /// Whether the in-flight cast, if any, has completed by `now`
    /// (inclusive boundary: a cast finishing at `t` resolves at exactly `t`).
    pub open spec fn spec_resolves(self, now: Timestamp) -> bool {
        self.casting matches Some(c) && c.finish.0 <= now.0
    }

    /// The player state after `perform` at time `now`: if a cast has
    /// completed, it is cleared and its cost deducted; otherwise nothing
    /// changes.
    pub open spec fn spec_perform(self, now: Timestamp) -> Player {
        if self.spec_resolves(now) {
            Player {
                mp: (self.mp - self.casting->0.action.spec_mp_cost()) as i64,
                recast_lock: self.recast_lock,
                animation_lock: self.animation_lock,
                casting: None,
            }
        } else {
            self
        }
    }

    /// What `perform` reports at time `now`: the resolved action, if any.
    pub open spec fn spec_performed(self, now: Timestamp) -> Option<Action> {
        if self.spec_resolves(now) {
            Some(self.casting->0.action)
        } else {
            None
        }
    }

    pub fn new() -> (p: Player)
        ensures
            p == Player::spec_init(),
            p.wf(),
    {
        Player { mp: INITIAL_MP, recast_lock: None, animation_lock: None, casting: None }
    }

    /// Whether cast/recast/animation locks prevent using the given action at
    /// time `now`.
    pub fn locked(&self, action: Action, now: Timestamp) -> (r: bool)
        ensures
            r == self.spec_locked(action, now),
    {
        let recast_ok = match self.recast_lock {
            None => true,
            Some(t) => t.0 <= now.0,
        };
        let animation_ok = match self.animation_lock {
            None => true,
            Some(t) => t.0 <= now.0,
        };
        let unlocked = (recast_ok || action.is_ogcd()) && animation_ok;
        !unlocked
    }

    /// Commit to `action` at time `now`. The action must not be locked and
    /// must be affordable; violating either is a contract violation, not a
    /// recoverable condition.
    pub fn begin(&mut self, action: Action, now: Timestamp)
        requires
            old(self).wf(),
            !old(self).spec_locked(action, now),
            action.spec_mp_cost() <= old(self).mp,
            now.0 + action.spec_recast_time().0 <= i32::MAX,
            now.0 + action.spec_animation_time().0 <= i32::MAX,
            now.0 + action.spec_cast_time().0 <= i32::MAX,
        ensures
            *final(self) == old(self).spec_begin(action, now),
            final(self).wf(),
    {
        proof {
            crate::action::lemma_catalog_bounds(action);
        }
        self.recast_lock = Some(now + action.recast_time());
        self.animation_lock = Some(now + action.animation_time());
        self.casting = Some(Cast { finish: now + action.cast_time(), action });
    }

    /// Resolve the in-flight cast if its completion time has been reached by
    /// `now`: clear it, deduct its cost from the balance, and return the
    /// action performed. Otherwise return `None` and change nothing.
    ///
    /// The balance stays untouched on every call strictly before the cast's
    /// completion timestamp and drops by exactly the action's cost on the
    /// call that resolves it.
    pub fn perform(&mut self, now: Timestamp) -> (r: Option<Action>)
        requires
            old(self).wf(),
            old(self).mp + crate::action::MAX_MP_RESTORE <= i64::MAX,
        ensures
            *final(self) == old(self).spec_perform(now),
            r == old(self).spec_performed(now),
            final(self).wf(),
            final(self).casting is Some ==> *final(self) == *old(self),
    {
        match self.casting {
            Some(casting) => {
                if casting.finish.0 <= now.0 {
                    proof {
                        crate::action::lemma_catalog_bounds(casting.action);
                    }
                    self.casting = None;
                    self.perform_action(casting.action);
                    Some(casting.action)
                } else {
                    None
                }
            },
            None => None,
        }
    }

    /// Pay for a resolved action: deduct its cost from the balance.
    fn perform_action(&mut self, action: Action)
        requires
            action.spec_mp_cost() <= old(self).mp,
            old(self).mp - action.spec_mp_cost() <= i64::MAX,
        ensures
            final(self).mp == old(self).mp - action.spec_mp_cost(),
            final(self).recast_lock == old(self).recast_lock,
            final(self).animation_lock == old(self).animation_lock,
            final(self).casting == old(self).casting,
    {
        self.mp = self.mp - action.mp_cost();
    }

    /// Current resource balance.
    pub fn mp(&self) -> (r: i64)
        ensures
            r == self.mp,
    {
        self.mp
    }
}

/// A freshly created player is not locked for any action at any time.
pub proof fn lemma_fresh_player_unlocked(action: Action, now: Timestamp)
    ensures
        !Player::spec_init().spec_locked(action, now),
{
}

/// After `begin(action)` at time `now`, the player is locked for that action
/// immediately, and for every tick before `now + recast_time(action)`; it is
/// unlocked for it again exactly once `recast_time(action)` whole ticks have
/// elapsed (inclusive boundary), provided no further action intervenes.
pub proof fn lemma_begin_locks_until_recast(p: Player, action: Action, now: Timestamp)
    requires
        !action.spec_is_ogcd(),
        action.spec_recast_time().0 > 0,
        now.0 + action.spec_recast_time().0 <= i32::MAX,
    ensures
        p.spec_begin(action, now).spec_locked(action, now),
        forall|t: Timestamp|
            p.spec_begin(action, now).spec_locked(action, t)
                <==> t.0 < now.0 + action.spec_recast_time().0,
{
    crate::action::lemma_catalog_bounds(action);
}

/// Over the whole lifetime of a cast begun legally at `now`, the resource
/// balance is untouched at every time strictly before the cast's completion
/// timestamp (resolving there changes nothing at all), and drops by exactly
/// the action's cost when resolved at or after it.
pub proof fn lemma_balance_changes_only_at_completion(
    p: Player,
    action: Action,
    now: Timestamp,
    t: Timestamp,
)
    requires
        action.spec_mp_cost() <= p.mp,
        p.mp + crate::action::MAX_MP_RESTORE <= i64::MAX,
        now.0 + action.spec_cast_time().0 <= i32::MAX,
    ensures
        ({
            let begun = p.spec_begin(action, now);
            let finish = now.spec_plus(action.spec_cast_time());
            &&& begun.mp == p.mp
            &&& (t.0 < finish.0 ==> begun.spec_perform(t) == begun)
            &&& (t.0 >= finish.0 ==> begun.spec_perform(t).mp == p.mp - action.spec_mp_cost())
        }),
{
    crate::action::lemma_catalog_bounds(action);
}

/// An action whose cast time equals its recast time can be begun again on the
/// very same tick its cast completes: resolving at `now + cast_time` reports
/// the action and leaves the player unlocked for it, with no idle tick
/// between back-to-back casts.
pub proof fn lemma_back_to_back_recast(p: Player, action: Action, now: Timestamp)
    requires
        action.spec_cast_time() == action.spec_recast_time(),
        now.0 + action.spec_recast_time().0 <= i32::MAX,
    ensures
        ({
            let finish = now.spec_plus(action.spec_cast_time());
            let begun = p.spec_begin(action, now);
            &&& begun.spec_performed(finish) == Some(action)
            &&& !begun.spec_perform(finish).spec_locked(action, finish)
        }),
{
    crate::action::lemma_catalog_bounds(action);
}

} // verus!
