//! The closed catalog of actions the player can use, with their timing and
//! resource-cost constants.

use vstd::prelude::*;
use crate::time::Duration;

verus! {

/// Upper bound on every timing constant in the catalog (cast, recast and
/// animation time), in ticks.
pub const MAX_ACTION_TIME: i32 = 250;

/// Largest amount of resource a single action can restore (the magnitude of
/// the most negative cost in the catalog).
pub const MAX_MP_RESTORE: i64 = 2000;

/// An individual action that the player uses (spell, weaponskill, oGCD, etc.).
#[derive(Clone, Copy, PartialEq, Eq, Structural, Debug)]
pub enum Action {
    Hit,
    Recharge,
}

impl Action {
    /// How long the action takes to cast once begun.
    pub open spec fn spec_cast_time(self) -> Duration {
        match self {
            Action::Hit => Duration(150),
            Action::Recharge => Duration(250),
        }
    }

    /// How long the action locks the main recast timer.
    pub open spec fn spec_recast_time(self) -> Duration {
        Duration(250)
    }

    /// How long the action locks the player in its animation.
    pub open spec fn spec_animation_time(self) -> Duration {
        Duration(50)
    }

    /// Resource cost of the action; a negative cost restores resource.
    pub open spec fn spec_mp_cost(self) -> i64 {
        match self {
            Action::Hit => 1000i64,
            Action::Recharge => -2000i64,
        }
    }

    /// Whether the action bypasses the main recast lock.
    pub open spec fn spec_is_ogcd(self) -> bool {
        false
    }

    pub fn cast_time(self) -> (d: Duration)
        ensures
            d == self.spec_cast_time(),
    {
        match self {
            Action::Hit => Duration(150),
            Action::Recharge => Duration(250),
        }
    }

    pub fn recast_time(self) -> (d: Duration)
        ensures
            d == self.spec_recast_time(),
    {
        Duration(250)
    }

    pub fn animation_time(self) -> (d: Duration)
        ensures
            d == self.spec_animation_time(),
    {
        Duration(50)
    }

    pub fn mp_cost(self) -> (c: i64)
        ensures
            c == self.spec_mp_cost(),
    {
        match self {
            Action::Hit => 1000,
            Action::Recharge => -2000,
        }
    }

    pub fn is_ogcd(self) -> (r: bool)
        ensures
            r == self.spec_is_ogcd(),
    {
        false
    }
}

/// Bounds that every entry of the catalog satisfies: timing constants are
/// non-negative and no larger than `MAX_ACTION_TIME`, no cast outlasts its
/// action's recast lock, no animation lock outlasts the recast lock, and no
/// action restores more than `MAX_MP_RESTORE` resource.
pub proof fn lemma_catalog_bounds(a: Action)
    ensures
        0 <= a.spec_cast_time().0 <= MAX_ACTION_TIME,
        0 <= a.spec_recast_time().0 <= MAX_ACTION_TIME,
        0 <= a.spec_animation_time().0 <= MAX_ACTION_TIME,
        a.spec_cast_time().0 <= a.spec_recast_time().0,
        a.spec_animation_time().0 <= a.spec_recast_time().0,
        a.spec_mp_cost() >= -MAX_MP_RESTORE,
{
}

} // verus!
