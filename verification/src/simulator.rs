//! The simulation engine: owns the clock, the player, the target, the chosen
//! rotation and the event log, and drives one discrete step per call.

use vstd::prelude::*;
use crate::action::Action;
use crate::action::MAX_ACTION_TIME;
use crate::action::MAX_MP_RESTORE;
use crate::player::Player;
use crate::player::INITIAL_MP;
use crate::rotation::Rotation;
use crate::target::Target;
use crate::time::Clock;
use crate::time::Timestamp;

verus! {

/// What can happen in the simulated game: an action was committed to, or a
/// finished cast resolved.
#[derive(Clone, Copy, PartialEq, Eq, Structural, Debug)]
pub enum EventKind {
    Begin(Action),
    Perform(Action),
}

/// An immutable record in the append-only event log: an event kind together
/// with the timestamp at which it was emitted.
#[derive(Clone, Copy, PartialEq, Eq, Structural, Debug)]
pub struct Event {
    pub kind: EventKind,
    pub timestamp: Timestamp,
}

/// A broken invariant in the configured rotation, surfaced to the caller
/// instead of aborting: the rotation answered with an action that was locked,
/// or with one whose cost exceeds the current balance. Distinct from the
/// expected empty outcome of a tick on which nothing happens.
#[derive(Clone, Copy, PartialEq, Eq, Structural, Debug)]
pub enum StepError {
    ActionLocked,
    InsufficientMp,
}

/// Performs an entire simulated rotation on a target. Everything on top of
/// this is I/O-type plumbing: reading configuration, setting up logging, and
/// the like.
pub struct Simulator {
    pub player: Player,
    pub target: Target,
    pub clock: Clock,
    pub rotation: Rotation,
    pub event_log: Vec<Event>,
}

/// The player state after one step taken at time `now`: any completed cast is
/// resolved first, and then, if the (possibly just-updated) player may
/// legally begin what the rotation chose, that action is begun.
pub open spec fn step_player(player: Player, rotation: Rotation, now: Timestamp) -> Player {
    let resolved = player.spec_perform(now);
    match rotation.spec_decide(resolved, now) {
        None => resolved,
        Some(a) => {
            if !resolved.spec_locked(a, now) && a.spec_mp_cost() <= resolved.mp {
                resolved.spec_begin(a, now)
            } else {
                resolved
            }
        },
    }
}

/// The rotation state after one step taken at time `now`.
pub open spec fn step_rotation(player: Player, rotation: Rotation, now: Timestamp) -> Rotation {
    rotation.spec_next(player.spec_perform(now), now)
}

/// What one step taken at time `now` reports: `Ok` on an ordinary tick, and
/// an error exactly when the rotation answered with an action the player
/// could not legally begin.
pub open spec fn step_result(
    player: Player,
    rotation: Rotation,
    now: Timestamp,
) -> Result<(), StepError> {
    let resolved = player.spec_perform(now);
    match rotation.spec_decide(resolved, now) {
        None => Ok(()),
        Some(a) => {
            if resolved.spec_locked(a, now) {
                Err(StepError::ActionLocked)
            } else if a.spec_mp_cost() > resolved.mp {
                Err(StepError::InsufficientMp)
            } else {
                Ok(())
            }
        },
    }
}

/// The event log after one step taken at time `now`: a "performed" record if
/// a cast resolved, then a "begun" record if an action was begun, both
/// stamped with `now`, appended in that order.
pub open spec fn step_log(
    player: Player,
    rotation: Rotation,
    now: Timestamp,
    log: Seq<Event>,
) -> Seq<Event> {
    let after_perform = match player.spec_performed(now) {
        None => log,
        Some(a) => log.push(Event { kind: EventKind::Perform(a), timestamp: now }),
    };
    let resolved = player.spec_perform(now);
    match rotation.spec_decide(resolved, now) {
        Some(a) => {
            if !resolved.spec_locked(a, now) && a.spec_mp_cost() <= resolved.mp {
                after_perform.push(Event { kind: EventKind::Begin(a), timestamp: now })
            } else {
                after_perform
            }
        },
        None => after_perform,
    }
}

/// The state a run reaches from the given starting state: the step relation
/// iterated once per tick, from `now` until the clock reaches `horizon` or a
/// step reports a violation, whichever comes first. Yields the final player,
/// rotation, clock time and event log, and what the run reports. (A clock at
/// the very end of its range cannot tick any further, so iteration stops
/// there too; a run's own precondition keeps real horizons well below that.)
pub open spec fn spec_run(
    player: Player,
    rotation: Rotation,
    now: Timestamp,
    log: Seq<Event>,
    horizon: int,
) -> (Player, Rotation, Timestamp, Seq<Event>, Result<(), StepError>)
    decreases horizon - now.0,
{
    if now.0 >= horizon || now.0 == i32::MAX {
        (player, rotation, now, log, Ok(()))
    } else {
        let p = step_player(player, rotation, now);
        let rot = step_rotation(player, rotation, now);
        let l = step_log(player, rotation, now, log);
        let next = Timestamp((now.0 + 1) as i32);
        match step_result(player, rotation, now) {
            Err(e) => (p, rot, next, l, Err(e)),
            Ok(_) => spec_run(p, rot, next, l, horizon),
        }
    }
}

impl Simulator {
    /// Validity of a simulator state: the player and rotation are valid, time
    /// never runs backwards from the start, the balance cannot have grown by
    /// more than the largest single refund per elapsed tick, and the event
    /// log is ordered by timestamp with no entry later than the clock.
    pub open spec fn wf(self) -> bool {
        &&& self.player.wf()
        &&& self.rotation.wf()
        &&& 0 <= self.clock.0.0
        &&& self.player.mp <= INITIAL_MP + MAX_MP_RESTORE * self.clock.0.0
        &&& forall|i: int|
            0 <= i < self.event_log@.len()
                ==> (#[trigger] self.event_log@[i]).timestamp.0 <= self.clock.0.0
        &&& forall|i: int, j: int|
            #![trigger self.event_log@[i], self.event_log@[j]]
            0 <= i <= j < self.event_log@.len()
                ==> self.event_log@[i].timestamp.0 <= self.event_log@[j].timestamp.0
    }

    pub fn new(rotation: Rotation) -> (s: Simulator)
        requires
            rotation.wf(),
        ensures
            s.player == Player::spec_init(),
            s.clock.0 == (Timestamp(0)),
            s.rotation == rotation,
            s.event_log@.len() == 0,
            s.wf(),
    {
        Simulator {
            player: Player::new(),
            target: Target {},
            clock: Clock::new(),
            rotation,
            event_log: Vec::new(),
        }
    }

    /// Simulates a single time step. In order, this resolves any action that
    /// finished casting, asks the rotation for a decision and begins the
    /// chosen action if the player legally can, then ticks the clock by
    /// exactly one unit. Resolving before deciding lets a rotation react,
    /// within the same tick, to locks and resources just freed by a cast
    /// completing at this exact timestamp.
    pub fn step(&mut self) -> (r: Result<(), StepError>)
        requires
            old(self).wf(),
            old(self).clock.0.0 + MAX_ACTION_TIME <= i32::MAX,
        ensures
            final(self).wf(),
            r == step_result(old(self).player, old(self).rotation, old(self).clock.0),
            final(self).player == step_player(old(self).player, old(self).rotation, old(self).clock.0),
            final(self).rotation == step_rotation(
                old(self).player,
                old(self).rotation,
                old(self).clock.0,
            ),
            final(self).event_log@ == step_log(
                old(self).player,
                old(self).rotation,
                old(self).clock.0,
                old(self).event_log@,
            ),
            final(self).clock.0.0 == old(self).clock.0.0 + 1,
            final(self).target == old(self).target,
    {
        let now = self.clock.now();
        proof {
            if self.player.casting is Some {
                crate::action::lemma_catalog_bounds(self.player.casting->0.action);
            }
        }
        if let Some(action) = self.player.perform(now) {
            self.log_event(EventKind::Perform(action));
        }
        let mut result: Result<(), StepError> = Ok(());
        if let Some(action) = self.rotation.action(&self.player, now) {
            proof {
                crate::action::lemma_catalog_bounds(action);
            }
            if self.player.locked(action, now) {
                result = Err(StepError::ActionLocked);
            } else if action.mp_cost() > self.player.mp() {
                result = Err(StepError::InsufficientMp);
            } else {
                self.player.begin(action, now);
                self.log_event(EventKind::Begin(action));
            }
        }
        self.clock.tick();
        result
    }

    /// Append an event of the given kind, stamped with the current time.
    fn log_event(&mut self, kind: EventKind)
        ensures
            final(self).event_log@ == old(self).event_log@.push(
                Event { kind, timestamp: old(self).clock.0 },
            ),
            final(self).player == old(self).player,
            final(self).clock == old(self).clock,
            final(self).rotation == old(self).rotation,
            final(self).target == old(self).target,
    {
        let timestamp = self.now();
        self.event_log.push(Event { kind, timestamp });
    }

    /// The ordered event log of the run so far. Read-only: entries are never
    /// mutated or removed once appended.
    pub fn event_log(&self) -> (r: &Vec<Event>)
        ensures
            r@ == self.event_log@,
    {
        &self.event_log
    }

    /// The current simulation time.
    pub fn now(&self) -> (t: Timestamp)
        ensures
            t == self.clock.0,
    {
        self.clock.now()
    }

    /// Repeatedly steps the simulation until the clock reaches `horizon`, or
    /// until a step reports a broken rotation invariant, whichever comes
    /// first. On an ordinary run the final timestamp is exactly the horizon.
    ///
    /// The event log only ever grows: everything logged before the run is
    /// still there, in its place, afterwards. With the no-op strategy the run
    /// succeeds for any horizon, the event log gains nothing, and the player
    /// is left exactly as it was.
    pub fn run(&mut self, horizon: i32) -> (r: Result<(), StepError>)
        requires
            old(self).wf(),
            horizon + MAX_ACTION_TIME <= i32::MAX,
        ensures
            final(self).wf(),
            final(self).target == old(self).target,
            old(self).clock.0.0 <= final(self).clock.0.0,
            old(self).event_log@.is_prefix_of(final(self).event_log@),
            old(self).clock.0.0 >= horizon ==> *final(self) == *old(self),
            r is Ok && old(self).clock.0.0 <= horizon ==> final(self).clock.0.0 == horizon,
            old(self).clock.0.0 <= horizon ==> final(self).clock.0.0 <= horizon,
            ({
                let (p, rot, t, log, outcome) = spec_run(
                    old(self).player,
                    old(self).rotation,
                    old(self).clock.0,
                    old(self).event_log@,
                    horizon as int,
                );
                &&& final(self).player == p
                &&& final(self).rotation == rot
                &&& final(self).clock.0 == t
                &&& final(self).event_log@ == log
                &&& r == outcome
            }),
            (old(self).rotation matches Rotation::Empty(_) && old(self).player.casting is None)
                ==> (r is Ok && final(self).event_log@ == old(self).event_log@
                    && final(self).player == old(self).player
                    && final(self).rotation == old(self).rotation),
    {
        while self.clock.now().0 < horizon
            invariant
                self.wf(),
                horizon + MAX_ACTION_TIME <= i32::MAX,
                old(self).clock.0.0 <= self.clock.0.0,
                old(self).clock.0.0 < horizon ==> self.clock.0.0 <= horizon,
                old(self).clock.0.0 >= horizon ==> *self == *old(self),
                self.target == old(self).target,
                old(self).event_log@.is_prefix_of(self.event_log@),
                spec_run(self.player, self.rotation, self.clock.0, self.event_log@, horizon as int)
                    == spec_run(
                    old(self).player,
                    old(self).rotation,
                    old(self).clock.0,
                    old(self).event_log@,
                    horizon as int,
                ),
                (old(self).rotation matches Rotation::Empty(_)
                    && old(self).player.casting is None)
                    ==> (self.event_log@ == old(self).event_log@
                        && self.player == old(self).player
                        && self.rotation == old(self).rotation),
            decreases horizon - self.clock.0.0,
        {
            let ghost pre = *self;
            let outcome = self.step();
            proof {
                assert(pre.event_log@.is_prefix_of(self.event_log@)) by {
                    assert(pre.event_log@ =~= self.event_log@.subrange(
                        0,
                        pre.event_log@.len() as int,
                    ));
                }
                assert(old(self).event_log@.is_prefix_of(self.event_log@)) by {
                    assert(old(self).event_log@ =~= self.event_log@.subrange(
                        0,
                        old(self).event_log@.len() as int,
                    ));
                }
            }
            match outcome {
                Ok(_) => {},
                Err(e) => {
                    return Err(e);
                },
            }
        }
        Ok(())
    }
}

} // verus!
