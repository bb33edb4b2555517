//! The player's ship: health, score and the rule for when it may fire.

use crate::entity::{Entity, OwnedEntity};
use vstd::prelude::*;

verus! {

/// Health of a new ship.
pub const START_HEALTH: i32 = 500;

/// Time that must pass between two shots, in milliseconds.
pub const SHIP_SHOOT_DELAY_MS: i32 = 150;

/// How far a stick must be pushed from its centre before the ship moves.
pub const STICK_DEAD_ZONE: i32 = 32;

/// The ship with the entity that stands for it.
pub struct Player {
    entity: OwnedEntity,
    last_shoot_time: i32,
    health: i32,
    score: i32,
}

/// A player as plain values.
pub struct PlayerView {
    pub entity: Entity,
    pub last_shoot_time: int,
    pub health: int,
    pub score: int,
}

/// What the ship does in one frame: the direction it steers in on each
/// axis (-1, 0 or 1; up on the screen is -1) and whether it fires.
#[derive(Clone, Copy, Debug, PartialEq, Eq, Structural)]
pub struct Steering {
    pub x: i8,
    pub y: i8,
    pub shoot: bool,
}

/// The direction on the horizontal axis for a stick position.
pub open spec fn steer_x(stick: int) -> int {
    if stick > STICK_DEAD_ZONE {
        1
    } else if stick < -STICK_DEAD_ZONE {
        -1
    } else {
        0
    }
}

/// The direction on the vertical axis for a stick position: pushing the
/// stick up moves the ship towards the top of the screen.
pub open spec fn steer_y(stick: int) -> int {
    -steer_x(stick)
}

/// Whether a ship that last fired at `last` may fire at `now`, both in
/// microseconds.
pub open spec fn may_shoot(last: int, now: int) -> bool {
    now - last > SHIP_SHOOT_DELAY_MS * 1000
}

impl View for Player {
    type V = PlayerView;

    closed spec fn view(&self) -> PlayerView {
        PlayerView {
            entity: self.entity@,
            last_shoot_time: self.last_shoot_time as int,
            health: self.health as int,
            score: self.score as int,
        }
    }
}

impl Player {
    /// A ship with full health and no score, owning `entity`.
    pub fn new(entity: OwnedEntity) -> (player: Player)
        ensures
            player@ == (PlayerView {
                entity: entity@,
                last_shoot_time: 0,
                health: START_HEALTH as int,
                score: 0,
            }),
    {
        Player { entity, last_shoot_time: 0, health: START_HEALTH, score: 0 }
    }

    /// The entity that stands for the ship in the component stores.
    pub fn entity(&self) -> (e: Entity)
        ensures
            e == self@.entity,
    {
        self.entity.entity()
    }

    /// Gives the entity's handle back, for its destruction.
    pub fn into_entity(self) -> (owned: OwnedEntity)
        ensures
            owned@ == self@.entity,
    {
        self.entity
    }

    /// Takes `damage` off the health, which never falls below zero.
    pub fn damage(&mut self, damage: i32)
        requires
            i32::MIN <= old(self)@.health - damage <= i32::MAX,
        ensures
            final(self)@ == (PlayerView {
                health: if old(self)@.health - damage > 0 {
                    old(self)@.health - damage
                } else {
                    0
                },
                ..old(self)@
            }),
    {
        let rest: i32 = self.health - damage;
        self.health = if rest > 0 {
            rest
        } else {
            0
        };
    }

    /// Adds `score` to the score.
    pub fn add_score(&mut self, score: i32)
        requires
            i32::MIN <= old(self)@.score + score <= i32::MAX,
        ensures
            final(self)@ == (PlayerView { score: old(self)@.score + score, ..old(self)@ }),
    {
        self.score = self.score + score;
    }

    /// The score so far.
    pub fn score(&self) -> (score: i32)
        ensures
            score == self@.score,
    {
        self.score
    }

    /// The health that is left.
    pub fn health(&self) -> (health: i32)
        ensures
            health == self@.health,
    {
        self.health
    }

    /// When the ship last fired, in microseconds.
    pub fn last_shoot_time(&self) -> (time: i32)
        ensures
            time == self@.last_shoot_time,
    {
        self.last_shoot_time
    }

    /// Whether no health is left.
    pub fn is_dead(&self) -> (dead: bool)
        ensures
            dead == (self@.health <= 0),
    {
        self.health <= 0
    }

    /// One frame of the ship at time `now`, in microseconds, with the stick
    /// at (`stick_x`, `stick_y`) and the trigger held or not. The ship
    /// steers where the stick points. It fires where the trigger is held and
    /// more than the delay has passed since its last shot, and then `now` is
    /// the time of its last shot.
    pub fn update(&mut self, now: i32, stick_x: i32, stick_y: i32, trigger: bool) -> (steering:
        Steering)
        requires
            i32::MIN <= now - old(self)@.last_shoot_time <= i32::MAX,
        ensures
            steering.x == steer_x(stick_x as int),
            steering.y == steer_y(stick_y as int),
            steering.shoot == (trigger && may_shoot(old(self)@.last_shoot_time, now as int)),
            final(self)@ == (PlayerView {
                last_shoot_time: if steering.shoot {
                    now as int
                } else {
                    old(self)@.last_shoot_time
                },
                ..old(self)@
            }),
    {
        let x: i8 = if stick_x > STICK_DEAD_ZONE {
            1
        } else if stick_x < -STICK_DEAD_ZONE {
            -1
        } else {
            0
        };
        let y: i8 = if stick_y > STICK_DEAD_ZONE {
            -1
        } else if stick_y < -STICK_DEAD_ZONE {
            1
        } else {
            0
        };
        let shoot: bool = trigger && now - self.last_shoot_time > SHIP_SHOOT_DELAY_MS * 1000;
        if shoot {
            self.last_shoot_time = now;
        }
        Steering { x, y, shoot }
    }
}

} // verus!
