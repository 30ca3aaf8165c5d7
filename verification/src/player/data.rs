//! Player data: classes, teams, weapons and the frozen stat blocks that a
//! ghost carries. Durations are counted in microseconds of the engine clock;
//! lengths and speeds in thousandths of a world unit, so that every quantity
//! is a plain integer.

use vstd::prelude::*;

verus! {

/// The playable classes.
#[derive(Clone, Copy, PartialEq, Eq, Structural, Debug)]
pub enum Class {
    Knight,
    Ranger,
    Wizard,
}

/// Which side an entity fights on.
#[derive(Clone, Copy, PartialEq, Eq, Structural, Debug)]
pub enum Team {
    Player,
    Enemy,
}

/// Whether a player-shaped entity is the live player or a replayed ghost.
#[derive(Clone, Copy, PartialEq, Eq, Structural, Debug)]
pub enum PlayerType {
    Alive,
    Replay,
}

/// The weapons, one per class.
#[derive(Clone, Copy, PartialEq, Eq, Structural, Debug)]
pub enum Weapon {
    Sword,
    Bow,
    Staff,
}

/// A one-shot countdown: `tick` accumulates elapsed time up to `duration`,
/// `finished` reports whether the whole duration has elapsed.
#[derive(Clone, Copy, PartialEq, Eq, Structural, Debug)]
pub struct Timer {
    /// Time accumulated so far, saturated at `duration` (microseconds).
    pub elapsed: u64,
    /// Length of the countdown (microseconds).
    pub duration: u64,
}

impl Timer {
    /// The countdown after `delta` more microseconds have passed.
    pub open spec fn spec_ticked(self, delta: u64) -> Timer {
        if self.elapsed + delta <= self.duration {
            Timer { elapsed: (self.elapsed + delta) as u64, duration: self.duration }
        } else {
            Timer { elapsed: self.duration, duration: self.duration }
        }
    }

    /// Whether the whole duration has elapsed.
    pub open spec fn spec_finished(self) -> bool {
        self.elapsed >= self.duration
    }

    /// A fresh, unelapsed countdown of the given length.
    pub fn new(duration: u64) -> (timer: Timer)
        ensures
            timer.elapsed == 0,
            timer.duration == duration,
    {
        Timer { elapsed: 0, duration }
    }

    /// Advances the countdown by `delta`, saturating at the duration.
    pub fn tick(&mut self, delta: u64)
        ensures
            *final(self) == old(self).spec_ticked(delta),
    {
        if delta <= self.duration && self.elapsed <= self.duration - delta {
            self.elapsed = self.elapsed + delta;
        } else {
            self.elapsed = self.duration;
        }
    }

    /// Rewinds the countdown to the start.
    pub fn reset(&mut self)
        ensures
            final(self).duration == old(self).duration,
            final(self).elapsed == 0,
    {
        self.elapsed = 0;
    }

    /// Whether the whole duration has elapsed.
    pub fn finished(&self) -> (done: bool)
        ensures
            done == self.spec_finished(),
    {
        self.elapsed >= self.duration
    }
}

/// A two-dimensional quantity in thousandths of a world unit.
#[derive(Clone, Copy, PartialEq, Eq, Structural, Debug)]
pub struct Vec2Fixed {
    pub x: i64,
    pub y: i64,
}

/// The attack block of a stat sheet: projectile size, speed, range and the
/// cooldown between shots.
#[derive(Clone, Copy, PartialEq, Eq, Structural, Debug)]
pub struct Attack {
    /// Projectile extent (thousandths of a world unit).
    pub size: Vec2Fixed,
    /// Projectile speed (world units per second).
    pub speed: u64,
    /// How far a projectile may travel (world units).
    pub range: u64,
    /// Cooldown between two attacks.
    pub attack_speed: Timer,
}

impl Attack {
    /// The attack block that a weapon grants.
    pub fn new(weapon: Weapon) -> (attack: Attack)
        ensures
            attack == spec_attack_of(weapon),
    {
        match weapon {
            Weapon::Sword => Attack {
                size: Vec2Fixed { x: 12000, y: 12000 },
                speed: 0,
                range: 10,
                attack_speed: Timer { elapsed: 0, duration: 300000 },
            },
            Weapon::Bow => Attack {
                size: Vec2Fixed { x: 3000, y: 8000 },
                speed: 30,
                range: 600,
                attack_speed: Timer { elapsed: 0, duration: 100000 },
            },
            Weapon::Staff => Attack {
                size: Vec2Fixed { x: 8000, y: 8000 },
                speed: 15,
                range: 400,
                attack_speed: Timer { elapsed: 0, duration: 300000 },
            },
        }
    }
}

/// The attack block granted by each weapon.
pub open spec fn spec_attack_of(weapon: Weapon) -> Attack {
    match weapon {
        Weapon::Sword => Attack {
            size: Vec2Fixed { x: 12000, y: 12000 },
            speed: 0,
            range: 10,
            attack_speed: Timer { elapsed: 0, duration: 300000 },
        },
        Weapon::Bow => Attack {
            size: Vec2Fixed { x: 3000, y: 8000 },
            speed: 30,
            range: 600,
            attack_speed: Timer { elapsed: 0, duration: 100000 },
        },
        Weapon::Staff => Attack {
            size: Vec2Fixed { x: 8000, y: 8000 },
            speed: 15,
            range: 400,
            attack_speed: Timer { elapsed: 0, duration: 300000 },
        },
    }
}

/// The weapon that a class wields.
pub open spec fn spec_weapon_of(class: Class) -> Weapon {
    match class {
        Class::Knight => Weapon::Sword,
        Class::Ranger => Weapon::Bow,
        Class::Wizard => Weapon::Staff,
    }
}

/// The stat sheet of one player or ghost; a ghost carries a frozen copy of
/// the stats the live player had when it was recorded.
#[derive(Clone, Copy, PartialEq, Eq, Structural, Debug)]
pub struct PlayerStats {
    pub attack: Attack,
}

impl PlayerStats {
    /// The stat sheet that a class starts with.
    pub fn new(class: Class) -> (stats: PlayerStats)
        ensures
            stats.attack == spec_attack_of(spec_weapon_of(class)),
    {
        match class {
            Class::Knight => PlayerStats { attack: Attack::new(Weapon::Sword) },
            Class::Ranger => PlayerStats { attack: Attack::new(Weapon::Bow) },
            Class::Wizard => PlayerStats { attack: Attack::new(Weapon::Staff) },
        }
    }
}

} // verus!
