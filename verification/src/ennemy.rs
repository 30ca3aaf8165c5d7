//! Enemy data: the enemy kinds, their sizes, and the cooldown that gates
//! an enemy's attacks.

use vstd::prelude::*;
use crate::player::data::Timer;

verus! {

/// The attack cadences an enemy can be given.
#[derive(Clone, Copy, PartialEq, Eq, Structural, Debug)]
pub enum AttackSpeedType {
    Regular,
}

/// The kinds of enemy.
#[derive(Clone, Copy, PartialEq, Eq, Structural, Debug)]
pub enum EnnemyKind {
    Dummy,
    Turret,
}

impl EnnemyKind {
    /// The body radius of this kind, in world units.
    pub fn radius(&self) -> (radius: u64)
        ensures
            radius == 15,
    {
        match self {
            EnnemyKind::Dummy => 15,
            EnnemyKind::Turret => 15,
        }
    }
}

/// The cooldown between two attacks of an enemy.
#[derive(Clone, Copy, PartialEq, Eq, Structural, Debug)]
pub struct AttackSpeed(pub Timer);

impl AttackSpeed {
    /// Wraps a countdown as an attack cooldown.
    pub fn new(timer: Timer) -> (speed: AttackSpeed)
        ensures
            speed.0 == timer,
    {
        AttackSpeed(timer)
    }

    /// Advances the cooldown by `delta` microseconds.
    pub fn tick(&mut self, delta: u64)
        ensures
            final(self).0 == old(self).0.spec_ticked(delta),
    {
        self.0.tick(delta);
    }

    /// Rewinds the cooldown after an attack.
    pub fn reset(&mut self)
        ensures
            final(self).0.duration == old(self).0.duration,
            final(self).0.elapsed == 0,
    {
        self.0.reset();
    }

    /// Whether the cooldown has run out, so an attack may fire.
    pub fn finished(&self) -> (done: bool)
        ensures
            done == self.0.spec_finished(),
    {
        self.0.finished()
    }

    /// The cooldown a cadence grants: the regular cadence attacks every
    /// two seconds.
    pub fn from_type(attack_type: AttackSpeedType) -> (speed: AttackSpeed)
        ensures
            speed.0.elapsed == 0,
            speed.0.duration == 2000000,
    {
        match attack_type {
            AttackSpeedType::Regular => AttackSpeed(Timer::new(2000000)),
        }
    }
}

} // verus!
