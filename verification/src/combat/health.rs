//! Hit points: a quantity that never drops below zero and never rises above
//! the maximum it is healed towards.

use vstd::prelude::*;

verus! {

/// A number of hit points.
#[derive(Clone, Copy, Debug, PartialEq, Eq, Structural)]
pub struct Health {
    points: u32,
}

impl View for Health {
    type V = nat;

    closed spec fn view(&self) -> nat {
        self.points as nat
    }
}

/// What is left of `health` after `amount` points of damage: the difference,
/// floored at zero.
pub open spec fn damaged(health: nat, amount: nat) -> nat {
    if amount >= health {
        0
    } else {
        (health - amount) as nat
    }
}

/// `health` after healing by `amount`, capped at `max`.
pub open spec fn healed(health: nat, amount: nat, max: nat) -> nat {
    if health + amount >= max {
        max
    } else {
        health + amount
    }
}

impl Health {
    /// Every health value fits the machine integer that stores it.
    pub proof fn lemma_view_bounded(self)
        ensures
            self@ <= u32::MAX,
    {
    }

    /// A health of exactly `points` hit points.
    pub fn new(points: u32) -> (health: Health)
        ensures
            health@ == points,
    {
        Health { points }
    }

    /// The number of hit points, as a plain integer.
    pub fn points(&self) -> (points: u32)
        ensures
            points == self@,
    {
        self.points
    }

    /// Whether no hit points are left.
    pub fn is_zero(&self) -> (zero: bool)
        ensures
            zero == (self@ == 0),
    {
        self.points == 0
    }

    /// Takes `amount` points of damage. Damage beyond the current health
    /// leaves the health at zero.
    pub fn damage(&mut self, amount: u32)
        ensures
            final(self)@ == damaged(old(self)@, amount as nat),
            final(self)@ <= old(self)@,
    {
        self.points = self.points.saturating_sub(amount);
    }

    /// Heals by `amount` points, but never beyond `max`.
    pub fn heal_to_max(&mut self, amount: u32, max: Health)
        ensures
            final(self)@ == healed(old(self)@, amount as nat, max@),
            old(self)@ <= max@ ==> old(self)@ <= final(self)@ <= max@,
    {
        let raised: u32 = self.points.saturating_add(amount);
        self.points = if raised >= max.points { max.points } else { raised };
    }
}

} // verus!
