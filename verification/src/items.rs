//! The things that lie about the ship: food that heals and weapons that hurt.

use vstd::prelude::*;
use vstd::string::StringExecFns;
use crate::text::{decimal, push_decimal};

verus! {

/// Something to eat.
#[derive(Debug)]
pub struct Food {
    /// What the food is called.
    pub name: &'static str,
    /// The hit points that eating it restores.
    pub heals_for: u32,
}

/// Something to strike with.
#[derive(Debug)]
pub struct Weapon {
    /// What the weapon is called.
    pub name: &'static str,
    /// The hit points that a landed blow takes.
    pub damage: u32,
}

/// Anything that can lie in a room or be carried.
#[derive(Debug)]
pub enum Item {
    /// It can be eaten.
    Food(Food),
    /// It can be fought with.
    Weapon(Weapon),
}

impl Item {
    /// The name of the item.
    pub open spec fn name(self) -> &'static str {
        match self {
            Item::Food(food) => food.name,
            Item::Weapon(weapon) => weapon.name,
        }
    }

    /// The hit points that eating the item restores: nothing for a weapon.
    pub open spec fn healing(self) -> nat {
        match self {
            Item::Food(food) => food.heals_for as nat,
            Item::Weapon(_) => 0,
        }
    }

    /// The hit points that a blow with the item takes: nothing for food.
    pub open spec fn striking(self) -> nat {
        match self {
            Item::Food(_) => 0,
            Item::Weapon(weapon) => weapon.damage as nat,
        }
    }

    /// What the player is told about the item before picking it up.
    pub open spec fn description(self) -> Seq<char> {
        match self {
            Item::Food(food) => "Restores "@ + decimal(food.heals_for as nat) + " HP when eaten"@,
            Item::Weapon(weapon) => "Deals "@ + decimal(weapon.damage as nat) + " damage"@,
        }
    }

    /// The name of the item.
    pub fn get_name(&self) -> (name: &'static str)
        ensures
            name == self.name(),
    {
        match self {
            Item::Food(food) => food.name,
            Item::Weapon(weapon) => weapon.name,
        }
    }

    /// A sentence on what the item is good for.
    pub fn get_description(&self) -> (text: String)
        ensures
            text@ == self.description(),
    {
        match self {
            Item::Food(food) => {
                let mut text = String::from_str("Restores ");
                push_decimal(&mut text, food.heals_for as u64);
                text.append(" HP when eaten");
                text
            },
            Item::Weapon(weapon) => {
                let mut text = String::from_str("Deals ");
                push_decimal(&mut text, weapon.damage as u64);
                text.append(" damage");
                text
            },
        }
    }

    /// Whether the item is food.
    pub fn is_food(&self) -> (food: bool)
        ensures
            food == (self is Food),
    {
        match self {
            Item::Food(_) => true,
            Item::Weapon(_) => false,
        }
    }
}

/// All the hit points that the food among `items` can still restore.
pub open spec fn healing_reserve(items: Seq<Item>) -> nat
    decreases items.len(),
{
    if items.len() == 0 {
        0
    } else {
        healing_reserve(items.drop_last()) + items.last().healing()
    }
}

/// Taking one item away lowers the reserve by what that item restores.
pub proof fn lemma_reserve_without(items: Seq<Item>, i: int)
    requires
        0 <= i < items.len(),
    ensures
        healing_reserve(items.remove(i)) + items[i].healing() == healing_reserve(items),
    decreases items.len(),
{
    if i == items.len() - 1 {
        assert(items.remove(i) =~= items.drop_last());
    } else {
        lemma_reserve_without(items.drop_last(), i);
        assert(items.remove(i).drop_last() =~= items.drop_last().remove(i));
        assert(items.remove(i).last() == items.last());
    }
}

} // verus!
