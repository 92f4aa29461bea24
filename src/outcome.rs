use vstd::prelude::*;

verus! {

/// The tier a draw lands on: common, near-rare or rare.
#[derive(Clone, Copy, Debug, PartialEq, Eq, Structural)]
pub enum ItemLevel {
    Star3,
    Star4,
    Star5,
}

/// The two sub-categories that share a tier.
#[derive(Clone, Copy, Debug, PartialEq, Eq, Structural)]
pub enum ItemType {
    Character,
    Weapon,
}

/// Whether a hit of a tier landed on a spotlighted slot, and which one.
#[derive(Clone, Copy, Debug, PartialEq, Eq, Structural)]
pub enum UpType {
    Up(u32),
    NonUp,
}

/// A tracked target slot of the rare tier with the number of rare hits since it was last won,
/// or no tracking at all.
#[derive(Clone, Copy, Debug, PartialEq, Eq, Structural)]
pub enum WantState {
    Want(u32, u32),
    Untracked,
}

/// Outcome of one draw on the generic banner.
#[derive(Clone, Copy, Debug, PartialEq, Eq, Structural)]
pub enum NormalGachaType {
    Character5Star,
    Weapon5Star,
    Character4Star,
    Weapon4Star,
    Other3Star,
}

/// Outcome of one draw on the character banner.
#[derive(Clone, Copy, Debug, PartialEq, Eq, Structural)]
pub enum CharacterGachaType {
    Up5Star,
    Up4Star(u32),
    Other5Star,
    Other4StarCharacter,
    Other4StarWeapon,
    Other3Star,
}

/// Outcome of one draw on the weapon banner.
#[derive(Clone, Copy, Debug, PartialEq, Eq, Structural)]
pub enum WeaponGachaType {
    Up5Star(u32),
    Up4Star(u32),
    Other5Star,
    Other4StarCharacter,
    Other4StarWeapon,
    Other3Star,
}

impl CharacterGachaType {
    pub open spec fn is_rare(self) -> bool {
        self is Up5Star || self is Other5Star
    }

    pub open spec fn is_near_rare(self) -> bool {
        self is Up4Star || self is Other4StarCharacter || self is Other4StarWeapon
    }
}

impl WeaponGachaType {
    pub open spec fn is_rare(self) -> bool {
        self is Up5Star || self is Other5Star
    }

    pub open spec fn is_near_rare(self) -> bool {
        self is Up4Star || self is Other4StarCharacter || self is Other4StarWeapon
    }
}

} // verus!
