use vstd::prelude::*;
use crate::outcome::CharacterGachaType;
use crate::random::uniform_below;

verus! {

/// Item names of a character banner, by outcome category.
pub struct CharacterPool {
    pub up_5star: String,
    pub up_4star: Vec<String>,
    pub other_5star: Vec<String>,
    pub other_4star_character: Vec<String>,
    pub other_4star_weapon: Vec<String>,
    pub other_3star: Vec<String>,
}

/// The pools of the two character banners.
pub struct Pools {
    pub character1: CharacterPool,
    pub character2: CharacterPool,
}

impl CharacterPool {
    /// Every category a banner with `up_4star_slots` near-rare up slots can reach has a name.
    pub open spec fn valid(&self, up_4star_slots: u32) -> bool {
        &&& self.up_4star@.len() >= up_4star_slots
        &&& self.other_5star@.len() > 0
        &&& self.other_4star_character@.len() > 0
        &&& self.other_4star_weapon@.len() > 0
        &&& self.other_3star@.len() > 0
    }

    pub fn is_valid(&self, up_4star_slots: u32) -> (r: bool)
        ensures
            r == self.valid(up_4star_slots),
    {
        self.up_4star.len() >= up_4star_slots as usize && self.other_5star.len() > 0
            && self.other_4star_character.len() > 0 && self.other_4star_weapon.len() > 0
            && self.other_3star.len() > 0
    }

    /// The names an outcome may be shown as: the up item itself for an up outcome, the whole
    /// list of its category otherwise.
    pub open spec fn candidates(&self, outcome: CharacterGachaType) -> Seq<String> {
        match outcome {
            CharacterGachaType::Up5Star => seq![self.up_5star],
            CharacterGachaType::Up4Star(slot) => if slot < self.up_4star@.len() {
                seq![self.up_4star@[slot as int]]
            } else {
                Seq::empty()
            },
            CharacterGachaType::Other5Star => self.other_5star@,
            CharacterGachaType::Other4StarCharacter => self.other_4star_character@,
            CharacterGachaType::Other4StarWeapon => self.other_4star_weapon@,
            CharacterGachaType::Other3Star => self.other_3star@,
        }
    }

    /// The `pick`-th candidate name of an outcome.
    pub fn item_name(&self, outcome: CharacterGachaType, pick: usize) -> (r: &String)
        requires
            pick < self.candidates(outcome).len(),
        ensures
            *r == self.candidates(outcome)[pick as int],
    {
        match outcome {
            CharacterGachaType::Up5Star => &self.up_5star,
            CharacterGachaType::Up4Star(slot) => &self.up_4star[slot as usize],
            CharacterGachaType::Other5Star => &self.other_5star[pick],
            CharacterGachaType::Other4StarCharacter => &self.other_4star_character[pick],
            CharacterGachaType::Other4StarWeapon => &self.other_4star_weapon[pick],
            CharacterGachaType::Other3Star => &self.other_3star[pick],
        }
    }

    /// A candidate name of an outcome, picked uniformly at random.
    pub fn choose_item_name(&self, outcome: CharacterGachaType) -> (r: &String)
        requires
            self.candidates(outcome).len() > 0,
        ensures
            exists|pick: int| 0 <= pick < self.candidates(outcome).len() && *r == self.candidates(outcome)[pick],
    {
        let n: usize = match outcome {
            CharacterGachaType::Up5Star => 1,
            CharacterGachaType::Up4Star(_) => 1,
            CharacterGachaType::Other5Star => self.other_5star.len(),
            CharacterGachaType::Other4StarCharacter => self.other_4star_character.len(),
            CharacterGachaType::Other4StarWeapon => self.other_4star_weapon.len(),
            CharacterGachaType::Other3Star => self.other_3star.len(),
        };
        let pick = uniform_below(n as u64) as usize;
        self.item_name(outcome, pick)
    }
}

} // verus!
