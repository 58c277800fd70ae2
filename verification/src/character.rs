//! Character sheets: class, level, ability scores, hit points, armor class.

use crate::abilities::{
    ability_score_from_rolls, constitution_modifier, is_rolled_score, standard_modifier,
};
use crate::dice::roll_die;
use rand::rngs::ThreadRng;
use vstd::prelude::*;

verus! {

/// The classes a character can belong to.
#[derive(Debug, Clone, Copy, PartialEq, Eq, Structural)]
pub enum CharacterClass {
    Fighter,
    MagicUser,
    Cleric,
    Thief,
    Dwarf,
    Elf,
    Halfling,
}

/// The six ability scores.
#[derive(Debug, Clone, Copy)]
pub struct CharacterStats {
    pub strength: u8,
    pub dexterity: u8,
    pub constitution: u8,
    pub intelligence: u8,
    pub wisdom: u8,
    pub charisma: u8,
}

/// Current and maximum hit points.
#[derive(Debug, Clone, Copy)]
pub struct HitPoints {
    pub current: i16,
    pub maximum: i16,
}

/// The schools of magic.
#[derive(Debug, Clone, Copy, PartialEq, Eq, Structural)]
pub enum SpellSchool {
    Abjuration,
    Conjuration,
    Divination,
    Enchantment,
    Evocation,
    Illusion,
    Necromancy,
    Transmutation,
}

/// A spell that a character knows.
#[derive(Debug, Clone)]
pub struct Spell {
    pub name: String,
    pub level: u8,
    pub school: SpellSchool,
    pub casting_time: String,
    pub range: String,
    pub duration: String,
    pub description: String,
}

/// A character sheet.
#[derive(Debug, Clone)]
pub struct Character {
    pub name: String,
    pub class: CharacterClass,
    pub level: u8,
    pub experience: u32,
    pub stats: CharacterStats,
    pub hit_points: HitPoints,
    pub armor_class: i8,
    pub spells: Vec<Spell>,
}

impl CharacterClass {
    /// The hit points a class gives per level, before constitution.
    pub open spec fn base_hit_points(self) -> int {
        match self {
            CharacterClass::Fighter => 10,
            CharacterClass::MagicUser => 4,
            CharacterClass::Cleric => 8,
            CharacterClass::Thief => 6,
            CharacterClass::Dwarf => 8,
            CharacterClass::Elf => 6,
            CharacterClass::Halfling => 6,
        }
    }

    /// The experience a class needs per level already reached.
    pub open spec fn experience_per_level(self) -> int {
        match self {
            CharacterClass::Fighter => 2000,
            CharacterClass::MagicUser => 2500,
            CharacterClass::Cleric => 1500,
            CharacterClass::Thief => 1200,
            CharacterClass::Dwarf => 2200,
            CharacterClass::Elf => 4000,
            CharacterClass::Halfling => 2000,
        }
    }
}

/// The hit points one level is worth: the class's base plus the constitution
/// modifier, and never less than 1.
pub open spec fn hit_points_per_level(class: CharacterClass, constitution: int) -> int {
    let raw = class.base_hit_points() + constitution_modifier(constitution);
    if raw < 1 {
        1
    } else {
        raw
    }
}

/// The armor class of an unarmored character.
pub open spec fn unarmored_armor_class(dexterity: int) -> int {
    10 + standard_modifier(dexterity)
}

fn base_hit_points_of(class: &CharacterClass) -> (base: i16)
    ensures
        base == class.base_hit_points(),
{
    match class {
        CharacterClass::Fighter => 10,
        CharacterClass::MagicUser => 4,
        CharacterClass::Cleric => 8,
        CharacterClass::Thief => 6,
        CharacterClass::Dwarf => 8,
        CharacterClass::Elf => 6,
        CharacterClass::Halfling => 6,
    }
}

fn level_hit_points(class: &CharacterClass, constitution: u8) -> (points: i16)
    ensures
        points == hit_points_per_level(*class, constitution as int),
        1 <= points <= 12,
{
    let raw: i16 = base_hit_points_of(class) + Character::get_constitution_modifier(constitution);
    if raw < 1 {
        1
    } else {
        raw
    }
}

impl CharacterStats {
    /// Whether every score can come out of four six-sided dice with the
    /// lowest dropped.
    pub open spec fn is_rolled(self) -> bool {
        &&& is_rolled_score(self.strength as int)
        &&& is_rolled_score(self.dexterity as int)
        &&& is_rolled_score(self.constitution as int)
        &&& is_rolled_score(self.intelligence as int)
        &&& is_rolled_score(self.wisdom as int)
        &&& is_rolled_score(self.charisma as int)
    }

    /// Rolls the six ability scores, each with four six-sided dice of which
    /// the lowest is dropped.
    pub fn roll() -> (stats: CharacterStats)
        ensures
            stats.is_rolled(),
    {
        let mut rng = rand::thread_rng();
        let strength = Self::roll_ability_score(&mut rng);
        let dexterity = Self::roll_ability_score(&mut rng);
        let constitution = Self::roll_ability_score(&mut rng);
        let intelligence = Self::roll_ability_score(&mut rng);
        let wisdom = Self::roll_ability_score(&mut rng);
        let charisma = Self::roll_ability_score(&mut rng);
        CharacterStats { strength, dexterity, constitution, intelligence, wisdom, charisma }
    }

    fn roll_ability_score(rng: &mut ThreadRng) -> (score: u8)
        ensures
            is_rolled_score(score as int),
    {
        let a = roll_die(rng, 6);
        let b = roll_die(rng, 6);
        let c = roll_die(rng, 6);
        let d = roll_die(rng, 6);
        ability_score_from_rolls(a, b, c, d)
    }
}

impl HitPoints {
    /// The hit points a character starts with: one level's worth, all of
    /// them still there.
    pub open spec fn starting(class: CharacterClass, constitution: int) -> HitPoints {
        HitPoints {
            current: hit_points_per_level(class, constitution) as i16,
            maximum: hit_points_per_level(class, constitution) as i16,
        }
    }

    /// Hit points of a new character. The level does not enter into it: a
    /// character starts with one level's worth whatever `level` says.
    pub fn new(class: &CharacterClass, stats: &CharacterStats, level: u8) -> (points: HitPoints)
        ensures
            points == HitPoints::starting(*class, stats.constitution as int),
    {
        let max_hp = level_hit_points(class, stats.constitution);
        HitPoints { current: max_hp, maximum: max_hp }
    }
}

impl Character {
    /// Whether this is the sheet of a new first-level character with the
    /// given name, class and ability scores.
    pub open spec fn is_new(self, name: String, class: CharacterClass, stats: CharacterStats) -> bool {
        &&& self.name == name
        &&& self.class == class
        &&& self.level == 1
        &&& self.experience == 0
        &&& self.stats == stats
        &&& self.hit_points == HitPoints::starting(class, stats.constitution as int)
        &&& self.armor_class == unarmored_armor_class(stats.dexterity as int)
        &&& self.spells@ == Seq::<Spell>::empty()
    }

    /// Experience at which the next level is reached.
    pub open spec fn experience_for_next_level(self) -> int {
        self.level * self.class.experience_per_level()
    }

    /// The hit points this character gains with a level.
    pub open spec fn level_gain(self) -> int {
        hit_points_per_level(self.class, self.stats.constitution as int)
    }

    /// Whether a level can be added without leaving the range of the level
    /// and hit point counters.
    pub open spec fn can_level_up(self) -> bool {
        &&& self.level < u8::MAX
        &&& self.hit_points.maximum + self.level_gain() <= i16::MAX
        &&& self.hit_points.current + self.level_gain() <= i16::MAX
    }

    /// The sheet after gaining one level.
    pub open spec fn leveled_up(self) -> Character {
        Character {
            level: (self.level + 1) as u8,
            hit_points: HitPoints {
                current: (self.hit_points.current + self.level_gain()) as i16,
                maximum: (self.hit_points.maximum + self.level_gain()) as i16,
            },
            ..self
        }
    }

    /// The sheet after the level check: one level more if the experience
    /// suffices, unchanged otherwise.
    pub open spec fn level_checked(self) -> Character {
        if self.experience >= self.experience_for_next_level() {
            self.leveled_up()
        } else {
            self
        }
    }

    /// The sheet with `xp` more experience, before any level check.
    pub open spec fn with_experience(self, xp: u32) -> Character {
        Character { experience: (self.experience + xp) as u32, ..self }
    }

    /// Hit points left after `damage`: never below zero.
    pub open spec fn hit_points_after_damage(self, damage: int) -> int {
        if self.hit_points.current - damage < 0 {
            0
        } else {
            self.hit_points.current - damage
        }
    }

    /// Hit points after healing by `amount`: never above the maximum.
    pub open spec fn hit_points_after_healing(self, amount: int) -> int {
        if self.hit_points.current + amount > self.hit_points.maximum {
            self.hit_points.maximum as int
        } else {
            self.hit_points.current + amount
        }
    }

    /// The sheet with its current hit points replaced.
    pub open spec fn with_current_hit_points(self, current: i16) -> Character {
        Character { hit_points: HitPoints { current, ..self.hit_points }, ..self }
    }

    /// Whether the character still stands.
    pub open spec fn alive(self) -> bool {
        self.hit_points.current > 0
    }

    /// Creates a first-level character with freshly rolled ability scores.
    pub fn new(name: String, class: CharacterClass) -> (character: Character)
        ensures
            character.stats.is_rolled(),
            character.is_new(name, class, character.stats),
    {
        let stats = CharacterStats::roll();
        Self::with_stats(name, class, stats)
    }

    /// Creates a first-level character from ability scores already rolled.
    pub fn with_stats(name: String, class: CharacterClass, stats: CharacterStats) -> (character:
        Character)
        ensures
            character.is_new(name, class, stats),
    {
        let level: u8 = 1;
        let hit_points = HitPoints::new(&class, &stats, level);
        let armor_class = Self::calculate_armor_class(&stats);
        Character {
            name,
            class,
            level,
            experience: 0,
            stats,
            hit_points,
            armor_class,
            spells: Vec::new(),
        }
    }

    /// Armor class without armor: 10 plus the dexterity modifier.
    pub fn calculate_armor_class(stats: &CharacterStats) -> (armor_class: i8)
        ensures
            armor_class == unarmored_armor_class(stats.dexterity as int),
    {
        let dex_modifier = Self::get_dexterity_modifier(stats.dexterity);
        10 + dex_modifier
    }

    /// The modifier of a dexterity score.
    pub fn get_dexterity_modifier(dexterity: u8) -> (modifier: i8)
        ensures
            modifier == standard_modifier(dexterity as int),
    {
        if dexterity == 3 {
            -3
        } else if 4 <= dexterity && dexterity <= 5 {
            -2
        } else if 6 <= dexterity && dexterity <= 8 {
            -1
        } else if 9 <= dexterity && dexterity <= 12 {
            0
        } else if 13 <= dexterity && dexterity <= 15 {
            1
        } else if 16 <= dexterity && dexterity <= 17 {
            2
        } else if dexterity == 18 {
            3
        } else {
            0
        }
    }

    /// The modifier of a strength score.
    pub fn get_strength_modifier(strength: u8) -> (modifier: i8)
        ensures
            modifier == standard_modifier(strength as int),
    {
        if strength == 3 {
            -3
        } else if 4 <= strength && strength <= 5 {
            -2
        } else if 6 <= strength && strength <= 8 {
            -1
        } else if 9 <= strength && strength <= 12 {
            0
        } else if 13 <= strength && strength <= 15 {
            1
        } else if 16 <= strength && strength <= 17 {
            2
        } else if strength == 18 {
            3
        } else {
            0
        }
    }

    /// The modifier of a constitution score.
    pub fn get_constitution_modifier(constitution: u8) -> (modifier: i16)
        ensures
            modifier == constitution_modifier(constitution as int),
    {
        if constitution == 3 {
            -2
        } else if 4 <= constitution && constitution <= 8 {
            -1
        } else if 9 <= constitution && constitution <= 12 {
            0
        } else if 13 <= constitution && constitution <= 15 {
            1
        } else if 16 <= constitution && constitution <= 18 {
            2
        } else {
            0
        }
    }

    /// Adds experience, then gains a level if the new total suffices. At
    /// most one level is gained per call.
    pub fn gain_experience(&mut self, xp: u32)
        requires
            old(self).experience + xp <= u32::MAX,
            old(self).experience + xp >= old(self).experience_for_next_level() ==> old(
                self,
            ).can_level_up(),
        ensures
            *final(self) == old(self).with_experience(xp).level_checked(),
    {
        self.experience = self.experience + xp;
        self.check_level_up();
    }

    /// Gains a level if the experience suffices.
    pub fn check_level_up(&mut self)
        requires
            old(self).experience >= old(self).experience_for_next_level() ==> old(
                self,
            ).can_level_up(),
        ensures
            *final(self) == old(self).level_checked(),
    {
        let xp_needed = self.get_xp_for_next_level();
        if self.experience >= xp_needed {
            self.level_up();
        }
    }

    /// Gains a level: the level counts one more, and maximum and current hit
    /// points both grow by one level's worth.
    pub fn level_up(&mut self)
        requires
            old(self).can_level_up(),
        ensures
            *final(self) == old(self).leveled_up(),
    {
        self.level = self.level + 1;
        let new_hp = self.calculate_hit_points();
        self.hit_points.maximum = self.hit_points.maximum + new_hp;
        self.hit_points.current = self.hit_points.current + new_hp;
    }

    /// Experience at which the next level is reached.
    pub fn get_xp_for_next_level(&self) -> (xp: u32)
        ensures
            xp == self.experience_for_next_level(),
    {
        let per_level: u32 = match self.class {
            CharacterClass::Fighter => 2000,
            CharacterClass::MagicUser => 2500,
            CharacterClass::Cleric => 1500,
            CharacterClass::Thief => 1200,
            CharacterClass::Dwarf => 2200,
            CharacterClass::Elf => 4000,
            CharacterClass::Halfling => 2000,
        };
        self.level as u32 * per_level
    }

    /// The hit points one level is worth to this character.
    pub fn calculate_hit_points(&self) -> (points: i16)
        ensures
            points == self.level_gain(),
            points >= 1,
    {
        level_hit_points(&self.class, self.stats.constitution)
    }

    /// Whether the character has hit points left.
    pub fn is_alive(&self) -> (alive: bool)
        ensures
            alive == self.alive(),
    {
        self.hit_points.current > 0
    }

    /// Takes `damage` off the current hit points, which never drop below
    /// zero.
    pub fn take_damage(&mut self, damage: i16)
        requires
            old(self).hit_points.current - damage <= i16::MAX,
        ensures
            *final(self) == old(self).with_current_hit_points(
                old(self).hit_points_after_damage(damage as int) as i16,
            ),
            final(self).hit_points.current >= 0,
    {
        let left: i32 = self.hit_points.current as i32 - damage as i32;
        if left < 0 {
            self.hit_points.current = 0;
        } else {
            self.hit_points.current = left as i16;
        }
    }

    /// Adds `amount` to the current hit points, which never rise above the
    /// maximum.
    pub fn heal(&mut self, amount: i16)
        requires
            old(self).hit_points.current + amount >= i16::MIN,
        ensures
            *final(self) == old(self).with_current_hit_points(
                old(self).hit_points_after_healing(amount as int) as i16,
            ),
            final(self).hit_points.current <= final(self).hit_points.maximum,
    {
        let raised: i32 = self.hit_points.current as i32 + amount as i32;
        if raised > self.hit_points.maximum as i32 {
            self.hit_points.current = self.hit_points.maximum;
        } else {
            self.hit_points.current = raised as i16;
        }
    }
}

} // verus!
