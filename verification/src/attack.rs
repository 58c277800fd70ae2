//! Attack resolution: one attack becomes a hit or a miss, and a hit becomes
//! damage.

use crate::abilities::standard_modifier;
use crate::character::Character;
use crate::dice::{roll_dice, roll_die};
use crate::weapons::{
    is_dice_total, is_melee_attack, is_melee_attack_with, lemma_profile_table, profile_of,
    weapon_name, weapon_profile, DamageProfile,
};
use vstd::prelude::*;

verus! {

/// The attack bonus that comes with level: one point for every three levels
/// past the first, rounded down.
pub open spec fn base_attack_bonus(level: int) -> int {
    (level - 1) / 3
}

/// The whole attack bonus: the level's share, and the strength modifier
/// where the attack is made with a melee weapon.
pub open spec fn attack_bonus(level: int, strength: int, melee: bool) -> int {
    base_attack_bonus(level) + if melee {
        standard_modifier(strength)
    } else {
        0
    }
}

/// An attack hits when the die plus the bonus reaches the target's armor
/// class.
pub open spec fn attack_hits(attack_roll: int, bonus: int, armor_class: int) -> bool {
    attack_roll + bonus >= armor_class
}

/// What strength adds to the damage of a hit: the modifier for a melee
/// weapon, and never less than nothing.
pub open spec fn strength_damage_bonus(strength: int, melee: bool) -> int {
    if melee && standard_modifier(strength) > 0 {
        standard_modifier(strength)
    } else {
        0
    }
}

/// The damage of a hit: the dice, the profile's bonus and the strength
/// bonus, and at least 1.
pub open spec fn damage_amount(
    profile: DamageProfile,
    dice_total: int,
    strength: int,
    melee: bool,
) -> int {
    let raw = dice_total + profile.bonus + strength_damage_bonus(strength, melee);
    if raw < 1 {
        1
    } else {
        raw
    }
}

/// The outcome of an attack whose dice are known: whether it hits, and the
/// damage it deals, which is 0 for a miss.
pub open spec fn attack_outcome(
    attacker: Character,
    target: Character,
    melee: bool,
    profile: DamageProfile,
    attack_roll: int,
    dice_total: int,
) -> (bool, int) {
    if attack_hits(
        attack_roll,
        attack_bonus(attacker.level as int, attacker.stats.strength as int, melee),
        target.armor_class as int,
    ) {
        (true, damage_amount(profile, dice_total, attacker.stats.strength as int, melee))
    } else {
        (false, 0)
    }
}

/// The outcome of an attack with a named weapon, or with none, whose dice
/// are known.
pub open spec fn weapon_attack_outcome(
    attacker: Character,
    target: Character,
    weapon: Option<Seq<char>>,
    attack_roll: int,
    dice_total: int,
) -> (bool, int) {
    attack_outcome(
        attacker,
        target,
        is_melee_attack(weapon),
        profile_of(weapon),
        attack_roll,
        dice_total,
    )
}

/// Whether `outcome` is what some roll of the twenty-sided attack die and of
/// the weapon's damage dice gives.
pub open spec fn is_rolled_outcome(
    attacker: Character,
    target: Character,
    weapon: Option<Seq<char>>,
    outcome: (bool, int),
) -> bool {
    exists|attack_roll: int, dice_total: int|
        1 <= attack_roll <= 20 && is_dice_total(profile_of(weapon), dice_total) && outcome
            == #[trigger] weapon_attack_outcome(attacker, target, weapon, attack_roll, dice_total)
}

/// Computes the attack bonus of an attacker.
pub fn attack_bonus_of(attacker: &Character, melee: bool) -> (bonus: i16)
    ensures
        bonus == attack_bonus(attacker.level as int, attacker.stats.strength as int, melee),
        -4 <= bonus <= 87,
{
    let by_level: i16 = if attacker.level == 0 {
        -1
    } else {
        ((attacker.level - 1) / 3) as i16
    };
    if melee {
        by_level + Character::get_strength_modifier(attacker.stats.strength) as i16
    } else {
        by_level
    }
}

/// Computes the damage of a hit from the total that the damage dice show.
pub fn damage_from_dice(
    attacker: &Character,
    profile: DamageProfile,
    dice_total: u32,
    melee: bool,
) -> (damage: i16)
    requires
        damage_amount(profile, dice_total as int, attacker.stats.strength as int, melee)
            <= i16::MAX,
    ensures
        damage == damage_amount(profile, dice_total as int, attacker.stats.strength as int, melee),
        damage >= 1,
{
    let strength_modifier: i8 = Character::get_strength_modifier(attacker.stats.strength);
    let strength_bonus: i64 = if melee && strength_modifier > 0 {
        strength_modifier as i64
    } else {
        0
    };
    let raw: i64 = dice_total as i64 + profile.bonus as i64 + strength_bonus;
    if raw < 1 {
        1
    } else {
        raw as i16
    }
}

/// Resolves an attack whose dice are known. `melee` says whether the weapon
/// is a melee weapon, `profile` which damage dice it has.
pub fn resolve_attack_with(
    attacker: &Character,
    target: &Character,
    melee: bool,
    profile: DamageProfile,
    attack_roll: i16,
    dice_total: u32,
) -> (outcome: (bool, i16))
    requires
        damage_amount(profile, dice_total as int, attacker.stats.strength as int, melee)
            <= i16::MAX,
    ensures
        (outcome.0, outcome.1 as int) == attack_outcome(
            *attacker,
            *target,
            melee,
            profile,
            attack_roll as int,
            dice_total as int,
        ),
        outcome.0 ==> outcome.1 >= 1,
        !outcome.0 ==> outcome.1 == 0,
{
    let bonus: i16 = attack_bonus_of(attacker, melee);
    let total_attack: i32 = attack_roll as i32 + bonus as i32;
    if total_attack >= target.armor_class as i32 {
        (true, damage_from_dice(attacker, profile, dice_total, melee))
    } else {
        (false, 0)
    }
}

/// Resolves an attack with a named weapon, or with none, whose dice are
/// known: `attack_roll` is what the attack die shows, `dice_total` what the
/// damage dice add up to.
pub fn resolve_attack(
    attacker: &Character,
    target: &Character,
    weapon: Option<&str>,
    attack_roll: i16,
    dice_total: u8,
) -> (outcome: (bool, i16))
    ensures
        (outcome.0, outcome.1 as int) == weapon_attack_outcome(
            *attacker,
            *target,
            weapon_name(weapon),
            attack_roll as int,
            dice_total as int,
        ),
        outcome.0 ==> outcome.1 >= 1,
        !outcome.0 ==> outcome.1 == 0,
{
    let melee = is_melee_attack_with(weapon);
    let profile = weapon_profile(weapon);
    resolve_attack_with(attacker, target, melee, profile, attack_roll, dice_total as u32)
}

/// Rolls the damage of a hit with the given weapon.
pub fn calculate_damage(attacker: &Character, weapon: Option<&str>) -> (damage: i16)
    ensures
        damage >= 1,
        exists|dice_total: int|
            is_dice_total(profile_of(weapon_name(weapon)), dice_total) && damage
                == #[trigger] damage_amount(
                profile_of(weapon_name(weapon)),
                dice_total,
                attacker.stats.strength as int,
                is_melee_attack(weapon_name(weapon)),
            ),
{
    let mut rng = rand::thread_rng();
    let profile = weapon_profile(weapon);
    let dice_total: u32 = roll_dice(&mut rng, profile.dice_count, profile.dice_sides);
    let melee = is_melee_attack_with(weapon);
    let damage = damage_from_dice(attacker, profile, dice_total, melee);
    damage
}

/// Rolls an attack: a twenty-sided die against the target's armor class,
/// and the weapon's damage dice if it hits.
pub fn roll_attack(attacker: &Character, target: &Character, weapon: Option<&str>) -> (outcome: (
    bool,
    i16,
))
    ensures
        is_rolled_outcome(*attacker, *target, weapon_name(weapon), (outcome.0, outcome.1 as int)),
        outcome.0 ==> outcome.1 >= 1,
        !outcome.0 ==> outcome.1 == 0,
{
    let mut rng = rand::thread_rng();
    let melee = is_melee_attack_with(weapon);
    let attack_bonus: i16 = attack_bonus_of(attacker, melee);
    let attack_roll: u8 = roll_die(&mut rng, 20);
    let total_attack: i16 = attack_roll as i16 + attack_bonus;
    let hit = total_attack >= target.armor_class as i16;
    let damage = if hit {
        calculate_damage(attacker, weapon)
    } else {
        0
    };
    proof {
        let name = weapon_name(weapon);
        let profile = profile_of(name);
        lemma_profile_table(name);
        let dice_total: int = if hit {
            choose|dice_total: int|
                is_dice_total(profile, dice_total) && damage == #[trigger] damage_amount(
                    profile,
                    dice_total,
                    attacker.stats.strength as int,
                    is_melee_attack(name),
                )
        } else {
            1
        };
        assert((hit, damage as int) == weapon_attack_outcome(
            *attacker,
            *target,
            name,
            attack_roll as int,
            dice_total,
        ));
    }
    (hit, damage)
}

/// Raising the target's armor class never turns a miss into a hit: an attack
/// that hits the higher armor class hits the lower one too.
pub proof fn lemma_hit_monotonic(attack_roll: int, bonus: int, lower: int, higher: int)
    requires
        lower <= higher,
        attack_hits(attack_roll, bonus, higher),
    ensures
        attack_hits(attack_roll, bonus, lower),
{
}

/// A hit deals at least 1 damage and a miss deals none, whatever the dice.
pub proof fn lemma_damage_floor(
    attacker: Character,
    target: Character,
    melee: bool,
    profile: DamageProfile,
    attack_roll: int,
    dice_total: int,
)
    ensures
        ({
            let outcome = attack_outcome(attacker, target, melee, profile, attack_roll, dice_total);
            &&& outcome.0 ==> outcome.1 >= 1
            &&& !outcome.0 ==> outcome.1 == 0
        }),
{
}

} // verus!
