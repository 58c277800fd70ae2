//! Weapons: which names count as melee weapons, and the damage dice of each.

use vstd::prelude::*;

verus! {

/// What `str::to_lowercase` makes of a text: its lowercase form under the
/// Unicode case mappings that the standard library carries.
pub uninterp spec fn unicode_lowercase(text: Seq<char>) -> Seq<char>;

/// `str::to_lowercase` returns the lowercase form of its argument as a new
/// `String`. The mapping is Unicode's, too long to write out here, so the
/// result goes by the name `unicode_lowercase`.
pub assume_specification[ str::to_lowercase ](text: &str) -> (lowered: String)
    ensures
        lowered@ == unicode_lowercase(text@),
;

/// `==` on string slices: true exactly when both hold the same characters.
pub assume_specification[ <str as PartialEq>::eq ](left: &str, right: &str) -> (equal: bool)
    ensures
        equal == (left@ == right@),
;

/// The dice a weapon deals damage with, and a fixed bonus on top.
#[derive(Debug, Clone, Copy, PartialEq, Eq, Structural)]
pub struct DamageProfile {
    pub dice_count: u8,
    pub dice_sides: u8,
    pub bonus: i16,
}

/// The characters of a weapon name, where a weapon is named.
pub open spec fn weapon_name(weapon: Option<&str>) -> Option<Seq<char>> {
    match weapon {
        Some(name) => Some(name@),
        None => None,
    }
}

/// Whether a name, already in lowercase, is that of a melee weapon.
pub open spec fn is_melee_name(lowered: Seq<char>) -> bool {
    ||| lowered == "sword"@
    ||| lowered == "axe"@
    ||| lowered == "mace"@
    ||| lowered == "dagger"@
    ||| lowered == "staff"@
    ||| lowered == "hammer"@
}

/// Whether a weapon name, in any mix of upper and lower case, is that of a
/// melee weapon.
pub open spec fn is_melee(name: Seq<char>) -> bool {
    is_melee_name(unicode_lowercase(name))
}

/// Whether an attack with this weapon, or with none, is a melee attack with
/// a weapon. Bare hands are not.
pub open spec fn is_melee_attack(weapon: Option<Seq<char>>) -> bool {
    match weapon {
        Some(name) => is_melee(name),
        None => false,
    }
}

/// One die with the given number of sides and no bonus.
pub open spec fn one_die(sides: u8) -> DamageProfile {
    DamageProfile { dice_count: 1, dice_sides: sides, bonus: 0 }
}

/// The damage profile of a weapon. Names are matched as written: one that
/// is not in the table, in another case or absent, deals damage as bare
/// hands do.
pub open spec fn profile_of(weapon: Option<Seq<char>>) -> DamageProfile {
    match weapon {
        Some(name) => if name == "sword"@ {
            one_die(8)
        } else if name == "axe"@ {
            one_die(6)
        } else if name == "mace"@ {
            one_die(6)
        } else if name == "dagger"@ {
            one_die(4)
        } else if name == "staff"@ {
            one_die(6)
        } else if name == "bow"@ {
            one_die(6)
        } else if name == "crossbow"@ {
            one_die(8)
        } else {
            one_die(4)
        },
        None => one_die(4),
    }
}

/// Whether `total` can be the sum of the profile's dice.
pub open spec fn is_dice_total(profile: DamageProfile, total: int) -> bool {
    profile.dice_count <= total <= profile.dice_count * profile.dice_sides
}

/// Tells whether a lowercase name is that of a melee weapon.
pub fn matches_melee_name(lowered: &str) -> (melee: bool)
    ensures
        melee == is_melee_name(lowered@),
{
    lowered.eq("sword") || lowered.eq("axe") || lowered.eq("mace") || lowered.eq("dagger")
        || lowered.eq("staff") || lowered.eq("hammer")
}

/// Tells whether a weapon name is that of a melee weapon, whatever its case.
pub fn is_melee_weapon(weapon: &str) -> (melee: bool)
    ensures
        melee == is_melee(weapon@),
{
    let lowered = weapon.to_lowercase();
    matches_melee_name(lowered.as_str())
}

/// Tells whether an attack with this weapon, or with none, is a melee attack
/// with a weapon.
pub fn is_melee_attack_with(weapon: Option<&str>) -> (melee: bool)
    ensures
        melee == is_melee_attack(weapon_name(weapon)),
{
    match weapon {
        Some(name) => is_melee_weapon(name),
        None => false,
    }
}

/// Looks up the damage profile of a weapon.
pub fn weapon_profile(weapon: Option<&str>) -> (profile: DamageProfile)
    ensures
        profile == profile_of(weapon_name(weapon)),
        profile.dice_count == 1,
        profile.dice_sides == 4 || profile.dice_sides == 6 || profile.dice_sides == 8,
        profile.bonus == 0,
{
    let sides: u8 = match weapon {
        Some(name) => if name.eq("sword") {
            8
        } else if name.eq("axe") {
            6
        } else if name.eq("mace") {
            6
        } else if name.eq("dagger") {
            4
        } else if name.eq("staff") {
            6
        } else if name.eq("bow") {
            6
        } else if name.eq("crossbow") {
            8
        } else {
            4
        },
        None => 4,
    };
    DamageProfile { dice_count: 1, dice_sides: sides, bonus: 0 }
}

/// Every weapon in the table, and bare hands, deals one die of four, six or
/// eight sides, with no bonus.
pub proof fn lemma_profile_table(weapon: Option<Seq<char>>)
    ensures
        profile_of(weapon).dice_count == 1,
        profile_of(weapon).dice_sides == 4 || profile_of(weapon).dice_sides == 6 || profile_of(
            weapon,
        ).dice_sides == 8,
        profile_of(weapon).bonus == 0,
        is_dice_total(profile_of(weapon), 1),
{
}

/// A dagger deals one four-sided die: whatever its dice show lies between 1
/// and 4, before strength is added.
pub proof fn lemma_dagger_dice(total: int)
    requires
        is_dice_total(profile_of(Some("dagger"@)), total),
    ensures
        profile_of(Some("dagger"@)) == one_die(4),
        1 <= total <= 4,
{
    reveal_strlit("dagger");
    reveal_strlit("sword");
    reveal_strlit("axe");
    reveal_strlit("mace");
    assert("sword"@.len() == 5);
    assert("axe"@.len() == 3);
    assert("mace"@.len() == 4);
}

} // verus!
