use old_school_rpg::attack::{
    attack_bonus_of, calculate_damage, damage_from_dice, resolve_attack, resolve_attack_with,
    roll_attack,
};
use old_school_rpg::character::{Character, CharacterClass, CharacterStats};
use old_school_rpg::weapons::{
    is_melee_attack_with, is_melee_weapon, matches_melee_name, weapon_profile, DamageProfile,
};

fn sheet(name: &str, level: u8, strength: u8, armor_class: i8) -> Character {
    let stats = CharacterStats {
        strength,
        dexterity: 10,
        constitution: 10,
        intelligence: 10,
        wisdom: 10,
        charisma: 10,
    };
    let mut character = Character::with_stats(name.to_string(), CharacterClass::Fighter, stats);
    character.level = level;
    character.armor_class = armor_class;
    character
}

#[test]
fn melee_names_are_the_six_in_the_list() {
    for name in ["sword", "axe", "mace", "dagger", "staff", "hammer"] {
        assert!(matches_melee_name(name), "{}", name);
        assert!(is_melee_weapon(name), "{}", name);
    }
    for name in ["bow", "crossbow", "fist", "", "swords", "sword ", "club"] {
        assert!(!matches_melee_name(name), "{}", name);
        assert!(!is_melee_weapon(name), "{}", name);
    }
}

#[test]
fn melee_classification_ignores_case() {
    assert!(is_melee_weapon("SWORD"));
    assert!(is_melee_weapon("Sword"));
    assert!(is_melee_weapon("dAgGeR"));
    assert!(is_melee_weapon("HAMMER"));
    assert!(!is_melee_weapon("BOW"));
    assert!(!matches_melee_name("SWORD"));
}

#[test]
fn no_weapon_is_not_a_melee_weapon() {
    assert!(!is_melee_attack_with(None));
    assert!(is_melee_attack_with(Some("Axe")));
    assert!(!is_melee_attack_with(Some("crossbow")));
}

#[test]
fn weapon_profiles_follow_the_table() {
    let table = [
        ("sword", 8u8),
        ("axe", 6),
        ("mace", 6),
        ("dagger", 4),
        ("staff", 6),
        ("bow", 6),
        ("crossbow", 8),
    ];
    for (name, sides) in table {
        assert_eq!(
            weapon_profile(Some(name)),
            DamageProfile { dice_count: 1, dice_sides: sides, bonus: 0 },
            "{}",
            name
        );
    }
}

#[test]
fn unknown_weapons_and_bare_hands_deal_one_d4() {
    let unarmed = DamageProfile { dice_count: 1, dice_sides: 4, bonus: 0 };
    assert_eq!(weapon_profile(None), unarmed);
    assert_eq!(weapon_profile(Some("hammer")), unarmed);
    assert_eq!(weapon_profile(Some("halberd")), unarmed);
    assert_eq!(weapon_profile(Some("")), unarmed);
}

#[test]
fn weapon_profile_matches_names_as_written() {
    let unarmed = DamageProfile { dice_count: 1, dice_sides: 4, bonus: 0 };
    assert_eq!(weapon_profile(Some("Sword")), unarmed);
    assert_eq!(weapon_profile(Some("CROSSBOW")), unarmed);
}

#[test]
fn attack_bonus_grows_by_one_every_three_levels() {
    let expected = [(1u8, 0i16), (2, 0), (3, 0), (4, 1), (6, 1), (7, 2), (10, 3), (255, 84)];
    for (level, bonus) in expected {
        assert_eq!(attack_bonus_of(&sheet("A", level, 10, 10), false), bonus, "level {}", level);
        assert_eq!(attack_bonus_of(&sheet("A", level, 10, 10), true), bonus, "level {}", level);
    }
}

#[test]
fn attack_bonus_at_level_zero_rounds_down() {
    assert_eq!(attack_bonus_of(&sheet("A", 0, 10, 10), false), -1);
}

#[test]
fn attack_bonus_adds_strength_for_melee_only() {
    assert_eq!(attack_bonus_of(&sheet("A", 1, 18, 10), true), 3);
    assert_eq!(attack_bonus_of(&sheet("A", 1, 18, 10), false), 0);
    assert_eq!(attack_bonus_of(&sheet("A", 1, 3, 10), true), -3);
    assert_eq!(attack_bonus_of(&sheet("A", 5, 16, 10), true), 3);
    assert_eq!(attack_bonus_of(&sheet("A", 5, 4, 10), true), -1);
}

#[test]
fn damage_adds_positive_strength_for_melee_only() {
    let d8 = DamageProfile { dice_count: 1, dice_sides: 8, bonus: 0 };
    assert_eq!(damage_from_dice(&sheet("A", 1, 10, 10), d8, 5, true), 5);
    assert_eq!(damage_from_dice(&sheet("A", 1, 18, 10), d8, 5, true), 8);
    assert_eq!(damage_from_dice(&sheet("A", 1, 18, 10), d8, 5, false), 5);
    assert_eq!(damage_from_dice(&sheet("A", 1, 13, 10), d8, 1, true), 2);
    assert_eq!(damage_from_dice(&sheet("A", 1, 3, 10), d8, 5, true), 5);
    assert_eq!(damage_from_dice(&sheet("A", 1, 3, 10), d8, 1, true), 1);
}

#[test]
fn damage_counts_the_profile_bonus_and_is_at_least_one() {
    let blessed = DamageProfile { dice_count: 2, dice_sides: 6, bonus: 2 };
    assert_eq!(damage_from_dice(&sheet("A", 1, 10, 10), blessed, 7, false), 9);
    assert_eq!(damage_from_dice(&sheet("A", 1, 16, 10), blessed, 12, true), 16);
    let cursed = DamageProfile { dice_count: 1, dice_sides: 4, bonus: -5 };
    assert_eq!(damage_from_dice(&sheet("A", 1, 10, 10), cursed, 1, false), 1);
    assert_eq!(damage_from_dice(&sheet("A", 1, 10, 10), cursed, 4, false), 1);
    assert_eq!(damage_from_dice(&sheet("A", 1, 18, 10), cursed, 4, true), 2);
    let nothing = DamageProfile { dice_count: 0, dice_sides: 4, bonus: 0 };
    assert_eq!(damage_from_dice(&sheet("A", 1, 10, 10), nothing, 0, false), 1);
}

#[test]
fn fighter_with_sword_hits_armor_class_10_on_a_15() {
    let fighter = sheet("Fighter", 1, 10, 12);
    let target = sheet("Target", 1, 10, 10);
    for dice in 1..=8u8 {
        let (hit, damage) = resolve_attack(&fighter, &target, Some("sword"), 15, dice);
        assert!(hit);
        assert_eq!(damage, dice as i16);
        assert!((1..=8).contains(&damage));
    }
}

#[test]
fn fighter_with_sword_misses_armor_class_10_on_a_2() {
    let fighter = sheet("Fighter", 1, 10, 12);
    let target = sheet("Target", 1, 10, 10);
    assert_eq!(resolve_attack(&fighter, &target, Some("sword"), 2, 8), (false, 0));
}

#[test]
fn meeting_the_armor_class_is_a_hit_and_one_less_a_miss() {
    let attacker = sheet("A", 1, 10, 10);
    let target = sheet("T", 1, 10, 14);
    assert_eq!(resolve_attack(&attacker, &target, None, 14, 3), (true, 3));
    assert_eq!(resolve_attack(&attacker, &target, None, 13, 3), (false, 0));
    let veteran = sheet("V", 7, 16, 10);
    assert_eq!(resolve_attack(&veteran, &target, Some("mace"), 10, 4), (true, 6));
    assert_eq!(resolve_attack(&veteran, &target, Some("mace"), 9, 4), (false, 0));
    assert_eq!(resolve_attack(&veteran, &target, Some("bow"), 12, 4), (true, 4));
    assert_eq!(resolve_attack(&veteran, &target, Some("bow"), 11, 4), (false, 0));
}

#[test]
fn weak_attacker_loses_on_the_attack_but_not_on_the_damage() {
    let weak = sheet("W", 1, 3, 10);
    let target = sheet("T", 1, 10, 10);
    assert_eq!(resolve_attack(&weak, &target, Some("dagger"), 12, 2), (false, 0));
    assert_eq!(resolve_attack(&weak, &target, Some("dagger"), 13, 2), (true, 2));
    assert_eq!(resolve_attack(&weak, &target, None, 10, 2), (true, 2));
}

#[test]
fn melee_weapon_in_capitals_adds_strength_but_rolls_as_unarmed() {
    let strong = sheet("S", 1, 18, 10);
    let target = sheet("T", 1, 10, 13);
    assert_eq!(resolve_attack(&strong, &target, Some("SWORD"), 10, 4), (true, 7));
    assert_eq!(resolve_attack(&strong, &target, Some("crossbow"), 10, 4), (false, 0));
}

#[test]
fn raising_the_armor_class_never_turns_a_miss_into_a_hit() {
    let attacker = sheet("A", 4, 13, 10);
    for roll in 1..=20i16 {
        let mut was_hit = true;
        for armor_class in -5..=30i8 {
            let target = sheet("T", 1, 10, armor_class);
            let (hit, damage) = resolve_attack(&attacker, &target, Some("axe"), roll, 3);
            assert!(was_hit || !hit, "roll {} armor class {}", roll, armor_class);
            assert_eq!(hit, roll + 2 >= armor_class as i16);
            assert_eq!(damage, if hit { 4 } else { 0 });
            was_hit = hit;
        }
    }
}

#[test]
fn resolve_attack_with_takes_melee_and_profile_as_given() {
    let strong = sheet("S", 4, 18, 10);
    let target = sheet("T", 1, 10, 15);
    let profile = DamageProfile { dice_count: 2, dice_sides: 6, bonus: 1 };
    assert_eq!(resolve_attack_with(&strong, &target, true, profile, 11, 7), (true, 11));
    assert_eq!(resolve_attack_with(&strong, &target, true, profile, 10, 7), (false, 0));
    assert_eq!(resolve_attack_with(&strong, &target, false, profile, 14, 7), (true, 8));
    assert_eq!(resolve_attack_with(&strong, &target, false, profile, 13, 7), (false, 0));
}

#[test]
fn extreme_attack_rolls_do_not_overflow() {
    let attacker = sheet("A", 255, 18, 10);
    let low = sheet("T", 1, 10, i8::MIN);
    let high = sheet("T", 1, 10, i8::MAX);
    assert_eq!(resolve_attack(&attacker, &low, Some("sword"), i16::MIN, 1), (false, 0));
    assert_eq!(resolve_attack(&attacker, &high, Some("sword"), i16::MAX, 1), (true, 4));
    assert_eq!(resolve_attack(&attacker, &high, None, 40, 255), (false, 0));
    assert_eq!(resolve_attack(&attacker, &high, Some("sword"), 40, 255), (true, 258));
    let profile = DamageProfile { dice_count: 255, dice_sides: 255, bonus: -32255 };
    assert_eq!(resolve_attack_with(&attacker, &high, true, profile, 40, 65019), (true, 32767));
    assert_eq!(resolve_attack_with(&attacker, &high, false, profile, 43, 0), (true, 1));
}

#[test]
fn rolled_dagger_damage_lies_between_1_and_4() {
    let attacker = sheet("A", 1, 10, 10);
    let mut seen = [false; 5];
    for _ in 0..400 {
        let damage = calculate_damage(&attacker, Some("dagger"));
        assert!((1..=4).contains(&damage), "damage {}", damage);
        seen[damage as usize] = true;
    }
    assert!(seen[1] && seen[2] && seen[3] && seen[4]);
}

#[test]
fn rolled_sword_damage_with_great_strength_lies_between_4_and_11() {
    let attacker = sheet("A", 1, 18, 10);
    let mut lowest = i16::MAX;
    let mut highest = i16::MIN;
    for _ in 0..600 {
        let damage = calculate_damage(&attacker, Some("sword"));
        assert!((4..=11).contains(&damage), "damage {}", damage);
        lowest = lowest.min(damage);
        highest = highest.max(damage);
    }
    assert_eq!(lowest, 4);
    assert_eq!(highest, 11);
}

#[test]
fn rolled_attack_deals_damage_exactly_when_it_hits() {
    let attacker = sheet("A", 1, 10, 10);
    let target = sheet("T", 1, 10, 11);
    let mut hits = 0;
    let mut misses = 0;
    for _ in 0..500 {
        let (hit, damage) = roll_attack(&attacker, &target, Some("sword"));
        if hit {
            assert!((1..=8).contains(&damage), "damage {}", damage);
            hits += 1;
        } else {
            assert_eq!(damage, 0);
            misses += 1;
        }
    }
    assert!(hits > 0);
    assert!(misses > 0);
}

#[test]
fn rolled_attack_always_hits_a_low_armor_class_and_never_a_high_one() {
    let attacker = sheet("A", 1, 10, 10);
    let soft = sheet("Soft", 1, 10, 1);
    let hard = sheet("Hard", 1, 10, 21);
    for _ in 0..200 {
        let (hit, damage) = roll_attack(&attacker, &soft, None);
        assert!(hit);
        assert!((1..=4).contains(&damage));
        assert_eq!(roll_attack(&attacker, &hard, None), (false, 0));
    }
}
