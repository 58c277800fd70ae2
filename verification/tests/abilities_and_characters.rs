use old_school_rpg::abilities::ability_score_from_rolls;
use old_school_rpg::character::{Character, CharacterClass, CharacterStats, HitPoints};

fn stats(strength: u8, dexterity: u8, constitution: u8) -> CharacterStats {
    CharacterStats {
        strength,
        dexterity,
        constitution,
        intelligence: 10,
        wisdom: 10,
        charisma: 10,
    }
}

fn all_classes() -> Vec<CharacterClass> {
    vec![
        CharacterClass::Fighter,
        CharacterClass::MagicUser,
        CharacterClass::Cleric,
        CharacterClass::Thief,
        CharacterClass::Dwarf,
        CharacterClass::Elf,
        CharacterClass::Halfling,
    ]
}

#[test]
fn strength_modifier_follows_the_table() {
    let expected: [i8; 22] = [0, 0, 0, -3, -2, -2, -1, -1, -1, 0, 0, 0, 0, 1, 1, 1, 2, 2, 3, 0, 0, 0];
    for score in 0..expected.len() {
        assert_eq!(Character::get_strength_modifier(score as u8), expected[score], "score {}", score);
    }
    assert_eq!(Character::get_strength_modifier(255), 0);
}

#[test]
fn dexterity_modifier_follows_the_table() {
    let expected: [i8; 22] = [0, 0, 0, -3, -2, -2, -1, -1, -1, 0, 0, 0, 0, 1, 1, 1, 2, 2, 3, 0, 0, 0];
    for score in 0..expected.len() {
        assert_eq!(Character::get_dexterity_modifier(score as u8), expected[score], "score {}", score);
    }
    assert_eq!(Character::get_dexterity_modifier(255), 0);
}

#[test]
fn constitution_modifier_follows_its_own_table() {
    let expected: [i16; 22] = [0, 0, 0, -2, -1, -1, -1, -1, -1, 0, 0, 0, 0, 1, 1, 1, 2, 2, 2, 0, 0, 0];
    for score in 0..expected.len() {
        assert_eq!(
            Character::get_constitution_modifier(score as u8),
            expected[score],
            "score {}",
            score
        );
    }
    assert_eq!(Character::get_constitution_modifier(255), 0);
}

#[test]
fn constitution_differs_from_strength_at_the_ends_only() {
    for score in 0..=255u8 {
        let differs = Character::get_constitution_modifier(score)
            != Character::get_strength_modifier(score) as i16;
        assert_eq!(differs, score == 3 || score == 4 || score == 5 || score == 18, "score {}", score);
    }
}

#[test]
fn ability_score_drops_the_lowest_die() {
    assert_eq!(ability_score_from_rolls(1, 1, 1, 1), 3);
    assert_eq!(ability_score_from_rolls(6, 6, 6, 6), 18);
    assert_eq!(ability_score_from_rolls(3, 4, 5, 6), 15);
    assert_eq!(ability_score_from_rolls(6, 5, 4, 3), 15);
    assert_eq!(ability_score_from_rolls(6, 1, 6, 6), 18);
    assert_eq!(ability_score_from_rolls(2, 2, 1, 2), 6);
    assert_eq!(ability_score_from_rolls(4, 4, 4, 1), 12);
}

#[test]
fn ability_score_is_the_sum_less_the_minimum_for_all_dice() {
    for a in 1..=6u8 {
        for b in 1..=6u8 {
            for c in 1..=6u8 {
                for d in 1..=6u8 {
                    let lowest = a.min(b).min(c).min(d);
                    let score = ability_score_from_rolls(a, b, c, d);
                    assert_eq!(score, a + b + c + d - lowest);
                    assert!((3..=18).contains(&score));
                }
            }
        }
    }
}

#[test]
fn rolled_stats_lie_between_3_and_18_and_vary() {
    let mut seen = [false; 19];
    for _ in 0..300 {
        let rolled = CharacterStats::roll();
        for score in [
            rolled.strength,
            rolled.dexterity,
            rolled.constitution,
            rolled.intelligence,
            rolled.wisdom,
            rolled.charisma,
        ] {
            assert!((3..=18).contains(&score), "score {}", score);
            seen[score as usize] = true;
        }
    }
    let distinct = seen.iter().filter(|&&s| s).count();
    assert!(distinct >= 8, "only {} distinct scores in 1800 rolls", distinct);
}

#[test]
fn armor_class_is_ten_plus_dexterity_modifier() {
    assert_eq!(Character::calculate_armor_class(&stats(10, 3, 10)), 7);
    assert_eq!(Character::calculate_armor_class(&stats(10, 5, 10)), 8);
    assert_eq!(Character::calculate_armor_class(&stats(10, 8, 10)), 9);
    assert_eq!(Character::calculate_armor_class(&stats(10, 10, 10)), 10);
    assert_eq!(Character::calculate_armor_class(&stats(10, 14, 10)), 11);
    assert_eq!(Character::calculate_armor_class(&stats(10, 16, 10)), 12);
    assert_eq!(Character::calculate_armor_class(&stats(10, 18, 10)), 13);
    assert_eq!(Character::calculate_armor_class(&stats(10, 19, 10)), 10);
}

#[test]
fn starting_hit_points_by_class_and_constitution() {
    let base: [i16; 7] = [10, 4, 8, 6, 8, 6, 6];
    for (class, base) in all_classes().iter().zip(base) {
        let average = HitPoints::new(class, &stats(10, 10, 10), 1);
        assert_eq!(average.current, base);
        assert_eq!(average.maximum, base);
        let frail = HitPoints::new(class, &stats(10, 10, 3), 1);
        assert_eq!(frail.maximum, base - 2);
        assert_eq!(frail.current, base - 2);
        let weak = HitPoints::new(class, &stats(10, 10, 5), 1);
        assert_eq!(weak.maximum, base - 1);
        let hardy = HitPoints::new(class, &stats(10, 10, 18), 1);
        assert_eq!(hardy.maximum, base + 2);
    }
}

#[test]
fn starting_hit_points_do_not_depend_on_the_level_given() {
    let low = HitPoints::new(&CharacterClass::Cleric, &stats(10, 10, 13), 1);
    let high = HitPoints::new(&CharacterClass::Cleric, &stats(10, 10, 13), 9);
    assert_eq!(low.maximum, 9);
    assert_eq!(high.maximum, 9);
    assert_eq!(high.current, 9);
}

#[test]
fn with_stats_builds_a_first_level_sheet() {
    let hero = Character::with_stats("Aria".to_string(), CharacterClass::Fighter, stats(16, 14, 13));
    assert_eq!(hero.name, "Aria");
    assert_eq!(hero.class, CharacterClass::Fighter);
    assert_eq!(hero.level, 1);
    assert_eq!(hero.experience, 0);
    assert_eq!(hero.stats.strength, 16);
    assert_eq!(hero.stats.dexterity, 14);
    assert_eq!(hero.stats.constitution, 13);
    assert_eq!(hero.hit_points.maximum, 11);
    assert_eq!(hero.hit_points.current, 11);
    assert_eq!(hero.armor_class, 11);
    assert!(hero.spells.is_empty());
}

#[test]
fn new_character_is_consistent_with_its_rolled_stats() {
    for class in all_classes() {
        for _ in 0..20 {
            let sheet = Character::new("Wanderer".to_string(), class);
            assert_eq!(sheet.name, "Wanderer");
            assert_eq!(sheet.class, class);
            assert_eq!(sheet.level, 1);
            assert_eq!(sheet.experience, 0);
            assert!((3..=18).contains(&sheet.stats.strength));
            assert!((3..=18).contains(&sheet.stats.charisma));
            let expected = HitPoints::new(&class, &sheet.stats, 1);
            assert_eq!(sheet.hit_points.maximum, expected.maximum);
            assert_eq!(sheet.hit_points.current, expected.maximum);
            assert_eq!(sheet.armor_class, Character::calculate_armor_class(&sheet.stats));
            assert!(sheet.spells.is_empty());
        }
    }
}

#[test]
fn experience_needed_grows_with_level_by_class() {
    let per_level: [u32; 7] = [2000, 2500, 1500, 1200, 2200, 4000, 2000];
    for (class, step) in all_classes().into_iter().zip(per_level) {
        let mut sheet = Character::with_stats("Test".to_string(), class, stats(10, 10, 10));
        assert_eq!(sheet.get_xp_for_next_level(), step);
        sheet.level = 3;
        assert_eq!(sheet.get_xp_for_next_level(), 3 * step);
        sheet.level = 255;
        assert_eq!(sheet.get_xp_for_next_level(), 255 * step);
    }
}

#[test]
fn hit_points_per_level_never_drop_below_one() {
    let mage = Character::with_stats("Mage".to_string(), CharacterClass::MagicUser, stats(10, 10, 3));
    assert_eq!(mage.calculate_hit_points(), 2);
    let fighter = Character::with_stats("Tank".to_string(), CharacterClass::Fighter, stats(10, 10, 17));
    assert_eq!(fighter.calculate_hit_points(), 12);
    let thief = Character::with_stats("Sly".to_string(), CharacterClass::Thief, stats(10, 10, 8));
    assert_eq!(thief.calculate_hit_points(), 5);
}

#[test]
fn level_up_raises_level_and_both_hit_point_counts() {
    let mut hero = Character::with_stats("Aria".to_string(), CharacterClass::Fighter, stats(10, 10, 16));
    hero.hit_points.current = 5;
    hero.level_up();
    assert_eq!(hero.level, 2);
    assert_eq!(hero.hit_points.maximum, 24);
    assert_eq!(hero.hit_points.current, 17);
    assert_eq!(hero.experience, 0);
    assert_eq!(hero.name, "Aria");
}

#[test]
fn gain_experience_below_threshold_keeps_the_level() {
    let mut hero = Character::with_stats("Aria".to_string(), CharacterClass::Fighter, stats(10, 10, 10));
    hero.gain_experience(1999);
    assert_eq!(hero.experience, 1999);
    assert_eq!(hero.level, 1);
    assert_eq!(hero.hit_points.maximum, 10);
}

#[test]
fn gain_experience_at_threshold_gains_one_level() {
    let mut hero = Character::with_stats("Aria".to_string(), CharacterClass::Fighter, stats(10, 10, 10));
    hero.gain_experience(2000);
    assert_eq!(hero.experience, 2000);
    assert_eq!(hero.level, 2);
    assert_eq!(hero.hit_points.maximum, 20);
    assert_eq!(hero.hit_points.current, 20);
}

#[test]
fn gain_experience_gains_at_most_one_level_per_call() {
    let mut thief = Character::with_stats("Sly".to_string(), CharacterClass::Thief, stats(10, 10, 10));
    thief.gain_experience(100_000);
    assert_eq!(thief.level, 2);
    assert_eq!(thief.experience, 100_000);
    thief.check_level_up();
    assert_eq!(thief.level, 3);
    assert_eq!(thief.hit_points.maximum, 18);
}

#[test]
fn check_level_up_without_enough_experience_changes_nothing() {
    let mut elf = Character::with_stats("Lia".to_string(), CharacterClass::Elf, stats(10, 10, 10));
    elf.experience = 3999;
    elf.check_level_up();
    assert_eq!(elf.level, 1);
    assert_eq!(elf.hit_points.maximum, 6);
    elf.experience = 4000;
    elf.check_level_up();
    assert_eq!(elf.level, 2);
    assert_eq!(elf.hit_points.maximum, 12);
}

#[test]
fn take_damage_stops_at_zero() {
    let mut hero = Character::with_stats("Aria".to_string(), CharacterClass::Fighter, stats(10, 10, 10));
    hero.take_damage(3);
    assert_eq!(hero.hit_points.current, 7);
    assert_eq!(hero.hit_points.maximum, 10);
    assert!(hero.is_alive());
    hero.take_damage(7);
    assert_eq!(hero.hit_points.current, 0);
    assert!(!hero.is_alive());
    hero.hit_points.current = 4;
    hero.take_damage(i16::MAX);
    assert_eq!(hero.hit_points.current, 0);
    hero.hit_points.current = -5;
    hero.take_damage(i16::MAX);
    assert_eq!(hero.hit_points.current, 0);
    hero.take_damage(0);
    assert_eq!(hero.hit_points.current, 0);
}

#[test]
fn heal_stops_at_the_maximum() {
    let mut hero = Character::with_stats("Aria".to_string(), CharacterClass::Fighter, stats(10, 10, 10));
    hero.hit_points.current = 2;
    hero.heal(5);
    assert_eq!(hero.hit_points.current, 7);
    hero.heal(5);
    assert_eq!(hero.hit_points.current, 10);
    hero.heal(i16::MAX);
    assert_eq!(hero.hit_points.current, 10);
    assert_eq!(hero.hit_points.maximum, 10);
}

#[test]
fn is_alive_needs_a_positive_hit_point() {
    let mut hero = Character::with_stats("Aria".to_string(), CharacterClass::Fighter, stats(10, 10, 10));
    assert!(hero.is_alive());
    hero.hit_points.current = 1;
    assert!(hero.is_alive());
    hero.hit_points.current = 0;
    assert!(!hero.is_alive());
    hero.hit_points.current = -1;
    assert!(!hero.is_alive());
}
