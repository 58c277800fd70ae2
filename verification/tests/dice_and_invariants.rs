use old_school_rpg::character::{Character, CharacterClass, CharacterStats};
use old_school_rpg::combat::{Combat, CombatState};
use old_school_rpg::dice::{roll_dice, roll_die};
use old_school_rpg::effects::{EffectType, StatusEffect};
use old_school_rpg::encounter::{advance, AttackEvent};
use old_school_rpg::roster::{Combatant, Roster};

fn sheet(name: &str, dexterity: u8, hit_points: i16) -> Character {
    let stats = CharacterStats {
        strength: 13,
        dexterity,
        constitution: 10,
        intelligence: 10,
        wisdom: 10,
        charisma: 10,
    };
    let mut character = Character::with_stats(name.to_string(), CharacterClass::Dwarf, stats);
    character.hit_points.current = hit_points;
    character.hit_points.maximum = hit_points;
    character
}

#[test]
fn die_shows_every_face_and_no_other() {
    let mut rng = rand::thread_rng();
    for sides in [1u8, 4, 6, 8, 20] {
        let mut seen = vec![false; sides as usize + 1];
        for _ in 0..2000 {
            let face = roll_die(&mut rng, sides);
            assert!(face >= 1 && face <= sides, "d{} showed {}", sides, face);
            seen[face as usize] = true;
        }
        assert!(seen[1..].iter().all(|&s| s), "d{} missed a face", sides);
    }
}

#[test]
fn largest_die_stays_in_range() {
    let mut rng = rand::thread_rng();
    let mut highest = 0;
    for _ in 0..5000 {
        let face = roll_die(&mut rng, 255);
        assert!(face >= 1);
        highest = highest.max(face);
    }
    assert!(highest > 200);
}

#[test]
fn dice_total_lies_between_count_and_count_times_sides() {
    let mut rng = rand::thread_rng();
    assert_eq!(roll_dice(&mut rng, 0, 6), 0);
    assert_eq!(roll_dice(&mut rng, 7, 1), 7);
    let mut lowest = u32::MAX;
    let mut highest = 0;
    for _ in 0..3000 {
        let total = roll_dice(&mut rng, 2, 6);
        assert!((2..=12).contains(&total));
        lowest = lowest.min(total);
        highest = highest.max(total);
    }
    assert_eq!(lowest, 2);
    assert_eq!(highest, 12);
    let many = roll_dice(&mut rng, 255, 255);
    assert!((255..=65025).contains(&many));
}

#[test]
fn current_combatant_stays_in_the_order_throughout_an_encounter() {
    for trial in 0..30u64 {
        let mut roster = Roster::new();
        let mut combat = Combat::new();
        for place in 0..5u64 {
            let is_player = place % 2 == 0;
            let effects = if place == 1 {
                vec![StatusEffect {
                    name: "venom".to_string(),
                    duration: 3,
                    effect_type: EffectType::Poison,
                    magnitude: 1,
                }]
            } else {
                Vec::new()
            };
            let combatant = Combatant {
                initiative: 0,
                is_player,
                actions_remaining: 3,
                status_effects: effects,
            };
            let id = 10 * trial + place;
            roster.insert(id, combatant, sheet("Someone", 3 + 3 * place as u8, 4));
            combat.add_combatant(id);
        }
        let mut joined = combat.combatants.clone();
        joined.sort();
        let enemy = 10 * trial + 1;
        for _ in 0..60 {
            let decision = combat.current_combatant.map(|attacker| AttackEvent {
                attacker,
                target: enemy,
                weapon: Some("mace".to_string()),
                spell: None,
            });
            let before = combat.state;
            advance(&mut combat, &mut roster, decision);
            if before == CombatState::Victory || before == CombatState::Defeat {
                assert_eq!(combat.state, before);
            }
            assert_ne!(combat.state, CombatState::Initiative);
            let mut order = combat.initiative_order.clone();
            order.sort();
            assert_eq!(order, joined);
            let current = combat.current_combatant.unwrap();
            assert!(combat.initiative_order.contains(&current));
            assert!(combat.round >= 1 && combat.turn >= combat.round);
            for entry in roster.entries.iter() {
                assert!(entry.character.hit_points.current >= 0);
                assert!(entry.character.hit_points.current <= entry.character.hit_points.maximum);
                assert!(entry.combatant.status_effects.iter().all(|effect| effect.duration >= 1));
            }
        }
    }
}
