//! Status effects: timed conditions on a combatant. When a round ends they
//! take effect, and are then counted down.

use crate::character::Character;
use crate::sequences::lemma_filter_push;
use vstd::prelude::*;

verus! {

/// What a status effect does to the combatant that carries it.
#[derive(Debug, Clone, Copy, PartialEq, Eq, Structural)]
pub enum EffectType {
    Damage,
    Healing,
    StatModifier,
    Stun,
    Poison,
}

/// A timed effect on a combatant. `duration` counts the rounds it still
/// lasts.
#[derive(Debug, Clone)]
pub struct StatusEffect {
    pub name: String,
    pub duration: u8,
    pub effect_type: EffectType,
    pub magnitude: i16,
}

impl StatusEffect {
    /// Whether the effect is still there after the round that now ends.
    pub open spec fn outlasts_round(self) -> bool {
        self.duration > 1
    }

    /// The effect one round later.
    pub open spec fn aged(self) -> StatusEffect {
        StatusEffect { duration: (self.duration - 1) as u8, ..self }
    }

    /// The damage that the effect deals when a round ends: the magnitude of
    /// a damage or poison effect, if it is positive.
    pub open spec fn round_damage(self) -> int {
        if (self.effect_type == EffectType::Damage || self.effect_type == EffectType::Poison)
            && self.magnitude > 0 {
            self.magnitude as int
        } else {
            0
        }
    }

    /// The hit points that the effect gives back when a round ends: the
    /// magnitude of a healing effect, if it is positive.
    pub open spec fn round_healing(self) -> int {
        if self.effect_type == EffectType::Healing && self.magnitude > 0 {
            self.magnitude as int
        } else {
            0
        }
    }

    /// Whether the effect keeps its bearer from acting.
    pub open spec fn stuns(self) -> bool {
        self.effect_type == EffectType::Stun
    }
}

/// The character after one effect has taken effect at the end of a round.
///
/// Damage and poison take hit points, which do not drop below zero. Healing
/// gives hit points back, up to the maximum. A stun does not touch the
/// sheet: it keeps its bearer from acting. A stat modifier does not touch it
/// either: which stat it stands for, and where that stat counts, is for the
/// rules that inflict it to say.
pub open spec fn affected(character: Character, effect: StatusEffect) -> Character {
    if effect.round_damage() > 0 {
        character.with_current_hit_points(
            character.hit_points_after_damage(effect.round_damage()) as i16,
        )
    } else if effect.round_healing() > 0 {
        character.with_current_hit_points(
            character.hit_points_after_healing(effect.round_healing()) as i16,
        )
    } else {
        character
    }
}

/// The character after all effects have taken effect, one after the other in
/// the order of the list.
pub open spec fn character_after_effects(character: Character, effects: Seq<StatusEffect>) -> Character
    decreases effects.len(),
{
    if effects.len() == 0 {
        character
    } else {
        affected(character_after_effects(character, effects.drop_last()), effects.last())
    }
}

/// Whether one of the effects keeps its bearer from acting.
pub open spec fn is_stunned(effects: Seq<StatusEffect>) -> bool {
    exists|i: int| 0 <= i < effects.len() && (#[trigger] effects[i]).stuns()
}

/// The effects that are left when a round ends: those that last longer, each
/// with one round less to go, in their old order.
pub open spec fn effects_after_round(effects: Seq<StatusEffect>) -> Seq<StatusEffect> {
    effects.filter(|effect: StatusEffect| effect.outlasts_round()).map_values(
        |effect: StatusEffect| effect.aged(),
    )
}

/// Lets one effect take effect on a character, as it does when a round ends.
pub fn apply_status_effect(character: &mut Character, effect: &StatusEffect)
    ensures
        *final(character) == affected(*old(character), *effect),
{
    match effect.effect_type {
        EffectType::Damage | EffectType::Poison => {
            if effect.magnitude > 0 {
                character.take_damage(effect.magnitude);
            }
        },
        EffectType::Healing => {
            if effect.magnitude > 0 {
                character.heal(effect.magnitude);
            }
        },
        EffectType::Stun => {},
        EffectType::StatModifier => {},
    }
}

/// Lets all effects of a list take effect on a character, in the order of
/// the list.
pub fn apply_status_effects(character: &mut Character, effects: &Vec<StatusEffect>)
    ensures
        *final(character) == character_after_effects(*old(character), effects@),
{
    let mut i: usize = 0;
    while i < effects.len()
        invariant
            i <= effects.len(),
            *character == character_after_effects(*old(character), effects@.take(i as int)),
        decreases effects.len() - i,
    {
        assert(effects@.take(i + 1).drop_last() =~= effects@.take(i as int));
        apply_status_effect(character, &effects[i]);
        i = i + 1;
    }
    assert(effects@.take(effects.len() as int) =~= effects@);
}

/// Tells whether one of the effects keeps its bearer from acting.
pub fn has_stun(effects: &Vec<StatusEffect>) -> (stunned: bool)
    ensures
        stunned == is_stunned(effects@),
{
    let mut i: usize = 0;
    while i < effects.len()
        invariant
            i <= effects.len(),
            forall|j: int| 0 <= j < i ==> !(#[trigger] effects@[j]).stuns(),
        decreases effects.len() - i,
    {
        match effects[i].effect_type {
            EffectType::Stun => {
                return true;
            },
            _ => {},
        }
        i = i + 1;
    }
    false
}

/// Ends a round for a list of effects: every duration drops by one, and an
/// effect whose duration would reach zero leaves the list.
pub fn tick_status_effects(effects: &mut Vec<StatusEffect>)
    ensures
        final(effects)@ == effects_after_round(old(effects)@),
{
    let mut pending: Vec<StatusEffect> = Vec::new();
    core::mem::swap(effects, &mut pending);
    let ghost before = pending@;
    for effect in it: pending
        invariant
            it.seq() == before,
            effects@ == effects_after_round(before.take(it.index())),
    {
        proof {
            assert(before.take(it.index() + 1) =~= before.take(it.index()).push(effect));
            lemma_after_round_push(before.take(it.index()), effect);
        }
        let mut effect = effect;
        if effect.duration > 1 {
            effect.duration = effect.duration - 1;
            effects.push(effect);
        }
    }
    proof {
        assert(before.take(before.len() as int) =~= before);
    }
}

/// One more effect at the end of a list is, after the round, one more at
/// the end if it lasts, and nothing if it does not.
pub proof fn lemma_after_round_push(effects: Seq<StatusEffect>, effect: StatusEffect)
    ensures
        effects_after_round(effects.push(effect)) == if effect.outlasts_round() {
            effects_after_round(effects).push(effect.aged())
        } else {
            effects_after_round(effects)
        },
{
    lemma_filter_push(effects, effect, |effect: StatusEffect| effect.outlasts_round());
}

/// No effect is ever kept with no rounds left: every effect that is there
/// after a round lasts at least one round more.
pub proof fn lemma_no_spent_effect_kept(effects: Seq<StatusEffect>)
    ensures
        forall|i: int|
            0 <= i < effects_after_round(effects).len() ==> (#[trigger] effects_after_round(
                effects,
            )[i]).duration >= 1,
{
    let lasts = |effect: StatusEffect| effect.outlasts_round();
}

/// Every effect that is there after a round was there before with more than
/// one round left, and is now one round older. So an effect in its last
/// round is removed by the pass in which its duration would reach zero.
pub proof fn lemma_after_round_origin(effects: Seq<StatusEffect>, j: int)
    requires
        0 <= j < effects_after_round(effects).len(),
    ensures
        exists|i: int|
            0 <= i < effects.len() && effects[i].outlasts_round() && effects_after_round(
                effects,
            )[j] == (#[trigger] effects[i]).aged(),
{
    let lasts = |effect: StatusEffect| effect.outlasts_round();
    let kept = effects.filter(lasts);
    effects.lemma_filter_pred(lasts, j);
    effects.lemma_filter_contains_rev(lasts, kept[j]);
    let i = choose|i: int| 0 <= i < effects.len() && effects[i] == kept[j];
}

/// An effect in its last round, or one that was stored with none left, is
/// gone after one pass: alone in a list it leaves the list empty. One with
/// more rounds to go stays, a round older.
pub proof fn lemma_single_effect_after_round(effect: StatusEffect)
    ensures
        effect.duration <= 1 ==> effects_after_round(seq![effect]) == Seq::<StatusEffect>::empty(),
        effect.duration > 1 ==> effects_after_round(seq![effect]) == seq![effect.aged()],
{
    lemma_after_round_push(Seq::<StatusEffect>::empty(), effect);
}

} // verus!
