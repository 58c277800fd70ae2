//! Initiative: every combatant rolls once, and the combatants then act in the
//! order of their scores, highest first.

use crate::abilities::standard_modifier;
use crate::character::Character;
use crate::combat::{Combat, CombatState, CombatView};
use crate::dice::roll_die;
use crate::roster::{place_of, CombatantView, EntryView, Roster};
use crate::sequences::{
    lemma_filter_first, lemma_filter_keeps_count, lemma_filter_nothing, lemma_filter_push,
};
use vstd::prelude::*;

verus! {

/// The score that stands for a combatant who is not on the roster: lower
/// than any score a combatant can have, so that such a combatant acts after
/// all the others.
pub open spec fn unlisted_initiative() -> int {
    i8::MIN - 1
}

/// The initiative score by which a combatant is placed in the order.
pub open spec fn initiative_of(roster: Seq<EntryView>, id: u64) -> int {
    match place_of(roster, id) {
        Some(i) => roster[i].combatant.initiative as int,
        None => unlisted_initiative(),
    }
}

/// The combatants whose initiative score is `score`.
pub open spec fn has_initiative(roster: Seq<EntryView>, score: int) -> spec_fn(u64) -> bool {
    |id: u64| initiative_of(roster, id) == score
}

/// Whether the scores never rise along the order.
pub open spec fn is_descending(order: Seq<u64>, roster: Seq<EntryView>) -> bool {
    forall|i: int, j: int|
        0 <= i < j < order.len() ==> initiative_of(roster, #[trigger] order[i]) >= initiative_of(
            roster,
            #[trigger] order[j],
        )
}

/// Whether `order` is the turn order of `combatants`: the scores never rise
/// along it, and the combatants of each score stand in it as they stand
/// among `combatants`, one after the other and as often. So the order holds
/// the same identifiers as `combatants`, and a tie is broken by who joined
/// the encounter first.
pub open spec fn is_turn_order(order: Seq<u64>, combatants: Seq<u64>, roster: Seq<EntryView>) -> bool {
    &&& is_descending(order, roster)
    &&& forall|score: int|
        order.filter(#[trigger] has_initiative(roster, score)) == combatants.filter(
            has_initiative(roster, score),
        )
}

/// The initiative score from a die and a dexterity score.
pub open spec fn initiative_score(die: int, dexterity: int) -> int {
    die + standard_modifier(dexterity)
}

/// Whether `after` is `before` with a freshly rolled initiative: one
/// six-sided die plus the dexterity modifier. Nothing else differs.
pub open spec fn is_initiative_roll(before: EntryView, after: EntryView) -> bool {
    exists|die: int|
        1 <= die <= 6 && after == (EntryView {
            combatant: CombatantView {
                initiative: #[trigger] initiative_score(
                    die,
                    before.character.stats.dexterity as int,
                ) as i8,
                ..before.combatant
            },
            ..before
        })
}

/// Whether `after` is the roster `before` with every initiative rolled
/// afresh.
pub open spec fn is_initiative_rolled(before: Seq<EntryView>, after: Seq<EntryView>) -> bool {
    &&& after.len() == before.len()
    &&& forall|i: int| 0 <= i < before.len() ==> is_initiative_roll(before[i], #[trigger] after[i])
}

/// Whether `after` is the encounter `before` with its turn order set: the
/// order is the turn order of the combatants, the first in it is current,
/// nobody is current if nobody takes part, and the phase is the players'
/// turn. Counters and combatants are as before.
pub open spec fn is_turn_order_set(before: CombatView, after: CombatView, roster: Seq<EntryView>) -> bool {
    &&& is_turn_order(after.initiative_order, before.combatants, roster)
    &&& after == (CombatView {
        initiative_order: after.initiative_order,
        current_combatant: if after.initiative_order.len() > 0 {
            Some(after.initiative_order[0])
        } else {
            None
        },
        state: CombatState::PlayerTurn,
        ..before
    })
}

/// A combatant placed behind all that score as high or higher, and before
/// all that score lower, leaves the scores descending; and among the
/// combatants of each score it stands last, as if it had been put at the end.
pub proof fn lemma_place_by_initiative(order: Seq<u64>, place: int, id: u64, roster: Seq<EntryView>)
    requires
        is_descending(order, roster),
        0 <= place <= order.len(),
        forall|j: int|
            0 <= j < place ==> initiative_of(roster, #[trigger] order[j]) >= initiative_of(
                roster,
                id,
            ),
        forall|j: int|
            place <= j < order.len() ==> initiative_of(roster, #[trigger] order[j])
                < initiative_of(roster, id),
    ensures
        is_descending(order.insert(place, id), roster),
        forall|score: int|
            order.insert(place, id).filter(#[trigger] has_initiative(roster, score)) == order.push(
                id,
            ).filter(has_initiative(roster, score)),
{
    let placed = order.insert(place, id);
    assert forall|i: int, j: int| 0 <= i < j < placed.len() implies initiative_of(
        roster,
        #[trigger] placed[i],
    ) >= initiative_of(roster, #[trigger] placed[j]) by {
        if i < place {
            assert(placed[i] == order[i]);
        } else if i > place {
            assert(placed[i] == order[i - 1]);
        }
        if j < place {
            assert(placed[j] == order[j]);
        } else if j > place {
            assert(placed[j] == order[j - 1]);
        }
    }
    let front = order.take(place);
    let back = order.skip(place);
    assert(placed =~= front.push(id) + back);
    assert(order.push(id) =~= front + back.push(id));
    assert forall|score: int|
        placed.filter(#[trigger] has_initiative(roster, score)) == order.push(id).filter(
            has_initiative(roster, score),
        ) by {
        let keep = has_initiative(roster, score);
        Seq::filter_distributes_over_add(front.push(id), back, keep);
        Seq::filter_distributes_over_add(front, back.push(id), keep);
        lemma_filter_push(front, id, keep);
        lemma_filter_push(back, id, keep);
        if keep(id) {
            assert forall|i: int| 0 <= i < back.len() implies !keep(#[trigger] back[i]) by {
                assert(back[i] == order[place + i]);
            }
            lemma_filter_nothing(back, keep);
            assert(front.filter(keep).push(id) + Seq::<u64>::empty() =~= front.filter(keep)
                + Seq::<u64>::empty().push(id));
        }
    }
}

/// A turn order holds every combatant as often as the encounter does: it is
/// a rearrangement of the combatants.
pub proof fn lemma_turn_order_is_permutation(
    order: Seq<u64>,
    combatants: Seq<u64>,
    roster: Seq<EntryView>,
)
    requires
        is_turn_order(order, combatants, roster),
    ensures
        order.to_multiset() == combatants.to_multiset(),
        order.len() == combatants.len(),
{
    broadcast use vstd::seq_lib::group_to_multiset_ensures;

    assert forall|id: u64| order.to_multiset().count(id) == combatants.to_multiset().count(id) by {
        let keep = has_initiative(roster, initiative_of(roster, id));
        lemma_filter_keeps_count(order, keep, id);
        lemma_filter_keeps_count(combatants, keep, id);
    }
    assert(order.to_multiset() =~= combatants.to_multiset());
    order.to_multiset_ensures();
    combatants.to_multiset_ensures();
}

/// Two descending orders that agree on the combatants of every score, and
/// on their order, are the same order.
pub proof fn lemma_same_order(left: Seq<u64>, right: Seq<u64>, roster: Seq<EntryView>)
    requires
        is_descending(left, roster),
        is_descending(right, roster),
        forall|score: int|
            left.filter(#[trigger] has_initiative(roster, score)) == right.filter(
                has_initiative(roster, score),
            ),
    ensures
        left == right,
    decreases left.len(),
{
    lemma_turn_order_is_permutation(left, right, roster);
    if left.len() == 0 {
        assert(left =~= right);
    } else {
        let left_score = initiative_of(roster, left[0]);
        let right_score = initiative_of(roster, right[0]);
        let keep_left = has_initiative(roster, left_score);
        let keep_right = has_initiative(roster, right_score);
        lemma_filter_first(left, keep_left);
        lemma_filter_first(right, keep_right);
        // The first on either side has a counterpart of its score on the
        // other side, which cannot stand before the first there.
        assert(left.filter(keep_left)[0] == left[0]);
        assert(right.filter(keep_left).contains(left[0]));
        right.lemma_filter_contains_rev(keep_left, left[0]);
        assert(right.contains(left[0]));
        assert(right.filter(keep_right)[0] == right[0]);
        assert(left.filter(keep_right).contains(right[0]));
        left.lemma_filter_contains_rev(keep_right, right[0]);
        assert(left.contains(right[0]));
        assert(left_score == right_score);
        lemma_filter_first(right, keep_left);
        assert(right.filter(keep_left)[0] == right[0]);
        assert(left[0] == right[0]);
        let left_rest = left.drop_first();
        let right_rest = right.drop_first();
        assert forall|score: int|
            left_rest.filter(#[trigger] has_initiative(roster, score)) == right_rest.filter(
                has_initiative(roster, score),
            ) by {
            let keep = has_initiative(roster, score);
            lemma_filter_first(left, keep);
            lemma_filter_first(right, keep);
            if keep(left[0]) {
                assert(left_rest.filter(keep) =~= left.filter(keep).drop_first());
                assert(right_rest.filter(keep) =~= right.filter(keep).drop_first());
            }
        }
        assert(is_descending(left_rest, roster)) by {
            assert forall|i: int, j: int| 0 <= i < j < left_rest.len() implies initiative_of(
                roster,
                #[trigger] left_rest[i],
            ) >= initiative_of(roster, #[trigger] left_rest[j]) by {
                assert(left_rest[i] == left[i + 1]);
                assert(left_rest[j] == left[j + 1]);
            }
        }
        assert(is_descending(right_rest, roster)) by {
            assert forall|i: int, j: int| 0 <= i < j < right_rest.len() implies initiative_of(
                roster,
                #[trigger] right_rest[i],
            ) >= initiative_of(roster, #[trigger] right_rest[j]) by {
                assert(right_rest[i] == right[i + 1]);
                assert(right_rest[j] == right[j + 1]);
            }
        }
        lemma_same_order(left_rest, right_rest, roster);
        assert(left =~= seq![left[0]] + left_rest);
        assert(right =~= seq![right[0]] + right_rest);
    }
}

/// The combatants and their scores decide the turn order: there is only
/// one.
pub proof fn lemma_turn_order_unique(
    first: Seq<u64>,
    second: Seq<u64>,
    combatants: Seq<u64>,
    roster: Seq<EntryView>,
)
    requires
        is_turn_order(first, combatants, roster),
        is_turn_order(second, combatants, roster),
    ensures
        first == second,
{
    lemma_same_order(first, second, roster);
}

/// With no combatants the turn order is empty and nobody is current.
pub proof fn lemma_empty_encounter_has_no_turn(
    before: CombatView,
    after: CombatView,
    roster: Seq<EntryView>,
)
    requires
        is_turn_order_set(before, after, roster),
        before.combatants.len() == 0,
    ensures
        after.initiative_order.len() == 0,
        after.current_combatant is None,
{
    lemma_turn_order_is_permutation(after.initiative_order, before.combatants, roster);
}

/// Setting the turn order leaves the encounter well formed: whoever is
/// current stands in the order, and the order is a rearrangement of the
/// combatants.
pub proof fn lemma_turn_order_set_well_formed(
    before: CombatView,
    after: CombatView,
    roster: Seq<EntryView>,
)
    requires
        is_turn_order_set(before, after, roster),
    ensures
        after.well_formed(),
{
    lemma_turn_order_is_permutation(after.initiative_order, before.combatants, roster);
}

/// Computes the initiative score that a die gives a combatant of the given
/// dexterity.
pub fn initiative_for(die: u8, dexterity: u8) -> (score: i8)
    requires
        initiative_score(die as int, dexterity as int) <= i8::MAX,
    ensures
        score == initiative_score(die as int, dexterity as int),
{
    let modifier: i8 = Character::get_dexterity_modifier(dexterity);
    (die as i16 + modifier as i16) as i8
}

fn score_on_roster(roster: &Roster, id: u64) -> (score: i16)
    ensures
        score == initiative_of(roster@, id),
{
    match roster.find(id) {
        Some(i) => roster.entries[i].combatant.initiative as i16,
        None => -129,
    }
}

impl Combat {
    /// Sets the turn order from the initiative scores on the roster, makes
    /// the first combatant in it current, and passes to the players' turn.
    ///
    /// The combatants act by descending score. Those of equal score act in
    /// the order in which they joined the encounter. A combatant who is not
    /// on the roster acts after all who are.
    pub fn order_by_initiative(&mut self, roster: &Roster)
        ensures
            is_turn_order_set(old(self)@, final(self)@, roster@),
    {
        let mut order: Vec<u64> = Vec::new();
        let mut scores: Vec<i16> = Vec::new();
        let mut joined: usize = 0;
        while joined < self.combatants.len()
            invariant
                *self == *old(self),
                joined <= self.combatants.len(),
                order.len() == joined,
                scores.len() == joined,
                forall|i: int|
                    0 <= i < joined ==> #[trigger] scores@[i] == initiative_of(roster@, order@[i]),
                is_descending(order@, roster@),
                forall|score: int|
                    order@.filter(#[trigger] has_initiative(roster@, score))
                        == self.combatants@.take(joined as int).filter(
                        has_initiative(roster@, score),
                    ),
            decreases self.combatants.len() - joined,
        {
            let id: u64 = self.combatants[joined];
            let score: i16 = score_on_roster(roster, id);
            let mut place: usize = 0;
            while place < order.len() && scores[place] >= score
                invariant
                    place <= order.len(),
                    order.len() == scores.len(),
                    forall|j: int| 0 <= j < place ==> #[trigger] scores@[j] >= score,
                decreases order.len() - place,
            {
                place = place + 1;
            }
            proof {
                assert forall|j: int| 0 <= j < place implies initiative_of(
                    roster@,
                    #[trigger] order@[j],
                ) >= initiative_of(roster@, id) by {
                    assert(scores@[j] >= score);
                }
                lemma_place_by_initiative(order@, place as int, id, roster@);
                assert(self.combatants@.take(joined + 1) =~= self.combatants@.take(
                    joined as int,
                ).push(id));
                assert forall|score: int|
                    order@.insert(place as int, id).filter(
                        #[trigger] has_initiative(roster@, score),
                    ) == self.combatants@.take(joined + 1).filter(
                        has_initiative(roster@, score),
                    ) by {
                    let keep = has_initiative(roster@, score);
                    lemma_filter_push(order@, id, keep);
                    lemma_filter_push(self.combatants@.take(joined as int), id, keep);
                }
            }
            order.insert(place, id);
            scores.insert(place, score);
            joined = joined + 1;
        }
        proof {
            assert(self.combatants@.take(joined as int) =~= self.combatants@);
        }
        self.current_combatant = if order.len() > 0 {
            Some(order[0])
        } else {
            None
        };
        self.initiative_order = order;
        self.state = CombatState::PlayerTurn;
    }

    /// Rolls initiative for everybody on the roster and sets the turn order.
    ///
    /// Every combatant's initiative becomes one six-sided die plus the
    /// dexterity modifier. The turn order is then set from these scores as
    /// `order_by_initiative` does.
    pub fn roll_initiative(&mut self, roster: &mut Roster)
        ensures
            is_initiative_rolled(old(roster)@, final(roster)@),
            is_turn_order_set(old(self)@, final(self)@, final(roster)@),
    {
        let mut rng = rand::thread_rng();
        let mut i: usize = 0;
        while i < roster.entries.len()
            invariant
                i <= roster.entries.len(),
                roster.entries.len() == old(roster).entries.len(),
                forall|j: int|
                    0 <= j < i ==> is_initiative_roll(
                        old(roster).entries@[j]@,
                        (#[trigger] roster.entries@[j])@,
                    ),
                forall|j: int|
                    i <= j < roster.entries.len() ==> #[trigger] roster.entries@[j] == old(
                        roster,
                    ).entries@[j],
            decreases roster.entries.len() - i,
        {
            let die: u8 = roll_die(&mut rng, 6);
            let dexterity: u8 = roster.entries[i].character.stats.dexterity;
            let score: i8 = initiative_for(die, dexterity);
            roster.entries[i].combatant.initiative = score;
            i = i + 1;
        }
        self.order_by_initiative(roster);
    }
}

} // verus!
