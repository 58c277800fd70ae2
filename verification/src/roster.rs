//! The roster: every combatant's combat record and character sheet, each
//! under a stable identifier.

use crate::character::Character;
use crate::effects::{
    apply_status_effects, character_after_effects, effects_after_round, tick_status_effects,
    StatusEffect,
};
use vstd::prelude::*;

verus! {

/// What combat keeps of a participant besides its character sheet.
#[derive(Debug, Clone)]
pub struct Combatant {
    pub initiative: i8,
    pub is_player: bool,
    pub actions_remaining: u8,
    pub status_effects: Vec<StatusEffect>,
}

/// A combatant as a plain value.
pub struct CombatantView {
    pub initiative: i8,
    pub is_player: bool,
    pub actions_remaining: u8,
    pub status_effects: Seq<StatusEffect>,
}

impl View for Combatant {
    type V = CombatantView;

    open spec fn view(&self) -> CombatantView {
        CombatantView {
            initiative: self.initiative,
            is_player: self.is_player,
            actions_remaining: self.actions_remaining,
            status_effects: self.status_effects@,
        }
    }
}

/// One participant: its identifier, its combat record and its sheet.
#[derive(Debug, Clone)]
pub struct RosterEntry {
    pub id: u64,
    pub combatant: Combatant,
    pub character: Character,
}

/// A roster entry as a plain value.
pub struct EntryView {
    pub id: u64,
    pub combatant: CombatantView,
    pub character: Character,
}

impl View for RosterEntry {
    type V = EntryView;

    open spec fn view(&self) -> EntryView {
        EntryView { id: self.id, combatant: self.combatant@, character: self.character }
    }
}

/// The participants, in the order in which they were entered.
#[derive(Debug, Clone)]
pub struct Roster {
    pub entries: Vec<RosterEntry>,
}

impl View for Roster {
    type V = Seq<EntryView>;

    open spec fn view(&self) -> Seq<EntryView> {
        self.entries@.map_values(|entry: RosterEntry| entry@)
    }
}

/// Whether some entry carries the identifier.
pub open spec fn is_listed(roster: Seq<EntryView>, id: u64) -> bool {
    exists|i: int| 0 <= i < roster.len() && (#[trigger] roster[i]).id == id
}

/// Whether `i` is the place of the first entry that carries the identifier.
pub open spec fn is_place_of(roster: Seq<EntryView>, id: u64, i: int) -> bool {
    &&& 0 <= i < roster.len()
    &&& roster[i].id == id
    &&& forall|j: int| 0 <= j < i ==> (#[trigger] roster[j]).id != id
}

/// The place of the first entry that carries the identifier, if there is
/// one. That entry is the one the identifier stands for.
pub open spec fn place_of(roster: Seq<EntryView>, id: u64) -> Option<int> {
    if exists|i: int| is_place_of(roster, id, i) {
        Some(choose|i: int| is_place_of(roster, id, i))
    } else {
        None
    }
}

/// A participant after a round has ended: its status effects have taken
/// effect on its sheet and have then been counted down.
pub open spec fn entry_after_round(entry: EntryView) -> EntryView {
    EntryView {
        combatant: CombatantView {
            status_effects: effects_after_round(entry.combatant.status_effects),
            ..entry.combatant
        },
        character: character_after_effects(entry.character, entry.combatant.status_effects),
        ..entry
    }
}

/// The roster after a round has ended for every participant.
pub open spec fn roster_after_round(roster: Seq<EntryView>) -> Seq<EntryView> {
    roster.map_values(|entry: EntryView| entry_after_round(entry))
}

/// `place_of` finds the first entry with the identifier exactly when the
/// identifier is listed.
pub proof fn lemma_place_of(roster: Seq<EntryView>, id: u64)
    ensures
        match place_of(roster, id) {
            Some(i) => is_place_of(roster, id, i),
            None => !is_listed(roster, id),
        },
        forall|i: int| is_place_of(roster, id, i) ==> place_of(roster, id) == Some(i),
{
    if is_listed(roster, id) {
        let k = choose|i: int| 0 <= i < roster.len() && (#[trigger] roster[i]).id == id;
        lemma_first_place(roster, id, k);
    }
}

proof fn lemma_first_place(roster: Seq<EntryView>, id: u64, k: int)
    requires
        0 <= k < roster.len(),
        roster[k].id == id,
    ensures
        exists|i: int| is_place_of(roster, id, i),
    decreases k,
{
    if forall|j: int| 0 <= j < k ==> (#[trigger] roster[j]).id != id {
        assert(is_place_of(roster, id, k));
    } else {
        let j = choose|j: int| 0 <= j < k && (#[trigger] roster[j]).id == id;
        lemma_first_place(roster, id, j);
    }
}

impl Roster {
    /// An empty roster.
    pub fn new() -> (roster: Roster)
        ensures
            roster@ == Seq::<EntryView>::empty(),
    {
        Roster { entries: Vec::new() }
    }

    /// Finds the entry that the identifier stands for: the first that
    /// carries it.
    pub fn find(&self, id: u64) -> (place: Option<usize>)
        ensures
            match place {
                Some(i) => place_of(self@, id) == Some(i as int) && i < self.entries.len(),
                None => place_of(self@, id) is None,
            },
    {
        let mut i: usize = 0;
        while i < self.entries.len()
            invariant
                i <= self.entries.len(),
                forall|j: int| 0 <= j < i ==> (#[trigger] self@[j]).id != id,
            decreases self.entries.len() - i,
        {
            if self.entries[i].id == id {
                proof {
                    assert(is_place_of(self@, id, i as int));
                    lemma_place_of(self@, id);
                }
                return Some(i);
            }
            i = i + 1;
        }
        proof {
            lemma_place_of(self@, id);
        }
        None
    }

    /// Enters a participant at the end of the roster, unless the identifier
    /// is already listed. Tells whether the participant was entered.
    pub fn insert(&mut self, id: u64, combatant: Combatant, character: Character) -> (entered: bool)
        ensures
            entered == !is_listed(old(self)@, id),
            entered ==> final(self)@ == old(self)@.push(
                EntryView { id, combatant: combatant@, character },
            ),
            !entered ==> final(self)@ == old(self)@,
    {
        proof {
            lemma_place_of(self@, id);
        }
        match self.find(id) {
            Some(_) => false,
            None => {
                self.entries.push(RosterEntry { id, combatant, character });
                true
            },
        }
    }

    /// Takes the participant that the identifier stands for off the roster
    /// and hands it back. The others keep their order.
    pub fn remove(&mut self, id: u64) -> (removed: Option<RosterEntry>)
        ensures
            match place_of(old(self)@, id) {
                Some(i) => removed matches Some(entry) && entry@ == old(self)@[i] && final(self)@
                    == old(self)@.remove(i),
                None => removed is None && final(self)@ == old(self)@,
            },
    {
        proof {
            lemma_place_of(self@, id);
        }
        match self.find(id) {
            Some(i) => Some(self.entries.remove(i)),
            None => None,
        }
    }
}

/// Ends a round for one participant: its status effects take effect on its
/// sheet, then every duration drops by one and the effects that run out are
/// removed.
pub fn end_round_for(entry: &mut RosterEntry)
    ensures
        final(entry)@ == entry_after_round(old(entry)@),
{
    apply_status_effects(&mut entry.character, &entry.combatant.status_effects);
    tick_status_effects(&mut entry.combatant.status_effects);
}

/// Ends a round for everybody on the roster, as `end_round_for` does for
/// one.
pub fn update_status_effects(roster: &mut Roster)
    ensures
        final(roster)@ == roster_after_round(old(roster)@),
{
    let mut i: usize = 0;
    while i < roster.entries.len()
        invariant
            i <= roster.entries.len(),
            roster.entries.len() == old(roster).entries.len(),
            forall|j: int|
                0 <= j < i ==> (#[trigger] roster.entries@[j])@ == roster_after_round(
                    old(roster)@,
                )[j],
            forall|j: int|
                i <= j < roster.entries.len() ==> #[trigger] roster.entries@[j] == old(
                    roster,
                ).entries@[j],
        decreases roster.entries.len() - i,
    {
        end_round_for(&mut roster.entries[i]);
        i = i + 1;
    }
}

} // verus!
