//! The combat session: who takes part, in which order they act, whose turn
//! it is, and how far the encounter has come.

use crate::roster::{place_of, Roster};
use vstd::prelude::*;

verus! {

/// The phases of an encounter.
#[derive(Debug, Clone, Copy, PartialEq, Eq, Structural)]
pub enum CombatState {
    Initiative,
    PlayerTurn,
    EnemyTurn,
    Victory,
    Defeat,
}

/// One encounter. It holds identifiers only: the combatants themselves are
/// on the roster.
#[derive(Debug, Clone)]
pub struct Combat {
    pub round: u32,
    pub turn: u32,
    pub combatants: Vec<u64>,
    pub initiative_order: Vec<u64>,
    pub current_combatant: Option<u64>,
    pub state: CombatState,
}

/// An encounter as a plain value.
pub struct CombatView {
    pub round: u32,
    pub turn: u32,
    pub combatants: Seq<u64>,
    pub initiative_order: Seq<u64>,
    pub current_combatant: Option<u64>,
    pub state: CombatState,
}

impl View for Combat {
    type V = CombatView;

    open spec fn view(&self) -> CombatView {
        CombatView {
            round: self.round,
            turn: self.turn,
            combatants: self.combatants@,
            initiative_order: self.initiative_order@,
            current_combatant: self.current_combatant,
            state: self.state,
        }
    }
}

/// Whether `i` is the first place at which `id` stands in the order.
pub open spec fn is_first_place(order: Seq<u64>, id: u64, i: int) -> bool {
    &&& 0 <= i < order.len()
    &&& order[i] == id
    &&& forall|j: int| 0 <= j < i ==> #[trigger] order[j] != id
}

impl CombatView {
    /// The encounter as it starts: first round, first turn, nobody in it,
    /// initiative not yet rolled.
    pub open spec fn start() -> CombatView {
        CombatView {
            round: 1,
            turn: 1,
            combatants: Seq::empty(),
            initiative_order: Seq::empty(),
            current_combatant: None,
            state: CombatState::Initiative,
        }
    }

    /// The current combatant's place in the initiative order, if somebody is
    /// current and stands in the order.
    pub open spec fn current_place(self) -> Option<int> {
        match self.current_combatant {
            Some(current) => if exists|i: int| is_first_place(self.initiative_order, current, i) {
                Some(choose|i: int| is_first_place(self.initiative_order, current, i))
            } else {
                None
            },
            None => None,
        }
    }

    /// Whether the turn and round counters can still count one more.
    pub open spec fn can_count(self) -> bool {
        self.turn < u32::MAX && self.round < u32::MAX
    }

    /// The encounter after the turn has passed to the next combatant in the
    /// order. From the last place the turn passes to the first, and a new
    /// round begins. With nobody current, or with a current combatant that
    /// is not in the order, nothing changes.
    pub open spec fn next_turn(self) -> CombatView {
        match self.current_place() {
            Some(place) => {
                let next = (place + 1) % (self.initiative_order.len() as int);
                CombatView {
                    current_combatant: Some(self.initiative_order[next]),
                    turn: (self.turn + 1) as u32,
                    round: if next == 0 {
                        (self.round + 1) as u32
                    } else {
                        self.round
                    },
                    ..self
                }
            },
            None => self,
        }
    }

    /// The invariant of an encounter: whoever is current stands in the
    /// initiative order, and once initiative has been rolled the order is a
    /// rearrangement of the combatants.
    pub open spec fn well_formed(self) -> bool {
        &&& match self.current_combatant {
            Some(current) => self.initiative_order.contains(current),
            None => true,
        }
        &&& self.state != CombatState::Initiative ==> self.initiative_order.to_multiset()
            == self.combatants.to_multiset()
    }
}

/// The place that `current_place` gives is the first place of the current
/// combatant in the order, and it gives one exactly when somebody is current
/// and stands in the order.
pub proof fn lemma_current_place(combat: CombatView)
    ensures
        match combat.current_place() {
            Some(place) => combat.current_combatant is Some && is_first_place(
                combat.initiative_order,
                combat.current_combatant->0,
                place,
            ),
            None => combat.current_combatant matches Some(current)
                ==> !combat.initiative_order.contains(current),
        },
        forall|i: int|
            combat.current_combatant is Some && is_first_place(
                combat.initiative_order,
                combat.current_combatant->0,
                i,
            ) ==> combat.current_place() == Some(i),
{
    if combat.current_combatant is Some {
        let order = combat.initiative_order;
        let id = combat.current_combatant->0;
        if order.contains(id) {
            let k = choose|k: int| 0 <= k < order.len() && order[k] == id;
            lemma_first_place_before(order, id, k);
        }
    }
}

proof fn lemma_first_place_before(order: Seq<u64>, id: u64, k: int)
    requires
        0 <= k < order.len(),
        order[k] == id,
    ensures
        exists|i: int| is_first_place(order, id, i),
    decreases k,
{
    if forall|j: int| 0 <= j < k ==> #[trigger] order[j] != id {
        assert(is_first_place(order, id, k));
    } else {
        let j = choose|j: int| 0 <= j < k && #[trigger] order[j] == id;
        lemma_first_place_before(order, id, j);
    }
}

impl Combat {
    /// A new encounter: round 1, turn 1, no combatants, initiative still to
    /// be rolled.
    pub fn new() -> (combat: Combat)
        ensures
            combat@ == CombatView::start(),
    {
        Combat {
            round: 1,
            turn: 1,
            combatants: Vec::new(),
            initiative_order: Vec::new(),
            current_combatant: None,
            state: CombatState::Initiative,
        }
    }

    /// Adds a combatant to the encounter, after those already in it.
    pub fn add_combatant(&mut self, entity: u64)
        ensures
            final(self)@ == (CombatView { combatants: old(self)@.combatants.push(entity), ..old(self)@ }),
    {
        self.combatants.push(entity);
    }

    /// Finds the current combatant's place in the initiative order.
    fn current_place(&self) -> (place: Option<usize>)
        ensures
            match place {
                Some(i) => self@.current_place() == Some(i as int) && i < self.initiative_order.len(),
                None => self@.current_place() is None,
            },
    {
        match self.current_combatant {
            Some(current) => {
                let mut i: usize = 0;
                while i < self.initiative_order.len()
                    invariant
                        self.current_combatant == Some(current),
                        i <= self.initiative_order.len(),
                        forall|j: int| 0 <= j < i ==> #[trigger] self.initiative_order@[j] != current,
                    decreases self.initiative_order.len() - i,
                {
                    if self.initiative_order[i] == current {
                        proof {
                            lemma_current_place(self@);
                        }
                        return Some(i);
                    }
                    i = i + 1;
                }
                proof {
                    lemma_current_place(self@);
                }
                None
            },
            None => None,
        }
    }

    /// Passes the turn to the next combatant in the initiative order. The
    /// turn counter counts one more, and so does the round counter when the
    /// order starts over. Nothing happens if nobody is current, or if the
    /// current combatant is not in the order.
    pub fn next_turn(&mut self)
        requires
            old(self)@.current_place() is Some ==> old(self)@.can_count(),
        ensures
            final(self)@ == old(self)@.next_turn(),
    {
        match self.current_place() {
            Some(current_index) => {
                let next_index = (current_index + 1) % self.initiative_order.len();
                self.current_combatant = Some(self.initiative_order[next_index]);
                self.turn = self.turn + 1;
                if next_index == 0 {
                    self.round = self.round + 1;
                }
            },
            None => {},
        }
    }

    /// Tells whether the current combatant is on the roster and is a player.
    pub fn is_player_turn(&self, roster: &Roster) -> (player: bool)
        ensures
            player == match self.current_combatant {
                Some(current) => match place_of(roster@, current) {
                    Some(i) => roster@[i].combatant.is_player,
                    None => false,
                },
                None => false,
            },
    {
        match self.current_combatant {
            Some(current) => match roster.find(current) {
                Some(i) => roster.entries[i].combatant.is_player,
                None => false,
            },
            None => false,
        }
    }
}

/// A new encounter is well formed, and stays so while combatants join
/// before initiative is rolled.
pub proof fn lemma_joining_well_formed(combat: CombatView, entity: u64)
    requires
        combat.well_formed(),
        combat.state == CombatState::Initiative,
    ensures
        CombatView::start().well_formed(),
        (CombatView { combatants: combat.combatants.push(entity), ..combat }).well_formed(),
{
}

/// Passing the turn keeps the encounter well formed.
pub proof fn lemma_next_turn_well_formed(combat: CombatView)
    requires
        combat.well_formed(),
    ensures
        combat.next_turn().well_formed(),
{
    if combat.current_place() is Some {
        lemma_current_place(combat);
        let place = combat.current_place()->0;
        let next = (place + 1) % (combat.initiative_order.len() as int);
    }
}

/// With one combatant in the order, and that one current, every passing of
/// the turn comes back to the same combatant and begins a new round.
pub proof fn lemma_single_combatant_turn(combat: CombatView)
    requires
        combat.initiative_order.len() == 1,
        combat.current_combatant == Some(combat.initiative_order[0]),
        combat.can_count(),
    ensures
        combat.next_turn().current_combatant == combat.current_combatant,
        combat.next_turn().round == combat.round + 1,
        combat.next_turn().turn == combat.turn + 1,
        combat.next_turn().initiative_order == combat.initiative_order,
{
    let current = combat.initiative_order[0];
    lemma_current_place(combat);
}

} // verus!
