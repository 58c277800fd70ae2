//! The encounter as a state machine: whose turn it is, what the one whose
//! turn it is does, how attacks become damage, and when the encounter is
//! won or lost.

use crate::attack::{is_rolled_outcome, roll_attack};
use crate::combat::{lemma_next_turn_well_formed, Combat, CombatState, CombatView};
use crate::effects::{has_stun, is_stunned};
use crate::initiative::{is_initiative_rolled, is_turn_order_set};
use crate::roster::{
    is_listed, is_place_of, lemma_place_of, place_of, roster_after_round, update_status_effects,
    CombatantView, EntryView, Roster,
};
use crate::weapons::weapon_name;
use vstd::prelude::*;
use vstd::string::StringExecFns;

verus! {

/// One combatant's decision to attack another.
#[derive(Debug, Clone)]
pub struct AttackEvent {
    pub attacker: u64,
    pub target: u64,
    pub weapon: Option<String>,
    pub spell: Option<String>,
}

/// An attack as a plain value.
pub struct AttackView {
    pub attacker: u64,
    pub target: u64,
    pub weapon: Option<Seq<char>>,
    pub spell: Option<Seq<char>>,
}

/// The characters of a text, where there is a text.
pub open spec fn text_of(text: Option<String>) -> Option<Seq<char>> {
    match text {
        Some(text) => Some(text@),
        None => None,
    }
}

impl View for AttackEvent {
    type V = AttackView;

    open spec fn view(&self) -> AttackView {
        AttackView {
            attacker: self.attacker,
            target: self.target,
            weapon: text_of(self.weapon),
            spell: text_of(self.spell),
        }
    }
}

/// The kinds of damage.
#[derive(Debug, Clone, Copy, PartialEq, Eq, Structural)]
pub enum DamageType {
    Slashing,
    Piercing,
    Bludgeoning,
    Fire,
    Cold,
    Lightning,
    Acid,
    Poison,
    Magic,
}

/// Damage that a combatant is to take.
#[derive(Debug, Clone, Copy, PartialEq, Eq, Structural)]
pub struct DamageEvent {
    pub target: u64,
    pub damage: i16,
    pub damage_type: DamageType,
}

/// What became of an attack.
#[derive(Debug, Clone, Copy, PartialEq, Eq, Structural)]
pub struct AttackReport {
    pub attacker: u64,
    pub target: u64,
    pub hit: bool,
    pub damage: i16,
}

/// The weapon that the built-in enemy policy attacks with.
pub open spec fn default_enemy_weapon() -> Seq<char> {
    "sword"@
}

/// Whether `i` is the place of the first player on the roster.
pub open spec fn is_first_player(roster: Seq<EntryView>, i: int) -> bool {
    &&& 0 <= i < roster.len()
    &&& roster[i].combatant.is_player
    &&& forall|j: int| 0 <= j < i ==> !(#[trigger] roster[j]).combatant.is_player
}

/// The place of the first player on the roster, if there is a player.
pub open spec fn first_player(roster: Seq<EntryView>) -> Option<int> {
    if exists|i: int| is_first_player(roster, i) {
        Some(choose|i: int| is_first_player(roster, i))
    } else {
        None
    }
}

/// What the built-in enemy policy decides: to attack the first player on the
/// roster with the default weapon, and nothing where no player is listed.
pub open spec fn enemy_decision(enemy: u64, roster: Seq<EntryView>) -> Option<AttackView> {
    match first_player(roster) {
        Some(i) => Some(
            AttackView {
                attacker: enemy,
                target: roster[i].id,
                weapon: Some(default_enemy_weapon()),
                spell: None,
            },
        ),
        None => None,
    }
}

/// A roster entry with one action less.
pub open spec fn action_spent(entry: EntryView) -> EntryView {
    EntryView {
        combatant: CombatantView {
            actions_remaining: (entry.combatant.actions_remaining - 1) as u8,
            ..entry.combatant
        },
        ..entry
    }
}

/// A roster entry after its character has taken damage.
pub open spec fn damaged(entry: EntryView, damage: int) -> EntryView {
    EntryView {
        character: entry.character.with_current_hit_points(
            entry.character.hit_points_after_damage(damage) as i16,
        ),
        ..entry
    }
}

/// Whether the identifier stands for a combatant of the given side who has
/// hit points left.
pub open spec fn stands(roster: Seq<EntryView>, id: u64, players: bool) -> bool {
    match place_of(roster, id) {
        Some(i) => roster[i].combatant.is_player == players && roster[i].character.alive(),
        None => false,
    }
}

/// Whether a side is defeated: none of the encounter's combatants who are on
/// the roster and belong to the side has hit points left. A side that
/// nobody belongs to counts as defeated.
pub open spec fn side_defeated(combatants: Seq<u64>, roster: Seq<EntryView>, players: bool) -> bool {
    forall|k: int| 0 <= k < combatants.len() ==> !stands(roster, #[trigger] combatants[k], players)
}

/// Whether the encounter is over.
pub open spec fn is_over(state: CombatState) -> bool {
    state == CombatState::Victory || state == CombatState::Defeat
}

/// Whether the phase is one of the two in which combatants take turns.
pub open spec fn is_turn_phase(state: CombatState) -> bool {
    state == CombatState::PlayerTurn || state == CombatState::EnemyTurn
}

/// The encounter after the outcome has been checked. In the turn phases it
/// is won when the enemies are defeated, and lost when the players are;
/// where both are, it is won. Before initiative is rolled nothing is
/// decided, and an encounter that is over stays as it is.
pub open spec fn outcome_checked(combat: CombatView, roster: Seq<EntryView>) -> CombatView {
    if !is_turn_phase(combat.state) {
        combat
    } else if side_defeated(combat.combatants, roster, false) {
        CombatView { state: CombatState::Victory, ..combat }
    } else if side_defeated(combat.combatants, roster, true) {
        CombatView { state: CombatState::Defeat, ..combat }
    } else {
        combat
    }
}

/// The phase that belongs to the current combatant: the players' turn for a
/// player, the enemies' turn for anybody else on the roster. With nobody
/// current, or with a current combatant who is not on the roster, the phase
/// stays.
pub open spec fn phase_of_current(combat: CombatView, roster: Seq<EntryView>) -> CombatState {
    match combat.current_combatant {
        Some(current) => match place_of(roster, current) {
            Some(i) => if roster[i].combatant.is_player {
                CombatState::PlayerTurn
            } else {
                CombatState::EnemyTurn
            },
            None => combat.state,
        },
        None => combat.state,
    }
}

/// Whether the combatant of an entry can act for the given side: it belongs
/// to the side, has an action left, and is not stunned.
pub open spec fn can_act(entry: EntryView, players: bool) -> bool {
    &&& entry.combatant.is_player == players
    &&& entry.combatant.actions_remaining > 0
    &&& !is_stunned(entry.combatant.status_effects)
}

/// The encounter and the roster after the current turn has ended. The turn
/// has passed on, and the phase is that of the combatant who is now current.
/// If a new round has begun, the round has first ended for everybody on the
/// roster: status effects have taken effect and have been counted down, and
/// the outcome of the encounter has been checked.
pub open spec fn turn_ended(combat: CombatView, roster: Seq<EntryView>) -> (CombatView, Seq<EntryView>) {
    let passed = combat.next_turn();
    if passed.round != combat.round {
        let roster = roster_after_round(roster);
        (
            outcome_checked(
                CombatView { state: phase_of_current(passed, roster), ..passed },
                roster,
            ),
            roster,
        )
    } else {
        (CombatView { state: phase_of_current(passed, roster), ..passed }, roster)
    }
}

/// The encounter and the roster after damage has been applied: the target,
/// if it is on the roster, has lost the hit points, and the outcome has been
/// checked. Damage to a target that is not on the roster changes nothing.
pub open spec fn damage_applied(combat: CombatView, roster: Seq<EntryView>, event: DamageEvent) -> (
    CombatView,
    Seq<EntryView>,
) {
    match place_of(roster, event.target) {
        Some(t) => {
            let roster = roster.update(t, damaged(roster[t], event.damage as int));
            (outcome_checked(combat, roster), roster)
        },
        None => (combat, roster),
    }
}

/// The damage that the outcome of an attack inflicts: none for a miss.
pub open spec fn damage_of(target: u64, outcome: (bool, int)) -> Option<DamageEvent> {
    if outcome.0 {
        Some(DamageEvent { target, damage: outcome.1 as i16, damage_type: DamageType::Slashing })
    } else {
        None
    }
}

/// One step of the players' or the enemies' turn. `decision` is the attack
/// that has been decided on for the current combatant, if any; one that
/// names another attacker counts for nothing.
///
/// A current combatant who can act, and for whom a decision is there, acts:
/// acting costs one action, and the attack comes back for resolution.
/// Without a decision a player waits, and nothing changes; an enemy lets
/// the action pass. When the current combatant has no action left or is
/// stunned, or the phase is not that of its side, the turn ends. Nothing
/// happens with nobody current, with a current combatant who is not on the
/// roster, and outside the two turn phases.
pub open spec fn turn_step(combat: CombatView, roster: Seq<EntryView>, decision: Option<AttackView>) -> (
    CombatView,
    Seq<EntryView>,
    Option<AttackView>,
) {
    let players = combat.state == CombatState::PlayerTurn;
    if !is_turn_phase(combat.state) {
        (combat, roster, None)
    } else {
        match combat.current_combatant {
            Some(current) => match place_of(roster, current) {
                Some(i) => if can_act(roster[i], players) {
                    if decision matches Some(attack) && attack.attacker == current {
                        (combat, roster.update(i, action_spent(roster[i])), decision)
                    } else if players {
                        (combat, roster, None)
                    } else {
                        (combat, roster.update(i, action_spent(roster[i])), None)
                    }
                } else {
                    (turn_ended(combat, roster).0, turn_ended(combat, roster).1, None)
                },
                None => (combat, roster, None),
            },
            None => (combat, roster, None),
        }
    }
}

/// The decision that counts in a step under the built-in enemy policy: in
/// the enemies' turn what the policy decides for the current combatant, and
/// otherwise the decision that came in from a player.
pub open spec fn decision_in_turn(
    combat: CombatView,
    roster: Seq<EntryView>,
    player_decision: Option<AttackView>,
) -> Option<AttackView> {
    if combat.state == CombatState::EnemyTurn {
        match combat.current_combatant {
            Some(current) => enemy_decision(current, roster),
            None => None,
        }
    } else {
        player_decision
    }
}

/// The encounter and the roster after an attack with a known outcome: a
/// hit is applied to the target as slashing damage, a miss changes nothing.
pub open spec fn attack_resolved(
    combat: CombatView,
    roster: Seq<EntryView>,
    attack: AttackView,
    outcome: (bool, int),
) -> (CombatView, Seq<EntryView>) {
    match damage_of(attack.target, outcome) {
        Some(event) => damage_applied(combat, roster, event),
        None => (combat, roster),
    }
}

/// The report on an attack with a known outcome.
pub open spec fn report_of(attack: AttackView, outcome: (bool, int)) -> AttackReport {
    AttackReport {
        attacker: attack.attacker,
        target: attack.target,
        hit: outcome.0,
        damage: outcome.1 as i16,
    }
}

/// Whether encounter, roster and report are what resolving an attack
/// leaves. Where attacker and target are both on the roster, the attack has
/// been resolved with some roll of the dice and is reported. Otherwise
/// nothing has changed and there is no report.
pub open spec fn is_attack_result(
    combat: CombatView,
    roster: Seq<EntryView>,
    attack: AttackView,
    after: (CombatView, Seq<EntryView>),
    report: Option<AttackReport>,
) -> bool {
    match (place_of(roster, attack.attacker), place_of(roster, attack.target)) {
        (Some(a), Some(t)) => exists|outcome: (bool, int)|
            {
                &&& is_rolled_outcome(roster[a].character, roster[t].character, attack.weapon, outcome)
                &&& after == #[trigger] attack_resolved(combat, roster, attack, outcome)
                &&& report == Some(report_of(attack, outcome))
            },
        _ => after == (combat, roster) && report is None,
    }
}

/// Whether encounter, roster and report are what a whole step of the turn
/// phases leaves: the step of `turn_step`, and then the attack that was
/// decided on, if any, resolved. Without an attack there is no report.
pub open spec fn is_step_result(
    combat: CombatView,
    roster: Seq<EntryView>,
    decision: Option<AttackView>,
    after: (CombatView, Seq<EntryView>),
    report: Option<AttackReport>,
) -> bool {
    let step = turn_step(combat, roster, decision);
    match step.2 {
        Some(attack) => is_attack_result(step.0, step.1, attack, after, report),
        None => after == (step.0, step.1) && report is None,
    }
}

/// An attack, if there is one, as a plain value.
pub open spec fn attack_view(attack: Option<AttackEvent>) -> Option<AttackView> {
    match attack {
        Some(attack) => Some(attack@),
        None => None,
    }
}

/// Whether the turn can end without the counters leaving their range.
pub open spec fn can_end_turn(combat: CombatView) -> bool {
    combat.current_place() is Some ==> combat.can_count()
}

/// Whether the target, if it is on the roster, can take the damage without
/// its hit points leaving their range. Damage that is not negative always
/// can.
pub open spec fn can_take(roster: Seq<EntryView>, event: DamageEvent) -> bool {
    match place_of(roster, event.target) {
        Some(t) => roster[t].character.hit_points.current - event.damage <= i16::MAX,
        None => true,
    }
}

/// `first_player` finds the first entry whose combatant is a player exactly
/// when there is one.
pub proof fn lemma_first_player(roster: Seq<EntryView>)
    ensures
        match first_player(roster) {
            Some(i) => is_first_player(roster, i),
            None => forall|i: int| 0 <= i < roster.len() ==> !(#[trigger] roster[i]).combatant.is_player,
        },
        forall|i: int| is_first_player(roster, i) ==> first_player(roster) == Some(i),
{
    if exists|i: int| 0 <= i < roster.len() && (#[trigger] roster[i]).combatant.is_player {
        let k = choose|i: int| 0 <= i < roster.len() && (#[trigger] roster[i]).combatant.is_player;
        lemma_first_player_before(roster, k);
    }
}

proof fn lemma_first_player_before(roster: Seq<EntryView>, k: int)
    requires
        0 <= k < roster.len(),
        roster[k].combatant.is_player,
    ensures
        exists|i: int| is_first_player(roster, i),
    decreases k,
{
    if forall|j: int| 0 <= j < k ==> !(#[trigger] roster[j]).combatant.is_player {
        assert(is_first_player(roster, k));
    } else {
        let j = choose|j: int| 0 <= j < k && (#[trigger] roster[j]).combatant.is_player;
        lemma_first_player_before(roster, j);
    }
}

/// The built-in enemy policy: attack the first player on the roster with a
/// sword. Where no player is listed, the enemy does nothing.
pub fn perform_ai_action(enemy: u64, roster: &Roster) -> (intent: Option<AttackEvent>)
    ensures
        attack_view(intent) == enemy_decision(enemy, roster@),
{
    let mut i: usize = 0;
    while i < roster.entries.len()
        invariant
            i <= roster.entries.len(),
            forall|j: int| 0 <= j < i ==> !(#[trigger] roster@[j]).combatant.is_player,
        decreases roster.entries.len() - i,
    {
        if roster.entries[i].combatant.is_player {
            proof {
                assert(is_first_player(roster@, i as int));
                lemma_first_player(roster@);
            }
            return Some(
                AttackEvent {
                    attacker: enemy,
                    target: roster.entries[i].id,
                    weapon: Some(String::from_str("sword")),
                    spell: None,
                },
            );
        }
        i = i + 1;
    }
    proof {
        lemma_first_player(roster@);
    }
    None
}

/// Resolves one attack: where attacker and target are both on the roster,
/// the attack is rolled, and a hit gives the damage that the target is to
/// take. A miss gives none, and neither does an attack whose attacker or
/// target is not on the roster.
pub fn process_attack_event(event: &AttackEvent, roster: &Roster) -> (outcome: Option<(bool, i16)>)
    ensures
        match (place_of(roster@, event.attacker), place_of(roster@, event.target)) {
            (Some(a), Some(t)) => outcome matches Some(rolled) && is_rolled_outcome(
                roster@[a].character,
                roster@[t].character,
                event@.weapon,
                (rolled.0, rolled.1 as int),
            ) && (rolled.0 ==> rolled.1 >= 1) && (!rolled.0 ==> rolled.1 == 0),
            _ => outcome is None,
        },
{
    match (roster.find(event.attacker), roster.find(event.target)) {
        (Some(a), Some(t)) => {
            let weapon: Option<&str> = match &event.weapon {
                Some(name) => Some(name.as_str()),
                None => None,
            };
            Some(roll_attack(&roster.entries[a].character, &roster.entries[t].character, weapon))
        },
        _ => None,
    }
}

/// Tells whether a side is defeated.
pub fn is_side_defeated(combat: &Combat, roster: &Roster, players: bool) -> (defeated: bool)
    ensures
        defeated == side_defeated(combat@.combatants, roster@, players),
{
    let mut k: usize = 0;
    while k < combat.combatants.len()
        invariant
            k <= combat.combatants.len(),
            forall|j: int| 0 <= j < k ==> !stands(roster@, #[trigger] combat.combatants@[j], players),
        decreases combat.combatants.len() - k,
    {
        match roster.find(combat.combatants[k]) {
            Some(i) => {
                if roster.entries[i].combatant.is_player == players
                    && roster.entries[i].character.is_alive() {
                    return false;
                }
            },
            None => {},
        }
        k = k + 1;
    }
    true
}

/// Checks in a turn phase whether the encounter is decided, and sets the
/// phase to victory or defeat if it is.
pub fn check_outcome(combat: &mut Combat, roster: &Roster)
    ensures
        final(combat)@ == outcome_checked(old(combat)@, roster@),
{
    match combat.state {
        CombatState::PlayerTurn | CombatState::EnemyTurn => {
            if is_side_defeated(combat, roster, false) {
                combat.state = CombatState::Victory;
            } else if is_side_defeated(combat, roster, true) {
                combat.state = CombatState::Defeat;
            }
        },
        _ => {},
    }
}

/// Applies damage to its target and checks at once whether the encounter is
/// decided. Damage to a target that is not on the roster changes nothing.
pub fn process_damage_event(combat: &mut Combat, roster: &mut Roster, event: &DamageEvent)
    requires
        can_take(old(roster)@, *event),
    ensures
        (final(combat)@, final(roster)@) == damage_applied(old(combat)@, old(roster)@, *event),
{
    match roster.find(event.target) {
        Some(t) => {
            roster.entries[t].character.take_damage(event.damage);
            assert(roster@ =~= old(roster)@.update(
                t as int,
                damaged(old(roster)@[t as int], event.damage as int),
            ));
            check_outcome(combat, roster);
        },
        None => {},
    }
}

/// Tells whether the participant can act for the given side.
fn entry_can_act(roster: &Roster, place: usize, players: bool) -> (able: bool)
    requires
        place < roster.entries.len(),
    ensures
        able == can_act(roster@[place as int], players),
{
    roster.entries[place].combatant.is_player == players
        && roster.entries[place].combatant.actions_remaining > 0 && !has_stun(
        &roster.entries[place].combatant.status_effects,
    )
}

/// Ends the current turn: passes the turn on and sets the phase by the side
/// of the combatant who is now current. If a new round begins, the round
/// first ends for everybody on the roster, and the outcome of the encounter
/// is checked.
pub fn end_turn(combat: &mut Combat, roster: &mut Roster)
    requires
        can_end_turn(old(combat)@),
    ensures
        (final(combat)@, final(roster)@) == turn_ended(old(combat)@, old(roster)@),
{
    let round = combat.round;
    combat.next_turn();
    let new_round = combat.round != round;
    if new_round {
        update_status_effects(roster);
    }
    match combat.current_combatant {
        Some(current) => match roster.find(current) {
            Some(i) => {
                if roster.entries[i].combatant.is_player {
                    combat.state = CombatState::PlayerTurn;
                } else {
                    combat.state = CombatState::EnemyTurn;
                }
            },
            None => {},
        },
        None => {},
    }
    if new_round {
        check_outcome(combat, roster);
    }
}

/// Takes one step of the players' or the enemies' turn, as `turn_step` says.
/// `decision` is the attack that has been decided on for the current
/// combatant, if any: a player's choice, or what a policy of the caller's
/// has decided for an enemy.
pub fn take_turn(combat: &mut Combat, roster: &mut Roster, decision: Option<AttackEvent>) -> (intent:
    Option<AttackEvent>)
    requires
        is_turn_phase(old(combat).state) ==> can_end_turn(old(combat)@),
    ensures
        (final(combat)@, final(roster)@, attack_view(intent)) == turn_step(
            old(combat)@,
            old(roster)@,
            attack_view(decision),
        ),
{
    let players = match combat.state {
        CombatState::PlayerTurn => true,
        CombatState::EnemyTurn => false,
        _ => {
            return None;
        },
    };
    match combat.current_combatant {
        Some(current) => match roster.find(current) {
            Some(i) => {
                if entry_can_act(roster, i, players) {
                    let decided = match &decision {
                        Some(attack) => attack.attacker == current,
                        None => false,
                    };
                    if decided || !players {
                        roster.entries[i].combatant.actions_remaining =
                            roster.entries[i].combatant.actions_remaining - 1;
                    }
                    if decided {
                        decision
                    } else {
                        None
                    }
                } else {
                    end_turn(combat, roster);
                    None
                }
            },
            None => None,
        },
        None => None,
    }
}

/// Takes one step of the encounter, short of resolving attacks.
///
/// In the initiative phase, initiative is rolled and the turn order is set.
/// In the players' turn the step is `take_turn` with the decision that came
/// in: `decision` is the attack that a player has chosen since the last
/// step, if any. In the enemies' turn it is `take_turn` with what the
/// built-in policy decides for the current combatant. An encounter that is
/// over stays as it is.
pub fn handle_combat_turn(
    combat: &mut Combat,
    roster: &mut Roster,
    decision: Option<AttackEvent>,
) -> (intent: Option<AttackEvent>)
    requires
        is_turn_phase(old(combat).state) ==> can_end_turn(old(combat)@),
    ensures
        old(combat).state == CombatState::Initiative ==> {
            &&& intent is None
            &&& is_initiative_rolled(old(roster)@, final(roster)@)
            &&& is_turn_order_set(old(combat)@, final(combat)@, final(roster)@)
        },
        old(combat).state != CombatState::Initiative ==> (
            final(combat)@,
            final(roster)@,
            attack_view(intent),
        ) == turn_step(
            old(combat)@,
            old(roster)@,
            decision_in_turn(old(combat)@, old(roster)@, attack_view(decision)),
        ),
{
    match combat.state {
        CombatState::Initiative => {
            combat.roll_initiative(roster);
            None
        },
        CombatState::EnemyTurn => {
            let decided = match combat.current_combatant {
                Some(current) => perform_ai_action(current, roster),
                None => None,
            };
            take_turn(combat, roster, decided)
        },
        _ => take_turn(combat, roster, decision),
    }
}

/// Resolves an attack that was decided on: it is rolled, a hit is applied
/// to the target as slashing damage, and the outcome of the encounter is
/// checked before anything else happens. The report tells what became of
/// the attack. An attack whose attacker or target is not on the roster
/// changes nothing and is not reported.
pub fn resolve_attack_event(combat: &mut Combat, roster: &mut Roster, attack: &AttackEvent) -> (report:
    Option<AttackReport>)
    ensures
        is_attack_result(
            old(combat)@,
            old(roster)@,
            attack@,
            (final(combat)@, final(roster)@),
            report,
        ),
{
    match process_attack_event(attack, roster) {
        Some(rolled) => {
            let (hit, damage) = rolled;
            if hit {
                let event = DamageEvent {
                    target: attack.target,
                    damage,
                    damage_type: DamageType::Slashing,
                };
                process_damage_event(combat, roster, &event);
            }
            proof {
                let outcome = (hit, damage as int);
                assert((combat@, roster@) == attack_resolved(
                    old(combat)@,
                    old(roster)@,
                    attack@,
                    outcome,
                ));
            }
            Some(AttackReport { attacker: attack.attacker, target: attack.target, hit, damage })
        },
        None => None,
    }
}

/// Takes one whole step of the encounter.
///
/// In the initiative phase, initiative is rolled and the turn order is set.
/// In the turn phases the current combatant acts, waits or ends its turn as
/// `handle_combat_turn` says, and an attack that was decided on is resolved
/// in the same step as `resolve_attack_event` says. `decision` is the attack
/// that a player has chosen since the last step, if any.
pub fn advance(combat: &mut Combat, roster: &mut Roster, decision: Option<AttackEvent>) -> (report:
    Option<AttackReport>)
    requires
        is_turn_phase(old(combat).state) ==> can_end_turn(old(combat)@),
    ensures
        old(combat).state == CombatState::Initiative ==> {
            &&& report is None
            &&& is_initiative_rolled(old(roster)@, final(roster)@)
            &&& is_turn_order_set(old(combat)@, final(combat)@, final(roster)@)
        },
        old(combat).state != CombatState::Initiative ==> is_step_result(
            old(combat)@,
            old(roster)@,
            decision_in_turn(old(combat)@, old(roster)@, attack_view(decision)),
            (final(combat)@, final(roster)@),
            report,
        ),
{
    match handle_combat_turn(combat, roster, decision) {
        Some(attack) => resolve_attack_event(combat, roster, &attack),
        None => None,
    }
}

/// Replacing an entry by one with the same identifier leaves every
/// identifier standing for the same place.
pub proof fn lemma_place_of_after_update(roster: Seq<EntryView>, place: int, entry: EntryView, id: u64)
    requires
        0 <= place < roster.len(),
        entry.id == roster[place].id,
    ensures
        place_of(roster.update(place, entry), id) == place_of(roster, id),
{
    let updated = roster.update(place, entry);
    lemma_place_of(roster, id);
    lemma_place_of(updated, id);
    match place_of(roster, id) {
        Some(i) => {
            assert(is_place_of(updated, id, i));
        },
        None => {
            if is_listed(updated, id) {
                let i = choose|i: int| 0 <= i < updated.len() && (#[trigger] updated[i]).id == id;
            }
        },
    }
}

/// When the last enemy who stands takes damage that leaves it no hit
/// points, the encounter is won at once, before any further turn.
pub proof fn lemma_last_enemy_falls(combat: CombatView, roster: Seq<EntryView>, event: DamageEvent)
    requires
        is_turn_phase(combat.state),
        place_of(roster, event.target) matches Some(t) && !roster[t].combatant.is_player
            && event.damage >= roster[t].character.hit_points.current,
        forall|k: int|
            0 <= k < combat.combatants.len() && #[trigger] combat.combatants[k] != event.target
                ==> !stands(roster, combat.combatants[k], false),
    ensures
        damage_applied(combat, roster, event).0 == (CombatView {
            state: CombatState::Victory,
            ..combat
        }),
{
    lemma_side_falls(combat, roster, event, false);
}

/// When the last player who stands takes damage that leaves no hit points,
/// while an enemy still stands, the encounter is lost at once.
pub proof fn lemma_last_player_falls(combat: CombatView, roster: Seq<EntryView>, event: DamageEvent)
    requires
        is_turn_phase(combat.state),
        place_of(roster, event.target) matches Some(t) && roster[t].combatant.is_player
            && event.damage >= roster[t].character.hit_points.current,
        forall|k: int|
            0 <= k < combat.combatants.len() && #[trigger] combat.combatants[k] != event.target
                ==> !stands(roster, combat.combatants[k], true),
        exists|k: int|
            0 <= k < combat.combatants.len() && stands(roster, #[trigger] combat.combatants[k], false),
    ensures
        damage_applied(combat, roster, event).0 == (CombatView {
            state: CombatState::Defeat,
            ..combat
        }),
{
    lemma_side_falls(combat, roster, event, true);
    let t = place_of(roster, event.target)->0;
    let after = roster.update(t, damaged(roster[t], event.damage as int));
    let k = choose|k: int|
        0 <= k < combat.combatants.len() && stands(roster, #[trigger] combat.combatants[k], false);
    lemma_place_of(roster, combat.combatants[k]);
    lemma_place_of(roster, event.target);
    lemma_place_of_after_update(
        roster,
        t,
        damaged(roster[t], event.damage as int),
        combat.combatants[k],
    );
}

proof fn lemma_side_falls(
    combat: CombatView,
    roster: Seq<EntryView>,
    event: DamageEvent,
    players: bool,
)
    requires
        place_of(roster, event.target) matches Some(t) && roster[t].combatant.is_player == players
            && event.damage >= roster[t].character.hit_points.current,
        forall|k: int|
            0 <= k < combat.combatants.len() && #[trigger] combat.combatants[k] != event.target
                ==> !stands(roster, combat.combatants[k], players),
    ensures
        side_defeated(combat.combatants, damage_applied(combat, roster, event).1, players),
{
    let t = place_of(roster, event.target)->0;
    lemma_place_of(roster, event.target);
    let after = roster.update(t, damaged(roster[t], event.damage as int));
    assert forall|k: int| 0 <= k < combat.combatants.len() implies !stands(
        after,
        #[trigger] combat.combatants[k],
        players,
    ) by {
        let id = combat.combatants[k];
        lemma_place_of(roster, id);
        lemma_place_of_after_update(roster, t, damaged(roster[t], event.damage as int), id);
    }
}

/// Steps and damage keep the encounter well formed.
pub proof fn lemma_step_well_formed(
    combat: CombatView,
    roster: Seq<EntryView>,
    decision: Option<AttackView>,
    event: DamageEvent,
)
    requires
        combat.well_formed(),
    ensures
        turn_step(combat, roster, decision).0.well_formed(),
        damage_applied(combat, roster, event).0.well_formed(),
{
    lemma_next_turn_well_formed(combat);
}

/// The turn and round counters never fall, and a step never touches the
/// combatants or the initiative order.
pub proof fn lemma_step_counts_up(
    combat: CombatView,
    roster: Seq<EntryView>,
    decision: Option<AttackView>,
)
    requires
        can_end_turn(combat),
    ensures
        turn_step(combat, roster, decision).0.turn >= combat.turn,
        turn_step(combat, roster, decision).0.round >= combat.round,
        turn_step(combat, roster, decision).0.combatants == combat.combatants,
        turn_step(combat, roster, decision).0.initiative_order == combat.initiative_order,
{
}

/// Neither a step nor damage adds anybody to the roster, takes anybody off
/// it, or changes an identifier.
pub proof fn lemma_roster_keeps_its_entries(
    combat: CombatView,
    roster: Seq<EntryView>,
    decision: Option<AttackView>,
    event: DamageEvent,
    place: int,
)
    requires
        0 <= place < roster.len(),
    ensures
        turn_step(combat, roster, decision).1.len() == roster.len(),
        turn_step(combat, roster, decision).1[place].id == roster[place].id,
        damage_applied(combat, roster, event).1.len() == roster.len(),
        damage_applied(combat, roster, event).1[place].id == roster[place].id,
{
    lemma_place_of(roster, event.target);
    match combat.current_combatant {
        Some(current) => {
            lemma_place_of(roster, current);
        },
        None => {},
    }
}

/// An encounter that is over stays as it is: no step of the turn phases,
/// and no damage, changes it.
pub proof fn lemma_over_stays_over(
    combat: CombatView,
    roster: Seq<EntryView>,
    decision: Option<AttackView>,
    event: DamageEvent,
)
    requires
        is_over(combat.state),
    ensures
        turn_step(combat, roster, decision) == (combat, roster, None::<AttackView>),
        damage_applied(combat, roster, event).0 == combat,
{
}

/// A player whose turn it is, and who has actions left, waits for a
/// decision: a step without one changes nothing, however often it is taken.
pub proof fn lemma_player_waits(combat: CombatView, roster: Seq<EntryView>)
    requires
        combat.state == CombatState::PlayerTurn,
        combat.current_combatant matches Some(current) && place_of(roster, current) matches Some(i)
            && can_act(roster[i], true),
    ensures
        turn_step(combat, roster, None) == (combat, roster, None::<AttackView>),
{
}

/// A step that refers to a combatant who is no longer on the roster does
/// nothing: not when that combatant is current, and not when it is the
/// target of damage.
pub proof fn lemma_missing_combatant_is_skipped(
    combat: CombatView,
    roster: Seq<EntryView>,
    decision: Option<AttackView>,
    event: DamageEvent,
)
    ensures
        (combat.current_combatant matches Some(current) && place_of(roster, current) is None)
            ==> turn_step(combat, roster, decision) == (combat, roster, None::<AttackView>),
        place_of(roster, event.target) is None ==> damage_applied(combat, roster, event) == (
            combat,
            roster,
        ),
{
}

} // verus!
