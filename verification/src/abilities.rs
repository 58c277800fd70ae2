//! Ability scores and the modifiers that combat arithmetic derives from them.

use vstd::prelude::*;

verus! {

/// The modifier that a strength or dexterity score gives.
///
/// Scores outside the table (below 3 or above 18) give no modifier.
pub open spec fn standard_modifier(score: int) -> int {
    if score == 3 {
        -3
    } else if 4 <= score <= 5 {
        -2
    } else if 6 <= score <= 8 {
        -1
    } else if 9 <= score <= 12 {
        0
    } else if 13 <= score <= 15 {
        1
    } else if 16 <= score <= 17 {
        2
    } else if score == 18 {
        3
    } else {
        0
    }
}

/// The modifier that a constitution score gives.
///
/// The constitution table is flatter at both ends than the table for
/// strength and dexterity: the lowest score gives -2, every score from 4 to 8
/// gives -1, and the highest gives +2.
pub open spec fn constitution_modifier(score: int) -> int {
    if score == 3 {
        -2
    } else if 4 <= score <= 8 {
        -1
    } else if 9 <= score <= 12 {
        0
    } else if 13 <= score <= 15 {
        1
    } else if 16 <= score <= 18 {
        2
    } else {
        0
    }
}

/// The two tables differ at the scores 3, 4, 5 and 18, and nowhere else.
pub proof fn lemma_tables_differ(score: int)
    ensures
        constitution_modifier(score) != standard_modifier(score) <==> (score == 3 || score == 4
            || score == 5 || score == 18),
{
}

/// Whether `face` is a face of a six-sided die.
pub open spec fn is_d6_face(face: int) -> bool {
    1 <= face <= 6
}

/// The smallest of four values.
pub open spec fn lowest_of_four(a: int, b: int, c: int, d: int) -> int {
    let ab = if a <= b { a } else { b };
    let cd = if c <= d { c } else { d };
    if ab <= cd { ab } else { cd }
}

/// The ability score that four dice give: the sum of the three highest.
pub open spec fn score_from_rolls(a: int, b: int, c: int, d: int) -> int {
    a + b + c + d - lowest_of_four(a, b, c, d)
}

/// Whether `score` can come out of four six-sided dice with the lowest dropped.
pub open spec fn is_rolled_score(score: int) -> bool {
    exists|a: int, b: int, c: int, d: int|
        is_d6_face(a) && is_d6_face(b) && is_d6_face(c) && is_d6_face(d)
            && score == #[trigger] score_from_rolls(a, b, c, d)
}

/// Adds up four six-sided dice, leaving out the lowest.
pub fn ability_score_from_rolls(a: u8, b: u8, c: u8, d: u8) -> (score: u8)
    requires
        is_d6_face(a as int),
        is_d6_face(b as int),
        is_d6_face(c as int),
        is_d6_face(d as int),
    ensures
        score == score_from_rolls(a as int, b as int, c as int, d as int),
        3 <= score <= 18,
        is_rolled_score(score as int),
{
    let ab: u8 = if a <= b { a } else { b };
    let cd: u8 = if c <= d { c } else { d };
    let lowest: u8 = if ab <= cd { ab } else { cd };
    let score: u8 = a + b + c + d - lowest;
    assert(score == score_from_rolls(a as int, b as int, c as int, d as int));
    score
}

/// Every rolled score lies between 3 and 18.
pub proof fn lemma_rolled_score_bounds(score: int)
    requires
        is_rolled_score(score),
    ensures
        3 <= score <= 18,
{
}

} // verus!
