//! The lines that tell what happened in combat, as a log or a user interface
//! shows them.

use crate::character::Character;
use vstd::prelude::*;
use vstd::string::StringExecFns;

verus! {

/// The character that stands for a digit.
pub open spec fn digit_char(digit: int) -> char {
    if digit == 0 {
        '0'
    } else if digit == 1 {
        '1'
    } else if digit == 2 {
        '2'
    } else if digit == 3 {
        '3'
    } else if digit == 4 {
        '4'
    } else if digit == 5 {
        '5'
    } else if digit == 6 {
        '6'
    } else if digit == 7 {
        '7'
    } else if digit == 8 {
        '8'
    } else {
        '9'
    }
}

/// The decimal digits of a natural number, without leading zeros.
pub open spec fn decimal_digits(number: nat) -> Seq<char>
    decreases number,
{
    if number < 10 {
        seq![digit_char(number as int)]
    } else {
        decimal_digits(number / 10).push(digit_char((number % 10) as int))
    }
}

/// A whole number in decimal notation, with a minus sign if it is negative.
pub open spec fn decimal(number: int) -> Seq<char> {
    if number < 0 {
        seq!['-'] + decimal_digits((-number) as nat)
    } else {
        decimal_digits(number as nat)
    }
}

/// The line that reports an attack.
pub open spec fn combat_text(attacker: Seq<char>, target: Seq<char>, hit: bool, damage: int) -> Seq<
    char,
> {
    if hit {
        attacker + " hits "@ + target + " for "@ + decimal(damage) + " damage!"@
    } else {
        attacker + " misses "@ + target + "!"@
    }
}

/// The line that reports an initiative roll.
pub open spec fn initiative_text(combatant: Seq<char>, initiative: int) -> Seq<char> {
    combatant + " rolls initiative: "@ + decimal(initiative)
}

fn digit_text(digit: u32) -> (text: &'static str)
    requires
        digit < 10,
    ensures
        text@ == seq![digit_char(digit as int)],
{
    proof {
        reveal_strlit("0");
        reveal_strlit("1");
        reveal_strlit("2");
        reveal_strlit("3");
        reveal_strlit("4");
        reveal_strlit("5");
        reveal_strlit("6");
        reveal_strlit("7");
        reveal_strlit("8");
        reveal_strlit("9");
    }
    let text = if digit == 0 {
        "0"
    } else if digit == 1 {
        "1"
    } else if digit == 2 {
        "2"
    } else if digit == 3 {
        "3"
    } else if digit == 4 {
        "4"
    } else if digit == 5 {
        "5"
    } else if digit == 6 {
        "6"
    } else if digit == 7 {
        "7"
    } else if digit == 8 {
        "8"
    } else {
        "9"
    };
    text
}

fn append_digits(text: &mut String, number: u32)
    ensures
        final(text)@ == old(text)@ + decimal_digits(number as nat),
    decreases number,
{
    if number >= 10 {
        append_digits(text, number / 10);
    }
    text.append(digit_text(number % 10));
}

/// Appends a whole number in decimal notation to a text.
pub fn append_decimal(text: &mut String, number: i32)
    ensures
        final(text)@ == old(text)@ + decimal(number as int),
{
    if number < 0 {
        proof {
            reveal_strlit("-");
        }
        text.append("-");
        let magnitude: u32 = if number == i32::MIN {
            2147483648
        } else {
            (-number) as u32
        };
        append_digits(text, magnitude);
    } else {
        append_digits(text, number as u32);
    }
}

/// Words the outcome of an attack: who hit whom for how much, or who missed
/// whom.
pub fn get_combat_text(attacker: &Character, target: &Character, hit: bool, damage: i16) -> (text:
    String)
    ensures
        text@ == combat_text(attacker.name@, target.name@, hit, damage as int),
{
    let mut text = String::from_str(attacker.name.as_str());
    if hit {
        text.append(" hits ");
        text.append(target.name.as_str());
        text.append(" for ");
        append_decimal(&mut text, damage as i32);
        text.append(" damage!");
    } else {
        text.append(" misses ");
        text.append(target.name.as_str());
        text.append("!");
    }
    text
}

/// Words an initiative roll.
pub fn get_initiative_text(combatant: &Character, initiative: i8) -> (text: String)
    ensures
        text@ == initiative_text(combatant.name@, initiative as int),
{
    let mut text = String::from_str(combatant.name.as_str());
    text.append(" rolls initiative: ");
    append_decimal(&mut text, initiative as i32);
    text
}

} // verus!
