//! Turn-based combat rules for a tabletop-style role-playing game.
//!
//! The crate holds the rules only: ability modifiers, character sheets,
//! initiative and turn order, attack resolution, status effects and the
//! phases of an encounter. Every function states what it computes and is
//! proved against that statement. Rendering, input and storage belong to the
//! program that embeds the rules.
//!
//! An encounter is run by two values that the embedding program owns: a
//! [`combat::Combat`], which holds the identifiers of those who take part,
//! their turn order and the phase, and a [`roster::Roster`], which holds
//! their combat records and character sheets. [`encounter::advance`] takes
//! one step: it rolls initiative, lets the current combatant act or ends its
//! turn, resolves the attack that was decided on, and tells when the
//! encounter is won or lost.
//!
//! Dice come from the `rand` crate. The functions that roll dice have
//! counterparts that take the dice as arguments, so that the rules
//! themselves can be tried on given rolls.

pub mod sequences;
pub mod abilities;
pub mod dice;
pub mod character;
pub mod effects;
pub mod weapons;
pub mod attack;
pub mod roster;
pub mod combat;
pub mod initiative;
pub mod encounter;
pub mod messages;
