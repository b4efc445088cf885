//! A character-sheet data model for a tabletop role-playing game.
//!
//! The heart of the crate is the weapon configuration engine in
//! [`item::weapon`]: a builder that assembles a weapon description from a
//! closed vocabulary of types, styles, damage types and properties, while
//! enforcing compatibility and dependency rules, including propositional
//! formulas over weapon styles.

pub mod attribute;
pub mod character;
pub mod class;
pub mod field_aggregator;
pub mod item;
pub mod logical;
pub mod maneuver;
pub mod skill;
pub mod spell;
pub mod utils;
