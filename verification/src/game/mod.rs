//! The game's own objects: cards and the deck.

pub mod card;
pub mod deck;
