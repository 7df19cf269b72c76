//! Headless core of an Uno-style card game: the card model and its texture
//! paths, deck generation, and the pointer interaction layer (hover and click
//! detection), each stated and proved over mathematical models.

pub mod game;
pub mod utils;
