//! Supporting pieces shared by the game objects.

pub mod assets;
pub mod interactive;
pub mod mouse;
pub mod text;
