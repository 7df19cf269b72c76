//! Images: which ones the game needs, and when they have finished loading.

pub mod images;
pub mod loader;

pub use images::ImageKey;
pub use loader::{is_asset_loaded, LoadState};
