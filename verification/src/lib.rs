//! Verified models of two FRAME pallets: a collectibles marketplace and a
//! kitties registry.

pub mod collectibles;
pub mod dispatch;
pub mod hashing;
pub mod keymap;
pub mod template;
