//! Frame-by-frame rules of a small arcade game: a player car collects the
//! enemy cars that a repeating timer spawns, and a score board keeps count.
//!
//! The host that draws, plays sound and polls the keyboard is not part of
//! this crate. Once per frame it hands [`game_logic`](logic::game_logic) what
//! it observed and carries out the [`Action`](logic::Action)s that come back.

pub mod keyboard;
pub mod timer;
pub mod text;
pub mod collision;
pub mod state;
pub mod logic;
pub mod theorems;
