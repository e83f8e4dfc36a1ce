//! The simulation core of a side-scrolling platformer: a player under
//! gravity, platforms that come back on the right once they have scrolled
//! out on the left, enemies that are spawned by a timer, and collectibles
//! that raise the score.
//!
//! Lengths are whole thousandths of a world unit and time is whole
//! milliseconds, so that every speed of the game (world units per second)
//! multiplied by an elapsed time is an exact number of thousandths.
//! Coordinates are `i64`; a move that would leave that range stops at its
//! end. A rectangle reaches exactly half its extent to either side of its
//! centre; edges are compared doubled, so that an odd extent loses nothing.
//!
//! `game` holds the world and its frame; `laws` holds what is proved of
//! every frame; `random` holds the only calls whose results are believed
//! and not proved.

pub mod world;
pub mod geometry;
pub mod input;
pub mod player;
pub mod platform;
pub mod enemy;
pub mod random;
pub mod landing;
pub mod respawn;
pub mod game;
pub mod laws;
pub mod render;
