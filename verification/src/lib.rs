//! The core of a small tile-world game: a player walks a grid of rooms, tile
//! by tile, and the rooms decide where it may go.
//!
//! The heart of the crate is movement on the grid. Motion is continuous in
//! time and smooth on the screen, yet every step starts and ends on a
//! lattice point, is taken along one axis, and is refused as a whole when
//! the room says no. Rooms answer for rectangles of any place and size and
//! treat everything outside the grid as solid.
//!
//! All quantities are integers: positions in hundredths of a pixel, time in
//! microseconds ([`units`]). The crate draws nothing and reads no device;
//! it takes the held keys and the elapsed time and hands back state.
//!
//! - [`units`]: world units, the tile lattice, points and directions
//! - [`input`]: the keys the game reacts to
//! - [`rooms`]: tiles, the collision primitive, the room interface and the
//!   one kind of room there is
//! - [`map`]: the rooms of the world and the active one among them
//! - [`player`], [`enemy`]: the actors and what a tick does to them
//! - [`options`], [`intro`], [`title`]: the screens around the play
//! - [`game`]: which screen is up, and what a tick or a key does to it
//! - [`assets`]: textures made by rule

pub mod assets;
pub mod enemy;
pub mod game;
pub mod input;
pub mod intro;
pub mod map;
pub mod options;
pub mod player;
pub mod rooms;
pub mod title;
pub mod units;
