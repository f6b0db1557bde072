//! Trophy Lodge reads what a hunting game holds in memory about the latest kill and
//! keeps a record of the trophies.
//!
//! The memory of the game is reached through [`memory::MemorySource`]. The readers in
//! [`reader`] take typed values out of it and never fail: what cannot be read is zero.
//! [`offsets`] says where things stand, [`fur`] looks fur names up, and [`harvest`]
//! puts a harvest together field by field. [`game_monitor`] decides, look by look,
//! whether there is a new harvest, and [`registration`] decides whether a harvest
//! becomes a trophy. The lists of trophies and grinds are kept by [`data`];
//! [`challenges`] and [`lodge`] serve the window that shows them.
//!
//! Finding the process, sleeping between two looks, sending messages and writing
//! files are left to the caller.

pub mod ambient;
pub mod text;

pub mod species;
pub mod reserve;
pub mod models;
pub mod ordering;

pub mod memory;
pub mod probe;
pub mod reader;
pub mod offsets;
pub mod fur;
pub mod harvest;

pub mod game_monitor;
pub mod registration;

pub mod data;
pub mod challenges;
pub mod lodge;
