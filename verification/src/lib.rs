//! Rules engine core for a turn-based infection-spread board simulation:
//! a fixed 48-city travel network, four players with disease-color
//! affiliations, and per-turn generation of the legal move set.

pub mod cities;
pub mod errors;
pub mod game;
