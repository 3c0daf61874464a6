//! The first engines: players with five numeric ratings; in the second, a field player
//! also keeps his own position and plays elsewhere at a coefficient.
pub mod player;
pub mod goalie;
pub mod field_player;
pub mod action;
pub mod positioned;
