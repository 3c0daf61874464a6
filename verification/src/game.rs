//! The current engine: players carry detailed ratings, teams carry four lines plus
//! power-play and penalty-kill units, and every turn of a match is decided from the
//! block's random seed.
pub mod player;
pub mod numbers;
pub mod tactics;
pub mod stats;
pub mod field_player;
pub mod goalie;
pub mod lineup;
pub mod five;
pub mod team;
pub mod brigades;
pub mod morale;
pub mod utils;
pub mod action;
pub mod engine;
pub mod plays;
pub mod random_plays;
pub mod penalties;
pub mod fight;
pub mod pass;
pub mod dump;
pub mod goal;
pub mod shot;
pub mod turn;
pub mod restart;
pub mod copies;
pub mod step;
pub mod serve;
pub mod round;
pub mod event;
pub mod manage;
pub mod sheet;
