//! The card market: rarities, packs and the team sheets that owners register.
pub mod rarity;
pub mod pack;
pub mod team_sheet;
pub mod free_team;
