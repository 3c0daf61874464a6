//! A hockey match engine and the bookkeeping around it: teams of field
//! players and goalies, the choice and the outcome of each game action,
//! penalties and line changes, player accounts, match rewards, and the packs
//! and team sheets of the card market.
pub mod classic;
pub mod game;
pub mod ids;
pub mod manager;
pub mod lobby;
pub mod accounts;
pub mod nft;
