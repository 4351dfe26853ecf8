//! A two-party protocol that decides which player of a board game moves
//! first (commit, reveal, then a fair coin derived from both seeds), and the
//! plain data and decisions of the matching service that pairs the players.

pub mod external;
pub mod first_player;
pub mod first_player_laws;
pub mod matching;
pub mod first_player_properties;
pub mod matching_laws;
