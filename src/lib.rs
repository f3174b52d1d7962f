//! A quiz match coordinator: one match's lifecycle, answer submissions and
//! per-player scores, with a lobby that hands out fresh matches.

pub mod status;
pub mod scores;
pub mod match_app;
pub mod laws;
pub mod lobby;
