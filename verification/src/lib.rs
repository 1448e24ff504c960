//! Verified core of a bot that reads a user's Trello board and reports the
//! state of its "ToDo", "Doing" and "Done" lists over Telegram.
//!
//! The network, the database, the clock and the random source stay outside
//! (the clock and the random source behind small trusted wrappers); this
//! crate holds the rules: parsing of the board configuration, classification
//! of lists and cards, the wording of every message, the schedule of the jobs
//! and the step-by-step decisions of the command handler and the report job.

pub mod config;
pub mod error;
pub mod handlers;
pub mod models;
pub mod services;
pub mod text;
pub mod trello;
pub mod utils;
