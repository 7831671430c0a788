//! Request deduplication, result caching and a job queue for slow profile
//! calculations, together with the configuration rules and the command-line
//! vocabulary of the calculator they feed.
//!
//! The library holds no clock, thread or file of its own: every function that
//! depends on the time takes a reading of it, and whoever runs the workers
//! performs the calculation and hands its outcome back.

pub mod cache_history;
pub mod cache_state;
pub mod clock;
pub mod config_functions;
pub mod identity;
pub mod performance_calculator;
pub mod player_cache;
pub mod profile_cache;
pub mod profile_queue;
pub mod responses;
pub mod status_table;
pub mod text;
