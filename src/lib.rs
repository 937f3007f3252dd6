//! Turn engine, event log and live event fan-out for a white-elephant
//! gift-exchange game.

pub mod api;
pub mod auth;
pub mod db;
pub mod error;
pub mod games;
pub mod hub;
pub mod laws;
pub mod notifier;
pub mod stream;
pub mod text;
