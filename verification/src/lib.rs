pub mod admission;
pub mod color;
pub mod config;
pub mod error;
pub mod gateway;
pub mod hub;
pub mod identity;
pub mod messages;
pub mod numtext;
pub mod session;
pub mod state;
pub mod strutil;
pub mod tally;
