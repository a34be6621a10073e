//! Sign-in and backing-document resolution for the shift builder desktop client.
//!
//! The library decides; its caller talks to the network, the disk and the
//! clock. Each protocol is a state that names the step to take next and a
//! function that moves it on when the step's result arrives.

pub mod auth;
pub mod commands;
pub mod drive;
pub mod error;
pub mod http;
pub mod json;
pub mod server;
pub mod sheet;
pub mod starter;
pub mod store;
pub mod text;
pub mod time;
