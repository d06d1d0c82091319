//! State, batching and relay logic for a fleet of remote game servers, each
//! bound to one channel of a chat platform.
pub mod auth;
pub mod batcher;
pub mod commands;
pub mod config;
pub mod lang;
pub mod pages;
pub mod records;
pub mod relay;
pub mod server;
pub mod status;
pub mod text;
pub mod timer;
