//! Services that a program holds once and shares: each is an ordinary value
//! that is constructed explicitly at start-up and handed to whoever needs it.
pub mod auth;
pub mod cache;
pub mod connection_pool;
pub mod global_config;
pub mod service_config;
pub mod settings;
