//! The observer pattern: one registry that keeps listeners in registration
//! order and fans every state change out to them, and the subjects built on it.
pub mod blog;
pub mod chat;
pub mod laws;
pub mod registry;
pub mod stock;
pub mod traffic;
pub mod weather;
