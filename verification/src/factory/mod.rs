//! The factory patterns: a factory method makes one product, an abstract
//! factory makes the products of one family, and the caller never names the
//! concrete types.
pub mod coffee_machine;
pub mod content;
pub mod database;
pub mod db_connection;
pub mod ecu;
pub mod file_system;
pub mod gui;
pub mod notification;
pub mod notifier;
pub mod payment_methods;
pub mod payment_session;
pub mod peer;
pub mod shopping;
