//! Classic design patterns as small verified components: a notification
//! registry with its listeners, strategies, builders, decorators, factories
//! and explicitly constructed shared services.
pub mod builder;
pub mod decorator;
pub mod factory;
pub mod observer;
pub mod singleton;
pub mod store;
pub mod strategy;
pub mod text;
pub mod text_map;
