//! The builder pattern: a product is put together step by step and then
//! built, as often as wanted.
pub mod computer;
pub mod http_request;
pub mod query;
