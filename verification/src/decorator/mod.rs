//! The decorator pattern: a component wrapped in layers that each add one
//! thing and hand the rest on to what they wrap.
pub mod coffee;
pub mod data_source;
pub mod file_io;
pub mod text_processing;
