//! A sandboxed profile renderer: binds a profile document to a UTF-8 theme
//! template, applies markdown filters, and hands the result to a host through
//! a single-slot output channel.

pub mod channel;
pub mod engine;
pub mod filters;
pub mod json;
pub mod profile;
