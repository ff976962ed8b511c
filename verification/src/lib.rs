//! Suggests libraries for a technology and a purpose by asking a hosted
//! text-generation model: this crate holds the rules of that exchange.

pub mod prompt;
pub mod cleaner;
pub mod json;
pub mod client;
pub mod session;
