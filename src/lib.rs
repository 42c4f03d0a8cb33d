//! A link shortener core: short identifiers mapped to destination URLs, with
//! use- and time-based expiry, and the small pieces of input logic around it.

pub mod config;
pub mod duration;
pub mod duration_input;
pub mod error;
pub mod footer;
pub mod form;
pub mod laws;
pub mod link;
pub mod number;
pub mod store;
pub mod toggle;
pub mod util;
