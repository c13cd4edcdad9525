//! Control and discovery client for networked smart-lighting devices.
//!
//! The crate covers the wire codec of the line-delimited JSON control
//! protocol, the call dispatcher that pairs every reply with the call that
//! produced it, the parser of discovery announcements, and the bookkeeping of
//! a discovery session.

pub mod rgb;
pub mod text;
pub mod power;
pub mod method;
pub mod headers;
pub mod lightmode;
pub mod bulb;
pub mod connection;
pub mod json;
pub mod reply;
pub mod arguments;
pub mod method_calls;
pub mod request;
pub mod search;
