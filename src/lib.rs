//! Typed request, response and signal channels between a Rust logic core and
//! a host application: the message model, the positional wire form of each
//! message, and the channel context that correlates responses with requests.

pub mod channels;
pub mod message;
pub mod wire;
