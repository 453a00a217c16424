//! Client library for a signed, session-based banking REST API: the JSON
//! envelope codec, request signing and response verification, and the
//! credential bootstrap that leads from a fresh key to a live session.
//!
//! The library does no I/O. It builds each request, and takes each reply as a
//! value; sending and receiving is left to the caller.

pub mod client;
pub mod client_builder;
pub mod credential;
pub mod crypto;
pub mod deserialization;
pub mod json;
pub mod messenger;
pub mod types;
