//! A chat-to-RSS bridge: rooms subscribe to a feed, links posted in them are captured,
//! and each feed is served as an RSS 2.0 document.
pub mod message;
pub mod store;
pub mod laws;
pub mod text;
pub mod extract;
pub mod render;
mod clock;
pub mod capture;
pub mod command;
pub mod http;
pub mod join;
