//! A gateway in front of a media extractor.
//!
//! The extractor finds the files behind a post; the gateway hands out
//! short-lived links to them in place of their addresses, relays the files
//! from the content network with the headers that the network wants to see,
//! keeps what it has found for a few minutes, and tells its VPN to reconnect
//! when the network blocks it.
//!
//! This crate holds the decisions: the token codec, the keys and lifetimes of
//! what is kept, what the proxy asks upstream and tells the client, the
//! failover, and the answers to clients. It calls nothing over the network and
//! touches no file. Every function states what it returns, and the statements
//! are proved; those of the few calls into other crates are taken on trust and
//! say so.

pub mod base64url;
pub mod cache;
pub mod catalog;
pub mod cleanup;
pub mod clock;
pub mod config;
pub mod encryption;
pub mod errors;
pub mod fleet;
pub mod formats;
pub mod gateway;
pub mod health;
pub mod json;
pub mod links;
pub mod media;
pub mod response;
pub mod session;
pub mod session_build;
pub mod slideshow;
pub mod sorting;
pub mod stream;
pub mod text;
pub mod token_laws;
pub mod vpn;
