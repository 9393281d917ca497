//! The core of a small HTTP relay. A request names a page by its hostname
//! and path; the relay derives a lookup key from the two, looks the key up
//! in a record repository, takes the page's address from the record, fetches
//! the page and sends it back.
//!
//! This crate decides; it does no input or output. `relay` takes a request
//! through its steps and says after each what is to be done next: look up a
//! record, fetch a page, or send a reply and write a log line. Its caller
//! performs the calls and hands back what came of them. `key` derives the
//! lookup key, `query` the URL of the lookup, `atproto` holds the record,
//! `reply` the replies and log lines, `config` what is fixed at start-up,
//! `text` the handling of character sequences underneath. `trusted` lists
//! what is taken on trust from other crates.

pub mod atproto;
pub mod config;
pub mod key;
pub mod query;
pub mod relay;
pub mod reply;
pub mod text;
pub mod trusted;
