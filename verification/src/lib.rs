//! Coordination core of a small home-automation hub.
//!
//! Two front-ends (a wireless peripheral and an HTTP server) hand commands and
//! inquiries to a single dispatcher through a one-slot mailbox. This crate holds
//! the rules of that exchange: the action and its textual forms, the device
//! registry, the mailbox, the dispatcher's step function and the front-ends'
//! decoding and validation.
//!
//! Every function carries a contract. Verus proves the contracts of the
//! library's own logic. It believes, without proof, those of the few functions
//! that only make a call into the standard library or into the `uuid` crate:
//! `utf8_text`, `lowercased`, `split_words`, `trim` and `replace_all` in `text`,
//! and `uuid_text` in `executor`. Each of them says above its header what it
//! claims.

pub mod action;
pub mod command;
pub mod control;
pub mod dispatch;
pub mod error;
pub mod executor;
pub mod http;
pub mod inquiry;
pub mod mailbox;
pub mod registry;
pub mod shared;
pub mod text;
pub mod wireless;
