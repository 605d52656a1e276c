//! A verified client library for a messaging platform's HTTP bot API.
//!
//! The library holds typed request builders with exact contracts for the JSON
//! or multipart body each call sends, a JSON document model with a verified
//! renderer, and the update dispatch core: decoding inbound updates, the
//! long-poll offset cursor, ordered batch dispatch, and webhook acceptance.
//! Performing the HTTP calls themselves is the caller's side of the contract:
//! a transport hands batches in and takes requests out as plain values.

pub mod api;
pub mod contact;
pub mod forum;
pub mod handler;
pub mod inline_mode;
pub mod input_media;
pub mod json;
pub mod markup;
pub mod message;
pub mod methods;
pub mod passport;
pub mod primitive;
pub mod sending;
pub mod sticker;
pub mod text;
pub mod update;
pub mod user;

use vstd::prelude::*;

verus! {

/// Signed integer type used for all identifiers and counters of the Bot API.
pub type Integer = i64;

} // verus!
