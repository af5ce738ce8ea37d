//! A typed client for the Rooster Teeth video-on-demand catalogue, without
//! the wire.
//!
//! The library says which request each operation of the catalogue sends and
//! what the reply to it means; sending is left to the caller. All operations
//! go through a [`requests::Requests`] value:
//!
//! ```text
//! let requests = Requests::new(Credential::Anonymous, None)?;
//! let request = requests.list_episodes_request(1, None, None);
//! let reply = /* send `request`, make a `Reply` of what comes back */;
//! let episodes = requests.list_episodes(&reply)?;
//! ```
//!
//! The modules:
//!
//! * [`requests`]: the client, its requests, and how replies are read;
//! * [`structs`]: the records that replies decode to, by kind of entity;
//! * [`token`]: the answer of the login service;
//! * [`schema`]: what it means to decode and encode a record, and the rules
//!   for required, optional and renamed attributes;
//! * [`values`]: the same for truth values, integers, text and lists;
//! * [`timestamp`]: dates and times with their offset;
//! * [`json`]: JSON documents as values;
//! * [`text`]: string equality, decimal numerals, and how text is written
//!   inside a JSON string;
//! * [`names`]: how attribute names are spelled, for proofs.
//!
//! An episode tells all about itself; a video tells where to play it from,
//! and can be had only by a viewer who may watch it.

pub mod json;
pub mod names;
pub mod requests;
pub mod schema;
pub mod structs;
pub mod text;
pub mod timestamp;
pub mod token;
pub mod values;
