//! Protocol data model and polling lifecycle for a networked
//! heating-appliance controller that answers a fixed-shape JSON request
//! with a nested, partially optional JSON reply.
//!
//! `schema` holds the wire records; `codec` maps them to and from JSON
//! documents and proves the mapping lossless; `numtext` gives the decimal
//! text of the integer fields its meaning; `model` and `jsonval` model the
//! JSON library the documents pass through; `poller` owns the sequence
//! counter and says what one poll tick sends and records. The transport
//! and the append sink stay outside: callers hand reply text in and take
//! request text out.
pub mod codec;
pub mod jsonval;
pub mod model;
pub mod numtext;
pub mod poller;
pub mod schema;
