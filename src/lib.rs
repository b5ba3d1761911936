//! Polls syndication feeds and forwards fresh entries to chat destinations,
//! suppressing repeats through a ledger of what was already delivered.
//!
//! The verified part holds the data model, the conversion of parsed documents
//! into that model, the age filter, the message rendering, the ledger key, and
//! the decisions of the reader and publisher loops. The loops themselves, the
//! network and the ledger store run around it.

pub mod timestamp;
pub mod markup;
pub mod config;
pub mod feed;
pub mod sources;
pub mod cache;
pub mod payload;
pub mod reader;
