//! Chunking, embedding ingestion and vector queries for a store of text embeddings.
//!
//! Files are cut into bounded chunks ([`chunk`]), each chunk is sent to an embedding
//! provider ([`embedder`]), the answers become rows of a table ([`schema`]) that a load
//! writes and indexes ([`pipeline`]), and queries read the rows back ([`query`]).
//! Sending requests and talking to the store is left to the caller: the library lays
//! out what is to be sent and decides what is made of the answers.
//!
//! Every function states in its contract what it returns, and Verus proves the
//! contracts. What is taken on trust of `std` and of other crates is a handful of small
//! functions in [`text`], [`splitter`], [`embedder`] and the private module `clock`; the
//! comment above each says what is claimed of the call that it makes.

pub mod chat;
pub mod chunk;
mod clock;
pub mod commands;
pub mod config;
pub mod embedder;
pub mod language;
pub mod pgvectordb;
pub mod pipeline;
pub mod query;
pub mod schema;
pub mod splitter;
pub mod text;
