//! Client library for line-delimited JSON smart lights: request encoding,
//! correlation of replies with requests, and delivery of notifications.
pub mod codec;
pub mod discover;
pub mod flow;
pub mod laws;
pub mod pending;
pub mod reader;
pub mod text;
pub mod vocab;
pub mod writer;
