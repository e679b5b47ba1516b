//! The core of a bridge between a caller in another runtime and the TypeDB
//! query engine: the encoding of answers into one MessagePack buffer, and the
//! decisions in the life of a query, synchronous or scheduled.
//!
//! Nothing here touches an address, a thread or the network. The layer around
//! this library does; it hands in plain values and acts on what comes back.

pub mod answer;
pub mod buffer;
pub mod catalog;
pub mod concept;
pub mod engine;
pub mod error;
pub mod future;
pub mod handles;
pub mod json;
pub mod options;
pub mod task;
pub mod text;
