//! Verified execution engine for a JSON-to-SQL transaction gateway.
//!
//! Clients describe a transaction as an ordered list of items, each holding
//! one SQL query or statement with optional positional parameters and a
//! correlation tag.  This crate holds the verified core of the gateway:
//! parameter binding, type-directed column decoding, transactional
//! sequencing with rollback on first failure, the connection-pool registry,
//! and response assembly.  The surrounding process (HTTP transport, the
//! database driver's asynchronous calls) drives the engine and performs the
//! actions it requests.

pub mod bind;
pub mod cli;
pub mod decode;
pub mod headers;
pub mod json;
pub mod laws;
pub mod registry;
pub mod response;
pub mod txn;
