//! The storage and derivation core of an agent-centric distributed ledger.
//!
//! A committed element of a source chain is turned into the operations that
//! are validated, stored and passed on to the network (`dht_op`), each with
//! the basis that places it in the address space (`basis`). Writes are staged
//! in a buffered multi-value store and flushed at once (`buffer`), and the
//! mutations project headers, entries and operations into rows and keep the
//! books of validation (`mutations`, `rows`, `validation`). A store is opened
//! through the guard of its schema version (`schema`).

pub mod basis;
pub mod buffer;
pub mod dht_op;
pub mod element;
pub mod entry;
pub mod error;
pub mod hash;
pub mod header;
pub mod host_fn;
pub mod mutations;
pub mod ord_map;
pub mod order;
pub mod release;
pub mod rows;
pub mod schema;
pub mod scratch;
pub mod validation;
pub mod workflow;
