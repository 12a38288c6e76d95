//! Stores that stage their writes in memory before they reach the persisted
//! data.

pub mod kvv;
pub mod multi;
