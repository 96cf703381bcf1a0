//! Database schema bookkeeping.

pub mod migrate;
