//! Verified core of an in-process helper for the Source engine: error kinds,
//! button and input codes, virtual-table bookkeeping, and byte-pattern scanning.

pub mod error;
pub mod scan;
pub mod sdk;
pub mod process;
pub mod dll;
