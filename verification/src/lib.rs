//! A per-owner counter kept behind a deterministically derived storage
//! address.
//!
//! The library holds the whole of the logic: deriving the storage address
//! for an owner key, initializing the counter record, and the two guarded
//! mutations on it. Storing the record, checking signatures and paying for
//! the allocation are the surrounding ledger's business and stay outside.

pub mod address;
pub mod instructions;
pub mod state;

pub use address::{bytes32_eq, derive_counter_address, verify_counter_address};
pub use instructions::{decrement, increment, initialize, initialize_for_owner};
pub use instructions::{Decrement, Increment, Initialize};
pub use state::{Counter, CounterError};
