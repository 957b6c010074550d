//! The persisted record and the error kinds the logic raises.

use vstd::prelude::*;

verus! {

/// The sole persisted entity: the counter value together with the bump byte
/// that made its derived storage address valid. The bump is recorded at
/// creation time so the address can be re-checked later without searching
/// for it again.
#[derive(Clone, Copy, Debug, PartialEq, Eq, Structural)]
pub struct Counter {
    pub count: u64,
    pub bump: u8,
}

impl Counter {
    /// Bytes a fresh record occupies: an 8-byte ledger header, then the
    /// 8-byte count and the 1-byte bump.
    pub const INIT_SPACE: usize = 8 + 8 + 1;
}

/// The error kinds this logic raises itself. Every other failure (a missing
/// signature, a duplicate record, an unfunded payer) is the ledger's to
/// report and never originates here.
#[derive(Clone, Copy, Debug, PartialEq, Eq, Structural)]
pub enum CounterError {
    /// An increase or decrease whose amount fails its guard.
    InvalidAmount,
    /// An increase whose guard holds but whose sum would not fit in 64 bits.
    Overflow,
}

/// The guard an increase must pass: a positive amount no smaller than the
/// value already accumulated.
pub open spec fn increase_allowed(count_before: u64, amount: u64) -> bool {
    amount > 0 && amount >= count_before
}

/// Whether the sum of an increase stays representable in 64 bits.
pub open spec fn increase_fits(count_before: u64, amount: u64) -> bool {
    count_before + amount <= u64::MAX
}

/// The guard a decrease must pass: a positive amount no larger than the
/// current value, so the difference can never go below zero.
pub open spec fn decrease_allowed(count_before: u64, amount: u64) -> bool {
    amount > 0 && amount <= count_before
}

} // verus!
