//! The three invocations: Initialize, Increment and Decrement.
//!
//! Each takes the accounts it touches as an explicit context value and
//! either commits its whole effect or, on a failed guard, leaves the record
//! exactly as it was.

use crate::address::counter_address_ok;
use crate::address::counter_seeds;
use crate::address::derive_counter_address;
use crate::address::pda_of;
use crate::state::decrease_allowed;
use crate::state::increase_allowed;
use crate::state::increase_fits;
use crate::state::Counter;
use crate::state::CounterError;
use vstd::prelude::*;

verus! {

/// The accounts an Initialize invocation touches: the fresh record, the
/// owner (who also pays for the allocation) and the bump the address
/// deriver produced for this invocation.
pub struct Initialize {
    pub counter: Counter,
    pub user: [u8; 32],
    pub bump: u8,
}

/// The accounts an Increment invocation touches. The signer's key is
/// carried but deliberately not checked against the record's derived
/// address: any authorized signer may mutate any record. A caller who
/// wants per-owner exclusivity can re-check the binding first through
/// `crate::address::verify_counter_address`.
pub struct Increment {
    pub counter: Counter,
    pub user: [u8; 32],
}

/// The accounts a Decrement invocation touches; see `Increment` on the
/// unchecked signer.
pub struct Decrement {
    pub counter: Counter,
    pub user: [u8; 32],
}

/// Sets a freshly allocated record to zero and stores the bump byte under
/// which its address was derived. Never fails: a duplicate record or an
/// unfunded payer is refused by the ledger before this runs.
pub fn initialize(ctx: &mut Initialize) -> (r: Result<(), CounterError>)
    ensures
        r is Ok,
        final(ctx).counter.count == 0,
        final(ctx).counter.bump == old(ctx).bump,
        final(ctx).user == old(ctx).user,
        final(ctx).bump == old(ctx).bump,
{
    ctx.counter.count = 0;
    ctx.counter.bump = ctx.bump;
    Ok(())
}

/// Applies a guarded increase: the amount must be positive and at least as
/// large as the value already accumulated, and the sum must fit in 64
/// bits. On any failure the record is left unchanged.
pub fn increment(ctx: &mut Increment, amount: u64) -> (r: Result<(), CounterError>)
    ensures
        (r is Ok) == (increase_allowed(old(ctx).counter.count, amount) && increase_fits(
            old(ctx).counter.count,
            amount,
        )),
        r is Ok ==> final(ctx).counter.count == old(ctx).counter.count + amount,
        r matches Err(e) ==> (e == CounterError::InvalidAmount) == !increase_allowed(
            old(ctx).counter.count,
            amount,
        ),
        r matches Err(e) ==> (e == CounterError::Overflow) == (increase_allowed(
            old(ctx).counter.count,
            amount,
        ) && !increase_fits(old(ctx).counter.count, amount)),
        r is Err ==> final(ctx).counter == old(ctx).counter,
        final(ctx).counter.bump == old(ctx).counter.bump,
        final(ctx).user == old(ctx).user,
{
    if !(amount > 0 && amount >= ctx.counter.count) {
        return Err(CounterError::InvalidAmount);
    }
    if amount > u64::MAX - ctx.counter.count {
        return Err(CounterError::Overflow);
    }
    ctx.counter.count = ctx.counter.count + amount;
    Ok(())
}

/// Applies a guarded decrease: the amount must be positive and no larger
/// than the current value, so the difference never goes below zero. On a
/// failed guard the record is left unchanged.
pub fn decrement(ctx: &mut Decrement, amount: u64) -> (r: Result<(), CounterError>)
    ensures
        (r is Ok) == decrease_allowed(old(ctx).counter.count, amount),
        r is Ok ==> final(ctx).counter.count == old(ctx).counter.count - amount,
        r matches Err(e) ==> e == CounterError::InvalidAmount,
        r is Err ==> final(ctx).counter == old(ctx).counter,
        final(ctx).counter.bump == old(ctx).counter.bump,
        final(ctx).user == old(ctx).user,
{
    if !(amount > 0 && amount <= ctx.counter.count) {
        return Err(CounterError::InvalidAmount);
    }
    ctx.counter.count = ctx.counter.count - amount;
    Ok(())
}

/// One whole creation cycle for an owner: derive the address, then
/// initialize a record under it. Yields the derived address and a record
/// whose count is zero and whose stored bump re-derives that address.
pub fn initialize_for_owner(owner: &[u8; 32], program_id: &[u8; 32]) -> (r: Option<
    ([u8; 32], Counter),
>)
    ensures
        (r is Some) == (pda_of(counter_seeds(owner@), program_id@) is Some),
        r matches Some((address, c)) ==> c.count == 0 && pda_of(counter_seeds(owner@), program_id@)
            == Some((address@, c.bump)),
        r matches Some((address, c)) ==> counter_address_ok(address@, owner@, c.bump, program_id@),
{
    match derive_counter_address(owner, program_id) {
        Some((address, bump)) => {
            let mut ctx = Initialize { counter: Counter { count: 0, bump: 0 }, user: *owner, bump };
            let created = initialize(&mut ctx);
            match created {
                Ok(()) => Some((address, ctx.counter)),
                Err(_) => None,
            }
        },
        None => None,
    }
}

} // verus!
