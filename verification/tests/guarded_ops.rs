use pda_counter::{decrement, increment, initialize, Counter, CounterError, Decrement, Increment, Initialize};

fn fresh(count: u64) -> Increment {
    Increment { counter: Counter { count, bump: 254 }, user: [7u8; 32] }
}

fn fresh_dec(count: u64) -> Decrement {
    Decrement { counter: Counter { count, bump: 254 }, user: [7u8; 32] }
}

#[test]
fn initialize_zeroes_the_record() {
    let mut ctx = Initialize {
        counter: Counter { count: 917, bump: 0 },
        user: [1u8; 32],
        bump: 253,
    };
    let r = initialize(&mut ctx);
    assert!(r.is_ok());
    assert_eq!(ctx.counter.count, 0);
    assert_eq!(ctx.counter.bump, 253);
    assert_eq!(ctx.user, [1u8; 32]);
}

#[test]
fn increase_five_from_zero() {
    let mut ctx = fresh(0);
    assert_eq!(increment(&mut ctx, 5), Ok(()));
    assert_eq!(ctx.counter.count, 5);
}

#[test]
fn increase_three_on_five_fails() {
    let mut ctx = fresh(5);
    assert_eq!(increment(&mut ctx, 3), Err(CounterError::InvalidAmount));
    assert_eq!(ctx.counter.count, 5);
}

#[test]
fn increase_ten_on_five() {
    let mut ctx = fresh(5);
    assert_eq!(increment(&mut ctx, 10), Ok(()));
    assert_eq!(ctx.counter.count, 15);
}

#[test]
fn decrease_five_on_fifteen() {
    let mut ctx = fresh_dec(15);
    assert_eq!(decrement(&mut ctx, 5), Ok(()));
    assert_eq!(ctx.counter.count, 10);
}

#[test]
fn decrease_twenty_on_ten_fails() {
    let mut ctx = fresh_dec(10);
    assert_eq!(decrement(&mut ctx, 20), Err(CounterError::InvalidAmount));
    assert_eq!(ctx.counter.count, 10);
}

#[test]
fn increase_zero_fails_on_any_count() {
    for count in [0u64, 1, 5, u64::MAX] {
        let mut ctx = fresh(count);
        assert_eq!(increment(&mut ctx, 0), Err(CounterError::InvalidAmount));
        assert_eq!(ctx.counter.count, count);
    }
}

#[test]
fn decrease_zero_fails_on_any_count() {
    for count in [0u64, 1, 5, u64::MAX] {
        let mut ctx = fresh_dec(count);
        assert_eq!(decrement(&mut ctx, 0), Err(CounterError::InvalidAmount));
        assert_eq!(ctx.counter.count, count);
    }
}

#[test]
fn whole_scenario_chain() {
    let mut ctx = fresh(0);
    assert_eq!(increment(&mut ctx, 5), Ok(()));
    assert_eq!(increment(&mut ctx, 3), Err(CounterError::InvalidAmount));
    assert_eq!(increment(&mut ctx, 10), Ok(()));
    assert_eq!(ctx.counter.count, 15);
    let mut dctx = Decrement { counter: ctx.counter, user: ctx.user };
    assert_eq!(decrement(&mut dctx, 5), Ok(()));
    assert_eq!(decrement(&mut dctx, 20), Err(CounterError::InvalidAmount));
    assert_eq!(dctx.counter.count, 10);
}

#[test]
fn increase_overflow_is_rejected_without_wrapping() {
    let mut ctx = fresh(2);
    assert_eq!(increment(&mut ctx, u64::MAX), Err(CounterError::Overflow));
    assert_eq!(ctx.counter.count, 2);

    let mut ctx = fresh(u64::MAX);
    assert_eq!(increment(&mut ctx, u64::MAX), Err(CounterError::Overflow));
    assert_eq!(ctx.counter.count, u64::MAX);
}

#[test]
fn increase_to_exactly_the_limit_succeeds() {
    let mut ctx = fresh(1);
    assert_eq!(increment(&mut ctx, u64::MAX - 1), Ok(()));
    assert_eq!(ctx.counter.count, u64::MAX);
}

#[test]
fn decrease_the_whole_count_reaches_zero() {
    let mut ctx = fresh_dec(10);
    assert_eq!(decrement(&mut ctx, 10), Ok(()));
    assert_eq!(ctx.counter.count, 0);
}

#[test]
fn failed_operations_leave_the_bump_alone() {
    let mut ctx = fresh(5);
    let _ = increment(&mut ctx, 3);
    assert_eq!(ctx.counter.bump, 254);
    let mut dctx = fresh_dec(5);
    let _ = decrement(&mut dctx, 6);
    assert_eq!(dctx.counter.bump, 254);
}

#[test]
fn record_space_matches_the_layout() {
    assert_eq!(Counter::INIT_SPACE, 17);
}
