use counter::error::ErrorCode;
use counter::program::{close, decrement, increment, initialize, Close, Initialize, Update};
use counter::state::{CounterAccount, Pubkey, RECORD_SPACE};

fn pk(tag: u8) -> Pubkey {
    Pubkey { bytes: [tag; 32] }
}

#[test]
fn initialize_binds_authority_and_zero_count() {
    let a = pk(1);
    let mut ctx = Initialize {
        counter: CounterAccount::empty(),
        authority: a,
        authority_balance: 100,
    };
    assert_eq!(initialize(&mut ctx), Ok(()));
    let rec = ctx.counter.record.unwrap();
    assert_eq!(rec.count, 0);
    assert!(rec.authority == a);
    // the record's allocation cost: an 8-byte tag, 8 bytes of count, 32 of authority
    assert_eq!(RECORD_SPACE, 48);
    assert_eq!(ctx.counter.reserved, 48);
    assert_eq!(ctx.authority_balance, 52);
}

#[test]
fn initialize_twice_fails_already_initialized() {
    let a = pk(1);
    let mut ctx = Initialize {
        counter: CounterAccount::empty(),
        authority: a,
        authority_balance: 200,
    };
    assert_eq!(initialize(&mut ctx), Ok(()));
    let balance_after_first = ctx.authority_balance;
    assert_eq!(initialize(&mut ctx), Err(ErrorCode::AlreadyInitialized));
    assert_eq!(ctx.authority_balance, balance_after_first);
    assert_eq!(ctx.counter.record.unwrap().count, 0);
}

#[test]
fn initialize_without_funds_fails_allocation() {
    let a = pk(1);
    let mut ctx = Initialize {
        counter: CounterAccount::empty(),
        authority: a,
        authority_balance: RECORD_SPACE - 1,
    };
    assert_eq!(initialize(&mut ctx), Err(ErrorCode::AllocationFailed));
    assert!(ctx.counter.record.is_none());
    assert_eq!(ctx.authority_balance, RECORD_SPACE - 1);
}

#[test]
fn initialize_with_exact_funds_succeeds() {
    let a = pk(7);
    let mut ctx = Initialize {
        counter: CounterAccount::empty(),
        authority: a,
        authority_balance: RECORD_SPACE,
    };
    assert_eq!(initialize(&mut ctx), Ok(()));
    assert_eq!(ctx.authority_balance, 0);
    assert_eq!(ctx.counter.record.unwrap().count, 0);
}

#[test]
fn increment_counts_up_from_zero() {
    let a = pk(2);
    let mut ctx = Initialize {
        counter: CounterAccount::empty(),
        authority: a,
        authority_balance: 100,
    };
    assert_eq!(initialize(&mut ctx), Ok(()));
    let mut u = Update { counter: ctx.counter, authority: a };
    for expected in 1..=5u64 {
        assert_eq!(increment(&mut u), Ok(()));
        assert_eq!(u.counter.record.unwrap().count, expected);
    }
}

#[test]
fn full_scenario_initialize_to_close() {
    let a = pk(3);
    let mut init = Initialize {
        counter: CounterAccount::empty(),
        authority: a,
        authority_balance: 1_000,
    };
    assert_eq!(initialize(&mut init), Ok(()));
    let rec = init.counter.record.unwrap();
    assert_eq!(rec.count, 0);
    assert!(rec.authority == a);

    let mut u = Update { counter: init.counter, authority: a };
    assert_eq!(increment(&mut u), Ok(()));
    assert_eq!(u.counter.record.unwrap().count, 1);
    assert_eq!(increment(&mut u), Ok(()));
    assert_eq!(u.counter.record.unwrap().count, 2);
    assert_eq!(counter::program::set(&mut u, 100), Ok(()));
    assert_eq!(u.counter.record.unwrap().count, 100);
    assert_eq!(decrement(&mut u), Ok(()));
    assert_eq!(u.counter.record.unwrap().count, 99);

    let mut cl = Close {
        counter: u.counter,
        authority: a,
        authority_balance: init.authority_balance,
    };
    assert_eq!(close(&mut cl), Ok(()));
    assert!(cl.counter.record.is_none());
    assert_eq!(cl.counter.reserved, 0);
    assert_eq!(cl.authority_balance, 1_000);
}

#[test]
fn close_refunds_reserved_resources() {
    let a = pk(4);
    let mut init = Initialize {
        counter: CounterAccount::empty(),
        authority: a,
        authority_balance: RECORD_SPACE,
    };
    assert_eq!(initialize(&mut init), Ok(()));
    assert_eq!(init.authority_balance, 0);
    let mut cl = Close { counter: init.counter, authority: a, authority_balance: 0 };
    assert_eq!(close(&mut cl), Ok(()));
    assert_eq!(cl.authority_balance, RECORD_SPACE);
    assert!(cl.counter.record.is_none());
}

#[test]
fn closed_slot_behaves_as_never_initialized() {
    let a = pk(5);
    let mut init = Initialize {
        counter: CounterAccount::empty(),
        authority: a,
        authority_balance: 100,
    };
    assert_eq!(initialize(&mut init), Ok(()));
    let mut cl = Close { counter: init.counter, authority: a, authority_balance: 0 };
    assert_eq!(close(&mut cl), Ok(()));

    let mut u = Update { counter: cl.counter, authority: a };
    assert_eq!(increment(&mut u), Err(ErrorCode::AccountNotInitialized));
    assert_eq!(decrement(&mut u), Err(ErrorCode::AccountNotInitialized));
    assert_eq!(counter::program::set(&mut u, 9), Err(ErrorCode::AccountNotInitialized));
    let mut cl2 = Close { counter: u.counter, authority: a, authority_balance: 0 };
    assert_eq!(close(&mut cl2), Err(ErrorCode::AccountNotInitialized));

    // The slot is free again: a fresh initialize, even by someone else, works.
    let b = pk(6);
    let mut again = Initialize {
        counter: cl2.counter,
        authority: b,
        authority_balance: 60,
    };
    assert_eq!(initialize(&mut again), Ok(()));
    let rec = again.counter.record.unwrap();
    assert_eq!(rec.count, 0);
    assert!(rec.authority == b);
}

#[test]
fn operations_on_fresh_slot_fail() {
    let a = pk(9);
    let mut u = Update { counter: CounterAccount::empty(), authority: a };
    assert_eq!(increment(&mut u), Err(ErrorCode::AccountNotInitialized));
    assert_eq!(decrement(&mut u), Err(ErrorCode::AccountNotInitialized));
    assert_eq!(counter::program::set(&mut u, 1), Err(ErrorCode::AccountNotInitialized));
    assert!(u.counter.record.is_none());
}
