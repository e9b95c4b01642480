use vstd::prelude::*;

use crate::error::ErrorCode;
use crate::state::{Counter, CounterAccount, Pubkey, RECORD_SPACE};

verus! {

/// Accounts touched by `initialize`: the slot to allocate in, the verified
/// signer who becomes the record's authority, and the signer's resource
/// balance, from which the allocation cost is taken.
pub struct Initialize {
    pub counter: CounterAccount,
    pub authority: Pubkey,
    pub authority_balance: u64,
}

/// Accounts touched by `increment`, `decrement` and `set`: the slot holding
/// the record and the verified signer asking for the change.
pub struct Update {
    pub counter: CounterAccount,
    pub authority: Pubkey,
}

/// Accounts touched by `close`: the slot holding the record, the verified
/// signer, and the signer's resource balance, to which the slot's reserved
/// resources are returned.
pub struct Close {
    pub counter: CounterAccount,
    pub authority: Pubkey,
    pub authority_balance: u64,
}

/// What `initialize` does to the slot and the payer's balance: refuses a slot
/// that already holds a record, refuses a payer who cannot cover the
/// allocation cost, and otherwise allocates a record with a zero count bound
/// to the caller, moving the cost from the balance into the slot's reserve.
pub open spec fn spec_initialize(slot: CounterAccount, caller: Pubkey, balance: u64) -> (
    CounterAccount,
    u64,
    Result<(), ErrorCode>,
) {
    if slot.record is Some {
        (slot, balance, Err(ErrorCode::AlreadyInitialized))
    } else if balance < RECORD_SPACE {
        (slot, balance, Err(ErrorCode::AllocationFailed))
    } else {
        (
            CounterAccount {
                record: Some(Counter { count: 0, authority: caller }),
                reserved: RECORD_SPACE,
            },
            (balance - RECORD_SPACE) as u64,
            Ok(()),
        )
    }
}

/// What `increment` does to the slot: refuses a missing record, refuses a
/// caller who is not the bound authority, refuses a count at `u64::MAX`, and
/// otherwise adds one.
pub open spec fn spec_increment(slot: CounterAccount, caller: Pubkey) -> (
    CounterAccount,
    Result<(), ErrorCode>,
) {
    match slot.record {
        None => (slot, Err(ErrorCode::AccountNotInitialized)),
        Some(c) => if c.authority != caller {
            (slot, Err(ErrorCode::AuthorityMismatch))
        } else if c.count == u64::MAX {
            (slot, Err(ErrorCode::Overflow))
        } else {
            (
                CounterAccount {
                    record: Some(Counter { count: (c.count + 1) as u64, authority: c.authority }),
                    reserved: slot.reserved,
                },
                Ok(()),
            )
        },
    }
}

/// What `decrement` does to the slot: refuses a missing record, refuses a
/// caller who is not the bound authority, refuses a zero count, and otherwise
/// subtracts one.
pub open spec fn spec_decrement(slot: CounterAccount, caller: Pubkey) -> (
    CounterAccount,
    Result<(), ErrorCode>,
) {
    match slot.record {
        None => (slot, Err(ErrorCode::AccountNotInitialized)),
        Some(c) => if c.authority != caller {
            (slot, Err(ErrorCode::AuthorityMismatch))
        } else if c.count == 0 {
            (slot, Err(ErrorCode::Underflow))
        } else {
            (
                CounterAccount {
                    record: Some(Counter { count: (c.count - 1) as u64, authority: c.authority }),
                    reserved: slot.reserved,
                },
                Ok(()),
            )
        },
    }
}

/// What `set` does to the slot: refuses a missing record, refuses a caller
/// who is not the bound authority, and otherwise overwrites the count with
/// the given value, whatever it was before.
pub open spec fn spec_set(slot: CounterAccount, caller: Pubkey, value: u64) -> (
    CounterAccount,
    Result<(), ErrorCode>,
) {
    match slot.record {
        None => (slot, Err(ErrorCode::AccountNotInitialized)),
        Some(c) => if c.authority != caller {
            (slot, Err(ErrorCode::AuthorityMismatch))
        } else {
            (
                CounterAccount {
                    record: Some(Counter { count: value, authority: c.authority }),
                    reserved: slot.reserved,
                },
                Ok(()),
            )
        },
    }
}

/// What `close` does to the slot and the caller's balance: refuses a missing
/// record, refuses a caller who is not the bound authority, and otherwise
/// removes the record, leaving the slot as if nothing had ever been allocated
/// and crediting the reserved resources back to the caller.
pub open spec fn spec_close(slot: CounterAccount, caller: Pubkey, balance: u64) -> (
    CounterAccount,
    u64,
    Result<(), ErrorCode>,
) {
    match slot.record {
        None => (slot, balance, Err(ErrorCode::AccountNotInitialized)),
        Some(c) => if c.authority != caller {
            (slot, balance, Err(ErrorCode::AuthorityMismatch))
        } else {
            (CounterAccount::empty_spec(), (balance + slot.reserved) as u64, Ok(()))
        },
    }
}

/// Allocates the record in the slot: count zero, authority bound to the
/// caller, allocation cost moved from the caller's balance into the slot.
/// Fails with AlreadyInitialized if the slot holds a record, and with
/// AllocationFailed if the balance cannot cover the cost; a failure changes
/// nothing.
pub fn initialize(ctx: &mut Initialize) -> (r: Result<(), ErrorCode>)
    requires
        old(ctx).counter.well_formed(),
    ensures
        final(ctx).counter.well_formed(),
        final(ctx).authority == old(ctx).authority,
        (final(ctx).counter, final(ctx).authority_balance, r) == spec_initialize(
            old(ctx).counter,
            old(ctx).authority,
            old(ctx).authority_balance,
        ),
{
    if ctx.counter.record.is_some() {
        return Err(ErrorCode::AlreadyInitialized);
    }
    if ctx.authority_balance < RECORD_SPACE {
        return Err(ErrorCode::AllocationFailed);
    }
    ctx.counter.record = Some(Counter { count: 0, authority: ctx.authority });
    ctx.counter.reserved = RECORD_SPACE;
    ctx.authority_balance = ctx.authority_balance - RECORD_SPACE;
    Ok(())
}

/// Adds one to the count. Fails with AccountNotInitialized if the slot holds
/// no record, with AuthorityMismatch if the caller is not the bound
/// authority, and with Overflow if the count is at `u64::MAX`; a failure
/// changes nothing.
pub fn increment(ctx: &mut Update) -> (r: Result<(), ErrorCode>)
    requires
        old(ctx).counter.well_formed(),
    ensures
        final(ctx).counter.well_formed(),
        final(ctx).authority == old(ctx).authority,
        (final(ctx).counter, r) == spec_increment(old(ctx).counter, old(ctx).authority),
{
    let rec = ctx.counter.record;
    match rec {
        None => Err(ErrorCode::AccountNotInitialized),
        Some(c) => {
            if !(c.authority == ctx.authority) {
                Err(ErrorCode::AuthorityMismatch)
            } else if c.count == u64::MAX {
                Err(ErrorCode::Overflow)
            } else {
                ctx.counter.record = Some(Counter { count: c.count + 1, authority: c.authority });
                Ok(())
            }
        },
    }
}

/// Subtracts one from the count. Fails with AccountNotInitialized if the slot
/// holds no record, with AuthorityMismatch if the caller is not the bound
/// authority, and with Underflow if the count is zero; a failure changes
/// nothing.
pub fn decrement(ctx: &mut Update) -> (r: Result<(), ErrorCode>)
    requires
        old(ctx).counter.well_formed(),
    ensures
        final(ctx).counter.well_formed(),
        final(ctx).authority == old(ctx).authority,
        (final(ctx).counter, r) == spec_decrement(old(ctx).counter, old(ctx).authority),
{
    let rec = ctx.counter.record;
    match rec {
        None => Err(ErrorCode::AccountNotInitialized),
        Some(c) => {
            if !(c.authority == ctx.authority) {
                Err(ErrorCode::AuthorityMismatch)
            } else if c.count == 0 {
                Err(ErrorCode::Underflow)
            } else {
                ctx.counter.record = Some(Counter { count: c.count - 1, authority: c.authority });
                Ok(())
            }
        },
    }
}

/// Overwrites the count with `value`, whatever it was before. Fails with
/// AccountNotInitialized if the slot holds no record and with
/// AuthorityMismatch if the caller is not the bound authority; a failure
/// changes nothing.
pub fn set(ctx: &mut Update, value: u64) -> (r: Result<(), ErrorCode>)
    requires
        old(ctx).counter.well_formed(),
    ensures
        final(ctx).counter.well_formed(),
        final(ctx).authority == old(ctx).authority,
        (final(ctx).counter, r) == spec_set(old(ctx).counter, old(ctx).authority, value),
{
    let rec = ctx.counter.record;
    match rec {
        None => Err(ErrorCode::AccountNotInitialized),
        Some(c) => {
            if !(c.authority == ctx.authority) {
                Err(ErrorCode::AuthorityMismatch)
            } else {
                ctx.counter.record = Some(Counter { count: value, authority: c.authority });
                Ok(())
            }
        },
    }
}

/// Removes the record, leaving the slot as if nothing had ever been allocated
/// there, and credits the slot's reserved resources back to the caller's
/// balance. Fails with AccountNotInitialized if the slot holds no record and
/// with AuthorityMismatch if the caller is not the bound authority; a failure
/// changes nothing. The credited balance must stay representable, which the
/// host's conservation of resources guarantees.
pub fn close(ctx: &mut Close) -> (r: Result<(), ErrorCode>)
    requires
        old(ctx).counter.well_formed(),
        (old(ctx).counter.record matches Some(c) && c.authority == old(ctx).authority) ==> old(
            ctx,
        ).authority_balance + old(ctx).counter.reserved <= u64::MAX,
    ensures
        final(ctx).counter.well_formed(),
        final(ctx).authority == old(ctx).authority,
        (final(ctx).counter, final(ctx).authority_balance, r) == spec_close(
            old(ctx).counter,
            old(ctx).authority,
            old(ctx).authority_balance,
        ),
{
    let rec = ctx.counter.record;
    match rec {
        None => Err(ErrorCode::AccountNotInitialized),
        Some(c) => {
            if !(c.authority == ctx.authority) {
                Err(ErrorCode::AuthorityMismatch)
            } else {
                ctx.authority_balance = ctx.authority_balance + ctx.counter.reserved;
                ctx.counter.record = None;
                ctx.counter.reserved = 0;
                Ok(())
            }
        },
    }
}

} // verus!
