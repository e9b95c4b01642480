use vstd::prelude::*;

use crate::error::ErrorCode;
use crate::program::{spec_close, spec_decrement, spec_increment, spec_initialize, spec_set};
use crate::state::{Counter, CounterAccount, Pubkey};

verus! {

/// The slot after `n` further increment requests by `caller`, each request
/// applied to the outcome of the one before it.
pub open spec fn iter_increment(slot: CounterAccount, caller: Pubkey, n: nat) -> CounterAccount
    decreases n,
{
    if n == 0 {
        slot
    } else {
        spec_increment(iter_increment(slot, caller, (n - 1) as nat), caller).0
    }
}

/// While the caller is the bound authority and the count stays representable,
/// every increment in a run of `n` succeeds, and together they add exactly
/// `n` to the count, touching nothing else in the slot.
pub proof fn lemma_increment_run(slot: CounterAccount, caller: Pubkey, n: nat)
    requires
        slot.record matches Some(c) && c.authority == caller && c.count + n <= u64::MAX,
    ensures
        iter_increment(slot, caller, n).record matches Some(c) && c.authority == caller
            && c.count == slot.record->0.count + n,
        iter_increment(slot, caller, n).reserved == slot.reserved,
        forall|k: nat|
            k < n ==> #[trigger] spec_increment(iter_increment(slot, caller, k), caller).1
                == Ok::<(), ErrorCode>(()),
    decreases n,
{
    if n > 0 {
        lemma_increment_run(slot, caller, (n - 1) as nat);
    }
}

/// Initializing a free slot and then incrementing `n` times as the bound
/// authority yields a count of exactly `n`, every increment succeeding.
pub proof fn lemma_initialize_then_increment_n(
    slot: CounterAccount,
    caller: Pubkey,
    balance: u64,
    n: nat,
)
    requires
        spec_initialize(slot, caller, balance).2 is Ok,
        n <= u64::MAX,
    ensures
        ({
            let s0 = spec_initialize(slot, caller, balance).0;
            &&& iter_increment(s0, caller, n).record == Some(
                Counter { count: n as u64, authority: caller },
            )
            &&& forall|k: nat|
                k < n ==> #[trigger] spec_increment(iter_increment(s0, caller, k), caller).1
                    == Ok::<(), ErrorCode>(())
        }),
{
    let s0 = spec_initialize(slot, caller, balance).0;
    lemma_increment_run(s0, caller, n);
}

/// Decrementing a record whose count is zero changes nothing and always
/// fails; for the bound authority the failure is Underflow.
pub proof fn lemma_decrement_underflow(slot: CounterAccount, caller: Pubkey)
    requires
        slot.record matches Some(c) && c.count == 0,
    ensures
        spec_decrement(slot, caller).0 == slot,
        spec_decrement(slot, caller).1 is Err,
        slot.record->0.authority == caller ==> spec_decrement(slot, caller).1 == Err::<
            (),
            ErrorCode,
        >(ErrorCode::Underflow),
{
}

/// Incrementing a record whose count is at `u64::MAX` changes nothing and
/// always fails; for the bound authority the failure is Overflow.
pub proof fn lemma_increment_overflow(slot: CounterAccount, caller: Pubkey)
    requires
        slot.record matches Some(c) && c.count == u64::MAX,
    ensures
        spec_increment(slot, caller).0 == slot,
        spec_increment(slot, caller).1 is Err,
        slot.record->0.authority == caller ==> spec_increment(slot, caller).1 == Err::<
            (),
            ErrorCode,
        >(ErrorCode::Overflow),
{
}

/// `set` by the bound authority always succeeds and overwrites the count with
/// the given value, whatever the prior count, touching nothing else.
pub proof fn lemma_set_overwrites(slot: CounterAccount, caller: Pubkey, value: u64)
    requires
        slot.record matches Some(c) && c.authority == caller,
    ensures
        spec_set(slot, caller, value).1 == Ok::<(), ErrorCode>(()),
        spec_set(slot, caller, value).0.record == Some(
            Counter { count: value, authority: caller },
        ),
        spec_set(slot, caller, value).0.reserved == slot.reserved,
{
}

/// A caller who is not the bound authority can change nothing: increment,
/// decrement, set and close all fail with AuthorityMismatch and leave the
/// slot, and for close the balance, exactly as they were.
pub proof fn lemma_unauthorized_rejected(
    slot: CounterAccount,
    caller: Pubkey,
    value: u64,
    balance: u64,
)
    requires
        slot.record matches Some(c) && c.authority != caller,
    ensures
        spec_increment(slot, caller) == (slot, Err::<(), ErrorCode>(ErrorCode::AuthorityMismatch)),
        spec_decrement(slot, caller) == (slot, Err::<(), ErrorCode>(ErrorCode::AuthorityMismatch)),
        spec_set(slot, caller, value) == (
            slot,
            Err::<(), ErrorCode>(ErrorCode::AuthorityMismatch),
        ),
        spec_close(slot, caller, balance) == (
            slot,
            balance,
            Err::<(), ErrorCode>(ErrorCode::AuthorityMismatch),
        ),
{
}

/// Closing as the bound authority succeeds, credits the slot's reserved
/// resources back to the caller, and leaves the slot exactly as one in which
/// nothing was ever allocated: every later operation against it fails with
/// AccountNotInitialized, whoever attempts it, just as on a slot that never
/// held a record.
pub proof fn lemma_close_removes(slot: CounterAccount, caller: Pubkey, balance: u64)
    requires
        slot.record matches Some(c) && c.authority == caller,
        balance + slot.reserved <= u64::MAX,
    ensures
        ({
            let (s, b, r) = spec_close(slot, caller, balance);
            &&& r == Ok::<(), ErrorCode>(())
            &&& s == CounterAccount::empty_spec()
            &&& b == balance + slot.reserved
            &&& forall|k: Pubkey| #[trigger] spec_increment(s, k).1
                == Err::<(), ErrorCode>(ErrorCode::AccountNotInitialized)
            &&& forall|k: Pubkey| #[trigger] spec_decrement(s, k).1
                == Err::<(), ErrorCode>(ErrorCode::AccountNotInitialized)
            &&& forall|k: Pubkey, v: u64| #[trigger] spec_set(s, k, v).1
                == Err::<(), ErrorCode>(ErrorCode::AccountNotInitialized)
            &&& forall|k: Pubkey, b2: u64| #[trigger] spec_close(s, k, b2).2
                == Err::<(), ErrorCode>(ErrorCode::AccountNotInitialized)
        }),
{
}

/// The authority is bound once, at initialization, and no update ever
/// rebinds it: whoever calls and however the call ends, increment, decrement
/// and set leave the record in place with its authority, and the slot's
/// reserve, exactly as they found them.
pub proof fn lemma_authority_immutable(slot: CounterAccount, caller: Pubkey, value: u64)
    requires
        slot.record is Some,
    ensures
        spec_increment(slot, caller).0.record->0.authority == slot.record->0.authority,
        spec_decrement(slot, caller).0.record->0.authority == slot.record->0.authority,
        spec_set(slot, caller, value).0.record->0.authority == slot.record->0.authority,
        spec_increment(slot, caller).0.record is Some,
        spec_decrement(slot, caller).0.record is Some,
        spec_set(slot, caller, value).0.record is Some,
        spec_increment(slot, caller).0.reserved == slot.reserved,
        spec_decrement(slot, caller).0.reserved == slot.reserved,
        spec_set(slot, caller, value).0.reserved == slot.reserved,
{
}

/// Resources are conserved: initialize moves the allocation cost from the
/// payer's balance into the slot's reserve, and close moves the reserve back,
/// so the sum of balance and reserve never changes under either operation.
pub proof fn lemma_resources_conserved(slot: CounterAccount, caller: Pubkey, balance: u64)
    requires
        slot.well_formed(),
        balance + slot.reserved <= u64::MAX,
    ensures
        ({
            let (s, b, _r) = spec_initialize(slot, caller, balance);
            b + s.reserved == balance + slot.reserved
        }),
        ({
            let (s, b, _r) = spec_close(slot, caller, balance);
            b + s.reserved == balance + slot.reserved
        }),
{
}

} // verus!
