use vstd::prelude::*;

verus! {

/// Size in resource units of a stored counter record: an 8-byte storage tag,
/// the 8-byte count, and the 32-byte authority identity. Allocating a record
/// reserves this much from the payer; closing the record reclaims it.
pub const RECORD_SPACE: u64 = 8 + 8 + 32;

/// A 32-byte identity, as the host's signature verification hands it over.
/// Two identities are the same caller exactly when their bytes agree.
#[derive(Clone, Copy, Debug)]
pub struct Pubkey {
    pub bytes: [u8; 32],
}

impl PartialEq for Pubkey {
    fn eq(&self, other: &Pubkey) -> (r: bool)
        ensures
            r == (self == other),
    {
        let mut i: usize = 0;
        while i < 32
            invariant
                i <= 32,
                forall|j: int| 0 <= j < i ==> self.bytes[j] == other.bytes[j],
            decreases 32 - i,
        {
            if self.bytes[i] != other.bytes[i] {
                return false;
            }
            i += 1;
        }
        proof {
            assert(self.bytes =~= other.bytes);
        }
        true
    }
}

impl vstd::std_specs::cmp::PartialEqSpecImpl for Pubkey {
    open spec fn obeys_eq_spec() -> bool {
        true
    }

    open spec fn eq_spec(&self, other: &Pubkey) -> bool {
        self == other
    }
}

/// The persisted record: a count and the one identity allowed to change or
/// close it. The authority is bound at creation and never changes afterwards.
#[derive(Clone, Copy, Debug)]
pub struct Counter {
    pub count: u64,
    pub authority: Pubkey,
}

/// One storage slot that can hold a counter record. `record` is `None` while
/// nothing is allocated there; `reserved` is the resource units locked in the
/// slot while the record exists, owed back to the authority on close.
#[derive(Clone, Copy, Debug)]
pub struct CounterAccount {
    pub record: Option<Counter>,
    pub reserved: u64,
}

impl CounterAccount {
    /// A slot reserves exactly the record's allocation cost while the record
    /// exists, and nothing while it does not.
    pub open spec fn well_formed(&self) -> bool {
        match self.record {
            Some(_) => self.reserved == RECORD_SPACE,
            None => self.reserved == 0,
        }
    }

    /// The slot in which nothing is allocated.
    pub open spec fn empty_spec() -> CounterAccount {
        CounterAccount { record: None, reserved: 0 }
    }

    /// Makes a slot in which nothing has ever been allocated.
    pub fn empty() -> (r: CounterAccount)
        ensures
            r == CounterAccount::empty_spec(),
            r.well_formed(),
    {
        CounterAccount { record: None, reserved: 0 }
    }
}

} // verus!
