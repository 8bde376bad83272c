//! Identities: fixed-width account addresses and the address of a caller,
//! which is either an account or another contract instance.

use vstd::prelude::*;

verus! {

/// A fixed-width account identifier. Equality is exact byte-for-byte
/// comparison.
#[derive(Clone, Copy, PartialEq, Eq, Debug)]
pub struct AccountAddress(pub [u8; 32]);

impl View for AccountAddress {
    type V = Seq<u8>;

    open spec fn view(&self) -> Seq<u8> {
        self.0@
    }
}

/// The address of a contract instance.
#[derive(Clone, Copy, PartialEq, Eq, Debug)]
pub struct ContractAddress {
    pub index: u64,
    pub subindex: u64,
}

/// The identity invoking the current call: an account or a contract.
#[derive(Clone, Copy, PartialEq, Eq, Debug)]
pub enum Address {
    Account(AccountAddress),
    Contract(ContractAddress),
}

/// Byte-for-byte equality of two account addresses.
pub fn account_eq(a: &AccountAddress, b: &AccountAddress) -> (r: bool)
    ensures
        r == (a@ == b@),
{
    let mut i: usize = 0;
    while i < 32
        invariant
            0 <= i <= 32,
            forall|k: int| 0 <= k < i ==> a@[k] == b@[k],
        decreases 32 - i,
    {
        if a.0[i] != b.0[i] {
            return false;
        }
        i += 1;
    }
    proof {
        assert(a@ =~= b@);
    }
    true
}

impl Address {
    /// Whether this address is exactly the given account. A contract address
    /// never matches an account, whatever its value.
    pub open spec fn spec_matches_account(self, acc: AccountAddress) -> bool {
        match self {
            Address::Account(a) => a@ == acc@,
            Address::Contract(_) => false,
        }
    }

    /// True exactly when this address is the given account.
    pub fn matches_account(&self, acc: &AccountAddress) -> (r: bool)
        ensures
            r == self.spec_matches_account(*acc),
    {
        match self {
            Address::Account(a) => account_eq(a, acc),
            Address::Contract(_) => false,
        }
    }
}

} // verus!
