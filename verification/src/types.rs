//! Identities, amounts and the parameter records of the wallet's operations.

use vstd::prelude::*;

verus! {

/// How many owners must agree before a transfer is released. It is also the
/// exact size of the owner set.
pub const TRANSFER_AGREEMENT_THRESHOLD: usize = 3;

/// Identifier of a transfer request.
pub type TransferRequestId = u128;

/// An account identity: 32 opaque bytes, compared byte by byte.
#[derive(Clone, Copy, Debug, PartialEq, Eq)]
pub struct AccountAddress(pub [u8; 32]);

impl View for AccountAddress {
    type V = Seq<u8>;

    open spec fn view(&self) -> Seq<u8> {
        self.0@
    }
}

impl AccountAddress {
    /// Whether two addresses hold the same bytes.
    pub fn same_as(&self, other: &AccountAddress) -> (r: bool)
        ensures
            r == (self@ == other@),
    {
        let mut i: usize = 0;
        while i < 32
            invariant
                i <= 32,
                forall|j: int| 0 <= j < i ==> self.0@[j] == other.0@[j],
            decreases 32 - i,
        {
            if self.0[i] != other.0[i] {
                return false;
            }
            i += 1;
        }
        assert(self.0@ =~= other.0@);
        true
    }
}

/// The identity of a contract instance.
#[derive(Clone, Copy, Debug, PartialEq, Eq, Structural)]
pub struct ContractAddress {
    pub index: u64,
    pub subindex: u64,
}

/// A caller: either an account or a contract instance.
#[derive(Clone, Copy, Debug, PartialEq, Eq)]
pub enum Address {
    Account(AccountAddress),
    Contract(ContractAddress),
}

/// A transferable quantity, in the smallest unit.
#[derive(Clone, Copy, Debug, PartialEq, Eq, Structural)]
pub struct Amount {
    pub micro_ccd: u64,
}

/// What a submission carries: how much to send, and to whom.
#[derive(Clone, Copy, Debug, PartialEq, Eq)]
pub struct SubmitParams {
    pub transfer_amount: Amount,
    pub target_account: AccountAddress,
}

/// A transfer that has been released and is to be carried out by the host.
#[derive(Clone, Copy, Debug, PartialEq, Eq)]
pub struct TransferOrder {
    pub target_account: AccountAddress,
    pub transfer_amount: Amount,
}

} // verus!
