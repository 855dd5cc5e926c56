//! The owner registry: who may act on the wallet.

use crate::address_set::AddressSet;
use crate::error::Error;
use crate::model::acting_owner;
use crate::types::{AccountAddress, Address};
use vstd::prelude::*;

verus! {

/// Whether `address` is the account with the bytes `key`.
pub open spec fn is_account(address: Address, key: Seq<u8>) -> bool {
    match address {
        Address::Account(a) => a@ == key,
        Address::Contract(_) => false,
    }
}

/// `concordium_std::Address::matches_account`: true exactly when the address
/// is an account address whose 32 bytes equal those of `owner`. A contract
/// address matches no account.
#[verifier::external_body]
fn matches_account(account: &Address, owner: &AccountAddress) -> (r: bool)
    ensures
        r == is_account(*account, owner@),
{
    let outside = match account {
        Address::Account(a) => concordium_std::Address::Account(concordium_std::AccountAddress(a.0)),
        Address::Contract(c) => concordium_std::Address::Contract(
            concordium_std::ContractAddress::new(c.index, c.subindex),
        ),
    };
    outside.matches_account(&concordium_std::AccountAddress(owner.0))
}

/// Whether `account` is one of `owners`.
pub fn is_owner(account: &Address, owners: &AddressSet) -> (r: bool)
    ensures
        r == acting_owner(owners@, *account).is_ok(),
{
    let members = owners.to_vec();
    let mut i: usize = 0;
    while i < members.len()
        invariant
            i <= members@.len(),
            forall|j: int| 0 <= j < i ==> !is_account(*account, #[trigger] members@[j]@),
            forall|j: int| 0 <= j < members@.len() ==> owners@.contains(#[trigger] members@[j]@),
        decreases members@.len() - i,
    {
        if matches_account(account, &members[i]) {
            return true;
        }
        i += 1;
    }
    proof {
        if let Address::Account(a) = *account {
            if owners@.contains(a@) {
                let j = choose|j: int| 0 <= j < members@.len() && #[trigger] members@[j]@ == a@;
                assert(false);
            }
        }
    }
    false
}

/// Resolves the caller to the owner account that acts. Anyone who is not an
/// owner is turned away with `NotOwner`; that includes every contract
/// instance, since a contract address matches no account.
pub fn authorize(sender: &Address, owners: &AddressSet) -> (r: Result<AccountAddress, Error>)
    ensures
        match r {
            Ok(account) => *sender == Address::Account(account) && acting_owner(owners@, *sender)
                == Ok::<Seq<u8>, Error>(account@),
            Err(e) => acting_owner(owners@, *sender) == Err::<Seq<u8>, Error>(e),
        },
{
    if !is_owner(sender, owners) {
        return Err(Error::NotOwner);
    }
    match *sender {
        Address::Contract(_) => Err(Error::ContractSender),
        Address::Account(account) => Ok(account),
    }
}

} // verus!
