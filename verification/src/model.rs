//! The wallet as a mathematical object: sets of byte sequences for the
//! identities, a map for the pending requests, and one transition per
//! operation. The executable ledger is specified against these transitions.

use crate::error::Error;
use crate::types::{Address, TRANSFER_AGREEMENT_THRESHOLD};
use vstd::prelude::*;

verus! {

/// A pending request, as the contracts see it.
pub struct RequestModel {
    pub amount: u64,
    pub target: Seq<u8>,
    pub supporters: Set<Seq<u8>>,
}

/// The whole ledger, as the contracts see it.
pub struct LedgerModel {
    pub owners: Set<Seq<u8>>,
    pub last_request_id: u128,
    pub requests: Map<u128, RequestModel>,
}

/// The number of supporters a request needs, which is the number of owners.
pub open spec fn threshold() -> nat {
    TRANSFER_AGREEMENT_THRESHOLD as nat
}

/// Who acts when `sender` calls: the account behind it, if that account is an
/// owner. A contract instance matches no owner.
pub open spec fn acting_owner(owners: Set<Seq<u8>>, sender: Address) -> Result<Seq<u8>, Error> {
    match sender {
        Address::Account(account) => if owners.contains(account@) {
            Ok(account@)
        } else {
            Err(Error::NotOwner)
        },
        Address::Contract(_) => Err(Error::NotOwner),
    }
}

impl RequestModel {
    /// Whether as many identities support the request as there are owners.
    pub open spec fn fully_supported(self) -> bool {
        self.supporters.finite() && self.supporters.len() == threshold()
    }
}

impl LedgerModel {
    /// The ledger's invariant: exactly `threshold()` owners, every request
    /// supported by owners only, and every id in use already handed out.
    pub open spec fn wf(self) -> bool {
        &&& self.owners.finite()
        &&& self.owners.len() == threshold()
        &&& forall|id: u128| #[trigger]
            self.requests.contains_key(id) ==> {
                &&& 1 <= id <= self.last_request_id
                &&& self.requests[id].supporters.subset_of(self.owners)
            }
    }

    /// The ledger right after initialization.
    pub open spec fn initial(owners: Set<Seq<u8>>) -> LedgerModel {
        LedgerModel { owners, last_request_id: 0, requests: Map::empty() }
    }

    /// The id that the next submission gets.
    pub open spec fn next_id(self) -> u128
        recommends
            self.last_request_id < u128::MAX,
    {
        (self.last_request_id + 1) as u128
    }

    /// Submission: a fresh id, and a request that the submitter supports.
    pub open spec fn submit(self, sender: Address, amount: u64, target: Seq<u8>) -> (
        LedgerModel,
        Result<u128, Error>,
    ) {
        match acting_owner(self.owners, sender) {
            Err(e) => (self, Err(e)),
            Ok(account) => {
                let id = self.next_id();
                let request = RequestModel { amount, target, supporters: set![account] };
                (
                    LedgerModel {
                        owners: self.owners,
                        last_request_id: id,
                        requests: self.requests.insert(id, request),
                    },
                    Ok(id),
                )
            },
        }
    }

    /// The ledger with the supporters of request `id` replaced.
    pub open spec fn with_supporters(self, id: u128, supporters: Set<Seq<u8>>) -> LedgerModel {
        let request = self.requests[id];
        LedgerModel {
            owners: self.owners,
            last_request_id: self.last_request_id,
            requests: self.requests.insert(
                id,
                RequestModel { amount: request.amount, target: request.target, supporters },
            ),
        }
    }

    /// Support: the caller joins the supporters of a request it did not
    /// support yet.
    pub open spec fn support(self, sender: Address, id: u128) -> (LedgerModel, Result<(), Error>) {
        match acting_owner(self.owners, sender) {
            Err(e) => (self, Err(e)),
            Ok(account) => if !self.requests.contains_key(id) {
                (self, Err(Error::RequestNotFound))
            } else if self.requests[id].supporters.contains(account) {
                (self, Err(Error::RequestAlreadySupported))
            } else {
                (self.with_supporters(id, self.requests[id].supporters.insert(account)), Ok(()))
            },
        }
    }

    /// Retraction: the caller leaves the supporters of a request it supports.
    pub open spec fn retract(self, sender: Address, id: u128) -> (LedgerModel, Result<(), Error>) {
        match acting_owner(self.owners, sender) {
            Err(e) => (self, Err(e)),
            Ok(account) => if !self.requests.contains_key(id) {
                (self, Err(Error::RequestNotFound))
            } else if !self.requests[id].supporters.contains(account) {
                (self, Err(Error::RequestAlreadyNotSupported))
            } else {
                (self.with_supporters(id, self.requests[id].supporters.remove(account)), Ok(()))
            },
        }
    }

    /// What an owner is shown of request `id`: the request, once it is fully
    /// supported.
    pub open spec fn view_request(self, sender: Address, id: u128) -> Result<RequestModel, Error> {
        match acting_owner(self.owners, sender) {
            Err(e) => Err(e),
            Ok(_) => if !self.requests.contains_key(id) {
                Err(Error::RequestNotFound)
            } else if !self.requests[id].fully_supported() {
                Err(Error::RequestNotSupportedByAllOwners)
            } else {
                Ok(self.requests[id])
            },
        }
    }

    /// Execution: a fully supported request leaves the ledger, and its
    /// target and amount are handed out for the transfer.
    pub open spec fn execute(self, sender: Address, id: u128) -> (
        LedgerModel,
        Result<(Seq<u8>, u64), Error>,
    ) {
        match self.view_request(sender, id) {
            Err(e) => (self, Err(e)),
            Ok(request) => (
                LedgerModel {
                    owners: self.owners,
                    last_request_id: self.last_request_id,
                    requests: self.requests.remove(id),
                },
                Ok((request.target, request.amount)),
            ),
        }
    }
}

} // verus!
