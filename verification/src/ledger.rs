//! The request ledger: submission, support, retraction, execution and
//! inspection of transfer requests, each specified by its transition in
//! [`crate::model`].

use crate::address_set::AddressSet;
use crate::error::{Error, TransferFailure};
use crate::model::{LedgerModel, RequestModel};
use crate::owners::{authorize, is_owner};
use crate::types::{
    AccountAddress,
    Address,
    Amount,
    SubmitParams,
    TransferOrder,
    TransferRequestId,
    TRANSFER_AGREEMENT_THRESHOLD,
};
use std::collections::HashMap;
use vstd::prelude::*;

verus! {

/// A proposed outgoing transfer that awaits the owners' agreement.
#[derive(Debug)]
pub struct TransferRequest {
    pub transfer_amount: Amount,
    pub target_account: AccountAddress,
    pub supporters: AddressSet,
}

impl View for TransferRequest {
    type V = RequestModel;

    open spec fn view(&self) -> RequestModel {
        RequestModel {
            amount: self.transfer_amount.micro_ccd,
            target: self.target_account@,
            supporters: self.supporters@,
        }
    }
}

impl Clone for TransferRequest {
    fn clone(&self) -> (copy: TransferRequest)
        ensures
            copy@ == self@,
    {
        TransferRequest {
            transfer_amount: self.transfer_amount,
            target_account: self.target_account,
            supporters: self.supporters.clone(),
        }
    }
}

/// What initialization carries: the owners.
#[derive(Debug)]
pub struct InitParams {
    pub owners: AddressSet,
}

/// The wallet's state.
#[derive(Debug)]
pub struct State {
    /// Who is authorized to act.
    pub owners: AddressSet,
    /// The id assigned to the last request.
    pub last_request_id: TransferRequestId,
    /// The requests that have not been executed yet.
    pub requests: HashMap<TransferRequestId, TransferRequest>,
}

impl View for State {
    type V = LedgerModel;

    open spec fn view(&self) -> LedgerModel {
        LedgerModel {
            owners: self.owners@,
            last_request_id: self.last_request_id,
            requests: self.requests@.map_values(|r: TransferRequest| r@),
        }
    }
}

/// Sets the wallet up with `init_params.owners`, which must be exactly as
/// many as the agreement threshold.
pub fn contract_init(init_params: InitParams) -> (r: Result<State, Error>)
    ensures
        match r {
            Ok(state) => init_params.owners@.len() == TRANSFER_AGREEMENT_THRESHOLD && state@
                == LedgerModel::initial(init_params.owners@) && state@.wf(),
            Err(e) => init_params.owners@.len() != TRANSFER_AGREEMENT_THRESHOLD && e
                == Error::InsufficientOwners,
        },
{
    if init_params.owners.len() != TRANSFER_AGREEMENT_THRESHOLD {
        return Err(Error::InsufficientOwners);
    }
    let state = State { owners: init_params.owners, last_request_id: 0, requests: HashMap::new() };
    assert(state@.requests =~= Map::<u128, RequestModel>::empty());
    Ok(state)
}

/// Accepts incoming value. The ledger takes no part in custody, so there is
/// nothing to record.
pub fn contract_receive_deposit(state: &State, amount: Amount) -> (r: Result<(), Error>)
    ensures
        r == Ok::<(), Error>(()),
{
    Ok(())
}

/// Files a new request, supported by its submitter, under the next id.
pub fn contract_receive_submit_transfer_request(
    state: &mut State,
    sender: Address,
    submit_params: SubmitParams,
) -> (r: Result<TransferRequestId, Error>)
    requires
        old(state).last_request_id < u128::MAX,
    ensures
        (final(state)@, r) == old(state)@.submit(
            sender,
            submit_params.transfer_amount.micro_ccd,
            submit_params.target_account@,
        ),
{
    broadcast use vstd::std_specs::hash::group_hash_axioms;

    let sender_address = match authorize(&sender, &state.owners) {
        Err(e) => {
            return Err(e);
        },
        Ok(account) => account,
    };
    let req_id: TransferRequestId = state.last_request_id + 1;
    let mut supporters = AddressSet::new();
    supporters.insert(sender_address);
    let new_request = TransferRequest {
        transfer_amount: submit_params.transfer_amount,
        target_account: submit_params.target_account,
        supporters,
    };
    proof {
        assert(new_request@.supporters =~= set![sender_address@]);
    }
    state.requests.insert(req_id, new_request);
    state.last_request_id = req_id;
    proof {
        let expected = old(state)@.submit(
            sender,
            submit_params.transfer_amount.micro_ccd,
            submit_params.target_account@,
        ).0;
        assert(state@.requests =~= expected.requests);
    }
    Ok(req_id)
}

/// Adds the caller to the supporters of request `request_id`.
pub fn contract_receive_support_transfer_request(
    state: &mut State,
    sender: Address,
    request_id: TransferRequestId,
) -> (r: Result<(), Error>)
    ensures
        (final(state)@, r) == old(state)@.support(sender, request_id),
{
    broadcast use vstd::std_specs::hash::group_hash_axioms;

    let sender_address = match authorize(&sender, &state.owners) {
        Err(e) => {
            return Err(e);
        },
        Ok(account) => account,
    };
    match state.requests.get(&request_id) {
        None => {
            return Err(Error::RequestNotFound);
        },
        Some(matching_request) => {
            if matching_request.supporters.contains(&sender_address) {
                return Err(Error::RequestAlreadySupported);
            }
        },
    }
    match state.requests.remove(&request_id) {
        None => Err(Error::RequestNotFound),
        Some(mut matching_request) => {
            matching_request.supporters.insert(sender_address);
            state.requests.insert(request_id, matching_request);
            proof {
                let expected = old(state)@.support(sender, request_id).0;
                assert(state@.requests =~= expected.requests);
            }
            Ok(())
        },
    }
}

/// Takes the caller out of the supporters of request `request_id`.
pub fn contract_receive_not_support_transfer_request(
    state: &mut State,
    sender: Address,
    request_id: TransferRequestId,
) -> (r: Result<(), Error>)
    ensures
        (final(state)@, r) == old(state)@.retract(sender, request_id),
{
    broadcast use vstd::std_specs::hash::group_hash_axioms;

    let sender_address = match authorize(&sender, &state.owners) {
        Err(e) => {
            return Err(e);
        },
        Ok(account) => account,
    };
    match state.requests.get(&request_id) {
        None => {
            return Err(Error::RequestNotFound);
        },
        Some(matching_request) => {
            if !matching_request.supporters.contains(&sender_address) {
                return Err(Error::RequestAlreadyNotSupported);
            }
        },
    }
    match state.requests.remove(&request_id) {
        None => Err(Error::RequestNotFound),
        Some(mut matching_request) => {
            matching_request.supporters.remove(&sender_address);
            state.requests.insert(request_id, matching_request);
            proof {
                let expected = old(state)@.retract(sender, request_id).0;
                assert(state@.requests =~= expected.requests);
            }
            Ok(())
        },
    }
}

/// Releases request `request_id` once every owner supports it: the request
/// leaves the ledger, and the transfer to carry out is returned. The request
/// is gone before the transfer is attempted, so it can be released only once.
pub fn contract_receive_execute_transfer_request(
    state: &mut State,
    sender: Address,
    request_id: TransferRequestId,
) -> (r: Result<TransferOrder, Error>)
    ensures
        final(state)@ == old(state)@.execute(sender, request_id).0,
        match r {
            Ok(order) => old(state)@.execute(sender, request_id).1 == Ok::<(Seq<u8>, u64), Error>(
                (order.target_account@, order.transfer_amount.micro_ccd),
            ),
            Err(e) => old(state)@.execute(sender, request_id).1 == Err::<(Seq<u8>, u64), Error>(e),
        },
{
    broadcast use vstd::std_specs::hash::group_hash_axioms;

    if !is_owner(&sender, &state.owners) {
        return Err(Error::NotOwner);
    }
    let order = match state.requests.get(&request_id) {
        None => {
            return Err(Error::RequestNotFound);
        },
        Some(matching_request) => {
            if matching_request.supporters.len() != TRANSFER_AGREEMENT_THRESHOLD {
                return Err(Error::RequestNotSupportedByAllOwners);
            }
            TransferOrder {
                target_account: matching_request.target_account,
                transfer_amount: matching_request.transfer_amount,
            }
        },
    };
    state.requests.remove(&request_id);
    proof {
        let expected = old(state)@.execute(sender, request_id).0;
        assert(state@.requests =~= expected.requests);
    }
    Ok(order)
}

/// What the caller of an execution is told once the host has attempted the
/// transfer: success, or the host's failure as an error of the wallet.
pub fn conclude_transfer(outcome: Result<(), TransferFailure>) -> (r: Result<(), Error>)
    ensures
        r == match outcome {
            Ok(_) => Ok::<(), Error>(()),
            Err(TransferFailure::AmountTooLarge) => Err::<(), Error>(
                Error::InvokeTransferInsufficientFunds,
            ),
            Err(TransferFailure::MissingAccount) => Err::<(), Error>(
                Error::InvokeTransferMissingAccount,
            ),
        },
{
    match outcome {
        Ok(_) => Ok(()),
        Err(failure) => Err(Error::from(failure)),
    }
}

/// Shows request `request_id` to an owner, once every owner supports it.
pub fn contract_receive_view_transfer_request(
    state: &State,
    sender: Address,
    request_id: TransferRequestId,
) -> (r: Result<TransferRequest, Error>)
    ensures
        match r {
            Ok(request) => state@.view_request(sender, request_id) == Ok::<RequestModel, Error>(
                request@,
            ),
            Err(e) => state@.view_request(sender, request_id) == Err::<RequestModel, Error>(e),
        },
{
    broadcast use vstd::std_specs::hash::group_hash_axioms;

    if !is_owner(&sender, &state.owners) {
        return Err(Error::NotOwner);
    }
    match state.requests.get(&request_id) {
        None => Err(Error::RequestNotFound),
        Some(matching_request) => {
            if matching_request.supporters.len() != TRANSFER_AGREEMENT_THRESHOLD {
                return Err(Error::RequestNotSupportedByAllOwners);
            }
            Ok(matching_request.clone())
        },
    }
}

} // verus!
