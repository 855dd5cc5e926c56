//! The failures that the wallet's operations report.

use vstd::prelude::*;
use vstd::std_specs::convert::FromSpecImpl;

verus! {

/// Every way in which an operation can fail.
#[derive(Clone, Copy, Debug, PartialEq, Eq, Structural)]
pub enum Error {
    /// Failed parsing the parameter.
    ParseParams,
    /// The owner set does not have the required size.
    InsufficientOwners,
    /// Only account owners can interact with the wallet.
    NotOwner,
    /// Sender cannot be a contract.
    ContractSender,
    /// Not enough available funds for the requested transfer.
    InsufficientAvailableFunds,
    /// No request has this id.
    RequestNotFound,
    /// A request with this id already exists.
    RequestAlreadyExists,
    /// Transfer amount or account is different from the request.
    MismatchingRequestInformation,
    /// The caller already supports this transfer.
    RequestAlreadySupported,
    /// The caller does not support this transfer.
    RequestAlreadyNotSupported,
    /// Not all owners support the request.
    RequestNotSupportedByAllOwners,
    /// Invalid receiver when invoking a transfer.
    InvokeTransferMissingAccount,
    /// Insufficient funds when invoking a transfer.
    InvokeTransferInsufficientFunds,
}

/// Why the host could not carry out a transfer.
#[derive(Clone, Copy, Debug, PartialEq, Eq, Structural)]
pub enum TransferFailure {
    /// The amount is not available to the sender.
    AmountTooLarge,
    /// The receiving account does not exist.
    MissingAccount,
}

impl FromSpecImpl<TransferFailure> for Error {
    open spec fn obeys_from_spec() -> bool {
        true
    }

    open spec fn from_spec(failure: TransferFailure) -> Error {
        match failure {
            TransferFailure::AmountTooLarge => Error::InvokeTransferInsufficientFunds,
            TransferFailure::MissingAccount => Error::InvokeTransferMissingAccount,
        }
    }
}

impl From<TransferFailure> for Error {
    /// A failed transfer, expressed as an error of the wallet.
    fn from(failure: TransferFailure) -> (e: Error) {
        match failure {
            TransferFailure::AmountTooLarge => Error::InvokeTransferInsufficientFunds,
            TransferFailure::MissingAccount => Error::InvokeTransferMissingAccount,
        }
    }
}

} // verus!
