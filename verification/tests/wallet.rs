use multisig_wallet::address_set::AddressSet;
use multisig_wallet::error::{Error, TransferFailure};
use multisig_wallet::ledger::{
    conclude_transfer, contract_init, contract_receive_deposit,
    contract_receive_execute_transfer_request, contract_receive_not_support_transfer_request,
    contract_receive_submit_transfer_request, contract_receive_support_transfer_request,
    contract_receive_view_transfer_request, InitParams, State,
};
use multisig_wallet::owners::{authorize, is_owner};
use multisig_wallet::types::{
    AccountAddress, Address, Amount, ContractAddress, SubmitParams, TransferOrder,
    TRANSFER_AGREEMENT_THRESHOLD,
};

fn account(tag: u8) -> AccountAddress {
    AccountAddress([tag; 32])
}

fn caller(tag: u8) -> Address {
    Address::Account(account(tag))
}

fn set_of(tags: &[u8]) -> AddressSet {
    let mut set = AddressSet::new();
    for tag in tags {
        set.insert(account(*tag));
    }
    set
}

fn wallet() -> State {
    contract_init(InitParams { owners: set_of(&[1, 2, 3]) }).unwrap()
}

fn submit(state: &mut State, tag: u8, amount: u64, target: u8) -> Result<u128, Error> {
    contract_receive_submit_transfer_request(
        state,
        caller(tag),
        SubmitParams {
            transfer_amount: Amount { micro_ccd: amount },
            target_account: account(target),
        },
    )
}

fn supporter_count(state: &State, id: u128) -> usize {
    state.requests.get(&id).unwrap().supporters.len()
}

#[test]
fn threshold_is_three() {
    assert_eq!(TRANSFER_AGREEMENT_THRESHOLD, 3);
}

#[test]
fn init_accepts_exactly_three_owners() {
    let state = contract_init(InitParams { owners: set_of(&[1, 2, 3]) }).unwrap();
    assert_eq!(state.owners.len(), 3);
    assert_eq!(state.last_request_id, 0);
    assert!(state.requests.is_empty());
    assert!(state.owners.contains(&account(1)));
    assert!(state.owners.contains(&account(2)));
    assert!(state.owners.contains(&account(3)));
    assert!(!state.owners.contains(&account(4)));
}

#[test]
fn init_rejects_other_sizes() {
    for tags in [&[][..], &[1][..], &[1, 2][..], &[1, 2, 3, 4][..]] {
        let r = contract_init(InitParams { owners: set_of(tags) });
        assert_eq!(r.err(), Some(Error::InsufficientOwners));
    }
}

#[test]
fn init_counts_distinct_identities() {
    let r = contract_init(InitParams { owners: set_of(&[1, 2, 2]) });
    assert_eq!(r.err(), Some(Error::InsufficientOwners));
    let r = contract_init(InitParams { owners: set_of(&[1, 2, 2, 3, 1]) });
    assert!(r.is_ok());
}

#[test]
fn address_set_behaves_as_a_set() {
    let mut set = AddressSet::new();
    assert_eq!(set.len(), 0);
    assert!(set.insert(account(7)));
    assert!(!set.insert(account(7)));
    assert!(set.insert(account(8)));
    assert_eq!(set.len(), 2);
    assert!(set.contains(&account(7)));
    assert!(!set.contains(&account(9)));
    assert!(!set.remove(&account(9)));
    assert!(set.remove(&account(7)));
    assert!(!set.contains(&account(7)));
    assert_eq!(set.len(), 1);
    assert_eq!(set.to_vec(), vec![account(8)]);
    let copy = set.clone();
    assert_eq!(copy.to_vec(), vec![account(8)]);
}

#[test]
fn addresses_differ_in_any_byte() {
    let mut bytes = [5u8; 32];
    bytes[31] = 6;
    assert!(account(5).same_as(&account(5)));
    assert!(!account(5).same_as(&AccountAddress(bytes)));
    let mut set = set_of(&[5]);
    assert!(set.insert(AccountAddress(bytes)));
    assert_eq!(set.len(), 2);
}

#[test]
fn is_owner_matches_accounts_only() {
    let owners = set_of(&[1, 2, 3]);
    assert!(is_owner(&caller(1), &owners));
    assert!(is_owner(&caller(3), &owners));
    assert!(!is_owner(&caller(4), &owners));
    assert!(!is_owner(&Address::Contract(ContractAddress { index: 1, subindex: 0 }), &owners));
    assert!(!is_owner(&caller(1), &AddressSet::new()));
}

#[test]
fn authorize_resolves_the_acting_account() {
    let owners = set_of(&[1, 2, 3]);
    assert_eq!(authorize(&caller(2), &owners), Ok(account(2)));
    assert_eq!(authorize(&caller(9), &owners), Err(Error::NotOwner));
    let contract = Address::Contract(ContractAddress { index: 0, subindex: 0 });
    assert_eq!(authorize(&contract, &owners), Err(Error::NotOwner));
}

#[test]
fn deposit_always_succeeds() {
    let state = wallet();
    assert_eq!(contract_receive_deposit(&state, Amount { micro_ccd: 0 }), Ok(()));
    assert_eq!(contract_receive_deposit(&state, Amount { micro_ccd: u64::MAX }), Ok(()));
    assert_eq!(state.last_request_id, 0);
}

#[test]
fn submission_records_the_submitter_as_supporter() {
    let mut state = wallet();
    assert_eq!(submit(&mut state, 2, 55, 9), Ok(1));
    assert_eq!(state.last_request_id, 1);
    assert_eq!(state.requests.len(), 1);
    let request = state.requests.get(&1).unwrap();
    assert_eq!(request.transfer_amount, Amount { micro_ccd: 55 });
    assert_eq!(request.target_account, account(9));
    assert_eq!(request.supporters.to_vec(), vec![account(2)]);
}

#[test]
fn ids_count_up_from_one() {
    let mut state = wallet();
    for expected in 1..=5u128 {
        assert_eq!(submit(&mut state, 1, 1, 9), Ok(expected));
    }
    assert_eq!(state.last_request_id, 5);
    assert_eq!(state.requests.len(), 5);
}

#[test]
fn ids_are_not_reused_after_execution() {
    let mut state = wallet();
    assert_eq!(submit(&mut state, 1, 1, 9), Ok(1));
    assert_eq!(submit(&mut state, 1, 2, 9), Ok(2));
    assert_eq!(contract_receive_support_transfer_request(&mut state, caller(2), 2), Ok(()));
    assert_eq!(contract_receive_support_transfer_request(&mut state, caller(3), 2), Ok(()));
    assert!(contract_receive_execute_transfer_request(&mut state, caller(1), 2).is_ok());
    assert_eq!(submit(&mut state, 4, 3, 9), Err(Error::NotOwner));
    assert_eq!(submit(&mut state, 2, 3, 9), Ok(3));
    assert_eq!(state.last_request_id, 3);
    assert!(state.requests.contains_key(&1));
    assert!(!state.requests.contains_key(&2));
    assert!(state.requests.contains_key(&3));
}

#[test]
fn second_support_is_refused_and_changes_nothing() {
    let mut state = wallet();
    assert_eq!(submit(&mut state, 1, 10, 9), Ok(1));
    assert_eq!(contract_receive_support_transfer_request(&mut state, caller(2), 1), Ok(()));
    assert_eq!(supporter_count(&state, 1), 2);
    assert_eq!(
        contract_receive_support_transfer_request(&mut state, caller(2), 1),
        Err(Error::RequestAlreadySupported)
    );
    assert_eq!(supporter_count(&state, 1), 2);
    assert_eq!(state.last_request_id, 1);
    assert_eq!(state.requests.len(), 1);
}

#[test]
fn submitter_cannot_support_again() {
    let mut state = wallet();
    assert_eq!(submit(&mut state, 1, 10, 9), Ok(1));
    assert_eq!(
        contract_receive_support_transfer_request(&mut state, caller(1), 1),
        Err(Error::RequestAlreadySupported)
    );
}

#[test]
fn support_of_unknown_request_fails() {
    let mut state = wallet();
    assert_eq!(
        contract_receive_support_transfer_request(&mut state, caller(1), 1),
        Err(Error::RequestNotFound)
    );
    assert_eq!(
        contract_receive_not_support_transfer_request(&mut state, caller(1), 7),
        Err(Error::RequestNotFound)
    );
}

#[test]
fn retract_requires_prior_support() {
    let mut state = wallet();
    assert_eq!(submit(&mut state, 1, 10, 9), Ok(1));
    assert_eq!(
        contract_receive_not_support_transfer_request(&mut state, caller(2), 1),
        Err(Error::RequestAlreadyNotSupported)
    );
    assert_eq!(supporter_count(&state, 1), 1);
}

#[test]
fn retracted_support_can_be_given_again() {
    let mut state = wallet();
    assert_eq!(submit(&mut state, 1, 10, 9), Ok(1));
    assert_eq!(contract_receive_not_support_transfer_request(&mut state, caller(1), 1), Ok(()));
    assert_eq!(supporter_count(&state, 1), 0);
    assert!(state.requests.contains_key(&1));
    assert_eq!(
        contract_receive_not_support_transfer_request(&mut state, caller(1), 1),
        Err(Error::RequestAlreadyNotSupported)
    );
    assert_eq!(contract_receive_support_transfer_request(&mut state, caller(1), 1), Ok(()));
    assert_eq!(supporter_count(&state, 1), 1);
    let request = state.requests.get(&1).unwrap();
    assert_eq!(request.transfer_amount, Amount { micro_ccd: 10 });
    assert_eq!(request.target_account, account(9));
}

#[test]
fn execution_requires_unanimity() {
    let mut state = wallet();
    assert_eq!(submit(&mut state, 1, 10, 9), Ok(1));
    assert_eq!(
        contract_receive_execute_transfer_request(&mut state, caller(1), 1),
        Err(Error::RequestNotSupportedByAllOwners)
    );
    assert_eq!(contract_receive_support_transfer_request(&mut state, caller(2), 1), Ok(()));
    assert_eq!(
        contract_receive_execute_transfer_request(&mut state, caller(3), 1),
        Err(Error::RequestNotSupportedByAllOwners)
    );
    assert_eq!(supporter_count(&state, 1), 2);
    assert_eq!(contract_receive_support_transfer_request(&mut state, caller(3), 1), Ok(()));
    assert_eq!(
        contract_receive_execute_transfer_request(&mut state, caller(3), 1),
        Ok(TransferOrder {
            target_account: account(9),
            transfer_amount: Amount { micro_ccd: 10 },
        })
    );
    assert!(state.requests.is_empty());
    assert_eq!(state.owners.len(), 3);
}

#[test]
fn execution_fails_after_a_retraction() {
    let mut state = wallet();
    assert_eq!(submit(&mut state, 1, 10, 9), Ok(1));
    assert_eq!(contract_receive_support_transfer_request(&mut state, caller(2), 1), Ok(()));
    assert_eq!(contract_receive_support_transfer_request(&mut state, caller(3), 1), Ok(()));
    assert_eq!(contract_receive_not_support_transfer_request(&mut state, caller(2), 1), Ok(()));
    assert_eq!(
        contract_receive_execute_transfer_request(&mut state, caller(1), 1),
        Err(Error::RequestNotSupportedByAllOwners)
    );
    assert!(state.requests.contains_key(&1));
}

#[test]
fn view_is_gated_on_full_support() {
    let mut state = wallet();
    assert_eq!(submit(&mut state, 1, 10, 9), Ok(1));
    assert_eq!(
        contract_receive_view_transfer_request(&state, caller(1), 1).err(),
        Some(Error::RequestNotSupportedByAllOwners)
    );
    assert_eq!(
        contract_receive_view_transfer_request(&state, caller(1), 2).err(),
        Some(Error::RequestNotFound)
    );
    assert_eq!(contract_receive_support_transfer_request(&mut state, caller(2), 1), Ok(()));
    assert_eq!(contract_receive_support_transfer_request(&mut state, caller(3), 1), Ok(()));
    let shown = contract_receive_view_transfer_request(&state, caller(2), 1).unwrap();
    assert_eq!(shown.transfer_amount, Amount { micro_ccd: 10 });
    assert_eq!(shown.target_account, account(9));
    assert_eq!(shown.supporters.len(), 3);
    assert!(shown.supporters.contains(&account(1)));
    assert!(shown.supporters.contains(&account(2)));
    assert!(shown.supporters.contains(&account(3)));
    assert!(state.requests.contains_key(&1));
}

#[test]
fn strangers_are_refused_everywhere() {
    let mut state = wallet();
    assert_eq!(submit(&mut state, 1, 10, 9), Ok(1));
    assert_eq!(contract_receive_support_transfer_request(&mut state, caller(2), 1), Ok(()));
    assert_eq!(contract_receive_support_transfer_request(&mut state, caller(3), 1), Ok(()));
    let contract = Address::Contract(ContractAddress { index: 3, subindex: 1 });
    for stranger in [caller(4), caller(0), contract] {
        assert_eq!(
            contract_receive_submit_transfer_request(
                &mut state,
                stranger,
                SubmitParams {
                    transfer_amount: Amount { micro_ccd: 1 },
                    target_account: account(9),
                },
            ),
            Err(Error::NotOwner)
        );
        assert_eq!(
            contract_receive_support_transfer_request(&mut state, stranger, 1),
            Err(Error::NotOwner)
        );
        assert_eq!(
            contract_receive_not_support_transfer_request(&mut state, stranger, 1),
            Err(Error::NotOwner)
        );
        assert_eq!(
            contract_receive_execute_transfer_request(&mut state, stranger, 1),
            Err(Error::NotOwner)
        );
        assert_eq!(
            contract_receive_view_transfer_request(&state, stranger, 1).err(),
            Some(Error::NotOwner)
        );
        assert_eq!(state.last_request_id, 1);
        assert_eq!(state.requests.len(), 1);
        assert_eq!(supporter_count(&state, 1), 3);
    }
}

#[test]
fn end_to_end() {
    let mut state = wallet();
    assert_eq!(submit(&mut state, 1, 10, 42), Ok(1));
    assert_eq!(contract_receive_support_transfer_request(&mut state, caller(2), 1), Ok(()));
    assert_eq!(contract_receive_support_transfer_request(&mut state, caller(3), 1), Ok(()));
    let order = contract_receive_execute_transfer_request(&mut state, caller(1), 1).unwrap();
    assert_eq!(order.target_account, account(42));
    assert_eq!(order.transfer_amount, Amount { micro_ccd: 10 });
    assert_eq!(conclude_transfer(Ok(())), Ok(()));
    assert_eq!(
        contract_receive_view_transfer_request(&state, caller(1), 1).err(),
        Some(Error::RequestNotFound)
    );
    assert_eq!(
        contract_receive_support_transfer_request(&mut state, caller(1), 1),
        Err(Error::RequestNotFound)
    );
    assert_eq!(
        contract_receive_not_support_transfer_request(&mut state, caller(1), 1),
        Err(Error::RequestNotFound)
    );
}

#[test]
fn a_request_is_executed_at_most_once() {
    let mut state = wallet();
    assert_eq!(submit(&mut state, 1, 10, 42), Ok(1));
    assert_eq!(contract_receive_support_transfer_request(&mut state, caller(2), 1), Ok(()));
    assert_eq!(contract_receive_support_transfer_request(&mut state, caller(3), 1), Ok(()));
    assert!(contract_receive_execute_transfer_request(&mut state, caller(2), 1).is_ok());
    assert_eq!(
        contract_receive_execute_transfer_request(&mut state, caller(2), 1),
        Err(Error::RequestNotFound)
    );
    assert_eq!(
        contract_receive_execute_transfer_request(&mut state, caller(3), 1),
        Err(Error::RequestNotFound)
    );
}

#[test]
fn failed_transfer_leaves_the_request_gone() {
    let mut state = wallet();
    assert_eq!(submit(&mut state, 1, 10, 42), Ok(1));
    assert_eq!(contract_receive_support_transfer_request(&mut state, caller(2), 1), Ok(()));
    assert_eq!(contract_receive_support_transfer_request(&mut state, caller(3), 1), Ok(()));
    assert!(contract_receive_execute_transfer_request(&mut state, caller(2), 1).is_ok());
    assert_eq!(
        conclude_transfer(Err(TransferFailure::AmountTooLarge)),
        Err(Error::InvokeTransferInsufficientFunds)
    );
    assert!(!state.requests.contains_key(&1));
}

#[test]
fn transfer_failures_map_to_errors() {
    assert_eq!(
        Error::from(TransferFailure::AmountTooLarge),
        Error::InvokeTransferInsufficientFunds
    );
    assert_eq!(Error::from(TransferFailure::MissingAccount), Error::InvokeTransferMissingAccount);
    assert_eq!(
        conclude_transfer(Err(TransferFailure::MissingAccount)),
        Err(Error::InvokeTransferMissingAccount)
    );
}

#[test]
fn requests_are_independent() {
    let mut state = wallet();
    assert_eq!(submit(&mut state, 1, 10, 8), Ok(1));
    assert_eq!(submit(&mut state, 2, 20, 9), Ok(2));
    assert_eq!(contract_receive_support_transfer_request(&mut state, caller(3), 2), Ok(()));
    assert_eq!(supporter_count(&state, 1), 1);
    assert_eq!(supporter_count(&state, 2), 2);
    assert_eq!(contract_receive_support_transfer_request(&mut state, caller(1), 2), Ok(()));
    assert_eq!(
        contract_receive_execute_transfer_request(&mut state, caller(1), 2),
        Ok(TransferOrder {
            target_account: account(9),
            transfer_amount: Amount { micro_ccd: 20 },
        })
    );
    assert!(state.requests.contains_key(&1));
    assert_eq!(supporter_count(&state, 1), 1);
}
