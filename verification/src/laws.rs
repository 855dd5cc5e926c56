//! What holds of the ledger's transitions, whatever the inputs.

use crate::error::Error;
use crate::model::{acting_owner, threshold, LedgerModel, RequestModel};
use crate::trace::Operation;
use crate::types::Address;
use vstd::prelude::*;

verus! {

/// A freshly initialized ledger is well formed exactly when it is given as
/// many owners as the threshold asks for.
pub proof fn initial_ledger_is_well_formed(owners: Set<Seq<u8>>)
    requires
        owners.finite(),
    ensures
        LedgerModel::initial(owners).wf() <==> owners.len() == threshold(),
{
}

/// Every operation keeps a well-formed ledger well formed: the owners stay
/// the same, supporters stay owners, and the ids in use stay among those
/// handed out.
pub proof fn step_preserves_well_formedness(m: LedgerModel, op: Operation)
    requires
        m.wf(),
        op is Submit ==> m.last_request_id < u128::MAX,
    ensures
        m.step(op).wf(),
        m.step(op).owners == m.owners,
        m.step(op).last_request_id >= m.last_request_id,
{
    let next = m.step(op);
    match op {
        Operation::Submit { sender, amount, target } => {
            if let Ok(account) = acting_owner(m.owners, sender) {
                assert forall|id: u128| #[trigger] next.requests.contains_key(id) implies (1 <= id
                    <= next.last_request_id && next.requests[id].supporters.subset_of(
                    next.owners,
                )) by {
                    if id != m.next_id() {
                        assert(m.requests.contains_key(id));
                    }
                }
            }
        },
        Operation::Support { sender, id } => {
            assert forall|k: u128| #[trigger] next.requests.contains_key(k) implies (1 <= k
                <= next.last_request_id && next.requests[k].supporters.subset_of(next.owners)) by {
                assert(m.requests.contains_key(k));
            }
        },
        Operation::Retract { sender, id } => {
            assert forall|k: u128| #[trigger] next.requests.contains_key(k) implies (1 <= k
                <= next.last_request_id && next.requests[k].supporters.subset_of(next.owners)) by {
                assert(m.requests.contains_key(k));
            }
        },
        Operation::Execute { sender, id } => {
            assert forall|k: u128| #[trigger] next.requests.contains_key(k) implies (1 <= k
                <= next.last_request_id && next.requests[k].supporters.subset_of(next.owners)) by {
                assert(m.requests.contains_key(k));
            }
        },
        Operation::View { sender, id } => {},
    }
}

/// An operation that fails leaves the ledger as it was.
pub proof fn failure_changes_nothing(m: LedgerModel, op: Operation)
    requires
        m.fails(op),
    ensures
        m.step(op) == m,
{
}

/// The id of a successful submission names no request that is pending, and
/// none that was ever handed out before.
pub proof fn submitted_id_is_fresh(m: LedgerModel, sender: Address, amount: u64, target: Seq<u8>)
    requires
        m.wf(),
        m.last_request_id < u128::MAX,
        m.submit(sender, amount, target).1.is_ok(),
    ensures
        m.submit(sender, amount, target).1 == Ok::<u128, Error>(
            (m.last_request_id + 1) as u128,
        ),
        !m.requests.contains_key(m.submit(sender, amount, target).1.unwrap()),
        m.submit(sender, amount, target).0.last_request_id == m.last_request_id + 1,
{
    if m.requests.contains_key(m.next_id()) {
        assert(m.next_id() <= m.last_request_id);
    }
}

/// Ids count up: over any sequence of operations, the ids handed out are the
/// successors of the counter the sequence started from, in call order,
/// whatever was executed or removed in between. From a fresh ledger they are
/// 1, 2, 3 and so on.
pub proof fn ids_count_up(m: LedgerModel, ops: Seq<Operation>)
    requires
        m.last_request_id + ops.len() <= u128::MAX,
    ensures
        m.ids_issued(ops).len() <= ops.len(),
        m.run(ops).last_request_id == m.last_request_id + m.ids_issued(ops).len(),
        forall|i: int|
            0 <= i < m.ids_issued(ops).len() ==> #[trigger] m.ids_issued(ops)[i]
                == m.last_request_id + 1 + i,
    decreases ops.len(),
{
    if ops.len() > 0 {
        ids_count_up(m, ops.drop_last());
    }
}

/// On a fresh ledger the ids handed out are 1, 2, 3 and so on, in call
/// order, whatever else is done in between.
pub proof fn ids_count_up_from_one(owners: Set<Seq<u8>>, ops: Seq<Operation>)
    requires
        ops.len() <= u128::MAX,
    ensures
        forall|i: int|
            0 <= i < LedgerModel::initial(owners).ids_issued(ops).len()
                ==> #[trigger] LedgerModel::initial(owners).ids_issued(ops)[i] == i + 1,
{
    ids_count_up(LedgerModel::initial(owners), ops);
}

/// Supporting twice is refused: after a successful support, the same owner's
/// second support of the same request fails with `RequestAlreadySupported`
/// and changes nothing.
pub proof fn second_support_is_refused(m: LedgerModel, sender: Address, id: u128)
    requires
        m.support(sender, id).1.is_ok(),
    ensures
        m.support(sender, id).0.support(sender, id) == (
            m.support(sender, id).0,
            Err::<(), Error>(Error::RequestAlreadySupported),
        ),
{
}

/// Retracting needs prior support: an owner who does not support a pending
/// request cannot retract from it; the call fails with
/// `RequestAlreadyNotSupported` and changes nothing.
pub proof fn retract_needs_support(m: LedgerModel, sender: Address, id: u128)
    requires
        m.requests.contains_key(id),
    ensures
        match acting_owner(m.owners, sender) {
            Ok(account) => !m.requests[id].supporters.contains(account) ==> m.retract(sender, id)
                == (m, Err::<(), Error>(Error::RequestAlreadyNotSupported)),
            Err(e) => m.retract(sender, id) == (m, Err::<(), Error>(e)),
        },
{
}

/// In a well-formed ledger a request has as many supporters as the
/// threshold asks for exactly when every owner supports it.
pub proof fn fully_supported_means_all_owners(m: LedgerModel, id: u128)
    requires
        m.wf(),
        m.requests.contains_key(id),
    ensures
        m.requests[id].supporters.finite(),
        m.requests[id].supporters.len() <= threshold(),
        m.requests[id].fully_supported() <==> m.requests[id].supporters == m.owners,
{
    let supporters = m.requests[id].supporters;
    vstd::set_lib::lemma_len_subset(supporters, m.owners);
    if supporters.len() == m.owners.len() {
        vstd::set_lib::lemma_subset_equality(supporters, m.owners);
    }
}

/// Execution needs unanimity: an owner's execution of a pending request
/// with fewer supporters than the threshold fails with
/// `RequestNotSupportedByAllOwners` and changes nothing; with every owner's
/// support it succeeds, hands out the request's target and amount, and
/// removes the request and nothing else.
pub proof fn execution_needs_unanimity(m: LedgerModel, sender: Address, id: u128)
    requires
        m.wf(),
        acting_owner(m.owners, sender).is_ok(),
        m.requests.contains_key(id),
    ensures
        m.requests[id].supporters.len() < threshold() ==> m.execute(sender, id) == (
            m,
            Err::<(Seq<u8>, u64), Error>(Error::RequestNotSupportedByAllOwners),
        ),
        m.requests[id].supporters.len() >= threshold() ==> ({
            &&& m.requests[id].supporters == m.owners
            &&& m.execute(sender, id).1 == Ok::<(Seq<u8>, u64), Error>(
                (m.requests[id].target, m.requests[id].amount),
            )
            &&& m.execute(sender, id).0.requests == m.requests.remove(id)
            &&& m.execute(sender, id).0.owners == m.owners
            &&& m.execute(sender, id).0.last_request_id == m.last_request_id
        }),
{
    fully_supported_means_all_owners(m, id);
}

/// Whoever is not an owner is refused: each operation fails with `NotOwner`
/// and changes nothing.
pub proof fn stranger_is_refused(
    m: LedgerModel,
    sender: Address,
    id: u128,
    amount: u64,
    target: Seq<u8>,
)
    requires
        !(sender matches Address::Account(account) && m.owners.contains(account@)),
    ensures
        m.submit(sender, amount, target) == (m, Err::<u128, Error>(Error::NotOwner)),
        m.support(sender, id) == (m, Err::<(), Error>(Error::NotOwner)),
        m.retract(sender, id) == (m, Err::<(), Error>(Error::NotOwner)),
        m.execute(sender, id) == (m, Err::<(Seq<u8>, u64), Error>(Error::NotOwner)),
        m.view_request(sender, id) == Err::<RequestModel, Error>(Error::NotOwner),
{
}

/// A request is executed at most once: after a successful execution, an
/// owner's operations on the same id fail with `RequestNotFound`, and they
/// go on failing so whatever else is done in between, since no later
/// submission is given that id again.
pub proof fn executed_request_is_gone(
    m: LedgerModel,
    first: Address,
    id: u128,
    ops: Seq<Operation>,
    second: Address,
)
    requires
        m.wf(),
        m.last_request_id + ops.len() <= u128::MAX,
        m.execute(first, id).1.is_ok(),
        acting_owner(m.owners, second).is_ok(),
    ensures
        ({
            let later = m.execute(first, id).0.run(ops);
            &&& later.execute(second, id) == (
                later,
                Err::<(Seq<u8>, u64), Error>(Error::RequestNotFound),
            )
            &&& later.view_request(second, id) == Err::<RequestModel, Error>(
                Error::RequestNotFound,
            )
            &&& later.support(second, id) == (later, Err::<(), Error>(Error::RequestNotFound))
            &&& later.retract(second, id) == (later, Err::<(), Error>(Error::RequestNotFound))
        }),
{
    let after = m.execute(first, id).0;
    assert(after.wf()) by {
        step_preserves_well_formedness(m, Operation::Execute { sender: first, id });
    }
    assert(m.requests.contains_key(id));
    absent_id_stays_absent(after, id, ops);
}

/// An id that was handed out and names no pending request names none after
/// any further operations.
pub proof fn absent_id_stays_absent(m: LedgerModel, id: u128, ops: Seq<Operation>)
    requires
        m.wf(),
        m.last_request_id + ops.len() <= u128::MAX,
        id <= m.last_request_id,
        !m.requests.contains_key(id),
    ensures
        m.run(ops).wf(),
        m.run(ops).owners == m.owners,
        m.run(ops).last_request_id >= m.last_request_id,
        m.run(ops).last_request_id <= m.last_request_id + ops.len(),
        !m.run(ops).requests.contains_key(id),
    decreases ops.len(),
{
    if ops.len() > 0 {
        absent_id_stays_absent(m, id, ops.drop_last());
        let before = m.run(ops.drop_last());
        step_preserves_well_formedness(before, ops.last());
    }
}

} // verus!
