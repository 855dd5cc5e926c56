//! Sequences of operations on the ledger, and what they lead to.

use crate::model::LedgerModel;
use crate::types::Address;
use vstd::prelude::*;

verus! {

/// One call on the ledger.
pub enum Operation {
    Submit { sender: Address, amount: u64, target: Seq<u8> },
    Support { sender: Address, id: u128 },
    Retract { sender: Address, id: u128 },
    Execute { sender: Address, id: u128 },
    View { sender: Address, id: u128 },
}

impl LedgerModel {
    /// The ledger after `op`.
    pub open spec fn step(self, op: Operation) -> LedgerModel {
        match op {
            Operation::Submit { sender, amount, target } => self.submit(sender, amount, target).0,
            Operation::Support { sender, id } => self.support(sender, id).0,
            Operation::Retract { sender, id } => self.retract(sender, id).0,
            Operation::Execute { sender, id } => self.execute(sender, id).0,
            Operation::View { sender, id } => self,
        }
    }

    /// Whether `op` fails on this ledger.
    pub open spec fn fails(self, op: Operation) -> bool {
        match op {
            Operation::Submit { sender, amount, target } => self.submit(
                sender,
                amount,
                target,
            ).1.is_err(),
            Operation::Support { sender, id } => self.support(sender, id).1.is_err(),
            Operation::Retract { sender, id } => self.retract(sender, id).1.is_err(),
            Operation::Execute { sender, id } => self.execute(sender, id).1.is_err(),
            Operation::View { sender, id } => self.view_request(sender, id).is_err(),
        }
    }

    /// The id that `op` hands out: that of a successful submission.
    pub open spec fn issued(self, op: Operation) -> Option<u128> {
        match op {
            Operation::Submit { sender, amount, target } => match self.submit(
                sender,
                amount,
                target,
            ).1 {
                Ok(id) => Some(id),
                Err(_) => None,
            },
            _ => None,
        }
    }

    /// The ledger after all of `ops`, in order.
    pub open spec fn run(self, ops: Seq<Operation>) -> LedgerModel
        decreases ops.len(),
    {
        if ops.len() == 0 {
            self
        } else {
            self.run(ops.drop_last()).step(ops.last())
        }
    }

    /// The ids that `ops` hand out, in call order.
    pub open spec fn ids_issued(self, ops: Seq<Operation>) -> Seq<u128>
        decreases ops.len(),
    {
        if ops.len() == 0 {
            Seq::empty()
        } else {
            let earlier = self.ids_issued(ops.drop_last());
            match self.run(ops.drop_last()).issued(ops.last()) {
                Some(id) => earlier.push(id),
                None => earlier,
            }
        }
    }
}

} // verus!
