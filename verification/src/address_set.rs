//! A set of account addresses, kept as a vector in which nothing occurs twice.

use crate::types::AccountAddress;
use vstd::prelude::*;

verus! {

/// The byte sequences of `elems`, in order.
spec fn keys_of(elems: Seq<AccountAddress>) -> Seq<Seq<u8>> {
    Seq::new(elems.len(), |i: int| elems[i]@)
}

/// Appending what does not occur keeps a sequence free of repetitions.
proof fn lemma_push_keeps_distinct(keys: Seq<Seq<u8>>, key: Seq<u8>)
    requires
        keys.no_duplicates(),
        !keys.contains(key),
    ensures
        keys.push(key).no_duplicates(),
{
    let pushed = keys.push(key);
    assert forall|a: int, b: int| 0 <= a < pushed.len() && 0 <= b < pushed.len() && a != b implies pushed[a]
        != pushed[b] by {
        if a < keys.len() {
            assert(keys.contains(keys[a]));
        }
        if b < keys.len() {
            assert(keys.contains(keys[b]));
        }
    }
}

/// Dropping one position of a sequence free of repetitions leaves it free of
/// them, and takes exactly that position's element out of its set.
proof fn lemma_remove_keeps_distinct(keys: Seq<Seq<u8>>, at: int)
    requires
        keys.no_duplicates(),
        0 <= at < keys.len(),
    ensures
        keys.remove(at).no_duplicates(),
        keys.remove(at).to_set() == keys.to_set().remove(keys[at]),
{
    let rest = keys.remove(at);
    assert forall|a: int, b: int| 0 <= a < rest.len() && 0 <= b < rest.len() && a != b implies rest[a]
        != rest[b] by {
        let a0 = if a < at { a } else { a + 1 };
        let b0 = if b < at { b } else { b + 1 };
        assert(keys[a0] != keys[b0]);
    }
    assert forall|k: Seq<u8>| rest.contains(k) <==> (keys.contains(k) && k != keys[at]) by {
        if rest.contains(k) {
            let j = choose|j: int| 0 <= j < rest.len() && rest[j] == k;
            let j0 = if j < at { j } else { j + 1 };
            assert(keys[j0] == k);
        }
        if keys.contains(k) && k != keys[at] {
            let j = choose|j: int| 0 <= j < keys.len() && keys[j] == k;
            let j0 = if j < at { j } else { j - 1 };
            assert(rest[j0] == k);
        }
    }
    assert(rest.to_set() =~= keys.to_set().remove(keys[at]));
}

/// A finite set of account addresses. Its view is the set of the byte
/// sequences of its members.
#[derive(Debug)]
pub struct AddressSet {
    elems: Vec<AccountAddress>,
}

impl View for AddressSet {
    type V = Set<Seq<u8>>;

    closed spec fn view(&self) -> Set<Seq<u8>> {
        self.keys().to_set()
    }
}

impl AddressSet {
    /// The members' byte sequences, in storage order.
    spec fn keys(&self) -> Seq<Seq<u8>> {
        keys_of(self.elems@)
    }

    #[verifier::type_invariant]
    spec fn distinct(&self) -> bool {
        self.keys().no_duplicates()
    }

    /// A view is always a finite set.
    pub proof fn lemma_finite(&self)
        ensures
            self@.finite(),
    {
        vstd::seq_lib::seq_to_set_is_finite(self.keys());
    }

    /// The empty set.
    pub fn new() -> (s: AddressSet)
        ensures
            s@ == Set::<Seq<u8>>::empty(),
    {
        let s = AddressSet { elems: Vec::new() };
        assert(s.keys() =~= Seq::<Seq<u8>>::empty());
        assert(s@ =~= Set::<Seq<u8>>::empty());
        s
    }

    /// The number of members.
    pub fn len(&self) -> (n: usize)
        ensures
            n == self@.len(),
            self@.finite(),
    {
        proof {
            use_type_invariant(self);
            self.keys().unique_seq_to_set();
            self.lemma_finite();
        }
        self.elems.len()
    }

    /// Where `address` is stored, if it is a member.
    fn position(&self, address: &AccountAddress) -> (r: Option<usize>)
        ensures
            match r {
                Some(i) => i < self.keys().len() && self.keys()[i as int] == address@,
                None => !self.keys().contains(address@),
            },
    {
        let mut i: usize = 0;
        while i < self.elems.len()
            invariant
                i <= self.elems@.len(),
                forall|j: int| 0 <= j < i ==> self.keys()[j] != address@,
            decreases self.elems@.len() - i,
        {
            if self.elems[i].same_as(address) {
                return Some(i);
            }
            i += 1;
        }
        None
    }

    /// Moves the storage out and leaves the set empty.
    fn take_elems(&mut self) -> (elems: Vec<AccountAddress>)
        ensures
            elems@ == old(self).elems@,
    {
        let mut taken = AddressSet { elems: Vec::new() };
        core::mem::swap(self, &mut taken);
        taken.elems
    }

    /// Whether `address` is a member.
    pub fn contains(&self, address: &AccountAddress) -> (r: bool)
        ensures
            r == self@.contains(address@),
    {
        self.position(address).is_some()
    }

    /// Adds `address`; returns whether it was new.
    pub fn insert(&mut self, address: AccountAddress) -> (added: bool)
        ensures
            final(self)@ == old(self)@.insert(address@),
            added == !old(self)@.contains(address@),
    {
        proof {
            use_type_invariant(&*self);
        }
        if self.position(&address).is_some() {
            assert(self@ =~= self@.insert(address@));
            false
        } else {
            let ghost before = self.keys();
            let mut elems = self.take_elems();
            elems.push(address);
            proof {
                assert(keys_of(elems@) =~= before.push(address@));
                lemma_push_keeps_distinct(before, address@);
                before.lemma_push_to_set_commute(address@);
            }
            *self = AddressSet { elems };
            true
        }
    }

    /// Takes `address` out; returns whether it was a member.
    pub fn remove(&mut self, address: &AccountAddress) -> (removed: bool)
        ensures
            final(self)@ == old(self)@.remove(address@),
            removed == old(self)@.contains(address@),
    {
        proof {
            use_type_invariant(&*self);
        }
        match self.position(address) {
            None => {
                assert(self@ =~= self@.remove(address@));
                false
            },
            Some(i) => {
                let ghost before = self.keys();
                let mut elems = self.take_elems();
                elems.remove(i);
                proof {
                    assert(keys_of(elems@) =~= before.remove(i as int));
                    lemma_remove_keeps_distinct(before, i as int);
                }
                *self = AddressSet { elems };
                true
            },
        }
    }

    /// The members, in storage order.
    pub fn to_vec(&self) -> (v: Vec<AccountAddress>)
        ensures
            v@.len() == self@.len(),
            forall|i: int| 0 <= i < v@.len() ==> self@.contains(#[trigger] v@[i]@),
            forall|k: Seq<u8>|
                self@.contains(k) ==> exists|i: int| 0 <= i < v@.len() && #[trigger] v@[i]@ == k,
    {
        let s = self.clone();
        proof {
            use_type_invariant(&s);
            s.keys().unique_seq_to_set();
            assert forall|i: int| 0 <= i < s.elems@.len() implies self@.contains(
                #[trigger] s.elems@[i]@,
            ) by {
                assert(s.keys()[i] == s.elems@[i]@);
            }
            assert forall|k: Seq<u8>| self@.contains(k) implies exists|i: int|
                0 <= i < s.elems@.len() && #[trigger] s.elems@[i]@ == k by {
                let j = choose|j: int| 0 <= j < s.keys().len() && s.keys()[j] == k;
                assert(s.elems@[j]@ == k);
            }
        }
        s.elems
    }
}

impl Clone for AddressSet {
    /// A copy with the same members.
    fn clone(&self) -> (s: AddressSet)
        ensures
            s@ == self@,
    {
        proof {
            use_type_invariant(self);
        }
        let mut elems: Vec<AccountAddress> = Vec::new();
        let mut i: usize = 0;
        while i < self.elems.len()
            invariant
                i <= self.elems@.len(),
                elems@ == self.elems@.take(i as int),
            decreases self.elems@.len() - i,
        {
            elems.push(self.elems[i]);
            assert(self.elems@.take(i as int).push(self.elems@[i as int]) =~= self.elems@.take(
                i + 1,
            ));
            i += 1;
        }
        assert(elems@ =~= self.elems@);
        let s = AddressSet { elems };
        assert(s.keys() =~= self.keys());
        s
    }
}

} // verus!
