//! A finite set of addresses.

use vstd::prelude::*;
use vstd::set_lib::lemma_subset_equality;
use vstd::std_specs::cmp::PartialEqSpecImpl;
use crate::address::Address;

verus! {

/// A set of addresses, held in insertion order with no address twice.
#[derive(Debug)]
pub struct AddressSet {
    items: Vec<Address>,
}

impl View for AddressSet {
    type V = Set<Address>;

    closed spec fn view(&self) -> Set<Address> {
        self.items@.to_set()
    }
}

impl AddressSet {
    #[verifier::type_invariant]
    closed spec fn distinct(self) -> bool {
        self.items@.no_duplicates()
    }

    /// The members in insertion order.
    pub closed spec fn members(self) -> Seq<Address> {
        self.items@
    }

    /// The empty set.
    pub fn new() -> (r: Self)
        ensures
            r@ == Set::<Address>::empty(),
            r.members() == Seq::<Address>::empty(),
    {
        let r = AddressSet { items: Vec::new() };
        assert(r.items@.to_set() =~= Set::<Address>::empty());
        r
    }

    /// Whether `address` is a member.
    pub fn contains(&self, address: &Address) -> (r: bool)
        ensures
            r == self@.contains(*address),
    {
        let mut i: usize = 0;
        while i < self.items.len()
            invariant
                i <= self.items.len(),
                forall|j: int| 0 <= j < i ==> self.items[j] != *address,
            decreases self.items.len() - i,
        {
            if self.items[i] == *address {
                assert(self.items@.contains(*address));
                return true;
            }
            i = i + 1;
        }
        false
    }

    /// Adds `address`. Returns whether it was new; a member is not added again.
    pub fn insert(&mut self, address: Address) -> (r: bool)
        ensures
            r == !old(self)@.contains(address),
            final(self)@ == old(self)@.insert(address),
            final(self).members() == if r {
                old(self).members().push(address)
            } else {
                old(self).members()
            },
    {
        proof {
            use_type_invariant(&*self);
        }
        if self.contains(&address) {
            assert(self@.insert(address) =~= self@);
            false
        } else {
            let ghost before = self.items@;
            let mut items: Vec<Address> = Vec::new();
            core::mem::swap(&mut self.items, &mut items);
            items.push(address);
            assert(items@.no_duplicates());
            core::mem::swap(&mut self.items, &mut items);
            proof {
                assert(self.items@ == before.push(address));
                assert(self.items@.to_set() =~= before.to_set().insert(address)) by {
                    assert forall|a: Address|
                        self.items@.to_set().contains(a) == before.to_set().insert(
                            address,
                        ).contains(a) by {
                        if before.contains(a) {
                            let k = choose|k: int| 0 <= k < before.len() && before[k] == a;
                            assert(self.items@[k] == a);
                        }
                        if a == address {
                            assert(self.items@[before.len() as int] == a);
                        }
                    }
                }
            }
            true
        }
    }

    /// The set of the addresses in `addresses`.
    pub fn from_slice(addresses: &[Address]) -> (r: Self)
        ensures
            r@ == addresses@.to_set(),
    {
        let mut set = AddressSet::new();
        let mut i: usize = 0;
        while i < addresses.len()
            invariant
                i <= addresses.len(),
                set@ == addresses@.take(i as int).to_set(),
            decreases addresses.len() - i,
        {
            set.insert(addresses[i]);
            proof {
                let before = addresses@.take(i as int);
                let now = addresses@.take(i + 1);
                assert(now =~= before.push(addresses@[i as int]));
                assert(now.to_set() =~= before.to_set().insert(addresses@[i as int])) by {
                    assert forall|a: Address|
                        now.to_set().contains(a) == before.to_set().insert(
                            addresses@[i as int],
                        ).contains(a) by {
                        if before.contains(a) {
                            let k = choose|k: int| 0 <= k < before.len() && before[k] == a;
                            assert(now[k] == a);
                        }
                        if a == addresses@[i as int] {
                            assert(now[i as int] == a);
                        }
                    }
                }
            }
            i = i + 1;
        }
        assert(addresses@.take(addresses@.len() as int) =~= addresses@);
        set
    }

    /// Number of members.
    pub fn len(&self) -> (r: usize)
        ensures
            r == self@.len(),
            r == self.members().len(),
            self@.finite(),
    {
        proof {
            use_type_invariant(self);
            self.items@.unique_seq_to_set();
        }
        self.items.len()
    }

    pub fn is_empty(&self) -> (r: bool)
        ensures
            r == (self@ == Set::<Address>::empty()),
    {
        proof {
            if self.items@.len() == 0 {
                assert(self.items@.to_set() =~= Set::<Address>::empty());
            } else {
                assert(self.items@.to_set().contains(self.items@[0]));
            }
        }
        self.items.len() == 0
    }

    /// The member at position `index` of the insertion order.
    pub fn get(&self, index: usize) -> (r: Option<Address>)
        ensures
            r == if index < self.members().len() {
                Some(self.members()[index as int])
            } else {
                None
            },
            r matches Some(a) ==> self@.contains(a),
    {
        if index < self.items.len() {
            assert(self.items@.contains(self.items@[index as int]));
            Some(self.items[index])
        } else {
            None
        }
    }
}

impl Clone for AddressSet {
    fn clone(&self) -> (r: Self)
        ensures
            r@ == self@,
            r.members() == self.members(),
    {
        proof {
            use_type_invariant(self);
        }
        let mut items: Vec<Address> = Vec::new();
        let mut i: usize = 0;
        while i < self.items.len()
            invariant
                i <= self.items.len(),
                items@ == self.items@.take(i as int),
            decreases self.items.len() - i,
        {
            items.push(self.items[i]);
            assert(items@ =~= self.items@.take(i + 1));
            i = i + 1;
        }
        assert(items@ =~= self.items@);
        AddressSet { items }
    }
}

impl PartialEq for AddressSet {
    /// Two sets are equal when they have the same members, in whatever order
    /// these were inserted.
    fn eq(&self, other: &Self) -> (r: bool) {
        proof {
            use_type_invariant(self);
            use_type_invariant(other);
            self.items@.unique_seq_to_set();
            other.items@.unique_seq_to_set();
        }
        if self.items.len() != other.items.len() {
            return false;
        }
        let mut i: usize = 0;
        while i < self.items.len()
            invariant
                i <= self.items.len(),
                forall|j: int| 0 <= j < i ==> other@.contains(self.items[j]),
            decreases self.items.len() - i,
        {
            if !other.contains(&self.items[i]) {
                assert(self@.contains(self.items@[i as int]));
                return false;
            }
            i = i + 1;
        }
        proof {
            assert(self@.subset_of(other@)) by {
                assert forall|a: Address| self@.contains(a) implies other@.contains(a) by {
                    let k = choose|k: int| 0 <= k < self.items@.len() && self.items@[k] == a;
                    assert(other@.contains(self.items[k]));
                }
            }
            lemma_subset_equality(self@, other@);
        }
        true
    }
}

impl Eq for AddressSet {

}

impl PartialEqSpecImpl for AddressSet {
    open spec fn obeys_eq_spec() -> bool {
        true
    }

    open spec fn eq_spec(&self, other: &Self) -> bool {
        self@ == other@
    }
}

/// The members of a set are exactly the entries of its insertion order.
pub proof fn lemma_members_are_the_set(s: AddressSet, a: Address)
    ensures
        s@.contains(a) <==> s.members().contains(a),
{
}

} // verus!
