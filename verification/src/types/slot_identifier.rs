//! The ordering key of a record.

use vstd::prelude::*;

verus! {

/// A position in the ledger. Records are ordered by it.
#[derive(Clone, Copy, Debug, PartialEq, Eq, Structural, PartialOrd, Ord, Hash)]
pub struct SlotIdentifier {
    pub slot: u64,
}

impl SlotIdentifier {
    pub fn new(slot: u64) -> (r: Self)
        ensures
            r.slot == slot,
    {
        SlotIdentifier { slot }
    }

    /// Whether this position comes strictly before `other`.
    pub open spec fn spec_precedes(self, other: SlotIdentifier) -> bool {
        self.slot < other.slot
    }

    pub fn precedes(&self, other: &SlotIdentifier) -> (r: bool)
        ensures
            r == self.spec_precedes(*other),
    {
        self.slot < other.slot
    }
}

/// Positions are totally ordered: of two, one precedes the other or they are
/// the same position, and never more than one of these.
pub proof fn lemma_slot_order_total(a: SlotIdentifier, b: SlotIdentifier)
    ensures
        a.spec_precedes(b) || b.spec_precedes(a) || a == b,
        !(a.spec_precedes(b) && b.spec_precedes(a)),
        a.spec_precedes(b) ==> a != b,
{
}

/// Precedence is transitive.
pub proof fn lemma_slot_order_transitive(a: SlotIdentifier, b: SlotIdentifier, c: SlotIdentifier)
    requires
        a.spec_precedes(b),
        b.spec_precedes(c),
    ensures
        a.spec_precedes(c),
{
}

} // verus!
