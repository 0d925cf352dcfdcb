//! The ledger: how much of each kind is held.

use crate::amount::{saturate, saturating_sum};
use crate::kind::ResourceType;
use vstd::prelude::*;

verus! {

/// The amount held of every kind. A ledger has an entry for each of the eight
/// kinds from the moment it is made, so a lookup never fails.
#[derive(Debug)]
pub struct Resources {
    amounts: [i128; 8],
}

/// The ledger in which nothing is held.
pub open spec fn empty_ledger() -> Map<ResourceType, int> {
    Map::new(|kind: ResourceType| true, |kind: ResourceType| 0int)
}

/// Whether `ledger` has an entry for every kind and each entry is a value
/// that an amount can hold.
pub open spec fn is_ledger(ledger: Map<ResourceType, int>) -> bool {
    &&& forall|kind: ResourceType| ledger.dom().contains(kind)
    &&& forall|kind: ResourceType| i128::MIN <= #[trigger] ledger[kind] <= i128::MAX
}

impl View for Resources {
    type V = Map<ResourceType, int>;

    /// The ledger as a total map from kind to amount.
    closed spec fn view(&self) -> Map<ResourceType, int> {
        Map::new(
            |kind: ResourceType| true,
            |kind: ResourceType| self.amounts@[kind.ordinal()] as int,
        )
    }
}

impl Resources {
    /// The amount held of `kind`.
    #[verifier::inline]
    pub open spec fn amount(&self, kind: ResourceType) -> int {
        self@[kind]
    }

    /// Every ledger that exists is total and within range.
    pub proof fn lemma_is_ledger(&self)
        ensures
            is_ledger(self@),
    {
    }

    /// A ledger in which nothing is held.
    pub fn new() -> (ledger: Resources)
        ensures
            ledger@ == empty_ledger(),
            forall|kind: ResourceType| ledger.amount(kind) == 0,
    {
        let ledger = Resources { amounts: [0i128; 8] };
        assert(ledger@ =~= empty_ledger());
        ledger
    }

    /// The amount held of `resource`.
    pub fn get(&self, resource: ResourceType) -> (held: i128)
        ensures
            held == self.amount(resource),
    {
        self.amounts[resource.index()]
    }

    /// Adds `amount`, which may be negative, to what is held of `resource`;
    /// the other kinds keep what they hold.
    pub fn increase(&mut self, resource: ResourceType, amount: i128)
        ensures
            final(self)@ == old(self)@.insert(
                resource,
                saturate(old(self).amount(resource) + amount),
            ),
    {
        let i: usize = resource.index();
        let current: i128 = self.amounts[i];
        self.amounts[i] = saturating_sum(current, amount);
        assert(self@ =~= old(self)@.insert(
            resource,
            saturate(old(self).amount(resource) + amount),
        )) by {
            assert forall|kind: ResourceType| kind.ordinal() == resource.ordinal() implies kind
                == resource by {}
        }
    }

    /// Empties the ledger: afterwards nothing is held of any kind.
    pub fn reset(&mut self)
        ensures
            final(self)@ == empty_ledger(),
    {
        let kinds: [ResourceType; 8] = ResourceType::all();
        let mut n: usize = 0;
        while n < 8
            invariant
                n <= 8,
                forall|i: int| 0 <= i < 8 ==> kinds@[i] == ResourceType::at(i),
                forall|i: int| 0 <= i < n ==> self.amounts@[i] == 0,
            decreases 8 - n,
        {
            let i: usize = kinds[n].index();
            assert(i == n) by {
                assert(kinds@[n as int] == ResourceType::at(n as int));
            }
            self.amounts[i] = 0;
            n = n + 1;
        }
        assert(self@ =~= empty_ledger());
    }
}

} // verus!
