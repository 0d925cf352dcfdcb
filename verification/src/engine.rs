//! How the ledger moves: production as time passes, the reset once the last
//! kind is held, and the making of one resource at its cost.
//!
//! Each operation is stated as a function from the ledger before to the
//! ledger after: [`ticked`] for the passing of time and [`activated`] for a
//! purchase.

use crate::amount::{production, saturate, yield_of, UNIT};
use crate::kind::ResourceType;
use crate::ledger::{empty_ledger, is_ledger, Resources};
use crate::rules::{cost_of, description, producer, producer_of};
use vstd::prelude::*;

verus! {

/// Whether `ledger` holds what one of `kind` costs. A kind without a cost is
/// always affordable.
pub open spec fn affordable(ledger: Map<ResourceType, int>, kind: ResourceType) -> bool {
    match cost_of(kind) {
        None => true,
        Some((paid_in, price)) => ledger[paid_in] >= price,
    }
}

/// The ledger after one of `kind` is made: one more whole resource of `kind`,
/// and the cost taken from the kind it is paid in, whether or not that much
/// was held.
pub open spec fn activated(ledger: Map<ResourceType, int>, kind: ResourceType) -> Map<
    ResourceType,
    int,
> {
    let made = ledger.insert(kind, saturate(ledger[kind] + UNIT));
    match cost_of(kind) {
        None => made,
        Some((paid_in, price)) => made.insert(paid_in, saturate(made[paid_in] - price)),
    }
}

/// The ledger after the holdings of `producer` have yielded into `produced`
/// for `nanos` nanoseconds: one step of production, on its own.
pub open spec fn fed(
    ledger: Map<ResourceType, int>,
    producer: ResourceType,
    produced: ResourceType,
    nanos: int,
) -> Map<ResourceType, int> {
    ledger.insert(
        produced,
        saturate(ledger[produced] + saturate(yield_of(ledger[producer], nanos))),
    )
}

/// What is held of `kind` after `nanos` nanoseconds of production: what was
/// held, and what the holdings of its producer, as they were before, yield in
/// that time.
pub open spec fn grown(ledger: Map<ResourceType, int>, kind: ResourceType, nanos: int) -> int {
    match producer_of(kind) {
        Some(source) => saturate(ledger[kind] + saturate(yield_of(ledger[source], nanos))),
        None => ledger[kind],
    }
}

/// The ledger after `nanos` nanoseconds of production along the whole chain.
pub open spec fn produced(ledger: Map<ResourceType, int>, nanos: int) -> Map<ResourceType, int> {
    Map::new(|kind: ResourceType| true, |kind: ResourceType| grown(ledger, kind, nanos))
}

/// The ledger after a tick of `nanos` nanoseconds: emptied if any of the last
/// kind was held, and otherwise grown by production.
pub open spec fn ticked(ledger: Map<ResourceType, int>, nanos: int) -> Map<ResourceType, int> {
    if ledger[ResourceType::Agi] > 0 {
        empty_ledger()
    } else {
        produced(ledger, nanos)
    }
}

/// Whether `resources` holds at least `cost.1` of the kind `cost.0`.
pub fn is_cost_met(resources: &Resources, cost: (ResourceType, i128)) -> (met: bool)
    ensures
        met == (resources.amount(cost.0) >= cost.1),
{
    resources.get(cost.0) >= cost.1
}

/// Whether `resources` holds what one of `kind` costs.
pub fn is_affordable(resources: &Resources, kind: ResourceType) -> (met: bool)
    ensures
        met == affordable(resources@, kind),
{
    match description(kind).cost {
        None => true,
        Some(cost) => is_cost_met(resources, cost),
    }
}

/// Adds to `produced` what the holdings of `producer` yield in `nanos`
/// nanoseconds.
pub fn add_resources(
    producer: ResourceType,
    produced: ResourceType,
    resources: &mut Resources,
    nanos: u64,
)
    ensures
        final(resources)@ == fed(old(resources)@, producer, produced, nanos as int),
{
    let held: i128 = resources.get(producer);
    resources.increase(produced, production(held, nanos));
}

/// Lets `nanos` nanoseconds pass. If any of the last kind is held, the ledger
/// is emptied and nothing is produced. Otherwise every kind that has a
/// producer grows by what that producer held before the tick yields.
///
/// The chain is walked from the first kind up, one step of production after
/// the other on the same ledger. Each producer is read before its own turn to
/// grow comes, so the result is the same as if all had been read first.
pub fn tick(resources: &mut Resources, nanos: u64)
    ensures
        final(resources)@ == ticked(old(resources)@, nanos as int),
{
    if resources.get(ResourceType::Agi) > 0 {
        resources.reset();
        return ;
    }
    let ghost before = resources@;
    proof {
        resources.lemma_is_ledger();
    }
    let kinds: [ResourceType; 8] = ResourceType::all();
    let mut n: usize = 0;
    while n < 8
        invariant
            n <= 8,
            forall|i: int| 0 <= i < 8 ==> kinds@[i] == ResourceType::at(i),
            is_ledger(before),
            is_ledger(resources@),
            forall|kind: ResourceType|
                kind.ordinal() < n ==> #[trigger] resources@[kind] == grown(
                    before,
                    kind,
                    nanos as int,
                ),
            forall|kind: ResourceType|
                kind.ordinal() >= n ==> #[trigger] resources@[kind] == before[kind],
        decreases 8 - n,
    {
        let target: ResourceType = kinds[n];
        assert(target == ResourceType::at(n as int));
        match producer(target) {
            Some(source) => {
                add_resources(source, target, resources, nanos);
                proof {
                    resources.lemma_is_ledger();
                }
            },
            None => {},
        }
        n = n + 1;
    }
    assert(resources@ =~= produced(before, nanos as int));
}

/// Makes one of `kind`: adds one whole resource of it and takes its cost from
/// the kind it is paid in. The cost is taken whether or not that much is
/// held, so an amount can become negative; callers that want to refuse a
/// purchase ask [`is_affordable`] first. Always returns `true`: the purchase
/// was applied.
pub fn activate(resources: &mut Resources, kind: ResourceType) -> (applied: bool)
    ensures
        applied,
        final(resources)@ == activated(old(resources)@, kind),
{
    resources.increase(kind, UNIT);
    match description(kind).cost {
        Some((paid_in, price)) => {
            resources.increase(paid_in, -price);
        },
        None => {},
    }
    true
}

} // verus!
