//! What holds of the engine on every ledger, proved from the definitions in
//! [`crate::engine`] and [`crate::rules`].

use crate::amount::{saturate, yield_of, NANOS_PER_SECOND, UNIT};
use crate::engine::{activated, affordable, fed, grown, produced, ticked};
use crate::kind::ResourceType;
use crate::ledger::{empty_ledger, is_ledger};
use crate::rules::{cost_of, producer_of};
use vstd::prelude::*;

verus! {

/// Every kind but the first is paid for in the kind just before it, at a
/// price above zero, and every kind but the last two is produced by the kind
/// just after it.
pub proof fn lemma_chain_order(kind: ResourceType)
    ensures
        cost_of(kind) is None <==> kind == ResourceType::Thing,
        cost_of(kind) matches Some((paid_in, price)) ==> paid_in.ordinal() + 1 == kind.ordinal()
            && price > 0,
        producer_of(kind) is None <==> kind.ordinal() >= 6,
        producer_of(kind) matches Some(source) ==> source.ordinal() == kind.ordinal() + 1,
{
}

/// The first kind is affordable whatever the ledger holds.
pub proof fn lemma_thing_is_free(ledger: Map<ResourceType, int>)
    ensures
        affordable(ledger, ResourceType::Thing),
{
}

/// A kind with a cost is affordable exactly if the ledger holds at least the
/// price in the kind it is paid in.
pub proof fn lemma_cost_gates(
    ledger: Map<ResourceType, int>,
    kind: ResourceType,
    paid_in: ResourceType,
    price: i128,
)
    requires
        cost_of(kind) == Some((paid_in, price)),
    ensures
        ledger[paid_in] < price ==> !affordable(ledger, kind),
        ledger[paid_in] >= price ==> affordable(ledger, kind),
{
}

/// Over a whole number of seconds a holding yields itself once per second.
pub proof fn lemma_yield_of_seconds(held: int, seconds: int)
    requires
        0 <= seconds,
    ensures
        yield_of(held, seconds * NANOS_PER_SECOND) == held * seconds,
{
    let s = NANOS_PER_SECOND as int;
    if held >= 0 {
        assert(held * (seconds * s) == (held * seconds) * s) by (nonlinear_arith);
        vstd::arithmetic::div_mod::lemma_div_by_multiple(held * seconds, s);
    } else {
        assert((-held) * (seconds * s) == ((-held) * seconds) * s) by (nonlinear_arith);
        vstd::arithmetic::div_mod::lemma_div_by_multiple((-held) * seconds, s);
        assert(-((-held) * seconds) == held * seconds) by (nonlinear_arith);
    }
}

/// While none of the last kind is held, a tick of one second adds to the
/// first kind exactly what is held of the second kind, as far as the sum is
/// a value that an amount can hold. Nothing else enters the first kind.
pub proof fn lemma_tick_second(ledger: Map<ResourceType, int>)
    requires
        is_ledger(ledger),
        ledger[ResourceType::Agi] == 0,
        ledger[ResourceType::ThingMaker] > 0,
    ensures
        ticked(ledger, NANOS_PER_SECOND as int)[ResourceType::Thing] == saturate(
            ledger[ResourceType::Thing] + ledger[ResourceType::ThingMaker],
        ),
        ledger[ResourceType::Thing] + ledger[ResourceType::ThingMaker] <= i128::MAX ==> ticked(
            ledger,
            NANOS_PER_SECOND as int,
        )[ResourceType::Thing] == ledger[ResourceType::Thing] + ledger[ResourceType::ThingMaker],
{
    lemma_yield_of_seconds(ledger[ResourceType::ThingMaker], 1);
}

/// Production moves only the kinds that have a producer; the last two kinds
/// keep what they hold.
pub proof fn lemma_production_leaves_last_kinds(ledger: Map<ResourceType, int>, nanos: int)
    ensures
        produced(ledger, nanos)[ResourceType::Ai] == ledger[ResourceType::Ai],
        produced(ledger, nanos)[ResourceType::Agi] == ledger[ResourceType::Agi],
{
}

/// Production step by step along the chain, from the first kind up and each
/// step on the ledger that the step before left, gives what production from
/// the holdings before the tick gives: no step reads what an earlier step
/// wrote.
pub proof fn lemma_steps_are_production(ledger: Map<ResourceType, int>, nanos: int)
    requires
        is_ledger(ledger),
    ensures
        fed(
            fed(
                fed(
                    fed(
                        fed(
                            fed(ledger, ResourceType::ThingMaker, ResourceType::Thing, nanos),
                            ResourceType::Assembler,
                            ResourceType::ThingMaker,
                            nanos,
                        ),
                        ResourceType::AssemblyLine,
                        ResourceType::Assembler,
                        nanos,
                    ),
                    ResourceType::Learning,
                    ResourceType::AssemblyLine,
                    nanos,
                ),
                ResourceType::AutomatedLearning,
                ResourceType::Learning,
                nanos,
            ),
            ResourceType::Ai,
            ResourceType::AutomatedLearning,
            nanos,
        ) == produced(ledger, nanos),
{
    let one = fed(ledger, ResourceType::ThingMaker, ResourceType::Thing, nanos);
    let two = fed(one, ResourceType::Assembler, ResourceType::ThingMaker, nanos);
    let three = fed(two, ResourceType::AssemblyLine, ResourceType::Assembler, nanos);
    let four = fed(three, ResourceType::Learning, ResourceType::AssemblyLine, nanos);
    let five = fed(four, ResourceType::AutomatedLearning, ResourceType::Learning, nanos);
    let six = fed(five, ResourceType::Ai, ResourceType::AutomatedLearning, nanos);
    assert forall|kind: ResourceType| six[kind] == grown(ledger, kind, nanos) by {
        match kind {
            ResourceType::Thing => {},
            ResourceType::ThingMaker => {},
            ResourceType::Assembler => {},
            ResourceType::AssemblyLine => {},
            ResourceType::Learning => {},
            ResourceType::AutomatedLearning => {},
            ResourceType::Ai => {},
            ResourceType::Agi => {},
        }
    }
    assert(six =~= produced(ledger, nanos));
}

/// No time, no production: a tick of zero nanoseconds changes nothing while
/// none of the last kind is held.
pub proof fn lemma_tick_of_nothing(ledger: Map<ResourceType, int>)
    requires
        is_ledger(ledger),
        ledger[ResourceType::Agi] <= 0,
    ensures
        ticked(ledger, 0) == ledger,
{
    assert forall|kind: ResourceType| grown(ledger, kind, 0) == ledger[kind] by {
        match producer_of(kind) {
            Some(source) => {
                lemma_yield_of_seconds(ledger[source], 0);
                assert(ledger[source] * 0 == 0) by (nonlinear_arith);
            },
            None => {},
        }
    }
    assert(ticked(ledger, 0) =~= ledger);
}

/// Once any of the last kind is held, a tick of any length leaves nothing of
/// any kind, the last kind included.
pub proof fn lemma_tick_resets(ledger: Map<ResourceType, int>, nanos: int)
    requires
        ledger[ResourceType::Agi] > 0,
    ensures
        ticked(ledger, nanos) == empty_ledger(),
        forall|kind: ResourceType| #[trigger] ticked(ledger, nanos)[kind] == 0,
{
}

/// Making one of the first kind adds one whole resource of it and changes no
/// other kind: the first kind has no cost.
pub proof fn lemma_activate_thing(ledger: Map<ResourceType, int>)
    ensures
        activated(ledger, ResourceType::Thing) == ledger.insert(
            ResourceType::Thing,
            saturate(ledger[ResourceType::Thing] + UNIT),
        ),
        ledger[ResourceType::Thing] == 0 ==> activated(
            ledger,
            ResourceType::Thing,
        )[ResourceType::Thing] == UNIT,
        forall|kind: ResourceType|
            kind != ResourceType::Thing ==> #[trigger] activated(
                ledger,
                ResourceType::Thing,
            )[kind] == ledger[kind],
{
}

/// Making one of a kind that is affordable takes exactly its price from the
/// kind it is paid in, which stays at or above zero, adds one whole resource
/// of the kind made, and changes no other kind.
pub proof fn lemma_activate_affordable(
    ledger: Map<ResourceType, int>,
    kind: ResourceType,
    paid_in: ResourceType,
    price: i128,
)
    requires
        is_ledger(ledger),
        cost_of(kind) == Some((paid_in, price)),
        affordable(ledger, kind),
    ensures
        paid_in != kind,
        activated(ledger, kind)[paid_in] == ledger[paid_in] - price,
        activated(ledger, kind)[paid_in] >= 0,
        activated(ledger, kind)[kind] == saturate(ledger[kind] + UNIT),
        forall|other: ResourceType|
            other != kind && other != paid_in ==> #[trigger] activated(ledger, kind)[other]
                == ledger[other],
{
    lemma_chain_order(kind);
}

/// A tick and a purchase turn a ledger into a ledger: every kind keeps an
/// entry, and every entry stays a value that an amount can hold.
pub proof fn lemma_ledger_kept(ledger: Map<ResourceType, int>, kind: ResourceType, nanos: int)
    requires
        is_ledger(ledger),
    ensures
        is_ledger(ticked(ledger, nanos)),
        is_ledger(activated(ledger, kind)),
{
    assert forall|k: ResourceType|
        i128::MIN <= #[trigger] ticked(ledger, nanos)[k] <= i128::MAX by {
        assert(i128::MIN <= ledger[k] <= i128::MAX);
    }
    assert forall|k: ResourceType|
        i128::MIN <= #[trigger] activated(ledger, kind)[k] <= i128::MAX by {
        assert(i128::MIN <= ledger[k] <= i128::MAX);
    }
}

} // verus!
