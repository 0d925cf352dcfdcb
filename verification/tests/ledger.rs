use progression::amount::UNIT;
use progression::kind::{ResourceType, KIND_COUNT};
use progression::ledger::Resources;

#[test]
fn kinds_come_in_chain_order() {
    let kinds = ResourceType::all();
    assert_eq!(kinds.len(), KIND_COUNT);
    assert_eq!(
        kinds,
        [
            ResourceType::Thing,
            ResourceType::ThingMaker,
            ResourceType::Assembler,
            ResourceType::AssemblyLine,
            ResourceType::Learning,
            ResourceType::AutomatedLearning,
            ResourceType::Ai,
            ResourceType::Agi,
        ]
    );
}

#[test]
fn index_is_position_in_chain() {
    let kinds = ResourceType::all();
    for (i, kind) in kinds.iter().enumerate() {
        assert_eq!(kind.index(), i);
    }
    assert_eq!(ResourceType::Thing.index(), 0);
    assert_eq!(ResourceType::Agi.index(), 7);
}

#[test]
fn fresh_ledger_holds_nothing() {
    let ledger = Resources::new();
    for kind in ResourceType::all() {
        assert_eq!(ledger.get(kind), 0);
    }
}

#[test]
fn increase_adds_to_one_kind_only() {
    let mut ledger = Resources::new();
    ledger.increase(ResourceType::Learning, 3 * UNIT);
    ledger.increase(ResourceType::Learning, UNIT / 2);
    for kind in ResourceType::all() {
        if kind == ResourceType::Learning {
            assert_eq!(ledger.get(kind), 3_500_000_000);
        } else {
            assert_eq!(ledger.get(kind), 0);
        }
    }
}

#[test]
fn increase_by_a_negative_amount_takes_away() {
    let mut ledger = Resources::new();
    ledger.increase(ResourceType::Thing, 5 * UNIT);
    ledger.increase(ResourceType::Thing, -7 * UNIT);
    assert_eq!(ledger.get(ResourceType::Thing), -2 * UNIT);
}

#[test]
fn increase_stops_at_the_ends() {
    let mut ledger = Resources::new();
    ledger.increase(ResourceType::Ai, i128::MAX);
    ledger.increase(ResourceType::Ai, 1);
    assert_eq!(ledger.get(ResourceType::Ai), i128::MAX);
    ledger.increase(ResourceType::Thing, i128::MIN);
    ledger.increase(ResourceType::Thing, -1);
    assert_eq!(ledger.get(ResourceType::Thing), i128::MIN);
}

#[test]
fn reset_empties_every_kind() {
    let mut ledger = Resources::new();
    let mut n: i128 = 1;
    for kind in ResourceType::all() {
        ledger.increase(kind, n * UNIT);
        n = -2 * n;
    }
    ledger.reset();
    for kind in ResourceType::all() {
        assert_eq!(ledger.get(kind), 0);
    }
}

#[test]
fn each_kind_has_its_own_entry() {
    let mut ledger = Resources::new();
    for kind in ResourceType::all() {
        ledger.increase(kind, (kind.index() as i128 + 1) * UNIT);
    }
    for kind in ResourceType::all() {
        assert_eq!(ledger.get(kind), (kind.index() as i128 + 1) * UNIT);
    }
}
