use progression::amount::UNIT;
use progression::kind::ResourceType;
use progression::rules::{description, producer};

#[test]
fn description_names_its_own_kind() {
    for kind in ResourceType::all() {
        assert_eq!(description(kind).resource, kind);
    }
}

#[test]
fn description_labels() {
    assert_eq!(description(ResourceType::Thing).label, "Things");
    assert_eq!(description(ResourceType::ThingMaker).label, "Things Makers");
    assert_eq!(description(ResourceType::Assembler).label, "Assemblers");
    assert_eq!(description(ResourceType::AssemblyLine).label, "Assembly Lines");
    assert_eq!(description(ResourceType::Learning).label, "Learning");
    assert_eq!(description(ResourceType::AutomatedLearning).label, "Automated Learning");
    assert_eq!(description(ResourceType::Ai).label, "AI");
    assert_eq!(description(ResourceType::Agi).label, "AGI");
}

#[test]
fn description_button_captions() {
    assert_eq!(description(ResourceType::Thing).button, "Make Thing!");
    assert_eq!(description(ResourceType::ThingMaker).button, "Make Thing Maker!");
    assert_eq!(description(ResourceType::Assembler).button, "Assemble Assembler");
    assert_eq!(description(ResourceType::AssemblyLine).button, "Line up Assemblers");
    assert_eq!(description(ResourceType::Learning).button, "Think");
    assert_eq!(description(ResourceType::AutomatedLearning).button, "Automate");
    assert_eq!(description(ResourceType::Ai).button, "Automate more");
    assert_eq!(description(ResourceType::Agi).button, "Give up contorl");
}

#[test]
fn first_kind_is_free() {
    assert_eq!(description(ResourceType::Thing).cost, None);
}

#[test]
fn description_costs() {
    assert_eq!(
        description(ResourceType::ThingMaker).cost,
        Some((ResourceType::Thing, 10 * UNIT))
    );
    assert_eq!(
        description(ResourceType::Assembler).cost,
        Some((ResourceType::ThingMaker, 100 * UNIT))
    );
    assert_eq!(
        description(ResourceType::AssemblyLine).cost,
        Some((ResourceType::Assembler, 1_000 * UNIT))
    );
    assert_eq!(
        description(ResourceType::Learning).cost,
        Some((ResourceType::AssemblyLine, 100 * UNIT))
    );
    assert_eq!(
        description(ResourceType::AutomatedLearning).cost,
        Some((ResourceType::Learning, 100 * UNIT))
    );
    assert_eq!(
        description(ResourceType::Ai).cost,
        Some((ResourceType::AutomatedLearning, 1_000_000 * UNIT))
    );
    assert_eq!(description(ResourceType::Agi).cost, Some((ResourceType::Ai, 100 * UNIT)));
}

#[test]
fn every_cost_is_paid_in_the_previous_kind() {
    let kinds = ResourceType::all();
    for i in 1..kinds.len() {
        let (paid_in, price) = description(kinds[i]).cost.unwrap();
        assert_eq!(paid_in, kinds[i - 1]);
        assert!(price > 0);
    }
}

#[test]
fn every_kind_but_the_last_two_has_the_next_as_producer() {
    let kinds = ResourceType::all();
    for i in 0..6 {
        assert_eq!(producer(kinds[i]), Some(kinds[i + 1]));
    }
    assert_eq!(producer(ResourceType::Ai), None);
    assert_eq!(producer(ResourceType::Agi), None);
}
