//! The rules of the chain, which never change: what each kind is called,
//! what it costs, and which kind produces it.

use crate::amount::UNIT;
use crate::kind::ResourceType;
use vstd::prelude::*;

verus! {

/// What is fixed about one kind.
pub struct ResourceDescription<'a> {
    /// The kind described.
    pub resource: ResourceType,
    /// The name shown above the amount.
    pub label: &'a str,
    /// The caption of the button that makes one of this kind.
    pub button: &'a str,
    /// What making one of this kind takes away: a kind and an amount of it.
    /// `None` where making one is free.
    pub cost: Option<(ResourceType, i128)>,
}

/// The cost of making one of `kind`: the first kind is free, and every later
/// kind is paid for in the kind just before it.
pub open spec fn cost_of(kind: ResourceType) -> Option<(ResourceType, i128)> {
    match kind {
        ResourceType::Thing => None,
        ResourceType::ThingMaker => Some((ResourceType::Thing, (10 * UNIT) as i128)),
        ResourceType::Assembler => Some((ResourceType::ThingMaker, (100 * UNIT) as i128)),
        ResourceType::AssemblyLine => Some((ResourceType::Assembler, (1_000 * UNIT) as i128)),
        ResourceType::Learning => Some((ResourceType::AssemblyLine, (100 * UNIT) as i128)),
        ResourceType::AutomatedLearning => Some((ResourceType::Learning, (100 * UNIT) as i128)),
        ResourceType::Ai => Some((ResourceType::AutomatedLearning, (1_000_000 * UNIT) as i128)),
        ResourceType::Agi => Some((ResourceType::Ai, (100 * UNIT) as i128)),
    }
}

/// The name of `kind`.
pub open spec fn label_of(kind: ResourceType) -> Seq<char> {
    match kind {
        ResourceType::Thing => "Things"@,
        ResourceType::ThingMaker => "Things Makers"@,
        ResourceType::Assembler => "Assemblers"@,
        ResourceType::AssemblyLine => "Assembly Lines"@,
        ResourceType::Learning => "Learning"@,
        ResourceType::AutomatedLearning => "Automated Learning"@,
        ResourceType::Ai => "AI"@,
        ResourceType::Agi => "AGI"@,
    }
}

/// The caption of the button of `kind`.
pub open spec fn button_of(kind: ResourceType) -> Seq<char> {
    match kind {
        ResourceType::Thing => "Make Thing!"@,
        ResourceType::ThingMaker => "Make Thing Maker!"@,
        ResourceType::Assembler => "Assemble Assembler"@,
        ResourceType::AssemblyLine => "Line up Assemblers"@,
        ResourceType::Learning => "Think"@,
        ResourceType::AutomatedLearning => "Automate"@,
        ResourceType::Ai => "Automate more"@,
        ResourceType::Agi => "Give up contorl"@,
    }
}

/// The kind whose holdings produce `kind` as time passes: the kind just after
/// it in the chain. Nothing produces the last two kinds.
pub open spec fn producer_of(kind: ResourceType) -> Option<ResourceType> {
    match kind {
        ResourceType::Thing => Some(ResourceType::ThingMaker),
        ResourceType::ThingMaker => Some(ResourceType::Assembler),
        ResourceType::Assembler => Some(ResourceType::AssemblyLine),
        ResourceType::AssemblyLine => Some(ResourceType::Learning),
        ResourceType::Learning => Some(ResourceType::AutomatedLearning),
        ResourceType::AutomatedLearning => Some(ResourceType::Ai),
        ResourceType::Ai => None,
        ResourceType::Agi => None,
    }
}

/// The rules of `resource_type`.
pub fn description(resource_type: ResourceType) -> (rules: ResourceDescription<'static>)
    ensures
        rules.resource == resource_type,
        rules.label@ == label_of(resource_type),
        rules.button@ == button_of(resource_type),
        rules.cost == cost_of(resource_type),
{
    match resource_type {
        ResourceType::Thing => ResourceDescription {
            resource: ResourceType::Thing,
            label: "Things",
            button: "Make Thing!",
            cost: None,
        },
        ResourceType::ThingMaker => ResourceDescription {
            resource: ResourceType::ThingMaker,
            label: "Things Makers",
            button: "Make Thing Maker!",
            cost: Some((ResourceType::Thing, 10 * UNIT)),
        },
        ResourceType::Assembler => ResourceDescription {
            resource: ResourceType::Assembler,
            label: "Assemblers",
            button: "Assemble Assembler",
            cost: Some((ResourceType::ThingMaker, 100 * UNIT)),
        },
        ResourceType::AssemblyLine => ResourceDescription {
            resource: ResourceType::AssemblyLine,
            label: "Assembly Lines",
            button: "Line up Assemblers",
            cost: Some((ResourceType::Assembler, 1_000 * UNIT)),
        },
        ResourceType::Learning => ResourceDescription {
            resource: ResourceType::Learning,
            label: "Learning",
            button: "Think",
            cost: Some((ResourceType::AssemblyLine, 100 * UNIT)),
        },
        ResourceType::AutomatedLearning => ResourceDescription {
            resource: ResourceType::AutomatedLearning,
            label: "Automated Learning",
            button: "Automate",
            cost: Some((ResourceType::Learning, 100 * UNIT)),
        },
        ResourceType::Ai => ResourceDescription {
            resource: ResourceType::Ai,
            label: "AI",
            button: "Automate more",
            cost: Some((ResourceType::AutomatedLearning, 1_000_000 * UNIT)),
        },
        ResourceType::Agi => ResourceDescription {
            resource: ResourceType::Agi,
            label: "AGI",
            button: "Give up contorl",
            cost: Some((ResourceType::Ai, 100 * UNIT)),
        },
    }
}

/// The kind that produces `produced`, if any does.
pub fn producer(produced: ResourceType) -> (source: Option<ResourceType>)
    ensures
        source == producer_of(produced),
{
    match produced {
        ResourceType::Thing => Some(ResourceType::ThingMaker),
        ResourceType::ThingMaker => Some(ResourceType::Assembler),
        ResourceType::Assembler => Some(ResourceType::AssemblyLine),
        ResourceType::AssemblyLine => Some(ResourceType::Learning),
        ResourceType::Learning => Some(ResourceType::AutomatedLearning),
        ResourceType::AutomatedLearning => Some(ResourceType::Ai),
        ResourceType::Ai => None,
        ResourceType::Agi => None,
    }
}

} // verus!
