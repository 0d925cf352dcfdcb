//! The eight resource kinds and their fixed order.

use vstd::prelude::*;

verus! {

/// One tier of the production chain, listed from the first to the last.
#[derive(PartialEq, Eq, Structural, Hash, Clone, Copy, Debug)]
pub enum ResourceType {
    Thing,
    ThingMaker,
    Assembler,
    AssemblyLine,
    Learning,
    AutomatedLearning,
    Ai,
    Agi,
}

/// How many kinds there are.
pub const KIND_COUNT: usize = 8;

impl ResourceType {
    /// The position of a kind in the chain, counted from zero.
    pub open spec fn ordinal(self) -> int {
        match self {
            ResourceType::Thing => 0,
            ResourceType::ThingMaker => 1,
            ResourceType::Assembler => 2,
            ResourceType::AssemblyLine => 3,
            ResourceType::Learning => 4,
            ResourceType::AutomatedLearning => 5,
            ResourceType::Ai => 6,
            ResourceType::Agi => 7,
        }
    }

    /// The kind at a position; positions past the end give the last kind.
    pub open spec fn at(i: int) -> ResourceType {
        if i <= 0 {
            ResourceType::Thing
        } else if i == 1 {
            ResourceType::ThingMaker
        } else if i == 2 {
            ResourceType::Assembler
        } else if i == 3 {
            ResourceType::AssemblyLine
        } else if i == 4 {
            ResourceType::Learning
        } else if i == 5 {
            ResourceType::AutomatedLearning
        } else if i == 6 {
            ResourceType::Ai
        } else {
            ResourceType::Agi
        }
    }

    /// The position of this kind, as an index into a table of all kinds.
    pub fn index(self) -> (i: usize)
        ensures
            i == self.ordinal(),
            i < KIND_COUNT,
    {
        match self {
            ResourceType::Thing => 0,
            ResourceType::ThingMaker => 1,
            ResourceType::Assembler => 2,
            ResourceType::AssemblyLine => 3,
            ResourceType::Learning => 4,
            ResourceType::AutomatedLearning => 5,
            ResourceType::Ai => 6,
            ResourceType::Agi => 7,
        }
    }

    /// Every kind once, in chain order.
    pub fn all() -> (kinds: [ResourceType; 8])
        ensures
            forall|i: int| 0 <= i < 8 ==> kinds@[i] == ResourceType::at(i),
    {
        [
            ResourceType::Thing,
            ResourceType::ThingMaker,
            ResourceType::Assembler,
            ResourceType::AssemblyLine,
            ResourceType::Learning,
            ResourceType::AutomatedLearning,
            ResourceType::Ai,
            ResourceType::Agi,
        ]
    }
}

} // verus!
