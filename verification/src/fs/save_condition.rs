use vstd::prelude::*;

verus! {

/// Which generations have their best specimen saved.
#[derive(Debug, Clone, Copy, PartialEq, Eq, Structural)]
pub enum SaveCondition {
    /// Every generation.
    All,
    /// Every generation whose number is a multiple of the given one.
    Each(u32),
    /// No generation.
    Never,
}

impl SaveCondition {
    /// Whether the condition can be asked: `Each` counts in steps of at least
    /// one.
    pub open spec fn well_formed(&self) -> bool {
        match self {
            SaveCondition::Each(per) => *per > 0,
            _ => true,
        }
    }

    /// Whether the generation of the given number is saved.
    pub open spec fn saves(&self, generation_number: u32) -> bool {
        match self {
            SaveCondition::All => true,
            SaveCondition::Each(per) => generation_number % *per == 0,
            SaveCondition::Never => false,
        }
    }

    /// Whether the generation of the given number is saved.
    pub fn should_save(&self, generation_number: u32) -> (saved: bool)
        requires
            self.well_formed(),
        ensures
            saved == self.saves(generation_number),
    {
        match self {
            SaveCondition::All => true,
            SaveCondition::Each(per) => generation_number % *per == 0,
            SaveCondition::Never => false,
        }
    }
}

} // verus!
