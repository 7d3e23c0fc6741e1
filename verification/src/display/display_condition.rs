use vstd::prelude::*;

verus! {

/// Which generations have their best specimen shown on screen.
#[derive(Debug, Clone, Copy, PartialEq, Eq, Structural)]
pub enum DisplayCondition {
    /// Every generation.
    All,
    /// Every generation whose number is a multiple of the given one.
    Every(u32),
    /// No generation; no window is opened.
    Never,
}

impl DisplayCondition {
    /// Whether the condition can be asked: `Every` counts in steps of at
    /// least one.
    pub open spec fn well_formed(&self) -> bool {
        match self {
            DisplayCondition::Every(per) => *per > 0,
            _ => true,
        }
    }

    /// Whether the generation of the given number is shown.
    pub open spec fn shows(&self, generation_number: u32) -> bool {
        match self {
            DisplayCondition::All => true,
            DisplayCondition::Every(per) => generation_number % *per == 0,
            DisplayCondition::Never => false,
        }
    }

    /// Whether the run shows anything at all, and so needs a window.
    pub open spec fn shows_any(&self) -> bool {
        !(self is Never)
    }

    /// Whether the generation of the given number is shown.
    pub fn should_display(&self, generation_number: u32) -> (shown: bool)
        requires
            self.well_formed(),
        ensures
            shown == self.shows(generation_number),
    {
        match self {
            DisplayCondition::All => true,
            DisplayCondition::Every(per) => generation_number % *per == 0,
            DisplayCondition::Never => false,
        }
    }

    /// Whether the run shows anything at all, and so needs a window.
    pub fn needs_window(&self) -> (needed: bool)
        ensures
            needed == self.shows_any(),
    {
        match self {
            DisplayCondition::All | DisplayCondition::Every(_) => true,
            DisplayCondition::Never => false,
        }
    }
}

} // verus!
