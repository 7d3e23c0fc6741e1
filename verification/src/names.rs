//! The names by which a colour mode and the strategies of the library are
//! chosen.

use vstd::prelude::*;
use vstd::string::StrSliceExecFns;

use crate::color_mode::ColorMode;

verus! {

/// The mutators that can be chosen by name.
#[derive(Debug, Clone, Copy, PartialEq, Eq, Structural)]
pub enum MutatorKind {
    Rectangle,
    Triangle,
}

/// The fitness functions that can be chosen by name.
#[derive(Debug, Clone, Copy, PartialEq, Eq, Structural)]
pub enum FitnessKind {
    SquareDistance,
    AbsoluteDistance,
}

/// The crossover functions that can be chosen by name.
#[derive(Debug, Clone, Copy, PartialEq, Eq, Structural)]
pub enum CrossoverKind {
    LeftOrRight,
    EqualHalfs,
    ArithmeticAverage,
}

/// A name that stands for nothing that can be chosen.
#[derive(Debug, Clone, Copy, PartialEq, Eq, Structural)]
pub enum UnknownName {
    Mode,
    Mutator,
    Fitness,
    Crossover,
}

/// Whether two texts hold the same characters.
pub fn same_text(first: &str, second: &str) -> (same: bool)
    ensures
        same == (first@ == second@),
{
    let length: usize = first.unicode_len();
    if length != second.unicode_len() {
        return false;
    }
    let mut index: usize = 0;
    while index < length
        invariant
            index <= length,
            length == first@.len(),
            length == second@.len(),
            forall|i: int| 0 <= i < index ==> first@[i] == second@[i],
        decreases length - index,
    {
        if first.get_char(index) != second.get_char(index) {
            return false;
        }
        index += 1;
    }
    assert(first@ =~= second@);
    true
}

/// The colour mode of the given name.
pub fn get_color_mode_from_name(name: &str) -> (mode: Result<ColorMode, UnknownName>)
    ensures
        mode == if name@ == "Rgb"@ {
            Ok::<ColorMode, UnknownName>(ColorMode::Rgb)
        } else if name@ == "Grayscale"@ {
            Ok(ColorMode::Grayscale)
        } else {
            Err(UnknownName::Mode)
        },
{
    if same_text(name, "Rgb") {
        Ok(ColorMode::Rgb)
    } else if same_text(name, "Grayscale") {
        Ok(ColorMode::Grayscale)
    } else {
        Err(UnknownName::Mode)
    }
}

/// The mutator of the given name.
pub fn get_mutator_from_name(name: &str) -> (mutator: Result<MutatorKind, UnknownName>)
    ensures
        mutator == if name@ == "Rectangle"@ {
            Ok::<MutatorKind, UnknownName>(MutatorKind::Rectangle)
        } else if name@ == "Triangle"@ {
            Ok(MutatorKind::Triangle)
        } else {
            Err(UnknownName::Mutator)
        },
{
    if same_text(name, "Rectangle") {
        Ok(MutatorKind::Rectangle)
    } else if same_text(name, "Triangle") {
        Ok(MutatorKind::Triangle)
    } else {
        Err(UnknownName::Mutator)
    }
}

/// The fitness function of the given name.
pub fn get_fitness_from_name(name: &str) -> (fitness: Result<FitnessKind, UnknownName>)
    ensures
        fitness == if name@ == "SquareDistance"@ {
            Ok::<FitnessKind, UnknownName>(FitnessKind::SquareDistance)
        } else if name@ == "AbsoluteDistance"@ {
            Ok(FitnessKind::AbsoluteDistance)
        } else {
            Err(UnknownName::Fitness)
        },
{
    if same_text(name, "SquareDistance") {
        Ok(FitnessKind::SquareDistance)
    } else if same_text(name, "AbsoluteDistance") {
        Ok(FitnessKind::AbsoluteDistance)
    } else {
        Err(UnknownName::Fitness)
    }
}

/// The crossover function of the given name.
pub fn get_crossover_from_name(name: &str) -> (crossover: Result<CrossoverKind, UnknownName>)
    ensures
        crossover == if name@ == "LeftOrRight"@ {
            Ok::<CrossoverKind, UnknownName>(CrossoverKind::LeftOrRight)
        } else if name@ == "EqualHalfs"@ {
            Ok(CrossoverKind::EqualHalfs)
        } else if name@ == "ArithmeticAverage"@ {
            Ok(CrossoverKind::ArithmeticAverage)
        } else {
            Err(UnknownName::Crossover)
        },
{
    if same_text(name, "LeftOrRight") {
        Ok(CrossoverKind::LeftOrRight)
    } else if same_text(name, "EqualHalfs") {
        Ok(CrossoverKind::EqualHalfs)
    } else if same_text(name, "ArithmeticAverage") {
        Ok(CrossoverKind::ArithmeticAverage)
    } else {
        Err(UnknownName::Crossover)
    }
}

impl UnknownName {
    /// What went wrong, in words.
    pub fn message(&self) -> (text: &'static str)
        ensures
            text@ == match self {
                UnknownName::Mode => "Unknown mode."@,
                UnknownName::Mutator => "Unknown mutator."@,
                UnknownName::Fitness => "Unknown fitness function."@,
                UnknownName::Crossover => "Unknown crossover function."@,
            },
    {
        match self {
            UnknownName::Mode => "Unknown mode.",
            UnknownName::Mutator => "Unknown mutator.",
            UnknownName::Fitness => "Unknown fitness function.",
            UnknownName::Crossover => "Unknown crossover function.",
        }
    }
}

} // verus!
