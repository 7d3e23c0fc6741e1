//! The ways in which a run can be refused or can fail.

use vstd::prelude::*;
use vstd::string::StringExecFns;

verus! {

/// A setting with which no run can start.
#[derive(Debug, Clone, Copy, PartialEq, Eq, Structural)]
pub enum ConfigurationError {
    /// No target image was given.
    MissingImage,
    /// The population would hold fewer than three specimens.
    GenerationSizeTooSmall,
    /// No worker thread was asked for.
    ZeroThreads,
    /// The best specimen was to be shown every zero generations.
    ZeroDisplayInterval,
    /// The best specimen was to be saved every zero generations.
    ZeroSaveInterval,
    /// The output path does not exist or cannot be read.
    UnreadablePath,
    /// The output path exists but is no directory.
    NotADirectory,
}

impl ConfigurationError {
    /// What went wrong, in words.
    pub fn message(&self) -> (text: String)
        ensures
            text@ == match self {
                ConfigurationError::MissingImage => "Image must be set."@,
                ConfigurationError::GenerationSizeTooSmall => "Generation size cannot be smaller than 3."@,
                ConfigurationError::ZeroThreads => "Number of workers cannot be 0."@,
                ConfigurationError::ZeroDisplayInterval => "DisplayCondition::Every must be greater than zero."@,
                ConfigurationError::ZeroSaveInterval => "SaveCondition::Each must be greater than zero."@,
                ConfigurationError::UnreadablePath => "The path cannot be read"@,
                ConfigurationError::NotADirectory => "The path does not point to a directory"@,
            },
    {
        match self {
            ConfigurationError::MissingImage => String::from_str("Image must be set."),
            ConfigurationError::GenerationSizeTooSmall => String::from_str(
                "Generation size cannot be smaller than 3.",
            ),
            ConfigurationError::ZeroThreads => String::from_str("Number of workers cannot be 0."),
            ConfigurationError::ZeroDisplayInterval => String::from_str(
                "DisplayCondition::Every must be greater than zero.",
            ),
            ConfigurationError::ZeroSaveInterval => String::from_str(
                "SaveCondition::Each must be greater than zero.",
            ),
            ConfigurationError::UnreadablePath => String::from_str("The path cannot be read"),
            ConfigurationError::NotADirectory => String::from_str(
                "The path does not point to a directory",
            ),
        }
    }
}

/// An evaluation stage that did not hand back what it was given: a worker
/// lost a specimen, made one up, or returned one of another size.
#[derive(Debug, Clone, Copy, PartialEq, Eq, Structural)]
pub struct WorkerFailure {
    /// The number of specimens that were handed out.
    pub expected: usize,
    /// The number of specimens that came back.
    pub received: usize,
}

} // verus!
