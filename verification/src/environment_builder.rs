//! The settings of a run, collected one by one and checked as a whole.

use vstd::prelude::*;

use crate::color_mode::ColorMode;
use crate::crossover::{CrossoverFunction, EqualHalfsCrossover};
use crate::display::DisplayCondition;
use crate::environment::Environment;
use crate::error::ConfigurationError;
use crate::fitness::{FitnessFunction, SquareDistance};
use crate::fs::{ImageWriter, SaveCondition};
use crate::job_context::{scores_fit, JobContext};
use crate::models::Image;
use crate::mutators::{Mutator, RectangleMutator};
use crate::population::is_blank;

verus! {

/// What the output path was found to be.
#[derive(Debug, Clone, Copy, PartialEq, Eq, Structural)]
pub enum PathKind {
    /// It exists and is a directory.
    Directory,
    /// It exists and is something else.
    NotADirectory,
    /// It does not exist, or cannot be read.
    Unreadable,
}

/// Collects the settings of a run and builds the run from them.
pub struct EnvironmentBuilder<M: Mutator, F: FitnessFunction, C: CrossoverFunction> {
    image: Option<Image>,
    color_mode: ColorMode,
    mutator: M,
    fitness: F,
    crossover: C,
    generation_size: usize,
    threads: usize,
    display_condition: DisplayCondition,
    output_directory: String,
    filename_prefix: String,
    save_condition: SaveCondition,
}

/// What `set_output_directory` answers for a save condition and a path.
pub open spec fn output_directory_answer(save_condition: SaveCondition, path: PathKind) -> Result<
    (),
    ConfigurationError,
> {
    match save_condition {
        SaveCondition::Never => Ok(()),
        SaveCondition::Each(per) if per == 0 => Err(ConfigurationError::ZeroSaveInterval),
        _ => match path {
            PathKind::Directory => Ok(()),
            PathKind::NotADirectory => Err(ConfigurationError::NotADirectory),
            PathKind::Unreadable => Err(ConfigurationError::UnreadablePath),
        },
    }
}

/// The settings that a builder holds, as plain values.
pub struct Settings<M, F, C> {
    pub image: Option<Image>,
    pub color_mode: ColorMode,
    pub mutator: M,
    pub fitness: F,
    pub crossover: C,
    pub generation_size: usize,
    pub threads: usize,
    pub display_condition: DisplayCondition,
    pub output_directory: Seq<char>,
    pub filename_prefix: Seq<char>,
    pub save_condition: SaveCondition,
}

impl<M: Mutator, F: FitnessFunction, C: CrossoverFunction> View for EnvironmentBuilder<M, F, C> {
    type V = Settings<M, F, C>;

    closed spec fn view(&self) -> Settings<M, F, C> {
        Settings {
            image: self.image,
            color_mode: self.color_mode,
            mutator: self.mutator,
            fitness: self.fitness,
            crossover: self.crossover,
            generation_size: self.generation_size,
            threads: self.threads,
            display_condition: self.display_condition,
            output_directory: self.output_directory@,
            filename_prefix: self.filename_prefix@,
            save_condition: self.save_condition,
        }
    }
}

/// The settings that hold where nothing is set: no image, RGB mode, a hundred
/// specimens, one worker thread, nothing shown and nothing saved.
pub open spec fn initial_settings<M, F, C>(mutator: M, fitness: F, crossover: C) -> Settings<
    M,
    F,
    C,
> {
    Settings {
        image: None,
        color_mode: ColorMode::Rgb,
        mutator,
        fitness,
        crossover,
        generation_size: 100,
        threads: 1,
        display_condition: DisplayCondition::Never,
        output_directory: Seq::empty(),
        filename_prefix: Seq::empty(),
        save_condition: SaveCondition::Never,
    }
}

impl<M: Mutator, F: FitnessFunction, C: CrossoverFunction> Settings<M, F, C> {
    /// The first thing that is wrong with the settings, if anything is.
    pub open spec fn first_fault(&self) -> Option<ConfigurationError> {
        if self.image is None {
            Some(ConfigurationError::MissingImage)
        } else if self.generation_size < 3 {
            Some(ConfigurationError::GenerationSizeTooSmall)
        } else if self.threads == 0 {
            Some(ConfigurationError::ZeroThreads)
        } else if !self.display_condition.well_formed() {
            Some(ConfigurationError::ZeroDisplayInterval)
        } else if !self.save_condition.well_formed() {
            Some(ConfigurationError::ZeroSaveInterval)
        } else {
            None
        }
    }

    /// Whether the strategies can work on the image that was set: it is
    /// well formed, the mutator supports its size, and every score fits a
    /// machine word.
    pub open spec fn strategies_fit_image(&self) -> bool {
        match self.image {
            Some(image) => {
                &&& image.well_formed()
                &&& self.mutator.supports(image.spec_height() as nat, image.spec_width() as nat)
                &&& scores_fit(&self.fitness, self.color_mode, image@)
            },
            None => true,
        }
    }
}

impl<M: Mutator, F: FitnessFunction, C: CrossoverFunction> EnvironmentBuilder<M, F, C> {
    /// A builder with the given strategies and, for the rest, the settings
    /// that hold where nothing is set: no image, RGB mode, a hundred
    /// specimens, one worker thread, nothing shown and nothing saved.
    pub fn new(mutator: M, fitness: F, crossover: C) -> (builder: Self)
        ensures
            builder@ == initial_settings(mutator, fitness, crossover),
    {
        Self {
            image: None,
            color_mode: ColorMode::Rgb,
            mutator,
            fitness,
            crossover,
            generation_size: 100,
            threads: 1,
            display_condition: DisplayCondition::Never,
            output_directory: String::new(),
            filename_prefix: String::new(),
            save_condition: SaveCondition::Never,
        }
    }

    /// Sets the target image. No run is built without one.
    pub fn set_image(&mut self, image: Image)
        ensures
            final(self)@ == (Settings { image: Some(image), ..old(self)@ }),
    {
        self.image = Some(image);
    }

    /// Sets the colour mode.
    pub fn set_color_mode(&mut self, color_mode: ColorMode)
        ensures
            final(self)@ == (Settings { color_mode, ..old(self)@ }),
    {
        self.color_mode = color_mode;
    }

    /// Sets the mutator.
    pub fn set_mutator(&mut self, mutator: M)
        ensures
            final(self)@ == (Settings { mutator, ..old(self)@ }),
    {
        self.mutator = mutator;
    }

    /// Sets the fitness function.
    pub fn set_fitness_function(&mut self, fitness: F)
        ensures
            final(self)@ == (Settings { fitness, ..old(self)@ }),
    {
        self.fitness = fitness;
    }

    /// Sets the crossover function.
    pub fn set_crossover_function(&mut self, crossover: C)
        ensures
            final(self)@ == (Settings { crossover, ..old(self)@ }),
    {
        self.crossover = crossover;
    }

    /// Sets the number of specimens of a generation.
    pub fn set_generation_size(&mut self, generation_size: usize)
        ensures
            final(self)@ == (Settings { generation_size, ..old(self)@ }),
    {
        self.generation_size = generation_size;
    }

    /// Sets the number of worker threads.
    pub fn set_threads(&mut self, threads: usize)
        ensures
            final(self)@ == (Settings { threads, ..old(self)@ }),
    {
        self.threads = threads;
    }

    /// Sets which generations are shown.
    pub fn set_display_condition(&mut self, display_condition: DisplayCondition)
        ensures
            final(self)@ == (Settings { display_condition, ..old(self)@ }),
    {
        self.display_condition = display_condition;
    }

    /// Sets which generations are saved, and to which directory. `path` says
    /// what the directory was found to be; it is not looked at where nothing
    /// is to be saved, nor where the condition itself is refused. Where the
    /// answer is an error, nothing is set.
    pub fn set_output_directory(
        &mut self,
        output_directory: &str,
        save_condition: SaveCondition,
        path: PathKind,
    ) -> (answer: Result<(), ConfigurationError>)
        ensures
            answer == output_directory_answer(save_condition, path),
            final(self)@ == if answer is Err {
                old(self)@
            } else if save_condition == SaveCondition::Never {
                Settings { save_condition, ..old(self)@ }
            } else {
                Settings { save_condition, output_directory: output_directory@, ..old(self)@ }
            },
    {
        match save_condition {
            SaveCondition::Never => {
                self.save_condition = save_condition;
                Ok(())
            },
            SaveCondition::Each(0) => Err(ConfigurationError::ZeroSaveInterval),
            SaveCondition::All | SaveCondition::Each(_) => {
                match path {
                    PathKind::Directory => {
                        self.output_directory = output_directory.to_owned();
                        self.save_condition = save_condition;
                        Ok(())
                    },
                    PathKind::NotADirectory => Err(ConfigurationError::NotADirectory),
                    PathKind::Unreadable => Err(ConfigurationError::UnreadablePath),
                }
            },
        }
    }

    /// Sets the prefix of the names of the saved files.
    pub fn set_filename_prefix(&mut self, filename_prefix: &str)
        ensures
            final(self)@ == (Settings { filename_prefix: filename_prefix@, ..old(self)@ }),
    {
        self.filename_prefix = filename_prefix.to_owned();
    }

    /// The number of worker threads that was set.
    pub fn threads(&self) -> (threads: usize)
        ensures
            threads == self@.threads,
    {
        self.threads
    }

    /// Builds the run, or says what is wrong with the settings.
    pub fn build(self) -> (built: Result<Environment<M, F, C>, ConfigurationError>)
        requires
            self@.strategies_fit_image(),
        ensures
            match built {
                Ok(environment) => {
                    &&& self@.first_fault() is None
                    &&& environment.well_formed()
                    &&& environment.ranked()
                    &&& environment.context().target() == self@.image->0
                    &&& environment.context().mutator() == self@.mutator
                    &&& environment.context().fitness() == self@.fitness
                    &&& environment.context().spec_color_mode() == self@.color_mode
                    &&& environment.breeder() == self@.crossover
                    &&& environment.display() == self@.display_condition
                    &&& environment.save() == self@.save_condition
                    &&& environment.writer().spec_output_directory() == self@.output_directory
                    &&& environment.writer().spec_filename_prefix() == self@.filename_prefix
                    &&& environment.generation_number() == 0
                    &&& environment.population().len() == self@.generation_size
                    &&& forall|i: int|
                        0 <= i < self@.generation_size ==> is_blank(
                            #[trigger] environment.population()[i],
                            environment.context().target().spec_height(),
                            environment.context().target().spec_width(),
                        )
                },
                Err(fault) => self@.first_fault() == Some(fault),
            },
    {
        let Self {
            image,
            color_mode,
            mutator,
            fitness,
            crossover,
            generation_size,
            threads,
            display_condition,
            output_directory,
            filename_prefix,
            save_condition,
        } = self;
        let image: Image = match image {
            None => {
                return Err(ConfigurationError::MissingImage);
            },
            Some(image) => image,
        };
        if generation_size < 3 {
            return Err(ConfigurationError::GenerationSizeTooSmall);
        }
        if threads == 0 {
            return Err(ConfigurationError::ZeroThreads);
        }
        match display_condition {
            DisplayCondition::Every(0) => {
                return Err(ConfigurationError::ZeroDisplayInterval);
            },
            _ => {},
        }
        match save_condition {
            SaveCondition::Each(0) => {
                return Err(ConfigurationError::ZeroSaveInterval);
            },
            _ => {},
        }

        let job_context: JobContext<M, F> = JobContext::new(image, mutator, fitness, color_mode);

        let image_writer: ImageWriter = ImageWriter::new(output_directory, filename_prefix);

        Ok(
            Environment::new(
                job_context,
                generation_size,
                crossover,
                display_condition,
                image_writer,
                save_condition,
            ),
        )
    }
}

impl Default for EnvironmentBuilder<RectangleMutator, SquareDistance, EqualHalfsCrossover> {
    /// A builder with the rectangle mutator, the square distance and the
    /// crossover of equal halves.
    fn default() -> (builder: Self)
        ensures
            builder@ == initial_settings(RectangleMutator, SquareDistance, EqualHalfsCrossover),
    {
        Self::new(RectangleMutator, SquareDistance, EqualHalfsCrossover)
    }
}

} // verus!
