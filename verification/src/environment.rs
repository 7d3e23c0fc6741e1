//! The engine of a run: one population, taken from generation to generation.

use vstd::prelude::*;
use vstd::string::StringExecFns;

use crate::crossover::CrossoverFunction;
use crate::display::DisplayCondition;
use crate::error::WorkerFailure;
use crate::fitness::FitnessFunction;
use crate::fs::{ImageWriter, SaveCondition};
use crate::job_context::JobContext;
use crate::models::Image;
use crate::mutators::Mutator;
use crate::population::{
    all_sized, are_offspring, best_size, breed, breeds_generation, first_is_best, get_best_size,
    get_first_generation, is_blank, is_offspring, lowest_score, lowest_score_of_ranked, select,
    selection_keeps_best, selects, settled_population_keeps_unbeaten_first,
    settled_population_puts_best_first, settles, Candidate,
};
use crate::util::decimal::{decimal, decimal_text};
use crate::util::Random;

verus! {

/// Whether `after` is `before` with every specimen but the first evaluated in
/// its place.
pub open spec fn is_evaluation<M: Mutator, F: FitnessFunction>(
    context: &JobContext<M, F>,
    before: Seq<Candidate>,
    after: Seq<Candidate>,
) -> bool {
    &&& after.len() == before.len()
    &&& before.len() > 0 ==> after[0] == before[0]
    &&& forall|i: int|
        1 <= i < before.len() ==> context.evaluates(&before[i], &#[trigger] after[i])
}

/// Whether a specimen is a well-formed image of the size of `target`.
pub open spec fn is_sized_as(candidate: &Candidate, target: &Image) -> bool {
    &&& candidate.image.well_formed()
    &&& candidate.image.same_size(target)
}

/// The population keeps its size from one generation to the next.
pub proof fn population_keeps_its_size<M: Mutator, F: FitnessFunction, C: CrossoverFunction>(
    before: Environment<M, F, C>,
    after: Environment<M, F, C>,
)
    requires
        before.well_formed(),
        before.advances_to(&after),
    ensures
        after.population().len() == before.population().len(),
{
    let evaluated: Seq<Candidate> = before.evaluated_on_the_way_to(&after);
    settled_population_puts_best_first(
        before.survivors(),
        before.breeder(),
        after.breeder(),
        evaluated,
        after.population(),
    );
}

/// The lowest score in the population never rises from one generation to
/// the next: the best specimen is carried over as it is, and only a better
/// one takes its place.
pub proof fn lowest_score_never_rises<M: Mutator, F: FitnessFunction, C: CrossoverFunction>(
    before: Environment<M, F, C>,
    after: Environment<M, F, C>,
)
    requires
        before.well_formed(),
        before.ranked(),
        before.advances_to(&after),
    ensures
        after.ranked(),
        lowest_score(after.population()) <= lowest_score(before.population()),
        lowest_score(after.population()) == after.population()[0].score,
{
    let evaluated: Seq<Candidate> = before.evaluated_on_the_way_to(&after);
    settled_population_puts_best_first(
        before.survivors(),
        before.breeder(),
        after.breeder(),
        evaluated,
        after.population(),
    );
    assert(after.population()[0].score <= evaluated[0].score);
    lowest_score_of_ranked(before.population());
}

/// A run of three specimens keeps two of them and breeds exactly once in a
/// generation: the third specimen is the one child, unscored, which the
/// crossover function breeds on its way from its old state to its new one
/// from the two that were kept.
pub proof fn three_specimens_breed_once<M: Mutator, F: FitnessFunction, C: CrossoverFunction>(
    before: Environment<M, F, C>,
    after: Environment<M, F, C>,
)
    requires
        before.well_formed(),
        before.population().len() == 3,
        before.advances_to(&after),
    ensures
        before.survivors() == 2,
        after.population().len() == 3,
        is_offspring(
            &before.breeder(),
            &after.breeder(),
            after.population().take(2),
            &after.population()[2],
        ),
{
    let evaluated: Seq<Candidate> = before.evaluated_on_the_way_to(&after);
    let next: Seq<Candidate> = after.population();
    let selected: Seq<Candidate> = choose|selected: Seq<Candidate>|
        {
            &&& #[trigger] selects(evaluated, selected, before.survivors())
            &&& breeds_generation(before.breeder(), after.breeder(), selected, next, evaluated.len())
        };
    selection_keeps_best(evaluated, selected, before.survivors());
    let children: Seq<Candidate> = next.skip(2);
    let states: Seq<C> = choose|states: Seq<C>|
        {
            &&& #[trigger] are_offspring(states, selected, children)
            &&& states[0] == before.breeder()
            &&& states.last() == after.breeder()
        };
    assert(children[0] == next[2]);
    assert(is_offspring(&states[0int], &states[0int + 1], selected, &children[0int]));
}

/// A first specimen with the score zero stays first, image and score, in
/// every generation that follows.
pub proof fn perfect_specimen_stays_first<M: Mutator, F: FitnessFunction, C: CrossoverFunction>(
    before: Environment<M, F, C>,
    after: Environment<M, F, C>,
)
    requires
        before.well_formed(),
        before.population()[0].score == 0,
        before.advances_to(&after),
    ensures
        after.population()[0] == before.population()[0],
{
    let evaluated: Seq<Candidate> = before.evaluated_on_the_way_to(&after);
    settled_population_keeps_unbeaten_first(
        before.survivors(),
        before.breeder(),
        after.breeder(),
        evaluated,
        after.population(),
    );
}

/// The title under which the best specimen of a generation is shown.
pub open spec fn title_of(generation_number: u32) -> Seq<char> {
    "Generation #"@ + decimal(generation_number as nat)
}

/// The line that reports a generation: its number and, in brackets, the score
/// of its best specimen.
pub open spec fn report_of(generation_number: u32, best_score: usize) -> Seq<char> {
    "Current generation: "@ + decimal(generation_number as nat) + " ("@ + decimal(
        best_score as nat,
    ) + ")"@
}

/// A run: the shared context, the population and what else goes from one
/// generation to the next.
pub struct Environment<M: Mutator, F: FitnessFunction, C: CrossoverFunction> {
    job_context: JobContext<M, F>,
    crossover: C,
    display_condition: DisplayCondition,
    save_condition: SaveCondition,
    generation: Vec<Candidate>,
    best_from_generation_size: usize,
    current_generation_number: u32,
    random: Random,
    image_writer: ImageWriter,
}

/// A run in the middle of a generation: the best specimen stays behind while
/// the others are out to be evaluated.
pub struct EvaluationStage<M: Mutator, F: FitnessFunction, C: CrossoverFunction> {
    environment: Environment<M, F, C>,
    expected: usize,
}

impl<M: Mutator, F: FitnessFunction, C: CrossoverFunction> Environment<M, F, C> {
    /// The context that every evaluation shares.
    pub closed spec fn context(&self) -> JobContext<M, F> {
        self.job_context
    }

    /// The crossover function, in its present state.
    pub closed spec fn breeder(&self) -> C {
        self.crossover
    }

    pub closed spec fn display(&self) -> DisplayCondition {
        self.display_condition
    }

    pub closed spec fn save(&self) -> SaveCondition {
        self.save_condition
    }

    pub closed spec fn writer(&self) -> ImageWriter {
        self.image_writer
    }

    /// The population, the best specimen first once a generation has run.
    pub closed spec fn population(&self) -> Seq<Candidate> {
        self.generation@
    }

    /// The number of specimens that survive a generation.
    pub closed spec fn survivors(&self) -> nat {
        self.best_from_generation_size as nat
    }

    /// The number of generations that have run.
    pub closed spec fn generation_number(&self) -> u32 {
        self.current_generation_number
    }

    /// The invariant of a run: a usable context, at least three specimens,
    /// all of the target's size, the survivor count that belongs to the
    /// population's size, and conditions that can be asked.
    pub open spec fn well_formed(&self) -> bool {
        &&& self.context().well_formed()
        &&& self.population().len() > 2
        &&& self.survivors() == best_size(self.population().len())
        &&& all_sized(
            self.population(),
            self.context().target().spec_height(),
            self.context().target().spec_width(),
        )
        &&& self.display().well_formed()
        &&& self.save().well_formed()
    }

    /// Whether no specimen has a better score than the first one. It holds
    /// of a new run and after every generation.
    pub open spec fn ranked(&self) -> bool {
        first_is_best(self.population())
    }

    /// Whether `next` differs from this run in nothing but the population,
    /// the state of the crossover function and the count of generations.
    pub open spec fn same_settings(&self, next: &Self) -> bool {
        &&& next.context() == self.context()
        &&& next.display() == self.display()
        &&& next.save() == self.save()
        &&& next.writer() == self.writer()
        &&& next.survivors() == self.survivors()
    }

    /// Whether `next` is this run one generation later: every specimen but
    /// the first was evaluated, the best of all were selected, and the
    /// population was bred back to its size from them.
    pub open spec fn advances_to(&self, next: &Self) -> bool {
        &&& self.same_settings(next)
        &&& next.generation_number() == self.generation_number() + 1
        &&& exists|evaluated: Seq<Candidate>| #[trigger]
            self.advances_through(evaluated, next)
    }

    /// Whether `evaluated` is this run's population after its evaluation, and
    /// `next` holds what selection and breeding make of it.
    pub open spec fn advances_through(&self, evaluated: Seq<Candidate>, next: &Self) -> bool {
        &&& is_evaluation(&self.context(), self.population(), evaluated)
        &&& settles(
            self.survivors(),
            self.breeder(),
            next.breeder(),
            evaluated,
            next.population(),
        )
    }

    /// The evaluated population through which the run advances to `next`.
    pub open spec fn evaluated_on_the_way_to(&self, next: &Self) -> Seq<Candidate> {
        choose|evaluated: Seq<Candidate>| #[trigger] self.advances_through(evaluated, next)
    }

    /// A new run: `generation_size` white specimens of the target's size,
    /// none of them scored, and no generation run yet.
    pub fn new(
        job_context: JobContext<M, F>,
        generation_size: usize,
        crossover: C,
        display_condition: DisplayCondition,
        image_writer: ImageWriter,
        save_condition: SaveCondition,
    ) -> (environment: Self)
        requires
            generation_size > 2,
            job_context.well_formed(),
            display_condition.well_formed(),
            save_condition.well_formed(),
        ensures
            environment.well_formed(),
            environment.ranked(),
            environment.context() == job_context,
            environment.breeder() == crossover,
            environment.display() == display_condition,
            environment.save() == save_condition,
            environment.writer() == image_writer,
            environment.generation_number() == 0,
            environment.population().len() == generation_size,
            forall|i: int|
                0 <= i < generation_size ==> is_blank(
                    #[trigger] environment.population()[i],
                    job_context.target().spec_height(),
                    job_context.target().spec_width(),
                ),
    {
        proof {
            job_context.target().count_fits();
        }
        let generation: Vec<Candidate> = get_first_generation(
            generation_size,
            job_context.get_image().height(),
            job_context.get_image().width(),
        );

        Self {
            job_context,
            crossover,
            display_condition,
            save_condition,
            generation,
            best_from_generation_size: get_best_size(generation_size),
            current_generation_number: 0,
            random: Random::default(),
            image_writer,
        }
    }

    /// Hands out every specimen but the first to be evaluated, in the order
    /// in which they stand.
    pub fn begin_evaluation(self) -> (started: (EvaluationStage<M, F, C>, Vec<Candidate>))
        requires
            self.well_formed(),
        ensures
            started.0.began_from(&self),
            started.0.well_formed(),
            started.1@ == self.population().skip(1),
    {
        let mut environment: Self = self;
        let jobs: Vec<Candidate> = environment.generation.split_off(1);
        let expected: usize = jobs.len();
        assert(environment.generation@ =~= self.population().take(1));
        (EvaluationStage { environment, expected }, jobs)
    }

    /// Evaluates every specimen but the first, one after the other. The
    /// first stays as it is, score and all.
    pub fn mutate_generation(self) -> (next: Self)
        requires
            self.well_formed(),
        ensures
            next.well_formed(),
            self.same_settings(&next),
            next.breeder() == self.breeder(),
            next.generation_number() == self.generation_number(),
            is_evaluation(&self.context(), self.population(), next.population()),
    {
        let (stage, jobs) = self.begin_evaluation();
        let mut jobs: Vec<Candidate> = jobs;
        let ghost handed_out: Seq<Candidate> = jobs@;
        let mut evaluated: Vec<Candidate> = Vec::new();
        let mut done: usize = 0;
        let total: usize = jobs.len();
        // The specimens are taken from the back and put back in front, so
        // that each keeps its place.
        while jobs.len() > 0
            invariant
                self.well_formed(),
                stage.began_from(&self),
                stage.well_formed(),
                handed_out == self.population().skip(1),
                handed_out.len() == total,
                jobs@ == handed_out.take(handed_out.len() - done),
                done <= handed_out.len(),
                evaluated@.len() == done,
                forall|i: int|
                    0 <= i < done ==> self.context().evaluates(
                        &handed_out[handed_out.len() - done + i],
                        &#[trigger] evaluated@[i],
                    ),
            decreases jobs@.len(),
        {
            let entry: Candidate = jobs.pop().unwrap();
            let ghost position: int = handed_out.len() - done - 1;
            assert(entry == handed_out[position]);
            assert(entry == self.population()[position + 1]);
            let ghost before: Seq<Candidate> = evaluated@;
            let result: Candidate = stage.job_context().evaluate(entry);
            evaluated.insert(0, result);
            done += 1;
            assert(jobs@ =~= handed_out.take(handed_out.len() - done));
            assert forall|i: int| 0 <= i < done implies self.context().evaluates(
                &handed_out[handed_out.len() - done + i],
                &#[trigger] evaluated@[i],
            ) by {
                if i > 0 {
                    assert(evaluated@[i] == before[i - 1]);
                }
            }
        }
        proof {
            assert forall|i: int| 0 <= i < evaluated@.len() implies is_sized_as(
                &#[trigger] evaluated@[i],
                &self.context().target(),
            ) by {
                assert(self.context().evaluates(&handed_out[i], &evaluated@[i]));
                assert(handed_out[i] == self.population()[i + 1]);
            }
            assert(stage.accepts(evaluated@));
        }
        match stage.complete(evaluated) {
            Ok(next) => {
                assert forall|i: int| 1 <= i < self.population().len() implies self.context().evaluates(
                    &self.population()[i],
                    &#[trigger] next.population()[i],
                ) by {
                    assert(next.population()[i] == evaluated@[i - 1]);
                    assert(handed_out[i - 1] == self.population()[i]);
                }
                assert(next.population()[0] == self.population()[0]);
                next
            },
            Err(_) => {
                proof {
                    assert(false);
                }
                vstd::pervasive::unreached()
            },
        }
    }

    /// Sorts the population by score, keeps the best, breeds the population
    /// back to its size from them and counts the generation.
    pub fn select_and_breed(self) -> (next: Self)
        requires
            self.well_formed(),
            self.generation_number() < u32::MAX,
        ensures
            next.well_formed(),
            next.ranked(),
            self.same_settings(&next),
            next.generation_number() == self.generation_number() + 1,
            settles(
                self.survivors(),
                self.breeder(),
                next.breeder(),
                self.population(),
                next.population(),
            ),
            next.population().len() == self.population().len(),
            forall|i: int|
                0 <= i < self.population().len() ==> next.population()[0].score <= (
                #[trigger] self.population()[i]).score,
    {
        let mut environment: Self = self;
        let ghost before: Seq<Candidate> = environment.generation@;
        let ghost height: usize = self.context().target().spec_height();
        let ghost width: usize = self.context().target().spec_width();

        // Sort and dump worst
        let generation_size: usize = environment.generation.len();
        select(&mut environment.generation, environment.best_from_generation_size);
        let ghost selected: Seq<Candidate> = environment.generation@;
        proof {
            selection_keeps_best(before, selected, self.survivors());
            assert forall|i: int| 0 <= i < selected.len() implies {
                &&& (#[trigger] selected[i]).image.well_formed()
                &&& selected[i].image.spec_height() == height
                &&& selected[i].image.spec_width() == width
            } by {
                assert(before.contains(selected[i]));
            }
        }

        // Crossover
        breed(
            &mut environment.generation,
            &mut environment.crossover,
            &mut environment.random,
            generation_size,
        );

        environment.current_generation_number += 1;

        proof {
            assert(selects(before, selected, self.survivors()));
            settled_population_puts_best_first(
                self.survivors(),
                self.breeder(),
                environment.crossover,
                before,
                environment.generation@,
            );
        }
        environment
    }

    /// Runs one generation: evaluates every specimen but the first, keeps the
    /// best, and breeds the population back to its size from them.
    pub fn run_single_generation(self) -> (next: Self)
        requires
            self.well_formed(),
            self.generation_number() < u32::MAX,
        ensures
            next.well_formed(),
            next.ranked(),
            self.advances_to(&next),
            next.population().len() == self.population().len(),
            next.population()[0].score <= self.population()[0].score,
    {
        let evaluated: Self = self.mutate_generation();
        let next: Self = evaluated.select_and_breed();
        proof {
            assert(evaluated.population()[0] == self.population()[0]);
            assert(self.advances_through(evaluated.population(), &next));
        }
        next
    }

    /// Whether the best specimen of the generation that has just run is to be
    /// shown.
    pub fn should_display(&self) -> (shown: bool)
        requires
            self.well_formed(),
        ensures
            shown == self.display().shows(self.generation_number()),
    {
        self.display_condition.should_display(self.current_generation_number)
    }

    /// Whether the best specimen of the generation that has just run is to be
    /// saved.
    pub fn should_save(&self) -> (saved: bool)
        requires
            self.well_formed(),
        ensures
            saved == self.save().saves(self.generation_number()),
    {
        self.save_condition.should_save(self.current_generation_number)
    }

    /// Whether the run shows anything, and so runs with a window.
    pub fn needs_window(&self) -> (needed: bool)
        ensures
            needed == self.display().shows_any(),
    {
        self.display_condition.needs_window()
    }

    /// The specimen that stands first: the best one, once a generation has
    /// run.
    pub fn best_specimen(&self) -> (best: &Candidate)
        requires
            self.well_formed(),
        ensures
            *best == self.population()[0],
    {
        &self.generation[0]
    }

    /// The name of the file to which the best specimen of the generation that
    /// has just run is saved.
    pub fn best_specimen_file_name(&self) -> (name: String)
        ensures
            name@ == crate::fs::image_writer::file_name_of(
                self.writer().spec_filename_prefix(),
                self.generation_number(),
            ),
    {
        self.image_writer.file_name(self.current_generation_number)
    }

    /// The title under which the best specimen of the generation that has
    /// just run is shown.
    pub fn best_specimen_title(&self) -> (title: String)
        ensures
            title@ == title_of(self.generation_number()),
    {
        let mut title: String = String::from_str("Generation #");
        let number: String = decimal_text(self.current_generation_number as u64);
        title.append(number.as_str());
        title
    }

    /// The line that reports the generation that has just run.
    pub fn report(&self) -> (line: String)
        requires
            self.well_formed(),
        ensures
            line@ == report_of(self.generation_number(), self.population()[0].score),
    {
        let mut line: String = String::from_str("Current generation: ");
        let number: String = decimal_text(self.current_generation_number as u64);
        line.append(number.as_str());
        line.append(" (");
        let score: String = decimal_text(self.generation[0].score as u64);
        line.append(score.as_str());
        line.append(")");
        line
    }

    pub fn job_context(&self) -> (context: &JobContext<M, F>)
        ensures
            *context == self.context(),
    {
        &self.job_context
    }

    pub fn image_writer(&self) -> (writer: &ImageWriter)
        ensures
            *writer == self.writer(),
    {
        &self.image_writer
    }

    pub fn generation(&self) -> (generation: &Vec<Candidate>)
        ensures
            generation@ == self.population(),
    {
        &self.generation
    }

    pub fn current_generation_number(&self) -> (number: u32)
        ensures
            number == self.generation_number(),
    {
        self.current_generation_number
    }
}

impl<M: Mutator, F: FitnessFunction, C: CrossoverFunction> EvaluationStage<M, F, C> {
    /// The run as it stands while the specimens are out: with the first
    /// specimen alone.
    pub closed spec fn rest(&self) -> Environment<M, F, C> {
        self.environment
    }

    /// The number of specimens that are out.
    pub closed spec fn expected(&self) -> nat {
        self.expected as nat
    }

    /// Whether the stage was begun from the given run: it holds back the
    /// run's first specimen and everything else of the run but the others.
    pub open spec fn began_from(&self, run: &Environment<M, F, C>) -> bool {
        &&& run.same_settings(&self.rest())
        &&& self.rest().breeder() == run.breeder()
        &&& self.rest().generation_number() == run.generation_number()
        &&& self.rest().population() == run.population().take(1)
        &&& self.expected() + 1 == run.population().len()
    }

    /// The invariant of a stage: what `begin_evaluation` makes of a
    /// well-formed run.
    pub open spec fn well_formed(&self) -> bool {
        &&& self.rest().context().well_formed()
        &&& self.rest().display().well_formed()
        &&& self.rest().save().well_formed()
        &&& self.expected() >= 2
        &&& self.rest().survivors() == best_size(self.expected() + 1)
        &&& self.rest().population().len() == 1
        &&& is_sized_as(&self.rest().population()[0], &self.rest().context().target())
    }

    /// The context in which the specimens are to be evaluated.
    pub fn job_context(&self) -> (context: &JobContext<M, F>)
        ensures
            *context == self.rest().context(),
    {
        &self.environment.job_context
    }

    /// Takes the evaluated specimens back, in whatever order they come, and
    /// puts them behind the first one. It fails, and the run is over, unless
    /// as many come back as went out, each a well-formed image of the
    /// target's size.
    pub fn complete(self, evaluated: Vec<Candidate>) -> (outcome: Result<
        Environment<M, F, C>,
        WorkerFailure,
    >)
        requires
            self.well_formed(),
        ensures
            outcome is Ok <==> self.accepts(evaluated@),
            match outcome {
                Ok(next) => {
                    &&& next.well_formed()
                    &&& self.rest().same_settings(&next)
                    &&& next.breeder() == self.rest().breeder()
                    &&& next.generation_number() == self.rest().generation_number()
                    &&& next.population() == self.rest().population() + evaluated@
                },
                Err(failure) => {
                    &&& failure.expected == self.expected()
                    &&& failure.received == evaluated@.len()
                },
            },
    {
        let mut incoming: Vec<Candidate> = evaluated;
        let failure: WorkerFailure = WorkerFailure {
            expected: self.expected,
            received: incoming.len(),
        };
        if incoming.len() != self.expected {
            return Err(failure);
        }
        let height: usize = self.environment.job_context.get_image().height();
        let width: usize = self.environment.job_context.get_image().width();
        let mut index: usize = 0;
        while index < incoming.len()
            invariant
                index <= incoming@.len(),
                incoming@ == evaluated@,
                evaluated@.len() == self.expected(),
                failure.expected == self.expected(),
                failure.received == evaluated@.len(),
                height == self.rest().context().target().spec_height(),
                width == self.rest().context().target().spec_width(),
                forall|i: int|
                    0 <= i < index ==> is_sized_as(
                        &#[trigger] evaluated@[i],
                        &self.rest().context().target(),
                    ),
            decreases incoming@.len() - index,
        {
            let image: &Image = &incoming[index].image;
            if image.height() != height || image.width() != width || !image.is_complete() {
                assert(!is_sized_as(&evaluated@[index as int], &self.rest().context().target()));
                return Err(failure);
            }
            index += 1;
        }
        let mut environment: Environment<M, F, C> = self.environment;
        environment.generation.append(&mut incoming);
        Ok(environment)
    }

    /// Whether the stage takes the given specimens back: as many as went
    /// out, each a well-formed image of the target's size.
    pub open spec fn accepts(&self, evaluated: Seq<Candidate>) -> bool {
        &&& evaluated.len() == self.expected()
        &&& forall|i: int|
            0 <= i < evaluated.len() ==> is_sized_as(
                &#[trigger] evaluated[i],
                &self.rest().context().target(),
            )
    }
}

} // verus!
