//! The generational loop, as a machine that is driven from outside.
//!
//! The loop decides everything and computes nothing numeric. At each point
//! [`EvolutionLoop::action`] says what it is waiting for:
//!
//! * [`Action::Evaluate`]: the fitness of every individual, answered through
//!   [`EvolutionLoop::evaluate`];
//! * [`Action::Scale`]: a value multiplied or divided by the change rate,
//!   answered through [`EvolutionLoop::rescale`];
//! * [`Action::Breed`]: for every individual but the elite, its average with
//!   the elite, perturbed by the given magnitude, answered through
//!   [`EvolutionLoop::reproduce`];
//! * [`Action::Stop`]: nothing, the configured number of generations is done.
//!
//! Generation 1 consists of an evaluation alone. Every later generation
//! starts with a reproduction, preceded by one adjustment of the mutation
//! magnitude where the best individual has stagnated, and ends with an
//! evaluation.

use vstd::prelude::*;
use crate::best::{exceeded, BestRecord};
use crate::binary64::Binary64;
use crate::controller::{MutationController, GENS_TO_CHANGE_MUTATION};
use crate::individual::Individual;

verus! {

/// What the loop is waiting for.
#[derive(Clone, Copy, Debug, PartialEq, Eq, Structural)]
pub enum Phase {
    /// A scaled mutation magnitude.
    Adapting,
    /// The offspring of the generation in progress.
    Breeding,
    /// The fitness values of the generation in progress.
    Evaluating,
    /// Nothing: all generations are done.
    Finished,
}

/// What the caller has to compute next.
#[derive(Clone, Copy, Debug, PartialEq, Eq, Structural)]
pub enum Action {
    /// Divide `base` by the change rate if `divide` is set, multiply it
    /// otherwise.
    Scale { base: Binary64, divide: bool },
    /// For each individual but the one at `elite`: the average of its
    /// coordinates with the elite's, each shifted by a random amount of at
    /// most `magnitude`.
    Breed { elite: usize, magnitude: Binary64 },
    /// The fitness of each individual.
    Evaluate,
    /// Nothing more.
    Stop,
}

/// Why a configuration is refused.
#[derive(Clone, Copy, Debug, PartialEq, Eq, Structural)]
pub enum InvalidConfiguration {
    /// There is no individual.
    EmptyPopulation,
    /// There is no generation to run.
    NoGenerations,
    /// The initial mutation magnitude is not a finite number above zero.
    MutationNotPositive,
}

/// Why an answer is refused. A refused answer changes nothing.
#[derive(Clone, Copy, Debug, PartialEq, Eq, Structural)]
pub enum StepError {
    /// The loop is waiting for something else.
    OutOfTurn,
    /// The answer does not hold one entry for each individual.
    LengthMismatch,
}

/// What is reported of one generation, once it has been evaluated.
#[derive(Clone, Copy, Debug, PartialEq, Eq)]
pub struct Report {
    /// The number of the generation, counted from 1.
    pub generation: usize,
    /// The average fitness, as the caller computed it.
    pub average_fitness: Binary64,
    /// The position of the best individual, counted from 0.
    pub best_index: usize,
    /// The best individual's first coordinate.
    pub best_x: Binary64,
    /// The best individual's second coordinate.
    pub best_y: Binary64,
    /// The best individual's fitness.
    pub best_fitness: Binary64,
    /// The generation in which the best individual became the best.
    pub best_since_generation: usize,
    /// For how many generations it has been the best.
    pub generations_as_best: usize,
    /// The mutation magnitude after this generation.
    pub current_mutation: Binary64,
    /// The least magnitude met at an adjustment; absent while there has been
    /// none.
    pub min_mutation_observed: Option<Binary64>,
    /// The greatest magnitude met at an adjustment; absent while there has
    /// been none.
    pub max_mutation_observed: Option<Binary64>,
}

/// The first reason to refuse a configuration, if there is one.
pub open spec fn configuration_error(
    population_size: nat,
    generation_count: nat,
    initial_mutation: Binary64,
) -> Option<InvalidConfiguration> {
    if population_size == 0 {
        Some(InvalidConfiguration::EmptyPopulation)
    } else if generation_count == 0 {
        Some(InvalidConfiguration::NoGenerations)
    } else if !initial_mutation.spec_is_positive_finite() {
        Some(InvalidConfiguration::MutationNotPositive)
    } else {
        None
    }
}

/// The loop's state, as contracts see it.
pub struct LoopState {
    /// The individuals, in their fixed order.
    pub population: Seq<Individual>,
    /// How many generations are to be run.
    pub generation_count: nat,
    /// The configured mutation magnitude.
    pub initial_mutation: Binary64,
    /// How many generations have been evaluated.
    pub completed: nat,
    /// The best individual so far.
    pub best: BestRecord,
    /// The mutation controller.
    pub controller: MutationController,
    /// What the loop is waiting for.
    pub phase: Phase,
}

impl LoopState {
    /// The state in which a run starts: generation 1 awaits its evaluation.
    pub open spec fn initial(
        population: Seq<Individual>,
        generation_count: nat,
        initial_mutation: Binary64,
    ) -> LoopState {
        LoopState {
            population,
            generation_count,
            initial_mutation,
            completed: 0,
            best: BestRecord::spec_unset(),
            controller: MutationController::spec_new(initial_mutation),
            phase: Phase::Evaluating,
        }
    }

    /// The number of the generation in progress. Once the loop has finished
    /// it is one more than the number of generations to run.
    pub open spec fn generation(self) -> nat {
        self.completed + 1
    }

    /// How far the generation in progress is into the current period of
    /// stagnation: the generations since the best individual became the
    /// best, modulo the length of a period.
    pub open spec fn stagnation(self) -> int {
        (self.generation() - self.best.created_generation) % (GENS_TO_CHANGE_MUTATION + 1)
    }

    /// Whether the generation in progress is one at which the mutation
    /// magnitude is adjusted.
    pub open spec fn adjustment_due(self) -> bool {
        self.stagnation() == GENS_TO_CHANGE_MUTATION
    }

    /// What holds of every state that a run passes through.
    pub open spec fn valid(self) -> bool {
        &&& 1 <= self.population.len() <= usize::MAX
        &&& 1 <= self.generation_count <= usize::MAX
        &&& self.completed <= self.generation_count
        &&& self.initial_mutation.spec_is_positive_finite()
        &&& self.best.index < self.population.len()
        &&& self.best.created_generation <= self.completed
        &&& !self.best.fitness.is_nan()
        &&& (self.phase is Finished <==> self.completed == self.generation_count)
        &&& (self.phase is Adapting || self.phase is Breeding ==> self.completed >= 1)
        &&& (self.phase is Adapting ==> self.adjustment_due())
    }

    /// What the caller has to compute next.
    pub open spec fn action(self) -> Action {
        match self.phase {
            Phase::Adapting => Action::Scale {
                base: self.controller.spec_scale_base(self.initial_mutation),
                divide: self.controller.spec_scale_divides(),
            },
            Phase::Breeding => Action::Breed {
                elite: self.best.index,
                magnitude: self.controller.current,
            },
            Phase::Evaluating => Action::Evaluate,
            Phase::Finished => Action::Stop,
        }
    }

    /// The two individuals whose average the offspring for position `n`
    /// starts from: the one at `n` and the elite. The elite itself has no
    /// offspring, nor has a position outside the population.
    pub open spec fn parents(self, n: int) -> Option<(Individual, Individual)> {
        if 0 <= n < self.population.len() && n != self.best.index {
            Some((self.population[n], self.population[self.best.index as int]))
        } else {
            None
        }
    }

    /// The state after an adjustment whose scaling gave `scaled`.
    pub open spec fn rescaled(self, scaled: Binary64) -> LoopState {
        LoopState { controller: self.controller.adjusted(scaled), phase: Phase::Breeding, ..self }
    }

    /// The state after a reproduction: the elite stays, and every other
    /// individual is replaced by its offspring, clamped into the domain.
    pub open spec fn reproduced(self, offspring: Seq<Individual>) -> LoopState {
        LoopState {
            population: Seq::new(
                self.population.len(),
                |n: int|
                    if n == self.best.index {
                        self.population[n]
                    } else {
                        offspring[n].spec_clamped()
                    },
            ),
            phase: Phase::Evaluating,
            ..self
        }
    }

    /// The state after the evaluation of the generation in progress, before
    /// it is decided what comes next: the fitness values are folded into the
    /// best record, the mutation magnitude starts over if a value was
    /// greater than the recorded one, and the generation counts as done.
    pub open spec fn tallied(self, fitness: Seq<Binary64>) -> LoopState {
        LoopState {
            best: self.best.after_all(fitness, self.generation() as usize),
            controller: if exceeded(fitness, self.best.fitness) {
                self.controller.restarted(self.initial_mutation)
            } else {
                self.controller
            },
            completed: self.completed + 1,
            ..self
        }
    }

    /// The state after the evaluation of the generation in progress. The loop
    /// has finished if that was the last generation; otherwise the next one
    /// starts, with an adjustment if one is due in it.
    pub open spec fn evaluated(self, fitness: Seq<Binary64>) -> LoopState {
        let tallied = self.tallied(fitness);
        LoopState {
            phase: if tallied.completed == tallied.generation_count {
                Phase::Finished
            } else if tallied.adjustment_due() {
                Phase::Adapting
            } else {
                Phase::Breeding
            },
            ..tallied
        }
    }

    /// The report of the generation in progress, given its fitness values
    /// and their average.
    pub open spec fn report(self, fitness: Seq<Binary64>, average: Binary64) -> Report {
        let tallied = self.tallied(fitness);
        Report {
            generation: self.generation() as usize,
            average_fitness: average,
            best_index: tallied.best.index,
            best_x: self.population[tallied.best.index as int].x,
            best_y: self.population[tallied.best.index as int].y,
            best_fitness: tallied.best.fitness,
            best_since_generation: tallied.best.created_generation,
            generations_as_best: (self.generation() - tallied.best.created_generation) as usize,
            current_mutation: tallied.controller.current,
            min_mutation_observed: tallied.controller.min_seen,
            max_mutation_observed: tallied.controller.max_seen,
        }
    }

    /// Why an answer of `supplied` entries is refused, if it is: the loop is
    /// not in the phase `awaited`, which the answer is for, or the answer
    /// does not hold one entry for each individual.
    pub open spec fn refusal(self, awaited: Phase, supplied: nat) -> Option<StepError> {
        if self.phase != awaited {
            Some(StepError::OutOfTurn)
        } else if supplied != self.population.len() {
            Some(StepError::LengthMismatch)
        } else {
            None
        }
    }
}

/// What changes from one evaluation to the next, kept together so that it
/// changes at once.
#[derive(Clone, Copy)]
struct Ledger {
    completed: usize,
    best: BestRecord,
    controller: MutationController,
    phase: Phase,
}

/// A run of the optimiser.
pub struct EvolutionLoop {
    population: Vec<Individual>,
    generation_count: usize,
    initial_mutation: Binary64,
    ledger: Ledger,
}

impl View for EvolutionLoop {
    type V = LoopState;

    closed spec fn view(&self) -> LoopState {
        LoopState {
            population: self.population@,
            generation_count: self.generation_count as nat,
            initial_mutation: self.initial_mutation,
            completed: self.ledger.completed as nat,
            best: self.ledger.best,
            controller: self.ledger.controller,
            phase: self.ledger.phase,
        }
    }
}

/// Validates a configuration: at least one individual, at least one
/// generation, and an initial mutation magnitude that is a finite number
/// above zero. The conditions are tested in this order and the first that
/// fails is reported.
pub fn validate_configuration(
    population_size: usize,
    generation_count: usize,
    initial_mutation: Binary64,
) -> (verdict: Result<(), InvalidConfiguration>)
    ensures
        verdict is Ok <==> configuration_error(
            population_size as nat,
            generation_count as nat,
            initial_mutation,
        ) is None,
        verdict matches Err(e) ==> configuration_error(
            population_size as nat,
            generation_count as nat,
            initial_mutation,
        ) == Some(e),
{
    if population_size == 0 {
        Err(InvalidConfiguration::EmptyPopulation)
    } else if generation_count == 0 {
        Err(InvalidConfiguration::NoGenerations)
    } else if !initial_mutation.is_positive_finite() {
        Err(InvalidConfiguration::MutationNotPositive)
    } else {
        Ok(())
    }
}

impl EvolutionLoop {
    #[verifier::type_invariant]
    spec fn sound(&self) -> bool {
        self@.valid()
    }

    /// Starts a run on the given individuals.
    ///
    /// The configuration is validated as by [`validate_configuration`], with
    /// the number of individuals as the population size. A run that starts
    /// is waiting for the evaluation of generation 1.
    pub fn new(
        population: Vec<Individual>,
        generation_count: usize,
        initial_mutation: Binary64,
    ) -> (started: Result<EvolutionLoop, InvalidConfiguration>)
        ensures
            started is Ok <==> configuration_error(
                population@.len(),
                generation_count as nat,
                initial_mutation,
            ) is None,
            started matches Err(e) ==> configuration_error(
                population@.len(),
                generation_count as nat,
                initial_mutation,
            ) == Some(e),
            started matches Ok(evolution) ==> {
                &&& evolution@ == LoopState::initial(
                    population@,
                    generation_count as nat,
                    initial_mutation,
                )
                &&& evolution@.valid()
            },
    {
        match validate_configuration(population.len(), generation_count, initial_mutation) {
            Err(e) => Err(e),
            Ok(()) => Ok(
                EvolutionLoop {
                    population,
                    generation_count,
                    initial_mutation,
                    ledger: Ledger {
                        completed: 0,
                        best: BestRecord::unset(),
                        controller: MutationController::new(initial_mutation),
                        phase: Phase::Evaluating,
                    },
                },
            ),
        }
    }

    /// What the caller has to compute next.
    pub fn action(&self) -> (action: Action)
        ensures
            action == self@.action(),
    {
        match self.ledger.phase {
            Phase::Adapting => Action::Scale {
                base: self.ledger.controller.scale_base(self.initial_mutation),
                divide: self.ledger.controller.scale_divides(),
            },
            Phase::Breeding => Action::Breed {
                elite: self.ledger.best.index,
                magnitude: self.ledger.controller.current,
            },
            Phase::Evaluating => Action::Evaluate,
            Phase::Finished => Action::Stop,
        }
    }

    /// What the loop is waiting for.
    pub fn phase(&self) -> (phase: Phase)
        ensures
            phase == self@.phase,
    {
        self.ledger.phase
    }

    /// The individuals, in their fixed order.
    pub fn population(&self) -> (population: &Vec<Individual>)
        ensures
            population@ == self@.population,
    {
        &self.population
    }

    /// The best individual so far.
    pub fn best(&self) -> (best: BestRecord)
        ensures
            best == self@.best,
    {
        self.ledger.best
    }

    /// The mutation controller.
    pub fn controller(&self) -> (controller: MutationController)
        ensures
            controller == self@.controller,
    {
        self.ledger.controller
    }

    /// How many generations have been evaluated.
    pub fn completed(&self) -> (completed: usize)
        ensures
            completed == self@.completed,
    {
        self.ledger.completed
    }

    /// How many generations are to be run.
    pub fn generation_count(&self) -> (count: usize)
        ensures
            count == self@.generation_count,
    {
        self.generation_count
    }

    /// The configured mutation magnitude.
    pub fn initial_mutation(&self) -> (initial: Binary64)
        ensures
            initial == self@.initial_mutation,
    {
        self.initial_mutation
    }

    /// The two individuals whose average the offspring for position `n`
    /// starts from, the one at `n` first and the elite second; nothing for
    /// the elite's own position and for one outside the population.
    pub fn parents(&self, n: usize) -> (pair: Option<(Individual, Individual)>)
        ensures
            pair == self@.parents(n as int),
    {
        proof {
            use_type_invariant(self);
        }
        if n < self.population.len() && n != self.ledger.best.index {
            Some((self.population[n], self.population[self.ledger.best.index]))
        } else {
            None
        }
    }

    /// Answers [`Action::Scale`] with the scaled value, which becomes the
    /// mutation magnitude; the reproduction of the generation comes next.
    ///
    /// Refused as out of turn unless the loop is waiting for it.
    pub fn rescale(&mut self, scaled: Binary64) -> (done: Result<(), StepError>)
        ensures
            done is Ok <==> old(self)@.phase is Adapting,
            done is Ok ==> final(self)@ == old(self)@.rescaled(scaled),
            done is Err ==> done == Err::<(), StepError>(StepError::OutOfTurn) && final(self)@
                == old(self)@,
            final(self)@.valid(),
    {
        proof {
            use_type_invariant(&*self);
        }
        match self.ledger.phase {
            Phase::Adapting => {},
            _ => {
                return Err(StepError::OutOfTurn);
            },
        }
        let mut controller = self.ledger.controller;
        controller.adjust(scaled);
        self.ledger = Ledger { controller, phase: Phase::Breeding, ..self.ledger };
        Ok(())
    }

    /// Answers [`Action::Breed`] with one offspring for each position; the
    /// evaluation of the generation comes next.
    ///
    /// The elite is left as it is, whatever stands at its position in
    /// `offspring`. Every other individual is replaced by the offspring at
    /// its position, clamped into the domain. Refused as out of turn unless
    /// the loop is waiting for it, and else for its length unless there is
    /// one offspring for each individual.
    pub fn reproduce(&mut self, offspring: &Vec<Individual>) -> (done: Result<(), StepError>)
        ensures
            done is Ok <==> old(self)@.refusal(Phase::Breeding, offspring@.len()) is None,
            done is Ok ==> final(self)@ == old(self)@.reproduced(offspring@),
            done matches Err(e) ==> old(self)@.refusal(Phase::Breeding, offspring@.len()) == Some(e)
                && final(self)@ == old(self)@,
            final(self)@.valid(),
    {
        proof {
            use_type_invariant(&*self);
        }
        match self.ledger.phase {
            Phase::Breeding => {},
            _ => {
                return Err(StepError::OutOfTurn);
            },
        }
        if offspring.len() != self.population.len() {
            return Err(StepError::LengthMismatch);
        }
        let elite = self.ledger.best.index;
        let size = self.population.len();
        let mut n: usize = 0;
        while n < size
            invariant
                n <= size,
                size == self.population@.len(),
                size == offspring@.len(),
                size == old(self).population@.len(),
                self.generation_count == old(self).generation_count,
                self.initial_mutation == old(self).initial_mutation,
                self.ledger == old(self).ledger,
                self@.valid(),
                elite == self.ledger.best.index,
                forall|k: int|
                    0 <= k < n ==> self.population@[k] == if k == elite {
                        old(self).population@[k]
                    } else {
                        offspring@[k].spec_clamped()
                    },
                forall|k: int| n <= k < size ==> self.population@[k] == old(self).population@[k],
            decreases size - n,
        {
            if n != elite {
                let child = offspring[n].clamped();
                self.population[n] = child;
            }
            n += 1;
        }
        self.ledger = Ledger { phase: Phase::Evaluating, ..self.ledger };
        assert(self@.population =~= old(self)@.reproduced(offspring@).population);
        Ok(())
    }

    /// Answers [`Action::Evaluate`] with the fitness of each individual and
    /// the average of these values, and returns the generation's report.
    ///
    /// The values are folded into the best record in the order of their
    /// positions, a value taking the record only if it is strictly greater.
    /// If the record changed, the mutation magnitude is put back to the
    /// configured value. The generation is then done: the loop has finished
    /// if it was the last one, and otherwise goes on to the next, starting
    /// with an adjustment of the magnitude if the next generation is one at
    /// which the best individual has stagnated for a full period. Refused as
    /// out of turn unless the loop is waiting for it, and else for its
    /// length unless there is one value for each individual.
    pub fn evaluate(&mut self, fitness: &Vec<Binary64>, average: Binary64) -> (done: Result<
        Report,
        StepError,
    >)
        ensures
            done is Ok <==> old(self)@.refusal(Phase::Evaluating, fitness@.len()) is None,
            done matches Ok(report) ==> {
                &&& final(self)@ == old(self)@.evaluated(fitness@)
                &&& report == old(self)@.report(fitness@, average)
            },
            done matches Err(e) ==> old(self)@.refusal(Phase::Evaluating, fitness@.len()) == Some(e)
                && final(self)@ == old(self)@,
            final(self)@.valid(),
    {
        proof {
            use_type_invariant(&*self);
        }
        match self.ledger.phase {
            Phase::Evaluating => {},
            _ => {
                return Err(StepError::OutOfTurn);
            },
        }
        if fitness.len() != self.population.len() {
            return Err(StepError::LengthMismatch);
        }
        let generation: usize = self.ledger.completed + 1;
        let before = self.ledger.best;
        let best = before.survey(fitness, generation);
        let improved = best.created_generation != before.created_generation;
        let mut controller = self.ledger.controller;
        if improved {
            controller.restart(self.initial_mutation);
        }
        let phase = if generation == self.generation_count {
            Phase::Finished
        } else if (generation + 1 - best.created_generation) % (GENS_TO_CHANGE_MUTATION + 1)
            == GENS_TO_CHANGE_MUTATION {
            Phase::Adapting
        } else {
            Phase::Breeding
        };
        let winner = self.population[best.index];
        let report = Report {
            generation,
            average_fitness: average,
            best_index: best.index,
            best_x: winner.x,
            best_y: winner.y,
            best_fitness: best.fitness,
            best_since_generation: best.created_generation,
            generations_as_best: generation - best.created_generation,
            current_mutation: controller.current,
            min_mutation_observed: controller.min_seen,
            max_mutation_observed: controller.max_seen,
        };
        self.ledger = Ledger { completed: generation, best, controller, phase };
        Ok(report)
    }
}

} // verus!
