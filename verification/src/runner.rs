use vstd::prelude::*;
use crate::config::{Config, ConfigError, Parameters, Scenario};
use crate::infection_seeder::InfectionSeeder;
use crate::people::{count, lemma_count_all_susceptible};
use crate::person_properties::{AgeGroup, DiseaseStatus};
use crate::simulation::Simulation;

verus! {

/// How the scenarios of a run are executed.
#[derive(Clone, Copy, Debug, PartialEq, Eq, Structural)]
pub enum RunMode {
    /// One at a time, on the calling thread.
    Sequential,
    /// Concurrently, on a pool of workers.
    Parallel,
}

/// The life of one scenario.
#[derive(Clone, Copy, Debug, PartialEq, Eq, Structural)]
pub enum ScenarioState {
    Idle,
    Running,
    Completed,
}

/// What happens to a scenario.
#[derive(Clone, Copy, Debug, PartialEq, Eq, Structural)]
pub enum ScenarioEvent {
    /// It was dispatched, on the calling thread or to a worker.
    Dispatched,
    /// Its event queue ran empty.
    QueueEmpty,
}

impl ScenarioState {
    /// The state that follows `self` on `event`, where the event is due in
    /// this state: an idle scenario is dispatched, a running one completes.
    pub open spec fn after(self, event: ScenarioEvent) -> Option<ScenarioState> {
        match (self, event) {
            (ScenarioState::Idle, ScenarioEvent::Dispatched) => Some(ScenarioState::Running),
            (ScenarioState::Running, ScenarioEvent::QueueEmpty) => Some(ScenarioState::Completed),
            _ => None,
        }
    }

    /// Moves the scenario on by `event`, or answers `None` where the event
    /// is not due in this state.
    pub fn on(self, event: ScenarioEvent) -> (next: Option<ScenarioState>)
        ensures
            next == self.after(event),
    {
        match (self, event) {
            (ScenarioState::Idle, ScenarioEvent::Dispatched) => Some(ScenarioState::Running),
            (ScenarioState::Running, ScenarioEvent::QueueEmpty) => Some(ScenarioState::Completed),
            _ => None,
        }
    }
}

/// The mode in which `config` runs with `threads` worker threads: a single
/// parameter set, and any run with at most one thread, is sequential.
pub open spec fn mode_of(config: &Config, threads: u8) -> RunMode {
    match config {
        Config::Single(_) => RunMode::Sequential,
        Config::Multiple(_) => if threads <= 1 {
            RunMode::Sequential
        } else {
            RunMode::Parallel
        },
    }
}

/// Chooses how the scenarios of `config` are executed with `threads` worker
/// threads.
pub fn run_mode(config: &Config, threads: u8) -> (mode: RunMode)
    ensures
        mode == mode_of(config, threads),
{
    match config {
        Config::Single(_) => RunMode::Sequential,
        Config::Multiple(_) => if threads <= 1 {
            RunMode::Sequential
        } else {
            RunMode::Parallel
        },
    }
}

/// Whether the writer of the scenario `scenario` writes the header row, in a
/// sequential run where every scenario has a writer of its own on the same
/// table: only the first one does, so the header stands there once.
pub fn writes_header(scenario: Scenario) -> (writes: bool)
    ensures
        writes == (scenario.scenario == 0),
{
    scenario.scenario == 0
}

/// Sets up the state of one scenario from its parameters: the population,
/// all susceptible, with no pending contact, and the seeder of the initial
/// infections. Before seeding no agent is infectious. Parameters whose
/// initial cohort is larger than the population are refused.
pub fn setup_context(parameters: &Parameters) -> (context: Result<
    (Simulation, InfectionSeeder),
    ConfigError,
>)
    ensures
        context.is_ok() == parameters.is_valid(),
        context matches Err(error) ==> error == ConfigError::TooManyInitialInfections,
        context matches Ok((simulation, seeder)) ==> {
            &&& simulation.wf()
            &&& simulation.population() == parameters.population
            &&& forall|i: int|
                0 <= i < parameters.population ==> simulation.statuses()[i] == DiseaseStatus::S
            &&& forall|i: int|
                0 <= i < parameters.population ==> simulation.age_groups()[i] == AgeGroup::Child
            &&& count(simulation.statuses(), DiseaseStatus::I) == 0
            &&& simulation.pending() == Map::<usize, usize>::empty()
            &&& seeder.remaining() == parameters.initial_infections
        },
{
    match InfectionSeeder::new(parameters) {
        Err(error) => Err(error),
        Ok(seeder) => {
            let simulation = Simulation::new(parameters.population);
            proof {
                lemma_count_all_susceptible(simulation.statuses(), DiseaseStatus::I);
            }
            Ok((simulation, seeder))
        },
    }
}

} // verus!
