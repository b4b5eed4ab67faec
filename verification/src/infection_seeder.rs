use vstd::prelude::*;
use rand::rngs::StdRng;
use crate::config::{ConfigError, Parameters};
use crate::people::{count, lemma_count_update, TransitionError};
use crate::person_properties::DiseaseStatus;
use crate::simulation::{change_effects, Simulation, StatusChange};
use crate::transmission_manager::draw_person;

verus! {

/// Infects the initial cohort at the start of a scenario. It is offered
/// candidates that were drawn uniformly among all agents, takes each
/// susceptible one and passes over the others, until the cohort is full: so
/// the cohort holds distinct agents, drawn without replacement.
pub struct InfectionSeeder {
    remaining: usize,
}

/// What became of a candidate that was offered to the seeder.
#[derive(Clone, Copy, Debug)]
pub enum SeedStep {
    /// The candidate became infectious.
    Seeded(StatusChange),
    /// The candidate does not exist or is not susceptible: offer another.
    Rejected,
    /// The cohort was full already: nothing was done.
    Done,
}

impl InfectionSeeder {
    /// How many agents are still to be infected.
    pub closed spec fn remaining(&self) -> nat {
        self.remaining as nat
    }

    /// A seeder for the initial infections of `parameters`. A cohort larger
    /// than the population is refused.
    pub fn new(parameters: &Parameters) -> (seeder: Result<InfectionSeeder, ConfigError>)
        ensures
            seeder.is_ok() == parameters.is_valid(),
            seeder matches Ok(s) ==> s.remaining() == parameters.initial_infections,
            seeder matches Err(error) ==> error == ConfigError::TooManyInitialInfections,
    {
        match parameters.validate() {
            Ok(()) => Ok(InfectionSeeder { remaining: parameters.initial_infections }),
            Err(error) => Err(error),
        }
    }

    /// Whether a seeder with `remaining` agents still to infect takes the
    /// candidate: the cohort is not full, and the candidate exists and is
    /// susceptible.
    pub open spec fn takes(remaining: nat, statuses: Seq<DiseaseStatus>, candidate: usize) -> bool {
        &&& remaining > 0
        &&& candidate < statuses.len()
        &&& statuses[candidate as int] == DiseaseStatus::S
    }

    /// How many agents are still to be infected.
    pub fn left(&self) -> (n: usize)
        ensures
            n == self.remaining(),
    {
        self.remaining
    }

    /// `self` and `simulation` come from `before` and `simulation_before` by
    /// offering `candidate`, and `step` is the answer. A full cohort answers
    /// `Done`. Otherwise a candidate that exists and is susceptible is taken:
    /// it becomes infectious, and one agent less is left to infect. Any other
    /// candidate is rejected. Unless the candidate is taken, nothing changes.
    pub open spec fn offer(
        &self,
        before: &InfectionSeeder,
        simulation: &Simulation,
        simulation_before: &Simulation,
        candidate: usize,
        step: SeedStep,
    ) -> bool {
        &&& (step is Done) == (before.remaining() == 0)
        &&& (step is Seeded) == Self::takes(
            before.remaining(),
            simulation_before.statuses(),
            candidate,
        )
        &&& step matches SeedStep::Seeded(change) ==> simulation.follows(
            simulation_before,
            candidate,
            DiseaseStatus::I,
            Ok::<StatusChange, TransitionError>(change),
        ) && self.remaining() == before.remaining() - 1
        &&& !(step is Seeded) ==> simulation.same_as(simulation_before) && self.remaining()
            == before.remaining()
    }

    /// Offers `candidate` to the seeder. While the cohort is not full, a
    /// susceptible candidate becomes infectious as by
    /// `Simulation::change_status`, and any other candidate is rejected. The
    /// number of infectious agents and the number still to be infected
    /// together stay what they were.
    pub fn seed(&mut self, simulation: &mut Simulation, candidate: usize) -> (step: SeedStep)
        requires
            old(simulation).wf(),
        ensures
            final(simulation).wf(),
            count(final(simulation).statuses(), DiseaseStatus::I) + final(self).remaining()
                == count(old(simulation).statuses(), DiseaseStatus::I) + old(self).remaining(),
            final(self).offer(old(self), final(simulation), old(simulation), candidate, step),
    {
        if self.remaining == 0 {
            return SeedStep::Done;
        }
        match simulation.change_status(candidate, DiseaseStatus::I) {
            Ok(change) => {
                proof {
                    lemma_count_update(
                        old(simulation).statuses(),
                        candidate as int,
                        DiseaseStatus::I,
                        DiseaseStatus::I,
                    );
                }
                self.remaining = self.remaining - 1;
                SeedStep::Seeded(change)
            },
            Err(_) => SeedStep::Rejected,
        }
    }

    /// Draws one candidate among all agents and offers it to the seeder, as
    /// `seed` does. A full cohort draws nothing. The population must hold an
    /// agent to draw.
    pub fn seed_draw(&mut self, simulation: &mut Simulation, rng: &mut StdRng) -> (step: SeedStep)
        requires
            old(simulation).wf(),
            old(simulation).population() > 0,
        ensures
            final(simulation).wf(),
            count(final(simulation).statuses(), DiseaseStatus::I) + final(self).remaining()
                == count(old(simulation).statuses(), DiseaseStatus::I) + old(self).remaining(),
            exists|candidate: usize|
                candidate < old(simulation).population() && #[trigger] final(self).offer(
                    old(self),
                    final(simulation),
                    old(simulation),
                    candidate,
                    step,
                ),
    {
        if self.remaining == 0 {
            proof {
                assert(self.offer(old(self), simulation, old(simulation), 0usize, SeedStep::Done));
            }
            return SeedStep::Done;
        }
        let candidate = draw_person(rng, simulation.len());
        self.seed(simulation, candidate)
    }

    /// The state after the first `upto` candidates of `candidates` were
    /// offered to a seeder with `remaining` agents to infect, one after the
    /// other: the statuses, the number of agents still to be infected, and
    /// the candidates that were taken, in order.
    pub open spec fn offered(
        remaining: nat,
        statuses: Seq<DiseaseStatus>,
        candidates: Seq<usize>,
        upto: int,
    ) -> (Seq<DiseaseStatus>, nat, Seq<usize>)
        decreases upto,
    {
        if upto <= 0 {
            (statuses, remaining, Seq::<usize>::empty())
        } else {
            let before = Self::offered(remaining, statuses, candidates, upto - 1);
            let candidate = candidates[upto - 1];
            if Self::takes(before.1, before.0, candidate) {
                (
                    before.0.update(candidate as int, DiseaseStatus::I),
                    (before.1 - 1) as nat,
                    before.2.push(candidate),
                )
            } else {
                before
            }
        }
    }

    /// Offers the candidates of `candidates` to the seeder, one after the
    /// other, and returns the changes made, in order: one for each candidate
    /// that was taken. The number of infectious agents grows by the number
    /// of changes, which is the number by which the agents still to be
    /// infected shrink. So once none is left to infect, a population that
    /// had no infectious agent holds exactly as many as the cohort asked for.
    pub fn seed_cohort(&mut self, simulation: &mut Simulation, candidates: &Vec<usize>) -> (changes:
        Vec<StatusChange>)
        requires
            old(simulation).wf(),
        ensures
            final(simulation).wf(),
            final(simulation).age_groups() == old(simulation).age_groups(),
            final(simulation).pending() == old(simulation).pending(),
            (final(simulation).statuses(), final(self).remaining(), changes@.map_values(
                |change: StatusChange| change.person_id,
            )) == Self::offered(
                old(self).remaining(),
                old(simulation).statuses(),
                candidates@,
                candidates@.len() as int,
            ),
            forall|j: int|
                0 <= j < changes@.len() ==> #[trigger] changes@[j] == change_effects(
                    old(simulation).pending(),
                    changes@[j].person_id,
                    DiseaseStatus::S,
                    DiseaseStatus::I,
                ),
            count(final(simulation).statuses(), DiseaseStatus::I) == count(
                old(simulation).statuses(),
                DiseaseStatus::I,
            ) + changes@.len(),
            final(self).remaining() + changes@.len() == old(self).remaining(),
    {
        let mut changes: Vec<StatusChange> = Vec::new();
        let mut offered: usize = 0;
        assert(changes@.map_values(|change: StatusChange| change.person_id) =~= Seq::<
            usize,
        >::empty());
        while offered < candidates.len()
            invariant
                offered <= candidates.len(),
                simulation.wf(),
                simulation.age_groups() == old(simulation).age_groups(),
                simulation.pending() == old(simulation).pending(),
                (simulation.statuses(), self.remaining(), changes@.map_values(
                    |change: StatusChange| change.person_id,
                )) == Self::offered(
                    old(self).remaining(),
                    old(simulation).statuses(),
                    candidates@,
                    offered as int,
                ),
                forall|j: int|
                    0 <= j < changes@.len() ==> #[trigger] changes@[j] == change_effects(
                        old(simulation).pending(),
                        changes@[j].person_id,
                        DiseaseStatus::S,
                        DiseaseStatus::I,
                    ),
                count(simulation.statuses(), DiseaseStatus::I) == count(
                    old(simulation).statuses(),
                    DiseaseStatus::I,
                ) + changes@.len(),
                self.remaining() + changes@.len() == old(self).remaining(),
            decreases candidates.len() - offered,
        {
            let ghost taken = changes@.map_values(|change: StatusChange| change.person_id);
            match self.seed(simulation, candidates[offered]) {
                SeedStep::Seeded(change) => {
                    changes.push(change);
                    assert(changes@.map_values(|change: StatusChange| change.person_id)
                        =~= taken.push(candidates@[offered as int]));
                },
                _ => {},
            }
            offered = offered + 1;
        }
        changes
    }
}

} // verus!
