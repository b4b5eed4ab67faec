use vstd::prelude::*;
use rand::rngs::StdRng;
use crate::config::{InfectionProbabilities, Real};
use crate::infection_manager::{outcome, resolve_outcome, schedules_outcome};
use crate::people::{count, People, TransitionError};
use crate::person_properties::{AgeGroup, DiseaseStatus};
use crate::reports::{report_for, reported, ReportKind};
use crate::transmission_manager::{
    action_after_change, attempt_infection, contact_step, draw_contact,
    handle_person_disease_status_change, resolve_contact, schedule_next_infectious_contact,
    ContactAction, ContactStep, TransmissionManager,
};

verus! {

/// A change of status that was made, with what each observer of the change
/// asks for: the transmission process, the infection process and the reports.
#[derive(Clone, Copy, Debug)]
pub struct StatusChange {
    pub person_id: usize,
    pub previous: DiseaseStatus,
    pub status: DiseaseStatus,
    /// What the scheduler does for the agent's contacts.
    pub contact: ContactAction,
    /// Whether the agent's outcome event is to be scheduled.
    pub schedules_outcome: bool,
    /// The report that gets one record of the change, if any.
    pub report: Option<ReportKind>,
}

/// The change of `person_id` from `previous` to `next`, as its observers see
/// it, where `pending` holds the pending contacts before the change.
pub open spec fn change_effects(
    pending: Map<usize, usize>,
    person_id: usize,
    previous: DiseaseStatus,
    next: DiseaseStatus,
) -> StatusChange {
    StatusChange {
        person_id,
        previous,
        status: next,
        contact: action_after_change(pending, person_id, next),
        schedules_outcome: next == DiseaseStatus::I,
        report: reported(next),
    }
}

/// The state of one scenario: its agents and the pending contacts of its
/// transmission process. Nothing of it is shared with another scenario.
pub struct Simulation {
    people: People,
    transmission: TransmissionManager,
}

impl Simulation {
    /// The status of every agent, by identity.
    pub closed spec fn statuses(&self) -> Seq<DiseaseStatus> {
        self.people.statuses()
    }

    /// The age group of every agent, by identity.
    pub closed spec fn age_groups(&self) -> Seq<AgeGroup> {
        self.people.age_groups()
    }

    /// The pending contacts: from an agent to the handle of its scheduled
    /// contact event.
    pub closed spec fn pending(&self) -> Map<usize, usize> {
        self.transmission.pending()
    }

    /// Every agent has a status and an age group, and only infectious agents
    /// have a pending contact.
    pub closed spec fn wf(&self) -> bool {
        &&& self.people.wf()
        &&& self.transmission.tracks(self.people.statuses())
    }

    /// The number of agents.
    pub open spec fn population(&self) -> nat {
        self.statuses().len()
    }

    /// Nothing changed between `before` and `self`.
    pub open spec fn same_as(&self, before: &Simulation) -> bool {
        &&& self.statuses() == before.statuses()
        &&& self.age_groups() == before.age_groups()
        &&& self.pending() == before.pending()
    }

    /// `self` comes from `before` by the attempt to give `person_id` the
    /// status `next`, and `changed` is what the attempt answered. A change
    /// along an edge of the status graph is made, and an agent that leaves
    /// the infectious status loses its pending contact with it. Any other
    /// attempt is refused and changes nothing.
    pub open spec fn follows(
        &self,
        before: &Simulation,
        person_id: usize,
        next: DiseaseStatus,
        changed: Result<StatusChange, TransitionError>,
    ) -> bool {
        match People::status_change(before.statuses(), person_id, next) {
            Ok(previous) => {
                &&& changed == Ok::<StatusChange, TransitionError>(
                    change_effects(before.pending(), person_id, previous, next),
                )
                &&& self.statuses() == before.statuses().update(person_id as int, next)
                &&& self.age_groups() == before.age_groups()
                &&& self.pending() == (if next == DiseaseStatus::I {
                    before.pending()
                } else {
                    before.pending().remove(person_id)
                })
            },
            Err(error) => {
                &&& changed == Err::<StatusChange, TransitionError>(error)
                &&& self.same_as(before)
            },
        }
    }

    /// Whatever an attempt to change a status answers, every agent keeps its
    /// status or moves along one edge of the status graph, and no agent
    /// appears or disappears.
    pub proof fn lemma_step_follows_graph(
        &self,
        before: &Simulation,
        person_id: usize,
        next: DiseaseStatus,
        changed: Result<StatusChange, TransitionError>,
    )
        requires
            self.follows(before, person_id, next, changed),
        ensures
            self.population() == before.population(),
            forall|i: int|
                0 <= i < before.population() ==> {
                    ||| self.statuses()[i] == before.statuses()[i]
                    ||| (#[trigger] before.statuses()[i]).may_become(self.statuses()[i])
                },
    {
    }

    /// An agent that is not infectious has no pending contact: once it has
    /// recovered or died, no contact event with it as source is left.
    pub proof fn lemma_no_orphaned_contact(&self, person_id: usize)
        requires
            self.wf(),
            person_id >= self.population() || self.statuses()[person_id as int]
                != DiseaseStatus::I,
        ensures
            !self.pending().contains_key(person_id),
    {
    }

    /// Every agent has an age group.
    pub proof fn lemma_columns_agree(&self)
        requires
            self.wf(),
        ensures
            self.age_groups().len() == self.population(),
    {
        self.people.lemma_columns_agree();
    }

    /// A scenario of `population` agents, all susceptible and all children,
    /// with no pending contact.
    pub fn new(population: usize) -> (simulation: Simulation)
        ensures
            simulation.wf(),
            simulation.population() == population,
            simulation.age_groups().len() == population,
            forall|i: int| 0 <= i < population ==> simulation.statuses()[i] == DiseaseStatus::S,
            forall|i: int| 0 <= i < population ==> simulation.age_groups()[i] == AgeGroup::Child,
            simulation.pending() == Map::<usize, usize>::empty(),
    {
        Simulation { people: People::load(population), transmission: TransmissionManager::new() }
    }

    /// A scenario with one agent for each entry of `age_group`, with the
    /// entry as its age group and its place as its identity, all susceptible,
    /// with no pending contact.
    pub fn with_age_groups(age_group: Vec<AgeGroup>) -> (simulation: Simulation)
        ensures
            simulation.wf(),
            simulation.population() == age_group@.len(),
            simulation.age_groups() == age_group@,
            forall|i: int|
                0 <= i < age_group@.len() ==> simulation.statuses()[i] == DiseaseStatus::S,
            simulation.pending() == Map::<usize, usize>::empty(),
    {
        Simulation {
            people: People::with_age_groups(age_group),
            transmission: TransmissionManager::new(),
        }
    }

    /// The number of agents.
    pub fn len(&self) -> (n: usize)
        ensures
            n == self.population(),
    {
        self.people.len()
    }

    /// The status of the agent `person_id`.
    pub fn get_status(&self, person_id: usize) -> (status: DiseaseStatus)
        requires
            person_id < self.population(),
        ensures
            status == self.statuses()[person_id as int],
    {
        self.people.get_status(person_id)
    }

    /// How many agents have the status `status`.
    pub fn count_status(&self, status: DiseaseStatus) -> (total: usize)
        ensures
            total == count(self.statuses(), status),
    {
        self.people.count_status(status)
    }

    /// The age group of the agent `person_id`.
    pub fn get_age_group(&self, person_id: usize) -> (group: AgeGroup)
        requires
            self.wf(),
            person_id < self.population(),
        ensures
            group == self.age_groups()[person_id as int],
    {
        self.people.get_age_group(person_id)
    }

    /// Assigns the agent `person_id` the age group `group`. An identity that
    /// no agent has changes nothing.
    pub fn set_age_group(&mut self, person_id: usize, group: AgeGroup) -> (assigned: bool)
        requires
            old(self).wf(),
        ensures
            final(self).wf(),
            final(self).statuses() == old(self).statuses(),
            final(self).pending() == old(self).pending(),
            assigned == (person_id < old(self).population()),
            assigned ==> final(self).age_groups() == old(self).age_groups().update(
                person_id as int,
                group,
            ),
            !assigned ==> final(self).age_groups() == old(self).age_groups(),
    {
        self.people.set_age_group(person_id, group)
    }

    /// The handle of the pending contact of `person_id`, if it has one.
    pub fn pending_contact(&self, person_id: usize) -> (plan: Option<usize>)
        ensures
            plan == (if self.pending().contains_key(person_id) {
                Some(self.pending()[person_id])
            } else {
                None
            }),
    {
        self.transmission.pending_contact(person_id)
    }

    /// Gives the agent `person_id` the status `next` and lets the observers
    /// of the change react, the transmission process first. The answer says
    /// what the scheduler has to do.
    pub fn change_status(&mut self, person_id: usize, next: DiseaseStatus) -> (changed: Result<
        StatusChange,
        TransitionError,
    >)
        requires
            old(self).wf(),
        ensures
            final(self).wf(),
            final(self).follows(old(self), person_id, next, changed),
    {
        match self.people.set_status(person_id, next) {
            Err(error) => Err(error),
            Ok(previous) => {
                let contact = handle_person_disease_status_change(
                    &mut self.transmission,
                    &self.people,
                    person_id,
                    previous,
                );
                Ok(
                    StatusChange {
                        person_id,
                        previous,
                        status: next,
                        contact,
                        schedules_outcome: schedules_outcome(next),
                        report: report_for(next),
                    },
                )
            },
        }
    }

    /// Records `contact_plan` as the handle of the next contact event of
    /// `person_id`. Only an infectious agent has a next contact: for any
    /// other agent nothing is recorded, and the event is to be cancelled.
    pub fn record_contact_plan(&mut self, person_id: usize, contact_plan: usize) -> (recorded: bool)
        requires
            old(self).wf(),
        ensures
            final(self).wf(),
            final(self).statuses() == old(self).statuses(),
            final(self).age_groups() == old(self).age_groups(),
            recorded == (person_id < old(self).population() && old(self).statuses()[person_id as int]
                == DiseaseStatus::I),
            recorded ==> final(self).pending() == old(self).pending().insert(
                person_id,
                contact_plan,
            ),
            !recorded ==> final(self).pending() == old(self).pending(),
    {
        schedule_next_infectious_contact(
            &mut self.transmission,
            &self.people,
            person_id,
            contact_plan,
        )
    }

    /// The contact event of `source_person_id` has fired: its pending
    /// contact is no longer pending. Says whether a contact is to be drawn,
    /// which is so when the population holds more than one agent; otherwise
    /// the source has no further contact.
    pub fn contact_fired(&mut self, source_person_id: usize) -> (draws_contact: bool)
        requires
            old(self).wf(),
        ensures
            final(self).wf(),
            final(self).statuses() == old(self).statuses(),
            final(self).age_groups() == old(self).age_groups(),
            final(self).pending() == old(self).pending().remove(source_person_id),
            draws_contact == (old(self).population() > 1),
    {
        attempt_infection(&mut self.transmission, &self.people, source_person_id)
    }

    /// Resolves a candidate drawn for the contact of `source_person_id`.
    pub fn resolve_contact(
        &self,
        matrix: &InfectionProbabilities,
        source_person_id: usize,
        candidate: usize,
    ) -> (step: ContactStep)
        requires
            self.wf(),
            source_person_id < self.population(),
            candidate < self.population(),
        ensures
            step == contact_step(
                self.statuses(),
                self.age_groups(),
                *matrix,
                source_person_id,
                candidate,
            ),
    {
        resolve_contact(&self.people, matrix, source_person_id, candidate)
    }

    /// Draws one candidate for the contact of `source_person_id` among all
    /// agents and resolves it. On `Redraw` the caller draws again.
    pub fn draw_contact(
        &self,
        matrix: &InfectionProbabilities,
        rng: &mut StdRng,
        source_person_id: usize,
    ) -> (step: ContactStep)
        requires
            self.wf(),
            source_person_id < self.population(),
        ensures
            exists|candidate: usize|
                candidate < self.population() && step == #[trigger] contact_step(
                    self.statuses(),
                    self.age_groups(),
                    *matrix,
                    source_person_id,
                    candidate,
                ),
    {
        let step = draw_contact(&self.people, matrix, rng, source_person_id);
        proof {
            let drawn = choose|candidate: usize|
                candidate < self.people.population() && step == #[trigger] contact_step(
                    self.people.statuses(),
                    self.people.age_groups(),
                    *matrix,
                    source_person_id,
                    candidate,
                );
            assert(step == contact_step(
                self.statuses(),
                self.age_groups(),
                *matrix,
                source_person_id,
                drawn,
            ));
        }
        step
    }

    /// Whether the contact of `source` with `contact` infects on the uniform
    /// draw `draw`: the contact is another agent, it is susceptible, and the
    /// draw is strictly less than the probability that the matrix holds for
    /// the age groups of source and contact, in this order.
    pub open spec fn infects(
        &self,
        matrix: InfectionProbabilities,
        source: usize,
        contact: usize,
        draw: Real,
    ) -> bool {
        match contact_step(self.statuses(), self.age_groups(), matrix, source, contact) {
            ContactStep::Exposed { probability, .. } => draw.bits < probability.bits,
            _ => false,
        }
    }

    /// Exposes `contact` to the infectious `source_person_id` on the uniform
    /// draw `draw`. Where the contact infects, the contact becomes
    /// infectious as by `change_status`; otherwise nothing changes.
    pub fn expose(
        &mut self,
        matrix: &InfectionProbabilities,
        source_person_id: usize,
        contact: usize,
        draw: Real,
    ) -> (infection: Option<StatusChange>)
        requires
            old(self).wf(),
            source_person_id < old(self).population(),
            contact < old(self).population(),
        ensures
            final(self).wf(),
            infection.is_some() == old(self).infects(*matrix, source_person_id, contact, draw),
            infection matches Some(change) ==> final(self).follows(
                old(self),
                contact,
                DiseaseStatus::I,
                Ok::<StatusChange, TransitionError>(change),
            ),
            infection.is_none() ==> final(self).same_as(old(self)),
    {
        match self.resolve_contact(matrix, source_person_id, contact) {
            ContactStep::Exposed { contact, probability } => {
                if probability.happens_on(draw) {
                    match self.change_status(contact, DiseaseStatus::I) {
                        Ok(change) => Some(change),
                        Err(_) => None,
                    }
                } else {
                    None
                }
            },
            _ => None,
        }
    }

    /// The outcome event of `person_id` has fired: on the uniform draw
    /// `draw` the agent dies when the draw is strictly less than the death
    /// rate, and recovers otherwise.
    pub fn outcome_fired(&mut self, person_id: usize, death_rate: Real, draw: Real) -> (changed:
        Result<StatusChange, TransitionError>)
        requires
            old(self).wf(),
        ensures
            final(self).wf(),
            final(self).follows(old(self), person_id, outcome(death_rate, draw), changed),
    {
        let next = resolve_outcome(death_rate, draw);
        self.change_status(person_id, next)
    }
}

} // verus!
