use vstd::prelude::*;
use std::collections::HashMap;
use rand::rngs::StdRng;
use rand::Rng;
use crate::config::{InfectionProbabilities, Real};
use crate::people::People;
use crate::person_properties::{AgeGroup, DiseaseStatus};

verus! {

broadcast use vstd::std_specs::hash::group_hash_axioms;

/// Drives the contacts of the infectious agents of one scenario. It owns the
/// record of pending contacts: for each agent at most one handle of a
/// scheduled contact event.
pub struct TransmissionManager {
    pending: HashMap<usize, usize>,
}

/// What the scheduler has to do for the transmission process after an agent
/// changed status.
#[derive(Clone, Copy, Debug, PartialEq, Eq, Structural)]
pub enum ContactAction {
    /// Draw the time to the agent's next contact, schedule the contact event
    /// and record its handle with `schedule_next_infectious_contact`.
    ScheduleContact,
    /// Cancel the scheduled event with this handle.
    CancelPlan(usize),
    /// Nothing.
    Nothing,
}

/// What a drawn candidate means for the contact of a source.
#[derive(Clone, Copy, Debug, PartialEq, Eq, Structural)]
pub enum ContactStep {
    /// The candidate is the source itself: draw another one.
    Redraw,
    /// The contact is susceptible: it is infected with this probability.
    Exposed { contact: usize, probability: Real },
    /// The contact is not susceptible: nothing happens to it.
    Missed { contact: usize },
}

impl TransmissionManager {
    /// The pending contacts: from an agent to the handle of its scheduled
    /// contact event.
    pub closed spec fn pending(&self) -> Map<usize, usize> {
        self.pending@
    }

    /// Every agent with a pending contact exists and is infectious.
    pub open spec fn tracks(&self, statuses: Seq<DiseaseStatus>) -> bool {
        forall|person: usize| #[trigger]
            self.pending().contains_key(person) ==> person < statuses.len()
                && statuses[person as int] == DiseaseStatus::I
    }

    /// A manager with no pending contact.
    pub fn new() -> (manager: TransmissionManager)
        ensures
            manager.pending() == Map::<usize, usize>::empty(),
    {
        TransmissionManager { pending: HashMap::new() }
    }

    /// The handle of the pending contact of `person_id`, if it has one.
    pub fn pending_contact(&self, person_id: usize) -> (plan: Option<usize>)
        ensures
            plan == (if self.pending().contains_key(person_id) {
                Some(self.pending()[person_id])
            } else {
                None
            }),
    {
        match self.pending.get(&person_id) {
            Some(plan) => Some(*plan),
            None => None,
        }
    }
}

/// What `handle_person_disease_status_change` asks of the scheduler, given
/// the pending contacts before it and the agent's new status.
pub open spec fn action_after_change(
    pending: Map<usize, usize>,
    person_id: usize,
    status: DiseaseStatus,
) -> ContactAction {
    match status {
        DiseaseStatus::I => ContactAction::ScheduleContact,
        DiseaseStatus::R | DiseaseStatus::D => if pending.contains_key(person_id) {
            ContactAction::CancelPlan(pending[person_id])
        } else {
            ContactAction::Nothing
        },
        DiseaseStatus::S => ContactAction::Nothing,
    }
}

/// Reacts to a change of the status of `person_id`, whose new status stands
/// in `people`. An agent that became infectious gets a next contact; one that
/// recovered or died loses its pending contact, whose event is to be
/// cancelled.
pub fn handle_person_disease_status_change(
    manager: &mut TransmissionManager,
    people: &People,
    person_id: usize,
    _previous: DiseaseStatus,
) -> (action: ContactAction)
    requires
        person_id < people.population(),
    ensures
        action == action_after_change(
            old(manager).pending(),
            person_id,
            people.statuses()[person_id as int],
        ),
        final(manager).pending() == (match people.statuses()[person_id as int] {
            DiseaseStatus::R | DiseaseStatus::D => old(manager).pending().remove(person_id),
            _ => old(manager).pending(),
        }),
{
    match people.get_status(person_id) {
        DiseaseStatus::I => ContactAction::ScheduleContact,
        DiseaseStatus::R | DiseaseStatus::D => {
            match cancel_next_infectious_contact(manager, person_id) {
                Some(plan) => ContactAction::CancelPlan(plan),
                None => ContactAction::Nothing,
            }
        },
        DiseaseStatus::S => ContactAction::Nothing,
    }
}

/// Records `contact_plan` as the handle of the next contact event of
/// `person_id`. Only an infectious agent has a next contact: for any other
/// agent nothing is recorded, and the event is to be cancelled.
pub fn schedule_next_infectious_contact(
    manager: &mut TransmissionManager,
    people: &People,
    person_id: usize,
    contact_plan: usize,
) -> (recorded: bool)
    ensures
        recorded == (person_id < people.population() && people.statuses()[person_id as int]
            == DiseaseStatus::I),
        recorded ==> final(manager).pending() == old(manager).pending().insert(
            person_id,
            contact_plan,
        ),
        !recorded ==> final(manager).pending() == old(manager).pending(),
        old(manager).tracks(people.statuses()) ==> final(manager).tracks(people.statuses()),
{
    if person_id < people.len() && matches!(people.get_status(person_id), DiseaseStatus::I) {
        manager.pending.insert(person_id, contact_plan);
        proof {
            assert forall|person: usize| #[trigger]
                manager.pending().contains_key(person) implies person == person_id || old(
                manager,
            ).pending().contains_key(person) by {}
        }
        true
    } else {
        false
    }
}

/// Forgets the pending contact of `person_id` and returns its handle, if
/// there was one.
pub fn cancel_next_infectious_contact(manager: &mut TransmissionManager, person_id: usize) -> (plan:
    Option<usize>)
    ensures
        final(manager).pending() == old(manager).pending().remove(person_id),
        !final(manager).pending().contains_key(person_id),
        plan == (if old(manager).pending().contains_key(person_id) {
            Some(old(manager).pending()[person_id])
        } else {
            None
        }),
{
    manager.pending.remove(&person_id)
}

/// The contact event of `source_person_id` has fired: its pending contact is
/// no longer pending. Says whether a contact is to be drawn, which is so when
/// the population holds more than one agent.
pub fn attempt_infection(
    manager: &mut TransmissionManager,
    people: &People,
    source_person_id: usize,
) -> (draws_contact: bool)
    ensures
        draws_contact == (people.population() > 1),
        final(manager).pending() == old(manager).pending().remove(source_person_id),
        old(manager).tracks(people.statuses()) ==> final(manager).tracks(people.statuses()),
{
    manager.pending.remove(&source_person_id);
    people.len() > 1
}

/// What the candidate `candidate` means for the contact of `source`.
pub open spec fn contact_step(
    statuses: Seq<DiseaseStatus>,
    age_groups: Seq<AgeGroup>,
    matrix: InfectionProbabilities,
    source: usize,
    candidate: usize,
) -> ContactStep {
    if candidate == source {
        ContactStep::Redraw
    } else if statuses[candidate as int] == DiseaseStatus::S {
        ContactStep::Exposed {
            contact: candidate,
            probability: matrix.entry(age_groups[source as int], age_groups[candidate as int]),
        }
    } else {
        ContactStep::Missed { contact: candidate }
    }
}

/// Resolves a candidate drawn for the contact of `source_person_id`. The
/// source itself is no contact. A susceptible contact is exposed, with the
/// probability that the matrix holds for the age groups of source and
/// contact, in this order. Any other contact is missed.
pub fn resolve_contact(
    people: &People,
    matrix: &InfectionProbabilities,
    source_person_id: usize,
    candidate: usize,
) -> (step: ContactStep)
    requires
        people.wf(),
        source_person_id < people.population(),
        candidate < people.population(),
    ensures
        step == contact_step(
            people.statuses(),
            people.age_groups(),
            *matrix,
            source_person_id,
            candidate,
        ),
{
    if candidate == source_person_id {
        return ContactStep::Redraw;
    }
    if matches!(people.get_status(candidate), DiseaseStatus::S) {
        let source_age_group = people.get_age_group(source_person_id);
        let contact_age_group = people.get_age_group(candidate);
        ContactStep::Exposed {
            contact: candidate,
            probability: matrix.probability(source_age_group, contact_age_group),
        }
    } else {
        ContactStep::Missed { contact: candidate }
    }
}

/// The standard generator of the `rand` crate. Nothing of its state is
/// visible here: it is only handed on to the draw.
#[verifier::external_type_specification]
#[verifier::external_body]
pub struct ExStdRng(StdRng);

/// Draws an agent with `rand::Rng::gen_range` on the range from zero up to,
/// and without, `population`. Trusted, not proved: the range must not be
/// empty, since the call panics on an empty range, and the value drawn lies
/// in the range. Which value comes is left open.
#[verifier::external_body]
pub(crate) fn draw_person(rng: &mut StdRng, population: usize) -> (person: usize)
    requires
        population > 0,
    ensures
        person < population,
{
    rng.gen_range(0..population)
}

/// Draws one candidate for the contact of `source_person_id` among all
/// agents and resolves it as `resolve_contact` does. On `Redraw` the caller
/// draws again.
pub fn draw_contact(
    people: &People,
    matrix: &InfectionProbabilities,
    rng: &mut StdRng,
    source_person_id: usize,
) -> (step: ContactStep)
    requires
        people.wf(),
        source_person_id < people.population(),
    ensures
        exists|candidate: usize|
            candidate < people.population() && step == #[trigger] contact_step(
                people.statuses(),
                people.age_groups(),
                *matrix,
                source_person_id,
                candidate,
            ),
{
    let candidate = draw_person(rng, people.len());
    resolve_contact(people, matrix, source_person_id, candidate)
}

} // verus!
