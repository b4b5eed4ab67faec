use vstd::prelude::*;
use crate::person_properties::{AgeGroup, DiseaseStatus};

verus! {

/// How many agents of `statuses` have the status `status`.
pub open spec fn count(statuses: Seq<DiseaseStatus>, status: DiseaseStatus) -> nat
    decreases statuses.len(),
{
    if statuses.len() == 0 {
        0
    } else {
        count(statuses.drop_last(), status) + if statuses.last() == status {
            1nat
        } else {
            0nat
        }
    }
}

/// How many agents of `statuses` have ever been infectious: those that are
/// no longer susceptible.
pub open spec fn count_ever_infected(statuses: Seq<DiseaseStatus>) -> nat {
    (statuses.len() - count(statuses, DiseaseStatus::S)) as nat
}

/// Every agent has exactly one status, so the four counts add up to the
/// number of agents.
pub proof fn lemma_counts_partition(statuses: Seq<DiseaseStatus>)
    ensures
        count(statuses, DiseaseStatus::S) + count(statuses, DiseaseStatus::I) + count(
            statuses,
            DiseaseStatus::R,
        ) + count(statuses, DiseaseStatus::D) == statuses.len(),
    decreases statuses.len(),
{
    if statuses.len() > 0 {
        lemma_counts_partition(statuses.drop_last());
    }
}

/// Changing one agent's status moves one unit from the count of its old
/// status to the count of its new one, and leaves every other count alone.
pub proof fn lemma_count_update(
    statuses: Seq<DiseaseStatus>,
    person: int,
    next: DiseaseStatus,
    status: DiseaseStatus,
)
    requires
        0 <= person < statuses.len(),
    ensures
        count(statuses.update(person, next), status) + (if statuses[person] == status {
            1nat
        } else {
            0nat
        }) == count(statuses, status) + (if next == status {
            1nat
        } else {
            0nat
        }),
    decreases statuses.len(),
{
    let updated = statuses.update(person, next);
    if person == statuses.len() - 1 {
        assert(updated.drop_last() =~= statuses.drop_last());
    } else {
        assert(updated.drop_last() =~= statuses.drop_last().update(person, next));
        lemma_count_update(statuses.drop_last(), person, next, status);
    }
}

/// A population that holds only susceptible agents has none of another
/// status.
pub proof fn lemma_count_all_susceptible(statuses: Seq<DiseaseStatus>, status: DiseaseStatus)
    requires
        forall|i: int| 0 <= i < statuses.len() ==> statuses[i] == DiseaseStatus::S,
        status != DiseaseStatus::S,
    ensures
        count(statuses, status) == 0,
    decreases statuses.len(),
{
    if statuses.len() > 0 {
        lemma_count_all_susceptible(statuses.drop_last(), status);
    }
}

/// The number of agents that were ever infectious never exceeds the
/// population, and once no agent is infectious any more it equals the
/// number of the recovered and the dead together.
pub proof fn lemma_ever_infected_accounting(statuses: Seq<DiseaseStatus>)
    ensures
        count_ever_infected(statuses) <= statuses.len(),
        count(statuses, DiseaseStatus::I) == 0 ==> count(statuses, DiseaseStatus::R) + count(
            statuses,
            DiseaseStatus::D,
        ) == count_ever_infected(statuses),
{
    lemma_counts_partition(statuses);
}

/// An attempt to give an agent a status that its present status does not
/// lead to, or to reach an agent that does not exist.
#[derive(Clone, Copy, Debug, PartialEq, Eq, Structural)]
pub enum TransitionError {
    /// No agent has this identity.
    UnknownPerson,
    /// The status graph has no edge from the agent's status to the new one.
    Forbidden,
}

/// The agents of one scenario: a table with one column per attribute, in
/// which an agent's identity is its row.
pub struct People {
    status: Vec<DiseaseStatus>,
    age_group: Vec<AgeGroup>,
}

impl People {
    /// The status of every agent, by identity.
    pub closed spec fn statuses(&self) -> Seq<DiseaseStatus> {
        self.status@
    }

    /// The age group of every agent, by identity.
    pub closed spec fn age_groups(&self) -> Seq<AgeGroup> {
        self.age_group@
    }

    /// The two columns have one row per agent.
    pub closed spec fn wf(&self) -> bool {
        self.status@.len() == self.age_group@.len()
    }

    /// The number of agents.
    pub open spec fn population(&self) -> nat {
        self.statuses().len()
    }

    /// A well-formed table holds an age group for every agent.
    pub proof fn lemma_columns_agree(&self)
        requires
            self.wf(),
        ensures
            self.age_groups().len() == self.population(),
    {
    }

    /// Creates `population` agents with the identities `0` to
    /// `population - 1`, all susceptible and all children.
    pub fn load(population: usize) -> (people: People)
        ensures
            people.wf(),
            people.population() == population,
            people.age_groups().len() == population,
            forall|i: int| 0 <= i < population ==> people.statuses()[i] == DiseaseStatus::S,
            forall|i: int| 0 <= i < population ==> people.age_groups()[i] == AgeGroup::Child,
    {
        let mut status: Vec<DiseaseStatus> = Vec::new();
        let mut age_group: Vec<AgeGroup> = Vec::new();
        let mut created: usize = 0;
        while created < population
            invariant
                created <= population,
                status@.len() == created,
                age_group@.len() == created,
                forall|i: int| 0 <= i < created ==> status@[i] == DiseaseStatus::S,
                forall|i: int| 0 <= i < created ==> age_group@[i] == AgeGroup::Child,
            decreases population - created,
        {
            status.push(DiseaseStatus::S);
            age_group.push(AgeGroup::Child);
            created = created + 1;
        }
        People { status, age_group }
    }

    /// Creates one agent for each entry of `age_group`, with the entry as
    /// its age group and its place as its identity, all susceptible.
    pub fn with_age_groups(age_group: Vec<AgeGroup>) -> (people: People)
        ensures
            people.wf(),
            people.population() == age_group@.len(),
            people.age_groups() == age_group@,
            forall|i: int| 0 <= i < age_group@.len() ==> people.statuses()[i] == DiseaseStatus::S,
    {
        let mut status: Vec<DiseaseStatus> = Vec::new();
        while status.len() < age_group.len()
            invariant
                status@.len() <= age_group@.len(),
                forall|i: int| 0 <= i < status@.len() ==> status@[i] == DiseaseStatus::S,
            decreases age_group@.len() - status@.len(),
        {
            status.push(DiseaseStatus::S);
        }
        People { status, age_group }
    }

    /// The number of agents.
    pub fn len(&self) -> (n: usize)
        ensures
            n == self.population(),
    {
        self.status.len()
    }

    /// The status of the agent `person`.
    pub fn get_status(&self, person: usize) -> (status: DiseaseStatus)
        requires
            person < self.population(),
        ensures
            status == self.statuses()[person as int],
    {
        self.status[person]
    }

    /// How many agents have the status `status`.
    pub fn count_status(&self, status: DiseaseStatus) -> (total: usize)
        ensures
            total == count(self.statuses(), status),
    {
        let mut total: usize = 0;
        let mut person: usize = 0;
        while person < self.status.len()
            invariant
                person <= self.status.len(),
                total <= person,
                total == count(self.status@.take(person as int), status),
            decreases self.status.len() - person,
        {
            proof {
                assert(self.status@.take(person + 1).drop_last() =~= self.status@.take(
                    person as int,
                ));
            }
            if self.status[person] == status {
                total = total + 1;
            }
            person = person + 1;
        }
        proof {
            assert(self.status@.take(person as int) =~= self.status@);
        }
        total
    }

    /// The age group of the agent `person`.
    pub fn get_age_group(&self, person: usize) -> (group: AgeGroup)
        requires
            self.wf(),
            person < self.population(),
        ensures
            group == self.age_groups()[person as int],
    {
        self.age_group[person]
    }

    /// Assigns the agent `person` the age group `group`. An identity that no
    /// agent has changes nothing.
    pub fn set_age_group(&mut self, person: usize, group: AgeGroup) -> (assigned: bool)
        requires
            old(self).wf(),
        ensures
            final(self).wf(),
            final(self).statuses() == old(self).statuses(),
            assigned == (person < old(self).population()),
            assigned ==> final(self).age_groups() == old(self).age_groups().update(
                person as int,
                group,
            ),
            !assigned ==> final(self).age_groups() == old(self).age_groups(),
    {
        if person < self.age_group.len() {
            self.age_group[person] = group;
            true
        } else {
            false
        }
    }

    /// Gives the agent `person` the status `next` and returns the status it
    /// had. The change is made only along an edge of the status graph;
    /// otherwise nothing changes.
    pub fn set_status(&mut self, person: usize, next: DiseaseStatus) -> (changed: Result<
        DiseaseStatus,
        TransitionError,
    >)
        requires
            old(self).wf(),
        ensures
            final(self).wf(),
            final(self).age_groups() == old(self).age_groups(),
            changed == Self::status_change(old(self).statuses(), person, next),
            changed.is_ok() ==> final(self).statuses() == old(self).statuses().update(
                person as int,
                next,
            ),
            changed.is_err() ==> final(self).statuses() == old(self).statuses(),
    {
        if person >= self.status.len() {
            return Err(TransitionError::UnknownPerson);
        }
        let previous = self.status[person];
        if !previous.can_become(next) {
            return Err(TransitionError::Forbidden);
        }
        self.status[person] = next;
        Ok(previous)
    }

    /// What `set_status` answers: the previous status when the change
    /// follows an edge of the status graph, and otherwise why it was refused.
    pub open spec fn status_change(
        statuses: Seq<DiseaseStatus>,
        person: usize,
        next: DiseaseStatus,
    ) -> Result<DiseaseStatus, TransitionError> {
        if person >= statuses.len() {
            Err(TransitionError::UnknownPerson)
        } else if !statuses[person as int].may_become(next) {
            Err(TransitionError::Forbidden)
        } else {
            Ok(statuses[person as int])
        }
    }
}

} // verus!
