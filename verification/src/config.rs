use vstd::prelude::*;
use crate::person_properties::AgeGroup;

verus! {

/// The bit pattern of the number one in the binary64 encoding.
pub const ONE_BITS: u64 = 0x3FF0_0000_0000_0000;

/// A non-negative real number, held as the bit pattern of its binary64
/// encoding. On non-negative numbers the numeric order is the unsigned order
/// of the bit patterns, so two such values compare as their `bits` do.
#[derive(Clone, Copy, Debug, PartialEq, Eq, Structural)]
pub struct Real {
    pub bits: u64,
}

impl Real {
    /// The value lies between zero and one, one excluded: a uniform draw.
    pub open spec fn is_unit_draw(self) -> bool {
        self.bits < ONE_BITS
    }

    /// Whether an event of this probability happens on the uniform draw
    /// `draw`: it does when the draw is strictly less than the probability.
    pub fn happens_on(self, draw: Real) -> (happens: bool)
        ensures
            happens == (draw.bits < self.bits),
    {
        draw.bits < self.bits
    }
}

/// Probability that a contact infects, for each ordered pair of the age group
/// of the source and the age group of the contact.
#[derive(Clone, Copy, Debug, PartialEq, Eq, Structural)]
pub struct InfectionProbabilities {
    pub child_to_child: Real,
    pub child_to_adult: Real,
    pub adult_to_child: Real,
    pub adult_to_adult: Real,
    pub adult_to_elderly: Real,
    pub elderly_to_adult: Real,
    pub child_to_elderly: Real,
    pub elderly_to_child: Real,
    pub elderly_to_elderly: Real,
}

impl InfectionProbabilities {
    /// The entry for a source of age group `source` and a contact of age
    /// group `contact`.
    pub open spec fn entry(self, source: AgeGroup, contact: AgeGroup) -> Real {
        match (source, contact) {
            (AgeGroup::Child, AgeGroup::Child) => self.child_to_child,
            (AgeGroup::Child, AgeGroup::Adult) => self.child_to_adult,
            (AgeGroup::Child, AgeGroup::Elderly) => self.child_to_elderly,
            (AgeGroup::Adult, AgeGroup::Child) => self.adult_to_child,
            (AgeGroup::Adult, AgeGroup::Adult) => self.adult_to_adult,
            (AgeGroup::Adult, AgeGroup::Elderly) => self.adult_to_elderly,
            (AgeGroup::Elderly, AgeGroup::Child) => self.elderly_to_child,
            (AgeGroup::Elderly, AgeGroup::Adult) => self.elderly_to_adult,
            (AgeGroup::Elderly, AgeGroup::Elderly) => self.elderly_to_elderly,
        }
    }

    /// A matrix with the same probability for every pair.
    pub fn uniform(probability: Real) -> (matrix: InfectionProbabilities)
        ensures
            forall|source: AgeGroup, contact: AgeGroup|
                #[trigger] matrix.entry(source, contact) == probability,
    {
        InfectionProbabilities {
            child_to_child: probability,
            child_to_adult: probability,
            adult_to_child: probability,
            adult_to_adult: probability,
            adult_to_elderly: probability,
            elderly_to_adult: probability,
            child_to_elderly: probability,
            elderly_to_child: probability,
            elderly_to_elderly: probability,
        }
    }

    /// Looks up the probability that a source of age group `source` infects a
    /// susceptible contact of age group `contact`.
    pub fn probability(&self, source: AgeGroup, contact: AgeGroup) -> (p: Real)
        ensures
            p == self.entry(source, contact),
    {
        match (source, contact) {
            (AgeGroup::Child, AgeGroup::Child) => self.child_to_child,
            (AgeGroup::Child, AgeGroup::Adult) => self.child_to_adult,
            (AgeGroup::Child, AgeGroup::Elderly) => self.child_to_elderly,
            (AgeGroup::Adult, AgeGroup::Child) => self.adult_to_child,
            (AgeGroup::Adult, AgeGroup::Adult) => self.adult_to_adult,
            (AgeGroup::Adult, AgeGroup::Elderly) => self.adult_to_elderly,
            (AgeGroup::Elderly, AgeGroup::Child) => self.elderly_to_child,
            (AgeGroup::Elderly, AgeGroup::Adult) => self.elderly_to_adult,
            (AgeGroup::Elderly, AgeGroup::Elderly) => self.elderly_to_elderly,
        }
    }
}

/// The lookup is directional: the entry for a pair and the entry for the
/// reversed pair are two fields of the matrix, so a matrix that differs
/// between the two directions gives two different probabilities.
pub proof fn lemma_lookup_is_directional(matrix: InfectionProbabilities)
    ensures
        matrix.child_to_adult != matrix.adult_to_child ==> matrix.entry(
            AgeGroup::Child,
            AgeGroup::Adult,
        ) != matrix.entry(AgeGroup::Adult, AgeGroup::Child),
        matrix.child_to_elderly != matrix.elderly_to_child ==> matrix.entry(
            AgeGroup::Child,
            AgeGroup::Elderly,
        ) != matrix.entry(AgeGroup::Elderly, AgeGroup::Child),
        matrix.adult_to_elderly != matrix.elderly_to_adult ==> matrix.entry(
            AgeGroup::Adult,
            AgeGroup::Elderly,
        ) != matrix.entry(AgeGroup::Elderly, AgeGroup::Adult),
{
}

/// The parameters of one scenario.
#[derive(Clone, Copy, Debug, PartialEq, Eq, Structural)]
pub struct Parameters {
    pub population: usize,
    pub r0: Real,
    pub infectious_period: Real,
    pub initial_infections: usize,
    pub random_seed: u64,
    pub death_rate: Real,
    pub infection_probabilities: InfectionProbabilities,
}

/// What is wrong with a set of parameters.
#[derive(Clone, Copy, Debug, PartialEq, Eq, Structural)]
pub enum ConfigError {
    /// More initial infections are asked for than there are agents.
    TooManyInitialInfections,
}

impl Parameters {
    /// The initial cohort fits in the population.
    pub open spec fn is_valid(self) -> bool {
        self.initial_infections <= self.population
    }

    /// Accepts the parameters when the initial cohort fits in the population.
    pub fn validate(&self) -> (checked: Result<(), ConfigError>)
        ensures
            checked.is_ok() == self.is_valid(),
            checked.is_err() ==> checked == Err::<(), ConfigError>(
                ConfigError::TooManyInitialInfections,
            ),
    {
        if self.initial_infections > self.population {
            Err(ConfigError::TooManyInitialInfections)
        } else {
            Ok(())
        }
    }
}

/// The index of a scenario, by which its records are tagged.
#[derive(Clone, Copy, Debug, PartialEq, Eq, Structural)]
pub struct Scenario {
    pub scenario: usize,
}

/// A parameter document: one set of parameters, or a list of them.
#[derive(Debug)]
pub enum Config {
    Single(Parameters),
    Multiple(Vec<Parameters>),
}

impl Config {
    /// The parameter sets in the order of the document.
    pub open spec fn sets(self) -> Seq<Parameters> {
        match self {
            Config::Single(parameters) => seq![parameters],
            Config::Multiple(list) => list@,
        }
    }

    /// The parameter sets of the document, one per scenario, in order.
    pub fn parameter_sets(self) -> (list: Vec<Parameters>)
        ensures
            list@ == self.sets(),
    {
        match self {
            Config::Single(parameters) => {
                let mut list: Vec<Parameters> = Vec::new();
                list.push(parameters);
                assert(list@ =~= seq![parameters]);
                list
            },
            Config::Multiple(list) => list,
        }
    }
}

} // verus!
