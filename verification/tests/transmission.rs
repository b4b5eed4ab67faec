use rand::rngs::StdRng;
use rand::SeedableRng;
use sir_model::config::{ConfigError, InfectionProbabilities, Parameters, Real};
use sir_model::infection_seeder::{InfectionSeeder, SeedStep};
use sir_model::people::{People, TransitionError};
use sir_model::person_properties::{AgeGroup, DiseaseStatus};
use sir_model::reports::ReportKind;
use sir_model::runner::setup_context;
use sir_model::simulation::Simulation;
use sir_model::transmission_manager::{
    attempt_infection, cancel_next_infectious_contact, draw_contact,
    handle_person_disease_status_change, resolve_contact, schedule_next_infectious_contact,
    ContactAction, ContactStep, TransmissionManager,
};

fn num(x: f64) -> Real {
    Real { bits: x.to_bits() }
}

fn parameters(population: usize, initial_infections: usize) -> Parameters {
    Parameters {
        population,
        r0: num(2.0),
        infectious_period: num(5.0),
        initial_infections,
        random_seed: 42,
        death_rate: num(0.5),
        infection_probabilities: InfectionProbabilities::uniform(num(1.0)),
    }
}

fn asymmetric() -> InfectionProbabilities {
    InfectionProbabilities {
        child_to_child: num(0.1),
        child_to_adult: num(0.2),
        adult_to_child: num(0.3),
        adult_to_adult: num(0.4),
        adult_to_elderly: num(0.5),
        elderly_to_adult: num(0.6),
        child_to_elderly: num(0.7),
        elderly_to_child: num(0.8),
        elderly_to_elderly: num(0.9),
    }
}

#[test]
fn handler_schedules_for_the_infectious_and_cancels_for_the_others() {
    let mut people = People::load(3);
    let mut manager = TransmissionManager::new();
    people.set_status(1, DiseaseStatus::I).unwrap();
    let action =
        handle_person_disease_status_change(&mut manager, &people, 1, DiseaseStatus::S);
    assert_eq!(action, ContactAction::ScheduleContact);
    assert_eq!(manager.pending_contact(1), None);
    assert!(schedule_next_infectious_contact(&mut manager, &people, 1, 77));
    assert_eq!(manager.pending_contact(1), Some(77));
    people.set_status(1, DiseaseStatus::R).unwrap();
    let action =
        handle_person_disease_status_change(&mut manager, &people, 1, DiseaseStatus::I);
    assert_eq!(action, ContactAction::CancelPlan(77));
    assert_eq!(manager.pending_contact(1), None);
    let action =
        handle_person_disease_status_change(&mut manager, &people, 1, DiseaseStatus::I);
    assert_eq!(action, ContactAction::Nothing);
    let action =
        handle_person_disease_status_change(&mut manager, &people, 0, DiseaseStatus::S);
    assert_eq!(action, ContactAction::Nothing);
}

#[test]
fn contact_plan_is_recorded_for_the_infectious_only() {
    let mut people = People::load(2);
    let mut manager = TransmissionManager::new();
    assert!(!schedule_next_infectious_contact(&mut manager, &people, 0, 5));
    assert!(!schedule_next_infectious_contact(&mut manager, &people, 2, 5));
    assert_eq!(manager.pending_contact(0), None);
    people.set_status(0, DiseaseStatus::I).unwrap();
    assert!(schedule_next_infectious_contact(&mut manager, &people, 0, 5));
    assert!(schedule_next_infectious_contact(&mut manager, &people, 0, 6));
    assert_eq!(manager.pending_contact(0), Some(6));
    assert_eq!(cancel_next_infectious_contact(&mut manager, 0), Some(6));
    assert_eq!(cancel_next_infectious_contact(&mut manager, 0), None);
}

#[test]
fn fired_contact_is_no_longer_pending() {
    let mut people = People::load(2);
    let mut manager = TransmissionManager::new();
    people.set_status(0, DiseaseStatus::I).unwrap();
    schedule_next_infectious_contact(&mut manager, &people, 0, 5);
    assert!(attempt_infection(&mut manager, &people, 0));
    assert_eq!(manager.pending_contact(0), None);
}

#[test]
fn population_of_one_attempts_no_contact() {
    let mut simulation = Simulation::new(1);
    let change = simulation.change_status(0, DiseaseStatus::I).unwrap();
    assert_eq!(change.contact, ContactAction::ScheduleContact);
    assert!(simulation.record_contact_plan(0, 1));
    assert!(!simulation.contact_fired(0));
    assert_eq!(simulation.pending_contact(0), None);
    let mut empty = Simulation::new(0);
    assert!(!empty.contact_fired(0));
}

#[test]
fn candidate_resolves_by_identity_status_and_age() {
    let mut people = People::load(4);
    people.set_age_group(1, AgeGroup::Adult);
    people.set_age_group(2, AgeGroup::Elderly);
    people.set_status(0, DiseaseStatus::I).unwrap();
    people.set_status(3, DiseaseStatus::I).unwrap();
    people.set_status(3, DiseaseStatus::R).unwrap();
    let m = asymmetric();
    assert_eq!(resolve_contact(&people, &m, 0, 0), ContactStep::Redraw);
    assert_eq!(
        resolve_contact(&people, &m, 0, 1),
        ContactStep::Exposed { contact: 1, probability: num(0.2) }
    );
    assert_eq!(
        resolve_contact(&people, &m, 0, 2),
        ContactStep::Exposed { contact: 2, probability: num(0.7) }
    );
    assert_eq!(resolve_contact(&people, &m, 0, 3), ContactStep::Missed { contact: 3 });
    people.set_status(1, DiseaseStatus::I).unwrap();
    assert_eq!(resolve_contact(&people, &m, 1, 0), ContactStep::Missed { contact: 0 });
    assert_eq!(
        resolve_contact(&people, &m, 1, 2),
        ContactStep::Exposed { contact: 2, probability: num(0.5) }
    );
}

#[test]
fn drawn_contact_is_another_agent_of_the_population() {
    let mut people = People::load(5);
    people.set_status(2, DiseaseStatus::I).unwrap();
    let m = InfectionProbabilities::uniform(num(0.5));
    let mut rng = StdRng::seed_from_u64(7);
    let mut seen = [false; 5];
    let mut redraws = 0;
    for _ in 0..500 {
        match draw_contact(&people, &m, &mut rng, 2) {
            ContactStep::Redraw => redraws += 1,
            ContactStep::Exposed { contact, probability } => {
                assert!(contact < 5 && contact != 2);
                assert_eq!(probability, num(0.5));
                seen[contact] = true;
            }
            ContactStep::Missed { .. } => panic!("every other agent is susceptible"),
        }
    }
    assert!(redraws > 0);
    assert_eq!(seen, [true, true, false, true, true]);
}

#[test]
fn same_seed_draws_the_same_contacts() {
    let mut people = People::load(50);
    people.set_status(0, DiseaseStatus::I).unwrap();
    let m = InfectionProbabilities::uniform(num(1.0));
    let mut first = StdRng::seed_from_u64(99);
    let mut second = StdRng::seed_from_u64(99);
    for _ in 0..100 {
        assert_eq!(
            draw_contact(&people, &m, &mut first, 0),
            draw_contact(&people, &m, &mut second, 0)
        );
    }
}

#[test]
fn change_tells_every_observer() {
    let mut simulation = Simulation::new(3);
    let change = simulation.change_status(2, DiseaseStatus::I).unwrap();
    assert_eq!(change.person_id, 2);
    assert_eq!(change.previous, DiseaseStatus::S);
    assert_eq!(change.status, DiseaseStatus::I);
    assert_eq!(change.contact, ContactAction::ScheduleContact);
    assert!(change.schedules_outcome);
    assert_eq!(change.report, Some(ReportKind::Incidence));
    assert!(simulation.record_contact_plan(2, 11));
    let change = simulation.change_status(2, DiseaseStatus::D).unwrap();
    assert_eq!(change.previous, DiseaseStatus::I);
    assert_eq!(change.contact, ContactAction::CancelPlan(11));
    assert!(!change.schedules_outcome);
    assert_eq!(change.report, Some(ReportKind::Death));
    assert_eq!(simulation.pending_contact(2), None);
    assert!(!simulation.record_contact_plan(2, 12));
    assert_eq!(simulation.pending_contact(2), None);
    assert_eq!(simulation.change_status(2, DiseaseStatus::I).unwrap_err(), TransitionError::Forbidden);
    assert_eq!(simulation.change_status(0, DiseaseStatus::R).unwrap_err(), TransitionError::Forbidden);
    assert_eq!(
        simulation.change_status(3, DiseaseStatus::I).unwrap_err(),
        TransitionError::UnknownPerson
    );
}

#[test]
fn recovery_without_pending_contact_cancels_nothing() {
    let mut simulation = Simulation::new(2);
    simulation.change_status(0, DiseaseStatus::I).unwrap();
    let change = simulation.change_status(0, DiseaseStatus::R).unwrap();
    assert_eq!(change.contact, ContactAction::Nothing);
    assert_eq!(change.report, None);
}

#[test]
fn exposure_infects_when_the_draw_is_below_the_probability() {
    let mut simulation = Simulation::new(4);
    simulation.set_age_group(1, AgeGroup::Adult);
    simulation.change_status(0, DiseaseStatus::I).unwrap();
    let m = asymmetric();
    assert!(simulation.expose(&m, 0, 1, num(0.2)).is_none());
    assert!(simulation.expose(&m, 0, 1, num(0.9)).is_none());
    assert_eq!(simulation.get_status(1), DiseaseStatus::S);
    let change = simulation.expose(&m, 0, 1, num(0.199)).unwrap();
    assert_eq!(change.person_id, 1);
    assert_eq!(change.previous, DiseaseStatus::S);
    assert_eq!(change.status, DiseaseStatus::I);
    assert_eq!(simulation.get_status(1), DiseaseStatus::I);
    assert!(simulation.expose(&m, 0, 1, num(0.0)).is_none());
    assert!(simulation.expose(&m, 0, 0, num(0.0)).is_none());
    assert_eq!(simulation.get_status(0), DiseaseStatus::I);
    assert!(simulation.expose(&m, 1, 2, num(0.299)).is_some());
    assert!(simulation.expose(&m, 1, 3, num(0.3)).is_none());
    let never = InfectionProbabilities::uniform(num(0.0));
    assert!(simulation.expose(&never, 1, 3, num(0.0)).is_none());
    let always = InfectionProbabilities::uniform(num(1.0));
    assert!(simulation.expose(&always, 1, 3, num(0.999_999)).is_some());
}

#[test]
fn outcome_follows_the_death_rate() {
    let mut simulation = Simulation::new(3);
    simulation.change_status(0, DiseaseStatus::I).unwrap();
    simulation.change_status(1, DiseaseStatus::I).unwrap();
    let died = simulation.outcome_fired(0, num(0.3), num(0.1)).unwrap();
    assert_eq!(died.status, DiseaseStatus::D);
    let recovered = simulation.outcome_fired(1, num(0.3), num(0.3)).unwrap();
    assert_eq!(recovered.status, DiseaseStatus::R);
    assert_eq!(
        simulation.outcome_fired(2, num(0.3), num(0.1)).unwrap_err(),
        TransitionError::Forbidden
    );
    assert_eq!(
        simulation.outcome_fired(0, num(0.3), num(0.9)).unwrap_err(),
        TransitionError::Forbidden
    );
    assert_eq!(simulation.get_status(0), DiseaseStatus::D);
}

#[test]
fn seeder_refuses_a_cohort_larger_than_the_population() {
    assert!(matches!(
        InfectionSeeder::new(&parameters(3, 4)),
        Err(ConfigError::TooManyInitialInfections)
    ));
    assert!(matches!(setup_context(&parameters(3, 4)), Err(ConfigError::TooManyInitialInfections)));
    assert_eq!(InfectionSeeder::new(&parameters(3, 3)).unwrap().left(), 3);
}

#[test]
fn seeder_infects_exactly_the_cohort_of_distinct_agents() {
    let (mut simulation, mut seeder) = setup_context(&parameters(5, 2)).unwrap();
    for person in 0..5 {
        assert_eq!(simulation.get_status(person), DiseaseStatus::S);
    }
    assert!(matches!(seeder.seed(&mut simulation, 3), SeedStep::Seeded(_)));
    assert!(matches!(seeder.seed(&mut simulation, 3), SeedStep::Rejected));
    assert!(matches!(seeder.seed(&mut simulation, 5), SeedStep::Rejected));
    assert_eq!(seeder.left(), 1);
    assert!(matches!(seeder.seed(&mut simulation, 0), SeedStep::Seeded(_)));
    assert_eq!(seeder.left(), 0);
    assert!(matches!(seeder.seed(&mut simulation, 1), SeedStep::Done));
    let infectious: Vec<usize> =
        (0..5).filter(|p| simulation.get_status(*p) == DiseaseStatus::I).collect();
    assert_eq!(infectious, vec![0, 3]);
}

#[test]
fn empty_cohort_seeds_nobody() {
    let (mut simulation, mut seeder) = setup_context(&parameters(4, 0)).unwrap();
    assert_eq!(seeder.left(), 0);
    assert!(matches!(seeder.seed(&mut simulation, 2), SeedStep::Done));
    assert!(seeder.seed_cohort(&mut simulation, &vec![0, 1, 2, 3]).is_empty());
    for person in 0..4 {
        assert_eq!(simulation.get_status(person), DiseaseStatus::S);
    }
}

#[test]
fn cohort_is_seeded_from_a_list_of_candidates() {
    let (mut simulation, mut seeder) = setup_context(&parameters(6, 3)).unwrap();
    let changes = seeder.seed_cohort(&mut simulation, &vec![4, 4, 9, 1, 4, 2, 5, 0]);
    let seeded: Vec<usize> = changes.iter().map(|c| c.person_id).collect();
    assert_eq!(seeded, vec![4, 1, 2]);
    assert_eq!(seeder.left(), 0);
    for change in &changes {
        assert_eq!(change.previous, DiseaseStatus::S);
        assert_eq!(change.status, DiseaseStatus::I);
        assert_eq!(change.contact, ContactAction::ScheduleContact);
        assert!(change.schedules_outcome);
        assert_eq!(change.report, Some(ReportKind::Incidence));
    }
    assert_eq!(simulation.get_status(5), DiseaseStatus::S);
    assert_eq!(simulation.get_status(0), DiseaseStatus::S);
}

#[test]
fn drawn_cohort_holds_distinct_agents_of_the_population() {
    let (mut simulation, mut seeder) = setup_context(&parameters(8, 8)).unwrap();
    let mut rng = StdRng::seed_from_u64(3);
    let mut seeded = Vec::new();
    let mut rejected = 0;
    while seeder.left() > 0 {
        match seeder.seed_draw(&mut simulation, &mut rng) {
            SeedStep::Seeded(change) => seeded.push(change.person_id),
            SeedStep::Rejected => rejected += 1,
            SeedStep::Done => panic!("the cohort is not full"),
        }
        assert_eq!(simulation.count_status(DiseaseStatus::I) + seeder.left(), 8);
    }
    assert!(rejected > 0);
    seeded.sort();
    assert_eq!(seeded, vec![0, 1, 2, 3, 4, 5, 6, 7]);
    assert!(matches!(seeder.seed_draw(&mut simulation, &mut rng), SeedStep::Done));
    assert_eq!(simulation.count_status(DiseaseStatus::S), 0);
}

#[test]
fn counts_follow_the_statuses() {
    let mut simulation = Simulation::new(5);
    assert_eq!(simulation.count_status(DiseaseStatus::S), 5);
    assert_eq!(simulation.count_status(DiseaseStatus::I), 0);
    simulation.change_status(0, DiseaseStatus::I).unwrap();
    simulation.change_status(4, DiseaseStatus::I).unwrap();
    simulation.change_status(4, DiseaseStatus::D).unwrap();
    assert_eq!(simulation.count_status(DiseaseStatus::S), 3);
    assert_eq!(simulation.count_status(DiseaseStatus::I), 1);
    assert_eq!(simulation.count_status(DiseaseStatus::R), 0);
    assert_eq!(simulation.count_status(DiseaseStatus::D), 1);
    let mut people = People::load(2);
    people.set_status(1, DiseaseStatus::I).unwrap();
    assert_eq!(people.count_status(DiseaseStatus::I), 1);
    assert_eq!(people.count_status(DiseaseStatus::S), 1);
}

#[test]
fn full_cohort_draws_nothing() {
    let (mut simulation, mut seeder) = setup_context(&parameters(4, 0)).unwrap();
    let mut used = StdRng::seed_from_u64(5);
    let fresh = StdRng::seed_from_u64(5);
    assert!(matches!(seeder.seed_draw(&mut simulation, &mut used), SeedStep::Done));
    assert_eq!(used, fresh);
    let (mut simulation, mut seeder) = setup_context(&parameters(4, 1)).unwrap();
    assert!(matches!(seeder.seed_draw(&mut simulation, &mut used), SeedStep::Seeded(_)));
    assert_ne!(used, fresh);
}

#[test]
fn agents_are_created_with_their_age_groups() {
    let groups = vec![AgeGroup::Elderly, AgeGroup::Child, AgeGroup::Adult];
    let people = People::with_age_groups(groups.clone());
    let simulation = Simulation::with_age_groups(groups.clone());
    assert_eq!(people.len(), 3);
    assert_eq!(simulation.len(), 3);
    for (person, group) in groups.iter().enumerate() {
        assert_eq!(people.get_age_group(person), *group);
        assert_eq!(people.get_status(person), DiseaseStatus::S);
        assert_eq!(simulation.get_age_group(person), *group);
        assert_eq!(simulation.get_status(person), DiseaseStatus::S);
        assert_eq!(simulation.pending_contact(person), None);
    }
    assert_eq!(
        simulation.resolve_contact(&asymmetric(), 0, 2),
        ContactStep::Exposed { contact: 2, probability: num(0.6) }
    );
    assert_eq!(People::with_age_groups(Vec::new()).len(), 0);
}
