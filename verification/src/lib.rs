//! Agent-based stochastic epidemic model with susceptible, infectious,
//! recovered and dead agents.
//!
//! The library holds the rules of one scenario: who may change status and
//! when, which contact is pending for whom, how a contact and an infection
//! resolve, and how several scenarios are dispatched and their records tagged.
//! The event queue belongs to the caller: the library answers each event with
//! the change it makes and with what is to be scheduled or cancelled next.
//! Simulation times, waiting times and uniform draws from the unit interval
//! are made by the caller and handed in; agents are drawn here, from a
//! generator that the caller owns.

pub mod person_properties;
pub mod config;
pub mod people;
pub mod transmission_manager;
pub mod infection_manager;
pub mod reports;
pub mod simulation;
pub mod infection_seeder;
pub mod runner;
