use vstd::prelude::*;
use crate::config::{Real, ONE_BITS};
use crate::person_properties::DiseaseStatus;

verus! {

/// How an infection ends on the uniform draw `draw`: in death when the draw
/// is strictly less than the death rate, in recovery otherwise.
pub open spec fn outcome(death_rate: Real, draw: Real) -> DiseaseStatus {
    if draw.bits < death_rate.bits {
        DiseaseStatus::D
    } else {
        DiseaseStatus::R
    }
}

/// Whether a change to `status` calls for an outcome event: an agent that
/// became infectious gets exactly one, after its infectious period.
pub fn schedules_outcome(status: DiseaseStatus) -> (due: bool)
    ensures
        due == (status == DiseaseStatus::I),
{
    matches!(status, DiseaseStatus::I)
}

/// Decides, when the outcome event of an infectious agent fires, the status
/// that the agent takes.
pub fn resolve_outcome(death_rate: Real, draw: Real) -> (status: DiseaseStatus)
    ensures
        status == outcome(death_rate, draw),
        DiseaseStatus::I.may_become(status),
{
    if death_rate.happens_on(draw) {
        DiseaseStatus::D
    } else {
        DiseaseStatus::R
    }
}

/// With a death rate of one every infection ends in death, and with a death
/// rate of zero every infection ends in recovery, whatever is drawn.
pub proof fn lemma_extreme_death_rates(draw: Real)
    requires
        draw.is_unit_draw(),
    ensures
        outcome(Real { bits: ONE_BITS }, draw) == DiseaseStatus::D,
        outcome(Real { bits: 0 }, draw) == DiseaseStatus::R,
{
}

} // verus!
