use vstd::prelude::*;
use crate::config::{Real, Scenario};
use crate::person_properties::DiseaseStatus;

verus! {

/// The transitions that are reported.
#[derive(Clone, Copy, Debug, PartialEq, Eq, Structural)]
pub enum ReportKind {
    /// An agent became infectious.
    Incidence,
    /// An agent died.
    Death,
}

/// One row of a report: which scenario, when, who and what.
#[derive(Clone, Copy, Debug, PartialEq, Eq, Structural)]
pub struct ReportRecord {
    pub scenario: usize,
    pub time: Real,
    pub person_id: usize,
    pub kind: ReportKind,
}

/// The report that a change to `status` belongs in, if any.
pub open spec fn reported(status: DiseaseStatus) -> Option<ReportKind> {
    match status {
        DiseaseStatus::I => Some(ReportKind::Incidence),
        DiseaseStatus::D => Some(ReportKind::Death),
        _ => None,
    }
}

/// The report that a change to `status` belongs in: the incidence report for
/// an agent that became infectious, the death report for one that died.
pub fn report_for(status: DiseaseStatus) -> (kind: Option<ReportKind>)
    ensures
        kind == reported(status),
{
    match status {
        DiseaseStatus::I => Some(ReportKind::Incidence),
        DiseaseStatus::D => Some(ReportKind::Death),
        _ => None,
    }
}

/// The record of the change of `person_id` to `status` at `time`, tagged
/// with the scenario's index: one record for each reported transition, none
/// for the others.
pub fn record(scenario: Scenario, time: Real, person_id: usize, status: DiseaseStatus) -> (row:
    Option<ReportRecord>)
    ensures
        row == (match reported(status) {
            Some(kind) => Some(ReportRecord { scenario: scenario.scenario, time, person_id, kind }),
            None => None,
        }),
{
    match report_for(status) {
        Some(kind) => Some(ReportRecord { scenario: scenario.scenario, time, person_id, kind }),
        None => None,
    }
}

/// How many of the first `upto` records belong to the scenario `scenario`.
pub open spec fn total_of(records: Seq<ReportRecord>, scenario: usize, upto: int) -> nat
    decreases upto,
{
    if upto <= 0 {
        0
    } else {
        total_of(records, scenario, upto - 1) + if records[upto - 1].scenario == scenario {
            1nat
        } else {
            0nat
        }
    }
}

/// Taking the record at `i` out of `records` takes it out of the total of
/// its scenario among the first `upto` records, where it was among them.
proof fn lemma_total_without(records: Seq<ReportRecord>, scenario: usize, i: int, upto: int)
    requires
        0 <= i < records.len(),
        0 <= upto <= records.len(),
    ensures
        upto <= i ==> total_of(records.remove(i), scenario, upto) == total_of(
            records,
            scenario,
            upto,
        ),
        upto > i ==> total_of(records.remove(i), scenario, upto - 1) + (if records[i].scenario
            == scenario {
            1nat
        } else {
            0nat
        }) == total_of(records, scenario, upto),
    decreases upto,
{
    if upto > 0 {
        lemma_total_without(records, scenario, i, upto - 1);
        if upto - 1 < i {
            assert(records.remove(i)[upto - 1] == records[upto - 1]);
        } else if upto - 1 > i {
            assert(records.remove(i)[upto - 2] == records[upto - 1]);
        }
    }
}

/// The total of a scenario depends on which records a table holds, not on
/// their order: two tables with the same records, however interleaved, give
/// every scenario the same total.
pub proof fn lemma_totals_ignore_order(
    first: Seq<ReportRecord>,
    second: Seq<ReportRecord>,
    scenario: usize,
)
    requires
        first.to_multiset() =~= second.to_multiset(),
    ensures
        first.len() == second.len(),
        total_of(first, scenario, first.len() as int) == total_of(
            second,
            scenario,
            second.len() as int,
        ),
    decreases first.len(),
{
    first.to_multiset_ensures();
    second.to_multiset_ensures();
    if first.len() > 0 {
        let last = first.last();
        let rest = first.drop_last();
        assert(first[first.len() - 1] == last);
        assert(first.contains(last));
        assert(first.to_multiset().count(last) > 0);
        assert(second.to_multiset().count(last) > 0);
        assert(second.contains(last));
        let i = choose|i: int| 0 <= i < second.len() && second[i] == last;
        assert(rest =~= first.remove(first.len() - 1));
        assert(rest.to_multiset() =~= second.remove(i).to_multiset());
        lemma_totals_ignore_order(rest, second.remove(i), scenario);
        lemma_total_without(second, scenario, i, second.len() as int);
        lemma_total_without(first, scenario, first.len() - 1, first.len() as int);
    }
}

/// The number of records among `records` that carry the index `scenario`.
pub fn scenario_total(records: &Vec<ReportRecord>, scenario: usize) -> (total: usize)
    ensures
        total == total_of(records@, scenario, records@.len() as int),
{
    let mut total: usize = 0;
    let mut i: usize = 0;
    while i < records.len()
        invariant
            i <= records.len(),
            total <= i,
            total == total_of(records@, scenario, i as int),
        decreases records.len() - i,
    {
        if records[i].scenario == scenario {
            total = total + 1;
        }
        i = i + 1;
    }
    total
}

} // verus!
