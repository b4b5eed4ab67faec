use vstd::prelude::*;

verus! {

/// Disease status of one agent: susceptible, infectious, recovered or dead.
#[derive(Clone, Copy, Debug, PartialEq, Eq, Structural)]
pub enum DiseaseStatus {
    S,
    I,
    R,
    D,
}

/// Age group of one agent.
#[derive(Clone, Copy, Debug, PartialEq, Eq, Structural)]
pub enum AgeGroup {
    Child,
    Adult,
    Elderly,
}

impl DiseaseStatus {
    /// How far along the course of the disease a status lies.
    pub open spec fn stage(self) -> nat {
        match self {
            DiseaseStatus::S => 0,
            DiseaseStatus::I => 1,
            DiseaseStatus::R => 2,
            DiseaseStatus::D => 2,
        }
    }

    /// The edges of the status graph: S to I, I to R, I to D.
    pub open spec fn may_become(self, next: DiseaseStatus) -> bool {
        ||| self == DiseaseStatus::S && next == DiseaseStatus::I
        ||| self == DiseaseStatus::I && next == DiseaseStatus::R
        ||| self == DiseaseStatus::I && next == DiseaseStatus::D
    }

    /// Whether an agent with this status may take `next` as its next status.
    pub fn can_become(self, next: DiseaseStatus) -> (allowed: bool)
        ensures
            allowed == self.may_become(next),
    {
        match (self, next) {
            (DiseaseStatus::S, DiseaseStatus::I) => true,
            (DiseaseStatus::I, DiseaseStatus::R) => true,
            (DiseaseStatus::I, DiseaseStatus::D) => true,
            _ => false,
        }
    }

    /// Whether the agent has ever been infectious.
    pub fn was_infected(self) -> (infected: bool)
        ensures
            infected == (self != DiseaseStatus::S),
    {
        !matches!(self, DiseaseStatus::S)
    }
}

/// A history of one agent: it starts susceptible and each status follows
/// from the one before it by an edge of the status graph.
pub open spec fn is_history(path: Seq<DiseaseStatus>) -> bool {
    &&& path.len() >= 1
    &&& path[0] == DiseaseStatus::S
    &&& forall|i: int| 0 <= i < path.len() - 1 ==> (#[trigger] path[i]).may_become(path[i + 1])
}

/// Every edge of the status graph advances the stage by exactly one, so the
/// graph has no cycle and no reverse edge.
pub proof fn lemma_edge_advances(from: DiseaseStatus, to: DiseaseStatus)
    requires
        from.may_become(to),
    ensures
        to.stage() == from.stage() + 1,
        !to.may_become(from),
        to != DiseaseStatus::S,
{
}

/// A history is S, or S I, or S I R, or S I D: no status is skipped, the
/// infectious status occurs at most once, and nothing follows R or D.
pub proof fn lemma_history_shape(path: Seq<DiseaseStatus>)
    requires
        is_history(path),
    ensures
        path.len() <= 3,
        path.len() >= 2 ==> path[1] == DiseaseStatus::I,
        path.len() == 3 ==> path[2] == DiseaseStatus::R || path[2] == DiseaseStatus::D,
        forall|i: int, j: int|
            0 <= i < j < path.len() ==> !(path[i] == DiseaseStatus::I && path[j]
                == DiseaseStatus::I),
{
    if path.len() >= 2 {
        assert(path[0].may_become(path[1]));
    }
    if path.len() >= 3 {
        assert(path[1].may_become(path[2]));
    }
    if path.len() >= 4 {
        assert(path[2].may_become(path[3]));
    }
}

} // verus!
