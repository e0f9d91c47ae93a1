//! The fixed lifecycle state machine: an ordered enumeration of stages whose
//! "can transition to" relation is the strict linear successor relation. No
//! skips, no reversals, no self-loops; `Consumed` is terminal.

use vstd::prelude::*;

use crate::roles::Role;

verus! {

/// A lifecycle position. The integer encoding given by `to_u32` is stable
/// and part of the external contract.
#[derive(Clone, Copy, Debug, PartialEq, Eq, Structural)]
pub enum LifecycleState {
    Seed,
    Germinated,
    PlantVegetative,
    PlantFlowering,
    PlantHarvested,
    Processed,
    Distributed,
    Consumed,
}

impl LifecycleState {
    /// The stable integer encoding of each stage.
    pub open spec fn spec_to_u32(self) -> u32 {
        match self {
            LifecycleState::Seed => 0,
            LifecycleState::Germinated => 1,
            LifecycleState::PlantVegetative => 2,
            LifecycleState::PlantFlowering => 3,
            LifecycleState::PlantHarvested => 4,
            LifecycleState::Processed => 5,
            LifecycleState::Distributed => 6,
            LifecycleState::Consumed => 7,
        }
    }

    #[verifier::when_used_as_spec(spec_to_u32)]
    pub fn to_u32(self) -> (r: u32)
        ensures
            r == self.spec_to_u32(),
    {
        match self {
            LifecycleState::Seed => 0,
            LifecycleState::Germinated => 1,
            LifecycleState::PlantVegetative => 2,
            LifecycleState::PlantFlowering => 3,
            LifecycleState::PlantHarvested => 4,
            LifecycleState::Processed => 5,
            LifecycleState::Distributed => 6,
            LifecycleState::Consumed => 7,
        }
    }

    /// The stage with a given encoding, if any.
    pub open spec fn spec_from_u32(value: u32) -> Option<LifecycleState> {
        if value == 0 {
            Some(LifecycleState::Seed)
        } else if value == 1 {
            Some(LifecycleState::Germinated)
        } else if value == 2 {
            Some(LifecycleState::PlantVegetative)
        } else if value == 3 {
            Some(LifecycleState::PlantFlowering)
        } else if value == 4 {
            Some(LifecycleState::PlantHarvested)
        } else if value == 5 {
            Some(LifecycleState::Processed)
        } else if value == 6 {
            Some(LifecycleState::Distributed)
        } else if value == 7 {
            Some(LifecycleState::Consumed)
        } else {
            None
        }
    }

    pub fn from_u32(value: u32) -> (r: Option<LifecycleState>)
        ensures
            r == LifecycleState::spec_from_u32(value),
            r matches Some(s) ==> s.spec_to_u32() == value,
            r is None <==> value > 7,
    {
        match value {
            0 => Some(LifecycleState::Seed),
            1 => Some(LifecycleState::Germinated),
            2 => Some(LifecycleState::PlantVegetative),
            3 => Some(LifecycleState::PlantFlowering),
            4 => Some(LifecycleState::PlantHarvested),
            5 => Some(LifecycleState::Processed),
            6 => Some(LifecycleState::Distributed),
            7 => Some(LifecycleState::Consumed),
            _ => None,
        }
    }

    /// The strict linear successor relation: a move is allowed exactly when
    /// the target's encoding is one more than the source's.
    pub open spec fn spec_can_transition_to(self, to: LifecycleState) -> bool {
        to.spec_to_u32() == self.spec_to_u32() + 1
    }

    pub fn can_transition_to(self, to: LifecycleState) -> (r: bool)
        ensures
            r == self.spec_can_transition_to(to),
    {
        match (self, to) {
            (LifecycleState::Seed, LifecycleState::Germinated) => true,
            (LifecycleState::Germinated, LifecycleState::PlantVegetative) => true,
            (LifecycleState::PlantVegetative, LifecycleState::PlantFlowering) => true,
            (LifecycleState::PlantFlowering, LifecycleState::PlantHarvested) => true,
            (LifecycleState::PlantHarvested, LifecycleState::Processed) => true,
            (LifecycleState::Processed, LifecycleState::Distributed) => true,
            (LifecycleState::Distributed, LifecycleState::Consumed) => true,
            _ => false,
        }
    }

    /// The single successor of a stage, if it has one. `Consumed` has none.
    pub open spec fn spec_successor(self) -> Option<LifecycleState> {
        match self {
            LifecycleState::Seed => Some(LifecycleState::Germinated),
            LifecycleState::Germinated => Some(LifecycleState::PlantVegetative),
            LifecycleState::PlantVegetative => Some(LifecycleState::PlantFlowering),
            LifecycleState::PlantFlowering => Some(LifecycleState::PlantHarvested),
            LifecycleState::PlantHarvested => Some(LifecycleState::Processed),
            LifecycleState::Processed => Some(LifecycleState::Distributed),
            LifecycleState::Distributed => Some(LifecycleState::Consumed),
            LifecycleState::Consumed => None,
        }
    }

    /// Reflexive-transitive closure of the successor relation: `to` can be
    /// reached from `self` by following the fixed chain zero or more times.
    pub open spec fn spec_reachable(self, to: LifecycleState) -> bool
        decreases 7 - self.spec_to_u32(),
    {
        self == to || match self.spec_successor() {
            Some(next) => next.spec_reachable(to),
            None => false,
        }
    }

    /// The role authorized to cause entry into a target stage. `Seed` is no
    /// valid target of any transition, so it maps to no role.
    pub open spec fn spec_required_role(to: LifecycleState) -> Option<Role> {
        match to {
            LifecycleState::Seed => None,
            LifecycleState::Germinated => Some(Role::Cultivator),
            LifecycleState::PlantVegetative => Some(Role::Cultivator),
            LifecycleState::PlantFlowering => Some(Role::Cultivator),
            LifecycleState::PlantHarvested => Some(Role::Cultivator),
            LifecycleState::Processed => Some(Role::Processor),
            LifecycleState::Distributed => Some(Role::Dispensary),
            LifecycleState::Consumed => Some(Role::Dispensary),
        }
    }

    pub fn required_role(to: LifecycleState) -> (r: Option<Role>)
        ensures
            r == LifecycleState::spec_required_role(to),
    {
        match to {
            LifecycleState::Seed => None,
            LifecycleState::Germinated => Some(Role::Cultivator),
            LifecycleState::PlantVegetative => Some(Role::Cultivator),
            LifecycleState::PlantFlowering => Some(Role::Cultivator),
            LifecycleState::PlantHarvested => Some(Role::Cultivator),
            LifecycleState::Processed => Some(Role::Processor),
            LifecycleState::Distributed => Some(Role::Dispensary),
            LifecycleState::Consumed => Some(Role::Dispensary),
        }
    }
}

/// Reachability along the chain is exactly the order on the stable encoding.
pub proof fn lemma_reachable_iff_le(from: LifecycleState, to: LifecycleState)
    ensures
        from.spec_reachable(to) <==> from.spec_to_u32() <= to.spec_to_u32(),
    decreases 7 - from.spec_to_u32(),
{
    match from.spec_successor() {
        Some(next) => {
            lemma_reachable_iff_le(next, to);
        },
        None => {},
    }
}

/// Law: every stage is reachable from `Seed` via the fixed successor chain.
pub proof fn lemma_seed_reaches_all(s: LifecycleState)
    ensures
        LifecycleState::Seed.spec_reachable(s),
{
    lemma_reachable_iff_le(LifecycleState::Seed, s);
}

/// Law: following one allowed transition preserves reachability from `Seed`,
/// so no sequence of valid transitions can leave the fixed chain.
pub proof fn lemma_transition_preserves_reachability(
    from: LifecycleState,
    mid: LifecycleState,
    to: LifecycleState,
)
    requires
        from.spec_reachable(mid),
        mid.spec_can_transition_to(to),
    ensures
        from.spec_reachable(to),
{
    lemma_reachable_iff_le(from, mid);
    lemma_reachable_iff_le(from, to);
}

/// Law: `Consumed` is terminal: no transition leaves it.
pub proof fn lemma_consumed_terminal(to: LifecycleState)
    ensures
        !LifecycleState::Consumed.spec_can_transition_to(to),
{
}

} // verus!
