//! What the agent can pay for.

use crate::costs::Cost;
use crate::flourish_bot::FlourishBot;
use crate::kinds::UnitKind;
use crate::snapshot::Snapshot;
use vstd::prelude::*;

verus! {

/// Whether `supply_left` free supply points hold a unit of the cost `cost`.
/// The cost counts halves of a point.
pub open spec fn has_supply_for(supply_left: u32, cost: Cost) -> bool {
    2 * supply_left >= cost.supply
}

/// Whether the resources in `snapshot` pay for a unit of the cost `cost`
/// and leave the buffers over; with `check_supply`, also whether the free
/// supply holds the unit.
pub open spec fn affords_with_buffer(
    snapshot: Snapshot,
    cost: Cost,
    check_supply: bool,
    buffer_minerals: u32,
    buffer_vespene: u32,
) -> bool {
    &&& snapshot.minerals >= cost.minerals + buffer_minerals
    &&& snapshot.vespene >= cost.vespene + buffer_vespene
    &&& check_supply ==> has_supply_for(snapshot.supply_left, cost)
}

/// Whether the resources in `snapshot` pay for `n` units of the cost
/// `cost`; with `check_supply`, also whether the free supply holds one of
/// them.
pub open spec fn affords_multiple(snapshot: Snapshot, cost: Cost, check_supply: bool, n: u32) -> bool {
    &&& snapshot.minerals >= cost.minerals * n
    &&& snapshot.vespene >= cost.vespene * n
    &&& check_supply ==> has_supply_for(snapshot.supply_left, cost)
}

impl FlourishBot {
    /// Checks if the agent has enough resources and supply to build the
    /// given unit kind, if a buffer is to be left over at the end.
    pub fn can_afford_with_buffer(
        &self,
        snapshot: &Snapshot,
        unit: UnitKind,
        check_supply: bool,
        buffer_minerals: u32,
        buffer_vespene: u32,
    ) -> (affordable: bool)
        ensures
            affordable == affords_with_buffer(
                *snapshot,
                snapshot.costs.unit_cost(unit),
                check_supply,
                buffer_minerals,
                buffer_vespene,
            ),
    {
        let cost = snapshot.costs.get_unit_cost(unit);
        if (snapshot.minerals as u64) < cost.minerals as u64 + buffer_minerals as u64 || (
        snapshot.vespene as u64) < cost.vespene as u64 + buffer_vespene as u64 {
            return false;
        }
        if check_supply && 2 * (snapshot.supply_left as u64) < cost.supply as u64 {
            return false;
        }
        true
    }

    /// Checks if the agent has enough resources and supply to build at least
    /// `n` of the given unit kind.
    pub fn can_afford_multiple(&self, snapshot: &Snapshot, unit: UnitKind, check_supply: bool, n: u32) -> (affordable:
        bool)
        ensures
            affordable == affords_multiple(*snapshot, snapshot.costs.unit_cost(unit), check_supply, n),
    {
        let cost = snapshot.costs.get_unit_cost(unit);
        assert(cost.minerals * n <= u32::MAX * u32::MAX && cost.vespene * n <= u32::MAX * u32::MAX)
            by (nonlinear_arith)
            requires
                0 <= cost.minerals <= u32::MAX,
                0 <= cost.vespene <= u32::MAX,
                0 <= n <= u32::MAX,
        ;
        if (snapshot.minerals as u64) < cost.minerals as u64 * n as u64 || (snapshot.vespene as u64)
            < cost.vespene as u64 * n as u64 {
            return false;
        }
        if check_supply && 2 * (snapshot.supply_left as u64) < cost.supply as u64 {
            return false;
        }
        true
    }
}

} // verus!
