//! What units and upgrades cost, as the host's catalog states it.

use crate::kinds::{UnitKind, UpgradeKind};
use std::collections::HashMap;
use vstd::prelude::*;

verus! {

broadcast use vstd::std_specs::hash::group_hash_axioms;

/// The price of one unit or upgrade. Supply is counted in halves of a supply
/// point, the smallest step in which the host prices a unit.
#[derive(Clone, Copy, Debug, PartialEq, Eq, Structural)]
pub struct Cost {
    pub minerals: u32,
    pub vespene: u32,
    pub supply: u32,
}

impl Cost {
    /// The cost of what the catalog does not list: nothing.
    pub open spec fn free() -> Cost {
        Cost { minerals: 0, vespene: 0, supply: 0 }
    }
}

/// The catalog: a cost for each unit kind and each upgrade that it lists.
/// What it does not list is free.
pub struct CostTable {
    units: HashMap<u64, Cost>,
    upgrades: HashMap<u64, Cost>,
}

impl CostTable {
    /// The cost that the catalog gives for the unit kind `kind`.
    pub closed spec fn unit_cost(&self, kind: UnitKind) -> Cost {
        if self.units@.dom().contains(kind.code()) {
            self.units@[kind.code()]
        } else {
            Cost::free()
        }
    }

    /// The cost that the catalog gives for the upgrade `kind`.
    pub closed spec fn upgrade_cost(&self, kind: UpgradeKind) -> Cost {
        if self.upgrades@.dom().contains(kind.code()) {
            self.upgrades@[kind.code()]
        } else {
            Cost::free()
        }
    }

    /// A catalog that lists nothing.
    pub fn new() -> (table: CostTable)
        ensures
            forall|kind: UnitKind| table.unit_cost(kind) == Cost::free(),
            forall|kind: UpgradeKind| table.upgrade_cost(kind) == Cost::free(),
    {
        CostTable { units: HashMap::new(), upgrades: HashMap::new() }
    }

    /// Lists `kind` at `cost`, in place of what the catalog said of it before.
    pub fn set_unit_cost(&mut self, kind: UnitKind, cost: Cost)
        ensures
            final(self).unit_cost(kind) == cost,
            forall|other: UnitKind| other != kind ==> final(self).unit_cost(other) == old(self).unit_cost(other),
            forall|other: UpgradeKind| final(self).upgrade_cost(other) == old(self).upgrade_cost(other),
    {
        self.units.insert(kind.to_code(), cost);
    }

    /// Lists `kind` at `cost`, in place of what the catalog said of it before.
    pub fn set_upgrade_cost(&mut self, kind: UpgradeKind, cost: Cost)
        ensures
            final(self).upgrade_cost(kind) == cost,
            forall|other: UpgradeKind| other != kind ==> final(self).upgrade_cost(other) == old(self).upgrade_cost(other),
            forall|other: UnitKind| final(self).unit_cost(other) == old(self).unit_cost(other),
    {
        self.upgrades.insert(kind.to_code(), cost);
    }

    /// Looks up the cost of a unit kind.
    pub fn get_unit_cost(&self, kind: UnitKind) -> (cost: Cost)
        ensures
            cost == self.unit_cost(kind),
    {
        let code = kind.to_code();
        match self.units.get(&code) {
            Some(cost) => *cost,
            None => Cost { minerals: 0, vespene: 0, supply: 0 },
        }
    }

    /// Looks up the cost of an upgrade.
    pub fn get_upgrade_cost(&self, kind: UpgradeKind) -> (cost: Cost)
        ensures
            cost == self.upgrade_cost(kind),
    {
        let code = kind.to_code();
        match self.upgrades.get(&code) {
            Some(cost) => *cost,
            None => Cost { minerals: 0, vespene: 0, supply: 0 },
        }
    }
}

} // verus!
