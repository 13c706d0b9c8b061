//! The model of the threat tracker: what it knows and how each event changes
//! it, with the proofs of what holds through every event.
//!
//! A unit counts into the aggregate with the supply it is seen with, and
//! leaves it with the supply it is reported dead with or, where it decays,
//! with the supply that the catalog gives for its kind. Where these agree the
//! aggregate is the sum over the units that are held; where the host reports
//! one unit with two supplies it drifts, and may fall below nothing. The
//! aggregate is held to the range of 128 bits, which the sum over as many
//! units as the tracker can hold does not reach.

use crate::costs::CostTable;
use crate::kinds::UnitKind;
use crate::snapshot::EnemyUnit;
use vstd::prelude::*;
use vstd::set::fold::*;

verus! {

/// What the tracker knows.
pub struct Threat {
    /// For each unit that is believed alive, under its tag and the code of
    /// its kind, the tick at which it was last seen.
    pub sightings: Map<(u64, u64), int>,
    /// The supply that the tracker counts for these units, in halves of a
    /// supply point.
    pub aggregate: int,
    /// The decay window: the ticks after which a unit that was not seen
    /// again is taken for gone.
    pub window: int,
}

/// The most units that a tracker holds.
pub open spec fn capacity() -> int {
    0x1_0000_0000_0000_0000
}

/// `x`, or the end of the range of the aggregate that `x` lies beyond.
pub open spec fn clamped(x: int) -> int {
    if x < i128::MIN {
        i128::MIN as int
    } else if x > i128::MAX {
        i128::MAX as int
    } else {
        x
    }
}

/// The kind that has the code `code`, if any.
pub open spec fn kind_of_code(code: u64) -> Option<UnitKind> {
    if exists|kind: UnitKind| kind.code() == code {
        Some(choose|kind: UnitKind| kind.code() == code)
    } else {
        None
    }
}

/// The supply that the catalog gives for the kind with the code `code`.
pub open spec fn catalog_supply(costs: CostTable, code: u64) -> int {
    match kind_of_code(code) {
        Some(kind) => costs.unit_cost(kind).supply as int,
        None => 0,
    }
}

/// The step of the sum of catalog supply over a set of units.
pub open spec fn add_supply(costs: CostTable) -> spec_fn(int, (u64, u64)) -> int {
    |sum: int, key: (u64, u64)| sum + catalog_supply(costs, key.1)
}

/// The sum of the catalog supply of the units `keys`.
pub open spec fn supply_sum(keys: Set<(u64, u64)>, costs: CostTable) -> int {
    keys.fold(0int, add_supply(costs))
}

/// Whether `unit` is seen with the supply that the catalog gives for its
/// kind. Of a worker nothing is asked: it is not counted.
pub open spec fn agrees(unit: EnemyUnit, costs: CostTable) -> bool {
    unit.is_worker || unit.supply_cost == costs.unit_cost(unit.kind).supply
}

/// Whether each of `units` is seen with the supply that the catalog gives
/// for its kind.
pub open spec fn all_agree(units: Seq<EnemyUnit>, costs: CostTable) -> bool {
    forall|i: int| 0 <= i < units.len() ==> agrees(#[trigger] units[i], costs)
}

/// The key under which `unit` is held.
pub open spec fn key_of(unit: EnemyUnit) -> (u64, u64) {
    (unit.tag, unit.kind.code())
}

impl Threat {
    /// A tracker with the decay window `window` that knows nothing.
    pub open spec fn nothing(window: int) -> Threat {
        Threat { sightings: Map::empty(), aggregate: 0, window }
    }

    /// Whether `unit` is believed alive.
    pub open spec fn knows(self, unit: EnemyUnit) -> bool {
        self.sightings.dom().contains(key_of(unit))
    }

    /// The tracker holds finitely many units, no more than its capacity.
    pub open spec fn bounded(self) -> bool {
        &&& self.sightings.dom().finite()
        &&& self.sightings.dom().len() <= capacity()
    }

    /// The aggregate is the sum of the catalog supply of the units that are
    /// believed alive.
    pub open spec fn conserves(self, costs: CostTable) -> bool {
        self.aggregate == supply_sum(self.sightings.dom(), costs)
    }

    /// The state after `unit` was seen at `tick`. A worker changes nothing.
    /// A unit that was not known counts into the aggregate with its supply;
    /// one that was known only has its last sighting moved.
    pub open spec fn seen(self, unit: EnemyUnit, tick: int) -> Threat {
        if unit.is_worker {
            self
        } else {
            Threat {
                sightings: self.sightings.insert(key_of(unit), tick),
                aggregate: if self.knows(unit) {
                    self.aggregate
                } else {
                    clamped(self.aggregate + unit.supply_cost)
                },
                window: self.window,
            }
        }
    }

    /// The state after each of `units` was seen at `tick`, in their order.
    pub open spec fn seen_all(self, units: Seq<EnemyUnit>, tick: int) -> Threat
        decreases units.len(),
    {
        if units.len() == 0 {
            self
        } else {
            self.seen_all(units.drop_last(), tick).seen(units.last(), tick)
        }
    }

    /// The state after the death of `unit` was reported: a unit that was
    /// known leaves, and the aggregate drops by its supply.
    pub open spec fn died(self, unit: EnemyUnit) -> Threat {
        if self.knows(unit) {
            Threat {
                sightings: self.sightings.remove(key_of(unit)),
                aggregate: clamped(self.aggregate - unit.supply_cost),
                window: self.window,
            }
        } else {
            self
        }
    }

    /// Whether the unit `key` is held and its last sighting lies the window's
    /// ticks or more before `tick`.
    pub open spec fn is_stale(self, key: (u64, u64), tick: int) -> bool {
        self.sightings.dom().contains(key) && self.sightings[key] + self.window <= tick
    }

    /// The units that are stale at `tick`.
    pub open spec fn stale_keys(self, tick: int) -> Set<(u64, u64)> {
        Set::new(|key: (u64, u64)| self.is_stale(key, tick))
    }

    /// The state after the decay at `tick`: the stale units leave, and the
    /// aggregate drops by what the catalog gives for their kinds.
    pub open spec fn decayed(self, costs: CostTable, tick: int) -> Threat {
        Threat {
            sightings: self.sightings.remove_keys(self.stale_keys(tick)),
            aggregate: clamped(self.aggregate - supply_sum(self.stale_keys(tick), costs)),
            window: self.window,
        }
    }
}

/// The sum over no unit is zero.
pub proof fn sum_of_none(costs: CostTable)
    ensures
        supply_sum(Set::empty(), costs) == 0,
{
    lemma_fold_empty(0int, add_supply(costs));
}

/// A tracker that knows nothing has the aggregate that every catalog sums
/// to.
pub proof fn nothing_conserves(costs: CostTable, window: int)
    ensures
        Threat::nothing(window).conserves(costs),
        Threat::nothing(window).bounded(),
{
    sum_of_none(costs);
    assert(Threat::nothing(window).sightings.dom() =~= Set::empty());
}

/// One more unit adds its catalog supply to the sum.
pub proof fn sum_with(keys: Set<(u64, u64)>, costs: CostTable, key: (u64, u64))
    requires
        keys.finite(),
        !keys.contains(key),
    ensures
        supply_sum(keys.insert(key), costs) == supply_sum(keys, costs) + catalog_supply(costs, key.1),
{
    assert(is_fun_commutative(add_supply(costs)));
    lemma_fold_insert(keys, 0int, add_supply(costs), key);
}

/// One unit less takes its catalog supply from the sum.
pub proof fn sum_without(keys: Set<(u64, u64)>, costs: CostTable, key: (u64, u64))
    requires
        keys.finite(),
        keys.contains(key),
    ensures
        supply_sum(keys.remove(key), costs) == supply_sum(keys, costs) - catalog_supply(costs, key.1),
{
    sum_with(keys.remove(key), costs, key);
    assert(keys.remove(key).insert(key) =~= keys);
}

/// The sum over finitely many units lies between nothing and the greatest
/// supply for each of them.
pub proof fn sum_is_bounded(keys: Set<(u64, u64)>, costs: CostTable)
    requires
        keys.finite(),
    ensures
        0 <= supply_sum(keys, costs) <= keys.len() * u32::MAX,
    decreases keys.len(),
{
    if keys.len() == 0 {
        assert(keys =~= Set::empty());
        sum_of_none(costs);
    } else {
        let key = keys.choose();
        sum_without(keys, costs, key);
        sum_is_bounded(keys.remove(key), costs);
        assert(keys.remove(key).len() * u32::MAX + u32::MAX == keys.len() * u32::MAX) by (nonlinear_arith)
            requires
                keys.remove(key).len() + 1 == keys.len(),
        ;
    }
}

/// A sighting of a unit that is known leaves the aggregate as it is.
pub proof fn resighting_keeps_the_aggregate(threat: Threat, unit: EnemyUnit, tick: int)
    requires
        threat.knows(unit),
    ensures
        threat.seen(unit, tick).aggregate == threat.aggregate,
{
}

/// A sighting keeps the aggregate equal to the sum of catalog supply, where
/// the unit is seen with the supply that the catalog gives for its kind.
pub proof fn sighting_conserves(threat: Threat, unit: EnemyUnit, tick: int, costs: CostTable)
    requires
        threat.bounded(),
        threat.conserves(costs),
        agrees(unit, costs),
    ensures
        threat.seen(unit, tick).conserves(costs),
        threat.seen(unit, tick).sightings.dom().finite(),
{
    let keys = threat.sightings.dom();
    let key = key_of(unit);
    if unit.is_worker {
    } else if threat.knows(unit) {
        assert(keys.insert(key) =~= keys);
    } else {
        sum_with(keys, costs, key);
        sum_is_bounded(keys, costs);
        assert(kind_of_code(key.1) == Some(unit.kind));
        assert(keys.len() * u32::MAX <= capacity() * u32::MAX) by (nonlinear_arith)
            requires
                keys.len() <= capacity(),
        ;
    }
}

/// Sightings keep the aggregate equal to the sum of catalog supply, where
/// each unit is seen with the supply that the catalog gives for its kind and
/// the tracker has room for all of them.
pub proof fn sightings_conserve(threat: Threat, units: Seq<EnemyUnit>, tick: int, costs: CostTable)
    requires
        threat.sightings.dom().finite(),
        threat.sightings.dom().len() + units.len() <= capacity(),
        threat.conserves(costs),
        all_agree(units, costs),
    ensures
        threat.seen_all(units, tick).conserves(costs),
        threat.seen_all(units, tick).sightings.dom().finite(),
        threat.seen_all(units, tick).sightings.dom().len() <= threat.sightings.dom().len() + units.len(),
    decreases units.len(),
{
    if units.len() > 0 {
        let front = units.drop_last();
        assert forall|i: int| 0 <= i < front.len() implies agrees(#[trigger] front[i], costs) by {
            assert(front[i] == units[i]);
        }
        sightings_conserve(threat, front, tick, costs);
        assert(units.last() == units[units.len() - 1]);
        sighting_conserves(threat.seen_all(front, tick), units.last(), tick, costs);
    }
}

/// A death keeps the aggregate equal to the sum of catalog supply, where
/// the unit is reported with the supply that the catalog gives for its kind.
pub proof fn death_conserves(threat: Threat, unit: EnemyUnit, costs: CostTable)
    requires
        threat.bounded(),
        threat.conserves(costs),
        unit.supply_cost == costs.unit_cost(unit.kind).supply,
    ensures
        threat.died(unit).conserves(costs),
        threat.died(unit).bounded(),
{
    let keys = threat.sightings.dom();
    let key = key_of(unit);
    if threat.knows(unit) {
        sum_without(keys, costs, key);
        sum_is_bounded(keys.remove(key), costs);
        assert(kind_of_code(key.1) == Some(unit.kind));
    }
}

/// The sum over a set of units is the sum over some of them and the sum
/// over the rest.
pub proof fn sum_splits(keys: Set<(u64, u64)>, part: Set<(u64, u64)>, costs: CostTable)
    requires
        keys.finite(),
        part.subset_of(keys),
    ensures
        part.finite(),
        keys.difference(part).finite(),
        supply_sum(keys, costs) == supply_sum(part, costs) + supply_sum(keys.difference(part), costs),
    decreases keys.len(),
{
    if keys.len() == 0 {
        assert(keys =~= Set::empty());
        assert(part =~= Set::empty());
        assert(keys.difference(part) =~= Set::empty());
        sum_of_none(costs);
    } else {
        let key = keys.choose();
        let fewer = keys.remove(key);
        let part_fewer = part.remove(key);
        sum_splits(fewer, part_fewer, costs);
        sum_without(keys, costs, key);
        if part.contains(key) {
            assert(part_fewer.insert(key) =~= part);
            sum_with(part_fewer, costs, key);
            assert(fewer.difference(part_fewer) =~= keys.difference(part));
        } else {
            assert(part_fewer =~= part);
            assert(fewer.difference(part_fewer).insert(key) =~= keys.difference(part));
            sum_with(fewer.difference(part_fewer), costs, key);
        }
    }
}

/// The decay keeps the aggregate equal to the sum of catalog supply.
pub proof fn decay_conserves(threat: Threat, costs: CostTable, tick: int)
    requires
        threat.bounded(),
        threat.conserves(costs),
    ensures
        threat.decayed(costs, tick).conserves(costs),
        threat.decayed(costs, tick).bounded(),
{
    let keys = threat.sightings.dom();
    let stale = threat.stale_keys(tick);
    assert(stale.subset_of(keys));
    sum_splits(keys, stale, costs);
    assert(threat.decayed(costs, tick).sightings.dom() =~= keys.difference(stale));
    sum_is_bounded(keys.difference(stale), costs);
    sum_is_bounded(keys, costs);
    vstd::set_lib::lemma_len_subset(keys.difference(stale), keys);
    assert(keys.len() * u32::MAX <= capacity() * u32::MAX) by (nonlinear_arith)
        requires
            keys.len() <= capacity(),
    ;
}

/// The decay at `tick` takes out exactly the units whose last sighting lies
/// the window's ticks or more back, and leaves the last sighting of every
/// other unit as it is.
pub proof fn decay_evicts_the_stale(threat: Threat, costs: CostTable, tick: int, key: (u64, u64))
    ensures
        threat.decayed(costs, tick).sightings.dom().contains(key) <==> threat.sightings.dom().contains(key)
            && threat.sightings[key] + threat.window > tick,
        threat.decayed(costs, tick).sightings.dom().contains(key) ==> threat.decayed(costs, tick).sightings[key]
            == threat.sightings[key],
        threat.decayed(costs, tick).window == threat.window,
{
}

/// A unit that was seen at a tick outlasts the decay at that tick, where the
/// decay window is more than nothing.
pub proof fn what_was_just_seen_stays(threat: Threat, unit: EnemyUnit, costs: CostTable, tick: int)
    requires
        threat.window > 0,
        !unit.is_worker,
    ensures
        threat.seen(unit, tick).decayed(costs, tick).knows(unit),
{
}

} // verus!
