//! The worker allocator: which harvesters are taken from their work and
//! where each of them is sent.

use crate::flourish_bot::FlourishBot;
use crate::selection::{find_nearest_open, find_richest_local, is_local, nearest_open, richest_local};
use crate::snapshot::{MineralField, Point, ResourceNode, Snapshot, Worker};
use vstd::prelude::*;

verus! {

/// Which workers a draft calls up.
pub enum Draft {
    /// Those without an order.
    Idle,
    /// Those bringing minerals back to the base `base`.
    Carriers { base: u64 },
    /// Those aiming at any of the mineral fields `fields`.
    Miners { fields: Seq<u64> },
    /// Those that work for one gas building: aiming at it, or bringing gas
    /// back to the base `home`.
    GasCrew { gas: u64, home: Option<u64> },
}

impl Draft {
    /// Whether the draft calls up `w`.
    pub open spec fn wants(self, w: Worker) -> bool {
        match self {
            Draft::Idle => w.idle,
            Draft::Carriers { base } => w.carrying_minerals && w.target == Some(base),
            Draft::Miners { fields } => w.target matches Some(t) && fields.contains(t),
            Draft::GasCrew { gas, home } => w.target matches Some(t) && (t == gas || (
            w.carrying_vespene && home == Some(t))),
        }
    }
}

/// Whether a worker with the tag `tag` is in `pool`.
pub open spec fn has_tag(pool: Seq<Worker>, tag: u64) -> bool {
    exists|i: int| 0 <= i < pool.len() && #[trigger] pool[i].tag == tag
}

/// `pool` with `w` at its end, unless a worker with that tag is in it.
pub open spec fn pooled(pool: Seq<Worker>, w: Worker) -> Seq<Worker> {
    if has_tag(pool, w.tag) {
        pool
    } else {
        pool.push(w)
    }
}

/// `pool` after a draft among `workers[from..]`: the first `limit` workers
/// that the draft wants join the pool in their order, each unless a worker
/// with its tag is in the pool by then.
pub open spec fn drafted(pool: Seq<Worker>, workers: Seq<Worker>, draft: Draft, limit: nat, from: int) -> Seq<Worker>
    decreases workers.len() - from,
{
    if from < 0 || from >= workers.len() || limit == 0 {
        pool
    } else if draft.wants(workers[from]) {
        drafted(pooled(pool, workers[from]), workers, draft, (limit - 1) as nat, from + 1)
    } else {
        drafted(pool, workers, draft, limit, from + 1)
    }
}

/// How many workers a draft among `workers[from..]` calls up: those that the
/// draft wants, up to `limit` of them. A worker that is in the pool already
/// counts all the same.
pub open spec fn called_up(workers: Seq<Worker>, draft: Draft, limit: nat, from: int) -> nat
    decreases workers.len() - from,
{
    if from < 0 || from >= workers.len() || limit == 0 {
        0
    } else if draft.wants(workers[from]) {
        1 + called_up(workers, draft, (limit - 1) as nat, from + 1)
    } else {
        called_up(workers, draft, limit, from + 1)
    }
}

/// No two workers of `pool` have the same tag.
pub open spec fn distinct_tags(pool: Seq<Worker>) -> bool {
    forall|i: int, j: int| 0 <= i < j < pool.len() ==> #[trigger] pool[i].tag != #[trigger] pool[j].tag
}

/// The rule of a draft as the allocator holds it while it runs.
pub enum DraftRule {
    Idle,
    Carriers { base: u64 },
    Miners { fields: Vec<u64> },
    GasCrew { gas: u64, home: Option<u64> },
}

impl DraftRule {
    /// The draft that this rule stands for.
    pub open spec fn view(&self) -> Draft {
        match self {
            DraftRule::Idle => Draft::Idle,
            DraftRule::Carriers { base } => Draft::Carriers { base: *base },
            DraftRule::Miners { fields } => Draft::Miners { fields: fields@ },
            DraftRule::GasCrew { gas, home } => Draft::GasCrew { gas: *gas, home: *home },
        }
    }

    /// Computes [`Draft::wants`].
    pub fn wants(&self, w: &Worker) -> (wanted: bool)
        ensures
            wanted == self@.wants(*w),
    {
        match self {
            DraftRule::Idle => w.idle,
            DraftRule::Carriers { base } => match w.target {
                Some(t) => w.carrying_minerals && t == *base,
                None => false,
            },
            DraftRule::Miners { fields } => match w.target {
                Some(t) => contains_tag(fields, t),
                None => false,
            },
            DraftRule::GasCrew { gas, home } => match w.target {
                Some(t) => t == *gas || (w.carrying_vespene && match home {
                    Some(h) => *h == t,
                    None => false,
                }),
                None => false,
            },
        }
    }
}

/// Whether `tag` is among `tags`.
pub fn contains_tag(tags: &Vec<u64>, tag: u64) -> (found: bool)
    ensures
        found == tags@.contains(tag),
{
    let mut i: usize = 0;
    while i < tags.len()
        invariant
            i <= tags@.len(),
            forall|k: int| 0 <= k < i ==> tags@[k] != tag,
        decreases tags@.len() - i,
    {
        if tags[i] == tag {
            return true;
        }
        i += 1;
    }
    false
}

/// Whether a worker with the tag `tag` is in `pool`.
pub fn pool_has_tag(pool: &Vec<Worker>, tag: u64) -> (found: bool)
    ensures
        found == has_tag(pool@, tag),
{
    let mut i: usize = 0;
    while i < pool.len()
        invariant
            i <= pool@.len(),
            forall|k: int| 0 <= k < i ==> pool@[k].tag != tag,
        decreases pool@.len() - i,
    {
        if pool[i].tag == tag {
            return true;
        }
        i += 1;
    }
    false
}

/// Holds a draft among `workers`: the first `limit` of them that `rule`
/// wants join `pool`. Returns how many the draft called up.
pub fn draft_workers(pool: &mut Vec<Worker>, workers: &Vec<Worker>, rule: &DraftRule, limit: usize) -> (called:
    usize)
    ensures
        final(pool)@ == drafted(old(pool)@, workers@, rule@, limit as nat, 0),
        called == called_up(workers@, rule@, limit as nat, 0),
        called <= limit,
{
    let mut left: usize = limit;
    let mut i: usize = 0;
    while i < workers.len() && left > 0
        invariant
            i <= workers@.len(),
            left <= limit,
            drafted(pool@, workers@, rule@, left as nat, i as int) == drafted(
                old(pool)@,
                workers@,
                rule@,
                limit as nat,
                0,
            ),
            (limit - left) + called_up(workers@, rule@, left as nat, i as int) == called_up(
                workers@,
                rule@,
                limit as nat,
                0,
            ),
        decreases workers@.len() - i,
    {
        let w = workers[i];
        if rule.wants(&w) {
            if !pool_has_tag(pool, w.tag) {
                pool.push(w);
            }
            left -= 1;
        }
        i += 1;
    }
    limit - left
}


/// Tags of the fields of the base at `base`, in the order of `fields`.
pub open spec fn local_tags(fields: Seq<MineralField>, base: Point) -> Seq<u64>
    decreases fields.len(),
{
    if fields.len() == 0 {
        Seq::empty()
    } else if is_local(fields.last(), base) {
        local_tags(fields.drop_last(), base).push(fields.last().tag)
    } else {
        local_tags(fields.drop_last(), base)
    }
}

/// Tags of all of `fields`, in their order.
pub open spec fn field_tags(fields: Seq<MineralField>) -> Seq<u64> {
    Seq::new(fields.len(), |i: int| fields[i].tag)
}

/// Positions of `fields`, in their order.
pub open spec fn field_positions(fields: Seq<MineralField>) -> Seq<Point> {
    Seq::new(fields.len(), |i: int| fields[i].position)
}

/// Positions of `nodes`, in their order.
pub open spec fn node_positions(nodes: Seq<ResourceNode>) -> Seq<Point> {
    Seq::new(nodes.len(), |i: int| nodes[i].position)
}

/// How many harvesters `node` lacks to have `wanted` of them.
pub open spec fn shortage(node: ResourceNode, wanted: u32) -> u32 {
    if node.assigned_harvesters < wanted {
        (wanted - node.assigned_harvesters) as u32
    } else {
        0
    }
}

/// How many harvesters `node` has beyond `wanted` of them.
pub open spec fn surplus(node: ResourceNode, wanted: u32) -> u32 {
    if node.assigned_harvesters > wanted {
        (node.assigned_harvesters - wanted) as u32
    } else {
        0
    }
}

/// The open mineral slots of each base: what it lacks to its ideal count,
/// and none where it has no field to send a harvester to.
pub open spec fn mineral_slots(snapshot: Snapshot) -> Seq<u32> {
    Seq::new(
        snapshot.bases@.len(),
        |i: int|
            if richest_local(snapshot.mineral_fields@, snapshot.bases@[i].position) is Some {
                shortage(snapshot.bases@[i], snapshot.bases@[i].ideal_harvesters)
            } else {
                0
            },
    )
}

/// The open slots of each gas building: what it lacks to its ideal count
/// where it has less than `target` harvesters, else none.
pub open spec fn gas_slots(snapshot: Snapshot, target: u32) -> Seq<u32> {
    Seq::new(
        snapshot.gas_buildings@.len(),
        |i: int|
            if snapshot.gas_buildings@[i].assigned_harvesters < target {
                shortage(snapshot.gas_buildings@[i], snapshot.gas_buildings@[i].ideal_harvesters)
            } else {
                0
            },
    )
}

/// For each field, 1 where it belongs to one of `bases` and 0 where it
/// belongs to none.
pub open spec fn spare_fields(fields: Seq<MineralField>, bases: Seq<ResourceNode>) -> Seq<u32> {
    Seq::new(
        fields.len(),
        |i: int|
            if exists|b: int| 0 <= b < bases.len() && is_local(fields[i], #[trigger] bases[b].position) {
                1u32
            } else {
                0u32
            },
    )
}

/// The tag of the base nearest to `gas`, the first of those equally near.
pub open spec fn home_of(bases: Seq<ResourceNode>, gas: ResourceNode) -> Option<u64> {
    match nearest_open(node_positions(bases), Seq::new(bases.len(), |i: int| 1u32), gas.position) {
        Some(b) => Some(bases[b].tag),
        None => None,
    }
}

/// The draft of the workers that bring minerals back to `base`.
pub open spec fn carriers_of(base: ResourceNode) -> Draft {
    Draft::Carriers { base: base.tag }
}

/// The draft of the workers that aim at one of the fields of `base`.
pub open spec fn field_miners_of(snapshot: Snapshot, base: ResourceNode) -> Draft {
    Draft::Miners { fields: local_tags(snapshot.mineral_fields@, base.position) }
}

/// The pool after `base` gave up what it has beyond its ideal count: as
/// many workers as it has too many, first of those that bring minerals back
/// to it, and for what these leave over of those that aim at one of its
/// fields; each kind in the snapshot's order.
pub open spec fn base_draft(snapshot: Snapshot, pool: Seq<Worker>, base: ResourceNode) -> Seq<Worker> {
    let excess = surplus(base, base.ideal_harvesters) as nat;
    let carriers = called_up(snapshot.workers@, carriers_of(base), excess, 0);
    drafted(
        drafted(pool, snapshot.workers@, carriers_of(base), excess, 0),
        snapshot.workers@,
        field_miners_of(snapshot, base),
        (excess - carriers) as nat,
        0,
    )
}

/// The draft that takes harvesters off the gas building `gas`.
pub open spec fn gas_crew(bases: Seq<ResourceNode>, gas: ResourceNode) -> Draft {
    Draft::GasCrew { gas: gas.tag, home: home_of(bases, gas) }
}

/// The pool after the bases from index `from` on have given up what they
/// have beyond their ideal count.
pub open spec fn base_drafts(snapshot: Snapshot, pool: Seq<Worker>, from: int) -> Seq<Worker>
    decreases snapshot.bases@.len() - from,
{
    if from < 0 || from >= snapshot.bases@.len() {
        pool
    } else {
        base_drafts(snapshot, base_draft(snapshot, pool, snapshot.bases@[from]), from + 1)
    }
}

/// The pool after one gas building had its turn: below `target` it calls
/// up every worker that aims at a mineral field, above it gives up what it
/// has beyond `target`.
pub open spec fn gas_draft(snapshot: Snapshot, target: u32, pool: Seq<Worker>, gas: ResourceNode) -> Seq<Worker> {
    if gas.assigned_harvesters < target {
        drafted(
            pool,
            snapshot.workers@,
            Draft::Miners { fields: field_tags(snapshot.mineral_fields@) },
            snapshot.workers@.len(),
            0,
        )
    } else {
        drafted(pool, snapshot.workers@, gas_crew(snapshot.bases@, gas), surplus(gas, target) as nat, 0)
    }
}

/// The pool after the gas buildings from index `from` on had their turn.
pub open spec fn gas_drafts(snapshot: Snapshot, target: u32, pool: Seq<Worker>, from: int) -> Seq<Worker>
    decreases snapshot.gas_buildings@.len() - from,
{
    if from < 0 || from >= snapshot.gas_buildings@.len() {
        pool
    } else {
        gas_drafts(
            snapshot,
            target,
            gas_draft(snapshot, target, pool, snapshot.gas_buildings@[from]),
            from + 1,
        )
    }
}

/// The workers that a pass has to place, in the order in which it places
/// them: the idle ones, then what the bases give up, then what the gas
/// buildings call up or give up.
pub open spec fn pool_of(snapshot: Snapshot, target: u32) -> Seq<Worker> {
    gas_drafts(
        snapshot,
        target,
        base_drafts(
            snapshot,
            drafted(Seq::empty(), snapshot.workers@, Draft::Idle, snapshot.workers@.len(), 0),
            0,
        ),
        0,
    )
}

/// What an order was given for.
#[derive(Clone, Copy, Debug, PartialEq, Eq, Structural)]
pub enum Slot {
    /// An open slot of the gas building at this index of the snapshot.
    Gas(usize),
    /// An open mineral slot of the base at this index of the snapshot.
    Base(usize),
    /// No slot: a worker without work was sent to a field.
    Spare,
}

/// The command to send one worker to gather at one target.
#[derive(Clone, Copy, Debug, PartialEq, Eq, Structural)]
pub struct GatherOrder {
    pub worker: u64,
    pub target: u64,
    pub slot: Slot,
}

/// `open` with one slot less at index `i`.
pub open spec fn taken(open: Seq<u32>, i: int) -> Seq<u32> {
    open.update(i, (open[i] - 1) as u32)
}

/// The orders for the workers `pool[from..]`, given in their order, where
/// `gas_open` and `base_open` are the slots still open. A worker goes to the
/// nearest gas building with an open slot; where there is none, to the
/// richest field of the nearest base with an open slot; where there is none
/// either and the worker has no order, to the nearest field that belongs to
/// a base. A worker for which nothing is found gets no order.
pub open spec fn orders_from(
    snapshot: Snapshot,
    pool: Seq<Worker>,
    from: int,
    gas_open: Seq<u32>,
    base_open: Seq<u32>,
) -> Seq<GatherOrder>
    decreases pool.len() - from,
{
    if from < 0 || from >= pool.len() {
        Seq::empty()
    } else {
        let w = pool[from];
        let fields = snapshot.mineral_fields@;
        match nearest_open(node_positions(snapshot.gas_buildings@), gas_open, w.position) {
            Some(g) => seq![
                GatherOrder { worker: w.tag, target: snapshot.gas_buildings@[g].tag, slot: Slot::Gas(g as usize) },
            ] + orders_from(snapshot, pool, from + 1, taken(gas_open, g), base_open),
            None => match nearest_open(node_positions(snapshot.bases@), base_open, w.position) {
                Some(b) => match richest_local(fields, snapshot.bases@[b].position) {
                    Some(f) => seq![
                        GatherOrder { worker: w.tag, target: fields[f].tag, slot: Slot::Base(b as usize) },
                    ] + orders_from(snapshot, pool, from + 1, gas_open, taken(base_open, b)),
                    None => orders_from(snapshot, pool, from + 1, gas_open, taken(base_open, b)),
                },
                None => match (if w.idle {
                    nearest_open(field_positions(fields), spare_fields(fields, snapshot.bases@), w.position)
                } else {
                    None
                }) {
                    Some(f) => seq![GatherOrder { worker: w.tag, target: fields[f].tag, slot: Slot::Spare }]
                        + orders_from(snapshot, pool, from + 1, gas_open, base_open),
                    None => orders_from(snapshot, pool, from + 1, gas_open, base_open),
                },
            },
        }
    }
}

/// The orders of one pass over `snapshot` with `target` harvesters wanted on
/// each gas building.
pub open spec fn distribution(snapshot: Snapshot, target: u32) -> Seq<GatherOrder> {
    orders_from(snapshot, pool_of(snapshot, target), 0, gas_slots(snapshot, target), mineral_slots(snapshot))
}


/// Computes [`field_tags`].
fn tags_of_fields(fields: &Vec<MineralField>) -> (tags: Vec<u64>)
    ensures
        tags@ == field_tags(fields@),
{
    let mut tags: Vec<u64> = Vec::new();
    let mut i: usize = 0;
    while i < fields.len()
        invariant
            i <= fields@.len(),
            tags@.len() == i,
            forall|k: int| 0 <= k < i ==> tags@[k] == fields@[k].tag,
        decreases fields@.len() - i,
    {
        tags.push(fields[i].tag);
        i += 1;
    }
    assert(tags@ =~= field_tags(fields@));
    tags
}

/// Computes [`field_positions`].
fn positions_of_fields(fields: &Vec<MineralField>) -> (positions: Vec<Point>)
    ensures
        positions@ == field_positions(fields@),
{
    let mut positions: Vec<Point> = Vec::new();
    let mut i: usize = 0;
    while i < fields.len()
        invariant
            i <= fields@.len(),
            positions@.len() == i,
            forall|k: int| 0 <= k < i ==> positions@[k] == fields@[k].position,
        decreases fields@.len() - i,
    {
        positions.push(fields[i].position);
        i += 1;
    }
    assert(positions@ =~= field_positions(fields@));
    positions
}

/// Computes [`node_positions`].
fn positions_of_nodes(nodes: &Vec<ResourceNode>) -> (positions: Vec<Point>)
    ensures
        positions@ == node_positions(nodes@),
{
    let mut positions: Vec<Point> = Vec::new();
    let mut i: usize = 0;
    while i < nodes.len()
        invariant
            i <= nodes@.len(),
            positions@.len() == i,
            forall|k: int| 0 <= k < i ==> positions@[k] == nodes@[k].position,
        decreases nodes@.len() - i,
    {
        positions.push(nodes[i].position);
        i += 1;
    }
    assert(positions@ =~= node_positions(nodes@));
    positions
}

/// Computes [`shortage`].
fn shortage_of(node: &ResourceNode, wanted: u32) -> (lack: u32)
    ensures
        lack == shortage(*node, wanted),
{
    if node.assigned_harvesters < wanted {
        wanted - node.assigned_harvesters
    } else {
        0
    }
}

/// Computes [`surplus`].
fn surplus_of(node: &ResourceNode, wanted: u32) -> (excess: u32)
    ensures
        excess == surplus(*node, wanted),
{
    if node.assigned_harvesters > wanted {
        node.assigned_harvesters - wanted
    } else {
        0
    }
}

/// Computes [`mineral_slots`].
fn open_mineral_slots(snapshot: &Snapshot) -> (slots: Vec<u32>)
    ensures
        slots@ == mineral_slots(*snapshot),
{
    let mut slots: Vec<u32> = Vec::new();
    let mut i: usize = 0;
    while i < snapshot.bases.len()
        invariant
            i <= snapshot.bases@.len(),
            slots@.len() == i,
            forall|k: int| 0 <= k < i ==> slots@[k] == mineral_slots(*snapshot)[k],
        decreases snapshot.bases@.len() - i,
    {
        let base = snapshot.bases[i];
        let n: u32 = match find_richest_local(&snapshot.mineral_fields, &base.position) {
            Some(_) => shortage_of(&base, base.ideal_harvesters),
            None => 0,
        };
        slots.push(n);
        i += 1;
    }
    assert(slots@ =~= mineral_slots(*snapshot));
    slots
}

/// Computes [`gas_slots`].
fn open_gas_slots(snapshot: &Snapshot, target: u32) -> (slots: Vec<u32>)
    ensures
        slots@ == gas_slots(*snapshot, target),
{
    let mut slots: Vec<u32> = Vec::new();
    let mut i: usize = 0;
    while i < snapshot.gas_buildings.len()
        invariant
            i <= snapshot.gas_buildings@.len(),
            slots@.len() == i,
            forall|k: int| 0 <= k < i ==> slots@[k] == gas_slots(*snapshot, target)[k],
        decreases snapshot.gas_buildings@.len() - i,
    {
        let gas = snapshot.gas_buildings[i];
        let n: u32 = if gas.assigned_harvesters < target {
            shortage_of(&gas, gas.ideal_harvesters)
        } else {
            0
        };
        slots.push(n);
        i += 1;
    }
    assert(slots@ =~= gas_slots(*snapshot, target));
    slots
}

/// Whether `field` belongs to one of `bases`.
fn belongs_to_a_base(field: &MineralField, bases: &Vec<ResourceNode>) -> (found: bool)
    ensures
        found == exists|b: int| 0 <= b < bases@.len() && is_local(*field, #[trigger] bases@[b].position),
{
    let mut b: usize = 0;
    while b < bases.len()
        invariant
            b <= bases@.len(),
            forall|k: int| 0 <= k < b ==> !is_local(*field, #[trigger] bases@[k].position),
        decreases bases@.len() - b,
    {
        if field.position.is_local_to(&bases[b].position) {
            return true;
        }
        b += 1;
    }
    false
}

/// Computes [`spare_fields`].
fn spare_field_mask(fields: &Vec<MineralField>, bases: &Vec<ResourceNode>) -> (mask: Vec<u32>)
    ensures
        mask@ == spare_fields(fields@, bases@),
{
    let mut mask: Vec<u32> = Vec::new();
    let mut i: usize = 0;
    while i < fields.len()
        invariant
            i <= fields@.len(),
            mask@.len() == i,
            forall|k: int| 0 <= k < i ==> mask@[k] == spare_fields(fields@, bases@)[k],
        decreases fields@.len() - i,
    {
        let m: u32 = if belongs_to_a_base(&fields[i], bases) {
            1
        } else {
            0
        };
        mask.push(m);
        i += 1;
    }
    assert(mask@ =~= spare_fields(fields@, bases@));
    mask
}

/// Computes [`home_of`].
fn nearest_base_tag(bases: &Vec<ResourceNode>, gas: &ResourceNode) -> (home: Option<u64>)
    ensures
        home == home_of(bases@, *gas),
{
    let positions = positions_of_nodes(bases);
    let mut all_open: Vec<u32> = Vec::new();
    let mut i: usize = 0;
    while i < bases.len()
        invariant
            i <= bases@.len(),
            all_open@.len() == i,
            forall|k: int| 0 <= k < i ==> all_open@[k] == 1,
        decreases bases@.len() - i,
    {
        all_open.push(1);
        i += 1;
    }
    assert(all_open@ =~= Seq::new(bases@.len(), |i: int| 1u32));
    match find_nearest_open(&positions, &all_open, &gas.position) {
        Some(b) => Some(bases[b].tag),
        None => None,
    }
}

impl FlourishBot {
    /// Tags of the mineral fields close enough to `base` to be its fields.
    pub fn local_mineral_tags(&self, snapshot: &Snapshot, base: &ResourceNode) -> (tags: Vec<u64>)
        ensures
            tags@ == local_tags(snapshot.mineral_fields@, base.position),
    {
        let fields = &snapshot.mineral_fields;
        let mut tags: Vec<u64> = Vec::new();
        let mut i: usize = 0;
        while i < fields.len()
            invariant
                i <= fields@.len(),
                tags@ == local_tags(fields@.take(i as int), base.position),
            decreases fields@.len() - i,
        {
            assert(fields@.take(i + 1).drop_last() =~= fields@.take(i as int));
            if fields[i].position.is_local_to(&base.position) {
                tags.push(fields[i].tag);
            }
            i += 1;
        }
        assert(fields@.take(i as int) =~= fields@);
        tags
    }

    /// Adds the workers at `base` that it has beyond its ideal count to
    /// `idle_workers`: as many as it has too many, with those that bring
    /// minerals back to it before those that aim at one of its fields.
    pub fn add_excess_workers_from_base(
        &self,
        snapshot: &Snapshot,
        base: &ResourceNode,
        idle_workers: &mut Vec<Worker>,
    )
        ensures
            final(idle_workers)@ == base_draft(*snapshot, old(idle_workers)@, *base),
    {
        let excess = surplus_of(base, base.ideal_harvesters) as usize;
        let carriers = DraftRule::Carriers { base: base.tag };
        let called = draft_workers(idle_workers, &snapshot.workers, &carriers, excess);
        let miners = DraftRule::Miners { fields: self.local_mineral_tags(snapshot, base) };
        draft_workers(idle_workers, &snapshot.workers, &miners, excess - called);
    }

    /// Adds the workers at `gas` that it has beyond `desired_workers` to
    /// `idle_workers`: of the workers that aim at it, or bring gas back to
    /// the base nearest to it, as many as it has too many, the first ones in
    /// the snapshot's order.
    pub fn add_excess_workers_from_gas(
        &self,
        snapshot: &Snapshot,
        bases: &Vec<ResourceNode>,
        gas: &ResourceNode,
        idle_workers: &mut Vec<Worker>,
        desired_workers: u32,
    )
        ensures
            final(idle_workers)@ == drafted(
                old(idle_workers)@,
                snapshot.workers@,
                gas_crew(bases@, *gas),
                surplus(*gas, desired_workers) as nat,
                0,
            ),
    {
        let rule = DraftRule::GasCrew { gas: gas.tag, home: nearest_base_tag(bases, gas) };
        let excess = surplus_of(gas, desired_workers);
        draft_workers(idle_workers, &snapshot.workers, &rule, excess as usize);
    }
}


/// Ticks that pass between two distribution passes while no worker is idle,
/// before one more tick for each base.
pub const DISTRIBUTION_DELAY: u32 = 8;

/// Whether one of `workers` has no order.
pub open spec fn any_idle(workers: Seq<Worker>) -> bool {
    exists|i: int| 0 <= i < workers.len() && #[trigger] workers[i].idle
}

/// A draft never makes the pool shorter.
pub proof fn draft_keeps_the_pool(pool: Seq<Worker>, workers: Seq<Worker>, draft: Draft, limit: nat, from: int)
    ensures
        drafted(pool, workers, draft, limit, from).len() >= pool.len(),
    decreases workers.len() - from,
{
    if from < 0 || from >= workers.len() || limit == 0 {
    } else if draft.wants(workers[from]) {
        draft_keeps_the_pool(pooled(pool, workers[from]), workers, draft, (limit - 1) as nat, from + 1);
    } else {
        draft_keeps_the_pool(pool, workers, draft, limit, from + 1);
    }
}

/// A draft of the idle workers with room for all of them leaves the pool
/// empty exactly where no worker is idle.
proof fn idle_draft_is_empty(workers: Seq<Worker>, limit: nat, from: int)
    requires
        0 <= from <= workers.len(),
        limit >= workers.len() - from,
    ensures
        drafted(Seq::empty(), workers, Draft::Idle, limit, from).len() == 0 <==> forall|k: int|
            from <= k < workers.len() ==> !(#[trigger] workers[k]).idle,
    decreases workers.len() - from,
{
    if from >= workers.len() {
    } else if workers[from].idle {
        let pool = pooled(Seq::empty(), workers[from]);
        assert(pool.len() == 1);
        draft_keeps_the_pool(pool, workers, Draft::Idle, (limit - 1) as nat, from + 1);
    } else {
        idle_draft_is_empty(workers, limit, from + 1);
    }
}

impl FlourishBot {
    /// Whether a pass is due at the tick of `snapshot`: the agent has
    /// workers, and one of them is idle or the delay since the last pass is
    /// over.
    pub open spec fn distributes(&self, snapshot: Snapshot) -> bool {
        &&& snapshot.workers@.len() > 0
        &&& (any_idle(snapshot.workers@) || self.last_loop_distributed + DISTRIBUTION_DELAY
            + snapshot.bases@.len() <= snapshot.game_loop)
    }

    /// The state after the call of `distribute_workers` at the tick of
    /// `snapshot`: where a pass is due its tick is noted, and nothing else
    /// changes.
    pub open spec fn after_distribution(self, snapshot: Snapshot) -> FlourishBot {
        if self.distributes(snapshot) {
            FlourishBot { last_loop_distributed: snapshot.game_loop, ..self }
        } else {
            self
        }
    }

    /// Rebalances the harvesters: returns the gather commands of this tick,
    /// in the order in which they are to be given. Where no pass is due
    /// nothing happens. Else the tick is noted as that of the last pass, and
    /// the commands are those of [`distribution`], or none where the map has
    /// no mineral field or the agent no base.
    pub fn distribute_workers(&mut self, snapshot: &Snapshot) -> (orders: Vec<GatherOrder>)
        ensures
            *final(self) == old(self).after_distribution(*snapshot),
            orders@ == if old(self).distributes(*snapshot) && snapshot.mineral_fields@.len() > 0
                && snapshot.bases@.len() > 0 {
                distribution(*snapshot, old(self).gas_target())
            } else {
                Seq::empty()
            },
    {
        let mut orders: Vec<GatherOrder> = Vec::new();
        if snapshot.workers.len() == 0 {
            return orders;
        }
        let mut idle_workers: Vec<Worker> = Vec::new();
        draft_workers(&mut idle_workers, &snapshot.workers, &DraftRule::Idle, snapshot.workers.len());
        proof {
            idle_draft_is_empty(snapshot.workers@, snapshot.workers@.len(), 0);
        }
        let due: u128 = self.last_loop_distributed as u128 + DISTRIBUTION_DELAY as u128
            + snapshot.bases.len() as u128;
        if idle_workers.len() == 0 && due > snapshot.game_loop as u128 {
            return orders;
        }
        self.last_loop_distributed = snapshot.game_loop;
        if snapshot.mineral_fields.len() == 0 || snapshot.bases.len() == 0 {
            return orders;
        }
        let target = self.target_gas_workers();
        let workers = &snapshot.workers;

        let mut b: usize = 0;
        while b < snapshot.bases.len()
            invariant
                b <= snapshot.bases@.len(),
                base_drafts(*snapshot, idle_workers@, b as int) == base_drafts(
                    *snapshot,
                    drafted(Seq::empty(), snapshot.workers@, Draft::Idle, snapshot.workers@.len(), 0),
                    0,
                ),
            decreases snapshot.bases@.len() - b,
        {
            let base = snapshot.bases[b];
            self.add_excess_workers_from_base(snapshot, &base, &mut idle_workers);
            b += 1;
        }

        let all_tags = DraftRule::Miners { fields: tags_of_fields(&snapshot.mineral_fields) };
        let mut g: usize = 0;
        while g < snapshot.gas_buildings.len()
            invariant
                g <= snapshot.gas_buildings@.len(),
                workers == &snapshot.workers,
                all_tags@ == (Draft::Miners { fields: field_tags(snapshot.mineral_fields@) }),
                gas_drafts(*snapshot, target, idle_workers@, g as int) == pool_of(*snapshot, target),
            decreases snapshot.gas_buildings@.len() - g,
        {
            let gas = snapshot.gas_buildings[g];
            if gas.assigned_harvesters < target {
                draft_workers(&mut idle_workers, workers, &all_tags, workers.len());
            } else {
                self.add_excess_workers_from_gas(snapshot, &snapshot.bases, &gas, &mut idle_workers, target);
            }
            g += 1;
        }

        let gas_positions = positions_of_nodes(&snapshot.gas_buildings);
        let base_positions = positions_of_nodes(&snapshot.bases);
        let field_spots = positions_of_fields(&snapshot.mineral_fields);
        let spare = spare_field_mask(&snapshot.mineral_fields, &snapshot.bases);
        let mut gas_open = open_gas_slots(snapshot, target);
        let mut base_open = open_mineral_slots(snapshot);

        let mut i: usize = 0;
        while i < idle_workers.len()
            invariant
                i <= idle_workers@.len(),
                idle_workers@ == pool_of(*snapshot, target),
                gas_positions@ == node_positions(snapshot.gas_buildings@),
                base_positions@ == node_positions(snapshot.bases@),
                field_spots@ == field_positions(snapshot.mineral_fields@),
                spare@ == spare_fields(snapshot.mineral_fields@, snapshot.bases@),
                gas_open@.len() == snapshot.gas_buildings@.len(),
                base_open@.len() == snapshot.bases@.len(),
                orders@ + orders_from(*snapshot, idle_workers@, i as int, gas_open@, base_open@)
                    == distribution(*snapshot, target),
            decreases idle_workers@.len() - i,
        {
            let w = idle_workers[i];
            let ghost before = orders@;
            let ghost rest = orders_from(*snapshot, idle_workers@, i as int, gas_open@, base_open@);
            match find_nearest_open(&gas_positions, &gas_open, &w.position) {
                Some(gi) => {
                    let left = gas_open[gi] - 1;
                    gas_open.set(gi, left);
                    orders.push(
                        GatherOrder { worker: w.tag, target: snapshot.gas_buildings[gi].tag, slot: Slot::Gas(gi) },
                    );
                },
                None => match find_nearest_open(&base_positions, &base_open, &w.position) {
                    Some(bi) => {
                        let left = base_open[bi] - 1;
                        base_open.set(bi, left);
                        match find_richest_local(&snapshot.mineral_fields, &snapshot.bases[bi].position) {
                            Some(f) => {
                                orders.push(
                                    GatherOrder {
                                        worker: w.tag,
                                        target: snapshot.mineral_fields[f].tag,
                                        slot: Slot::Base(bi),
                                    },
                                );
                            },
                            None => {},
                        }
                    },
                    None => {
                        if w.idle {
                            match find_nearest_open(&field_spots, &spare, &w.position) {
                                Some(f) => {
                                    orders.push(
                                        GatherOrder {
                                            worker: w.tag,
                                            target: snapshot.mineral_fields[f].tag,
                                            slot: Slot::Spare,
                                        },
                                    );
                                },
                                None => {},
                            }
                        }
                    },
                },
            }
            i += 1;
            assert(orders@ + orders_from(*snapshot, idle_workers@, i as int, gas_open@, base_open@)
                =~= before + rest);
        }
        assert(orders@ =~= orders@ + Seq::<GatherOrder>::empty());
        orders
    }
}

} // verus!
