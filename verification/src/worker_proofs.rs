//! What holds of every distribution pass: it only moves workers that exist,
//! each at most once, and fills no node beyond what the node lacks.

use crate::snapshot::{Snapshot, Worker};
use crate::selection::{is_nearest_open, nearest_open, richest_local};
use crate::workers::{
    base_draft, base_drafts, distinct_tags, distribution, drafted, gas_draft, gas_drafts, gas_slots, has_tag,
    mineral_slots, orders_from, pool_of, pooled, shortage, taken, Draft, GatherOrder, Slot,
};
use vstd::prelude::*;

verus! {

/// Every worker of `pool` is one of `workers`.
pub open spec fn drawn_from(pool: Seq<Worker>, workers: Seq<Worker>) -> bool {
    forall|i: int| 0 <= i < pool.len() ==> workers.contains(#[trigger] pool[i])
}

/// How many of `orders` were given for `slot`.
pub open spec fn orders_for(orders: Seq<GatherOrder>, slot: Slot) -> nat
    decreases orders.len(),
{
    if orders.len() == 0 {
        0
    } else if orders.first().slot == slot {
        1 + orders_for(orders.drop_first(), slot)
    } else {
        orders_for(orders.drop_first(), slot)
    }
}

/// A draft among `workers` keeps a pool of distinct workers of `workers`
/// what it is.
pub proof fn draft_keeps_workers_apart(
    pool: Seq<Worker>,
    workers: Seq<Worker>,
    draft: Draft,
    limit: nat,
    from: int,
)
    requires
        distinct_tags(pool),
        drawn_from(pool, workers),
    ensures
        distinct_tags(drafted(pool, workers, draft, limit, from)),
        drawn_from(drafted(pool, workers, draft, limit, from), workers),
    decreases workers.len() - from,
{
    if from < 0 || from >= workers.len() || limit == 0 {
    } else if draft.wants(workers[from]) {
        let next = pooled(pool, workers[from]);
        if !has_tag(pool, workers[from].tag) {
            assert forall|i: int, j: int| 0 <= i < j < next.len() implies #[trigger] next[i].tag
                != #[trigger] next[j].tag by {
                if j == pool.len() {
                    assert(pool[i].tag != workers[from].tag);
                }
            }
            assert forall|i: int| 0 <= i < next.len() implies workers.contains(#[trigger] next[i]) by {
                if i == pool.len() {
                    assert(workers[from] == next[i]);
                } else {
                    assert(next[i] == pool[i]);
                }
            }
        }
        draft_keeps_workers_apart(next, workers, draft, (limit - 1) as nat, from + 1);
    } else {
        draft_keeps_workers_apart(pool, workers, draft, limit, from + 1);
    }
}

/// The drafts of the bases keep a pool of distinct workers of the snapshot
/// what it is.
proof fn base_drafts_keep_workers_apart(snapshot: Snapshot, pool: Seq<Worker>, from: int)
    requires
        distinct_tags(pool),
        drawn_from(pool, snapshot.workers@),
    ensures
        distinct_tags(base_drafts(snapshot, pool, from)),
        drawn_from(base_drafts(snapshot, pool, from), snapshot.workers@),
    decreases snapshot.bases@.len() - from,
{
    if from < 0 || from >= snapshot.bases@.len() {
    } else {
        let base = snapshot.bases@[from];
        let workers = snapshot.workers@;
        let excess = crate::workers::surplus(base, base.ideal_harvesters) as nat;
        let carriers = crate::workers::carriers_of(base);
        let left = (excess - crate::workers::called_up(workers, carriers, excess, 0)) as nat;
        draft_keeps_workers_apart(pool, workers, carriers, excess, 0);
        draft_keeps_workers_apart(
            drafted(pool, workers, carriers, excess, 0),
            workers,
            crate::workers::field_miners_of(snapshot, base),
            left,
            0,
        );
        base_drafts_keep_workers_apart(snapshot, base_draft(snapshot, pool, base), from + 1);
    }
}

/// The drafts of the gas buildings keep a pool of distinct workers of the
/// snapshot what it is.
proof fn gas_drafts_keep_workers_apart(snapshot: Snapshot, target: u32, pool: Seq<Worker>, from: int)
    requires
        distinct_tags(pool),
        drawn_from(pool, snapshot.workers@),
    ensures
        distinct_tags(gas_drafts(snapshot, target, pool, from)),
        drawn_from(gas_drafts(snapshot, target, pool, from), snapshot.workers@),
    decreases snapshot.gas_buildings@.len() - from,
{
    if from < 0 || from >= snapshot.gas_buildings@.len() {
    } else {
        let gas = snapshot.gas_buildings@[from];
        if gas.assigned_harvesters < target {
            draft_keeps_workers_apart(
                pool,
                snapshot.workers@,
                Draft::Miners { fields: crate::workers::field_tags(snapshot.mineral_fields@) },
                snapshot.workers@.len(),
                0,
            );
        } else {
            draft_keeps_workers_apart(
                pool,
                snapshot.workers@,
                crate::workers::gas_crew(snapshot.bases@, gas),
                crate::workers::surplus(gas, target) as nat,
                0,
            );
        }
        gas_drafts_keep_workers_apart(snapshot, target, gas_draft(snapshot, target, pool, gas), from + 1);
    }
}

/// The pool of a pass holds workers of the snapshot, none of them twice.
pub proof fn pool_holds_each_worker_once(snapshot: Snapshot, target: u32)
    ensures
        distinct_tags(pool_of(snapshot, target)),
        drawn_from(pool_of(snapshot, target), snapshot.workers@),
{
    let empty = Seq::<Worker>::empty();
    draft_keeps_workers_apart(empty, snapshot.workers@, Draft::Idle, snapshot.workers@.len(), 0);
    let idle = drafted(empty, snapshot.workers@, Draft::Idle, snapshot.workers@.len(), 0);
    base_drafts_keep_workers_apart(snapshot, idle, 0);
    gas_drafts_keep_workers_apart(snapshot, target, base_drafts(snapshot, idle, 0), 0);
}

/// The orders for `pool[from..]` go to workers of `pool[from..]`, to none of
/// them twice, and are no more than these workers.
pub proof fn orders_go_to_the_pool(
    snapshot: Snapshot,
    pool: Seq<Worker>,
    from: int,
    gas_open: Seq<u32>,
    base_open: Seq<u32>,
)
    requires
        0 <= from <= pool.len(),
        distinct_tags(pool),
    ensures
        orders_from(snapshot, pool, from, gas_open, base_open).len() <= pool.len() - from,
        forall|i: int|
            0 <= i < orders_from(snapshot, pool, from, gas_open, base_open).len() ==> exists|k: int|
                from <= k < pool.len() && #[trigger] pool[k].tag == (#[trigger] orders_from(
                    snapshot,
                    pool,
                    from,
                    gas_open,
                    base_open,
                )[i]).worker,
        forall|i: int, j: int|
            0 <= i < j < orders_from(snapshot, pool, from, gas_open, base_open).len() ==> (
            #[trigger] orders_from(snapshot, pool, from, gas_open, base_open)[i]).worker != (
            #[trigger] orders_from(snapshot, pool, from, gas_open, base_open)[j]).worker,
    decreases pool.len() - from,
{
    let all = orders_from(snapshot, pool, from, gas_open, base_open);
    if from >= pool.len() {
    } else {
        let w = pool[from];
        let fields = snapshot.mineral_fields@;
        let gas_places = crate::workers::node_positions(snapshot.gas_buildings@);
        let base_places = crate::workers::node_positions(snapshot.bases@);
        let (gas_next, base_next, gave) = match nearest_open(gas_places, gas_open, w.position) {
            Some(g) => (taken(gas_open, g), base_open, true),
            None => match nearest_open(base_places, base_open, w.position) {
                Some(b) => (
                    gas_open,
                    taken(base_open, b),
                    richest_local(fields, snapshot.bases@[b].position) is Some,
                ),
                None => (
                    gas_open,
                    base_open,
                    w.idle && nearest_open(
                        crate::workers::field_positions(fields),
                        crate::workers::spare_fields(fields, snapshot.bases@),
                        w.position,
                    ) is Some,
                ),
            },
        };
        let rest = orders_from(snapshot, pool, from + 1, gas_next, base_next);
        orders_go_to_the_pool(snapshot, pool, from + 1, gas_next, base_next);
        if gave {
            assert(all.len() == rest.len() + 1);
            assert(all[0].worker == w.tag);
            assert forall|i: int| 0 < i < all.len() implies all[i] == rest[i - 1] by {}
            assert forall|i: int| 0 <= i < all.len() implies exists|k: int|
                from <= k < pool.len() && #[trigger] pool[k].tag == (#[trigger] all[i]).worker by {
                if i == 0 {
                    assert(pool[from].tag == all[0].worker);
                } else {
                    assert(all[i] == rest[i - 1]);
                    let k = choose|k: int|
                        from + 1 <= k < pool.len() && #[trigger] pool[k].tag == rest[i - 1].worker;
                    assert(pool[k].tag == all[i].worker);
                }
            }
            assert forall|i: int, j: int| 0 <= i < j < all.len() implies (#[trigger] all[i]).worker != (
            #[trigger] all[j]).worker by {
                assert(all[j] == rest[j - 1]);
                if i == 0 {
                    let k = choose|k: int|
                        from + 1 <= k < pool.len() && #[trigger] pool[k].tag == rest[j - 1].worker;
                    assert(pool[from].tag != pool[k].tag);
                } else {
                    assert(all[i] == rest[i - 1]);
                }
            }
        } else {
            assert(all == rest);
            assert forall|i: int| 0 <= i < all.len() implies exists|k: int|
                from <= k < pool.len() && #[trigger] pool[k].tag == (#[trigger] all[i]).worker by {
                let k = choose|k: int| from + 1 <= k < pool.len() && #[trigger] pool[k].tag == rest[i].worker;
                assert(pool[k].tag == all[i].worker);
            }
        }
    }
}

/// The orders for `pool[from..]` fill no node with more workers than it has
/// open slots.
pub proof fn orders_fit_the_open_slots(
    snapshot: Snapshot,
    pool: Seq<Worker>,
    from: int,
    gas_open: Seq<u32>,
    base_open: Seq<u32>,
    node: int,
)
    requires
        0 <= from <= pool.len(),
        0 <= node <= usize::MAX,
    ensures
        orders_for(orders_from(snapshot, pool, from, gas_open, base_open), Slot::Gas(node as usize)) <= (
        if node < gas_open.len() {
            gas_open[node] as int
        } else {
            0
        }),
        orders_for(orders_from(snapshot, pool, from, gas_open, base_open), Slot::Base(node as usize)) <= (
        if node < base_open.len() {
            base_open[node] as int
        } else {
            0
        }),
    decreases pool.len() - from,
{
    let all = orders_from(snapshot, pool, from, gas_open, base_open);
    assert(snapshot.gas_buildings.len() == snapshot.gas_buildings@.len());
    assert(snapshot.bases.len() == snapshot.bases@.len());
    if from >= pool.len() {
    } else {
        let w = pool[from];
        let fields = snapshot.mineral_fields@;
        let gas_places = crate::workers::node_positions(snapshot.gas_buildings@);
        let base_places = crate::workers::node_positions(snapshot.bases@);
        match nearest_open(gas_places, gas_open, w.position) {
            Some(g) => {
                assert(is_nearest_open(gas_places, gas_open, w.position, g));
                let rest = orders_from(snapshot, pool, from + 1, taken(gas_open, g), base_open);
                orders_fit_the_open_slots(snapshot, pool, from + 1, taken(gas_open, g), base_open, node);
                assert(all.drop_first() =~= rest);
                assert(all.first().slot == Slot::Gas(g as usize));
            },
            None => match nearest_open(base_places, base_open, w.position) {
                Some(b) => {
                    assert(is_nearest_open(base_places, base_open, w.position, b));
                    let rest = orders_from(snapshot, pool, from + 1, gas_open, taken(base_open, b));
                    orders_fit_the_open_slots(snapshot, pool, from + 1, gas_open, taken(base_open, b), node);
                    if richest_local(fields, snapshot.bases@[b].position) is Some {
                        assert(all.drop_first() =~= rest);
                        assert(all.first().slot == Slot::Base(b as usize));
                    } else {
                        assert(all == rest);
                    }
                },
                None => {
                    let rest = orders_from(snapshot, pool, from + 1, gas_open, base_open);
                    orders_fit_the_open_slots(snapshot, pool, from + 1, gas_open, base_open, node);
                    if all != rest {
                        assert(all.drop_first() =~= rest);
                        assert(all.first().slot == Slot::Spare);
                    }
                },
            },
        }
    }
}

/// A pass creates and destroys no worker: every order goes to a worker of
/// the snapshot, no worker gets two orders, and the orders are no more than
/// the workers that the pass had to place.
pub proof fn pass_only_reassigns(snapshot: Snapshot, target: u32)
    ensures
        distribution(snapshot, target).len() <= pool_of(snapshot, target).len(),
        forall|i: int|
            0 <= i < distribution(snapshot, target).len() ==> exists|k: int|
                0 <= k < snapshot.workers@.len() && #[trigger] snapshot.workers@[k].tag == (
                #[trigger] distribution(snapshot, target)[i]).worker,
        forall|i: int, j: int|
            0 <= i < j < distribution(snapshot, target).len() ==> (#[trigger] distribution(
                snapshot,
                target,
            )[i]).worker != (#[trigger] distribution(snapshot, target)[j]).worker,
{
    let pool = pool_of(snapshot, target);
    let orders = distribution(snapshot, target);
    pool_holds_each_worker_once(snapshot, target);
    orders_go_to_the_pool(snapshot, pool, 0, gas_slots(snapshot, target), mineral_slots(snapshot));
    assert forall|i: int| 0 <= i < orders.len() implies exists|k: int|
        0 <= k < snapshot.workers@.len() && #[trigger] snapshot.workers@[k].tag == (#[trigger] orders[i]).worker by {
        let p = choose|p: int| 0 <= p < pool.len() && #[trigger] pool[p].tag == orders[i].worker;
        assert(snapshot.workers@.contains(pool[p]));
        let k = choose|k: int| 0 <= k < snapshot.workers@.len() && snapshot.workers@[k] == pool[p];
        assert(snapshot.workers@[k].tag == orders[i].worker);
    }
}

/// A pass sends no node more workers than the node lacks to its ideal
/// count: the orders given for a gas building or for a base are no more than
/// its shortage.
pub proof fn pass_fills_no_node_beyond_ideal(snapshot: Snapshot, target: u32, node: usize)
    ensures
        node < snapshot.gas_buildings@.len() ==> orders_for(
            distribution(snapshot, target),
            Slot::Gas(node),
        ) <= shortage(snapshot.gas_buildings@[node as int], snapshot.gas_buildings@[node as int].ideal_harvesters),
        node < snapshot.bases@.len() ==> orders_for(distribution(snapshot, target), Slot::Base(node))
            <= shortage(snapshot.bases@[node as int], snapshot.bases@[node as int].ideal_harvesters),
        node >= snapshot.gas_buildings@.len() ==> orders_for(distribution(snapshot, target), Slot::Gas(node))
            == 0,
        node >= snapshot.bases@.len() ==> orders_for(distribution(snapshot, target), Slot::Base(node)) == 0,
{
    orders_fit_the_open_slots(
        snapshot,
        pool_of(snapshot, target),
        0,
        gas_slots(snapshot, target),
        mineral_slots(snapshot),
        node as int,
    );
}

} // verus!
