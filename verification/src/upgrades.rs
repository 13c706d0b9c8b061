//! The upgrade resolver: which research is started at this tick.

use crate::flourish_bot::FlourishBot;
use crate::kinds::{UnitKind, UpgradeKind};
use crate::prereqs::{
    contains_upgrade, owns_upgrade, prereqs_met, researched_in, structures_needed, upgrade_prereqs,
    upgrades_needed,
};
use crate::snapshot::{Snapshot, Structure};
use vstd::prelude::*;

verus! {

/// Ticks that pass between two runs of the resolver.
pub const UPGRADE_DELAY: u32 = 12;

/// The command to research one upgrade at one structure.
#[derive(Clone, Copy, Debug, PartialEq, Eq, Structural)]
pub struct ResearchOrder {
    pub upgrade: UpgradeKind,
    /// Tag of the structure that does the research.
    pub structure: u64,
}

/// What one run of the resolver hands back: the research to start, in the
/// order in which it was decided, and the resources left after paying for it.
pub struct UpgradePass {
    pub orders: Vec<ResearchOrder>,
    pub minerals: u32,
    pub vespene: u32,
}

/// The outcome of a run, as a value of the model.
pub struct Research {
    pub orders: Seq<ResearchOrder>,
    pub minerals: u32,
    pub vespene: u32,
}

impl UpgradePass {
    /// The outcome that this value holds.
    pub open spec fn view(&self) -> Research {
        Research { orders: self.orders@, minerals: self.minerals, vespene: self.vespene }
    }
}

/// Whether `i` is the structure that research in a structure of the kind
/// `kind` goes to: the first of that kind that is not busy.
pub open spec fn is_first_free(structures: Seq<Structure>, kind: UnitKind, i: int) -> bool {
    &&& 0 <= i < structures.len()
    &&& structures[i].kind == kind
    &&& !structures[i].active
    &&& forall|j: int| 0 <= j < i ==> !((#[trigger] structures[j]).kind == kind && !structures[j].active)
}

/// The first structure of the kind `kind` that is not busy, if there is one.
pub open spec fn first_free(structures: Seq<Structure>, kind: UnitKind) -> Option<int> {
    if exists|i: int| is_first_free(structures, kind, i) {
        Some(choose|i: int| is_first_free(structures, kind, i))
    } else {
        None
    }
}

/// Finds the first structure of the kind `kind` that is not busy.
pub fn find_first_free(structures: &Vec<Structure>, kind: UnitKind) -> (found: Option<usize>)
    ensures
        found is Some ==> is_first_free(structures@, kind, found->0 as int),
        match found {
            Some(i) => first_free(structures@, kind) == Some(i as int),
            None => first_free(structures@, kind) is None,
        },
{
    let mut i: usize = 0;
    while i < structures.len()
        invariant
            i <= structures@.len(),
            forall|j: int| 0 <= j < i ==> !((#[trigger] structures@[j]).kind == kind && !structures@[j].active),
        decreases structures@.len() - i,
    {
        if structures[i].kind == kind && !structures[i].active {
            proof {
                assert(is_first_free(structures@, kind, i as int));
                let chosen = choose|c: int| is_first_free(structures@, kind, c);
                if chosen < i {
                    assert(structures@[chosen].kind == kind);
                } else if i < chosen {
                    assert(structures@[i as int].kind == kind);
                }
            }
            return Some(i);
        }
        i += 1;
    }
    proof {
        assert forall|c: int| !is_first_free(structures@, kind, c) by {
            if 0 <= c < structures@.len() {
                assert(!(structures@[c].kind == kind && !structures@[c].active));
            }
        }
    }
    None
}

/// The research order that `upgrade` gets with `minerals` and `vespene` at
/// hand, or `None` where it has to wait: it is complete, it is being
/// researched, it cannot be paid, the resolver does not know it, something
/// it needs is missing, or every structure that could research it is busy.
pub open spec fn research_order(snapshot: Snapshot, upgrade: UpgradeKind, minerals: u32, vespene: u32) -> Option<
    ResearchOrder,
> {
    let cost = snapshot.costs.upgrade_cost(upgrade);
    if owns_upgrade(snapshot, upgrade) || snapshot.ordered_upgrades@.contains(upgrade) || minerals
        < cost.minerals || vespene < cost.vespene {
        None
    } else {
        match researched_in(upgrade) {
            Some(kind) => if prereqs_met(snapshot, structures_needed(upgrade), upgrades_needed(upgrade)) {
                match first_free(snapshot.structures@, kind) {
                    Some(i) => Some(ResearchOrder { upgrade, structure: snapshot.structures@[i].tag }),
                    None => None,
                }
            } else {
                None
            },
            None => None,
        }
    }
}

/// The outcome of going through `pending[from..]` in order with `minerals`
/// and `vespene` at hand: each upgrade that gets an order is paid for before
/// the next one is looked at.
pub open spec fn researched_from(
    snapshot: Snapshot,
    pending: Seq<UpgradeKind>,
    from: int,
    minerals: u32,
    vespene: u32,
) -> Research
    decreases pending.len() - from,
{
    if from < 0 || from >= pending.len() {
        Research { orders: Seq::empty(), minerals, vespene }
    } else {
        match research_order(snapshot, pending[from], minerals, vespene) {
            Some(order) => {
                let cost = snapshot.costs.upgrade_cost(pending[from]);
                let rest = researched_from(
                    snapshot,
                    pending,
                    from + 1,
                    (minerals - cost.minerals) as u32,
                    (vespene - cost.vespene) as u32,
                );
                Research { orders: seq![order] + rest.orders, minerals: rest.minerals, vespene: rest.vespene }
            },
            None => researched_from(snapshot, pending, from + 1, minerals, vespene),
        }
    }
}

/// `pending` without the upgrades that the agent owns, the rest in their
/// order.
pub open spec fn without_owned(snapshot: Snapshot, pending: Seq<UpgradeKind>) -> Seq<UpgradeKind>
    decreases pending.len(),
{
    if pending.len() == 0 {
        Seq::empty()
    } else if owns_upgrade(snapshot, pending.last()) {
        without_owned(snapshot, pending.drop_last())
    } else {
        without_owned(snapshot, pending.drop_last()).push(pending.last())
    }
}

/// An upgrade that is not pending is not pending after the owned ones were
/// taken out: taking out adds nothing.
pub proof fn removed_upgrades_stay_removed(snapshot: Snapshot, pending: Seq<UpgradeKind>, upgrade: UpgradeKind)
    requires
        !pending.contains(upgrade),
    ensures
        !without_owned(snapshot, pending).contains(upgrade),
    decreases pending.len(),
{
    if pending.len() > 0 {
        let front = pending.drop_last();
        assert forall|i: int| 0 <= i < front.len() implies front[i] != upgrade by {
            assert(front[i] == pending[i]);
        }
        removed_upgrades_stay_removed(snapshot, front, upgrade);
        assert(pending.last() == pending[pending.len() - 1]);
        let kept = without_owned(snapshot, front);
        if !owns_upgrade(snapshot, pending.last()) {
            assert forall|i: int| 0 <= i < kept.push(pending.last()).len() implies kept.push(
                pending.last(),
            )[i] != upgrade by {
                if i < kept.len() {
                    assert(kept[i] != upgrade);
                }
            }
        }
    }
}

impl FlourishBot {
    /// Whether a run of the resolver is due at the tick of `snapshot`.
    pub open spec fn upgrades_due(&self, snapshot: Snapshot) -> bool {
        self.last_loop_upgraded + UPGRADE_DELAY <= snapshot.game_loop
    }

    /// Runs the upgrade resolver. Where no run is due nothing happens, and
    /// the resources of the snapshot are handed back as they are. Else the
    /// tick is noted as that of the last run, the pending upgrades are gone
    /// through in order as [`researched_from`] says, and those that the
    /// agent owns by now leave the pending list.
    pub fn upgrades(&mut self, snapshot: &Snapshot) -> (pass: UpgradePass)
        ensures
            pass@ == if old(self).upgrades_due(*snapshot) {
                researched_from(
                    *snapshot,
                    old(self).upgrades_to_research@,
                    0,
                    snapshot.minerals,
                    snapshot.vespene,
                )
            } else {
                Research { orders: Seq::empty(), minerals: snapshot.minerals, vespene: snapshot.vespene }
            },
            final(self).upgrades_to_research@ == if old(self).upgrades_due(*snapshot) {
                without_owned(*snapshot, old(self).upgrades_to_research@)
            } else {
                old(self).upgrades_to_research@
            },
            final(self).last_loop_upgraded == if old(self).upgrades_due(*snapshot) {
                snapshot.game_loop
            } else {
                old(self).last_loop_upgraded
            },
            forall|upgrade: UpgradeKind|
                !old(self).upgrades_to_research@.contains(upgrade)
                    ==> !final(self).upgrades_to_research@.contains(upgrade),
            final(self).last_loop_distributed == old(self).last_loop_distributed,
            final(self).has_enough_gas == old(self).has_enough_gas,
            final(self).has_way_too_much_gas == old(self).has_way_too_much_gas,
            final(self).has_enough_workers_for_gas == old(self).has_enough_workers_for_gas,
            final(self).attacking == old(self).attacking,
            final(self).build_scheduler == old(self).build_scheduler,
            final(self).surveillance == old(self).surveillance,
    {
        let mut orders: Vec<ResearchOrder> = Vec::new();
        let mut minerals = snapshot.minerals;
        let mut vespene = snapshot.vespene;
        if self.last_loop_upgraded as u64 + UPGRADE_DELAY as u64 > snapshot.game_loop as u64 {
            return UpgradePass { orders, minerals, vespene };
        }
        self.last_loop_upgraded = snapshot.game_loop;

        let ghost pending = self.upgrades_to_research@;
        let ghost whole = researched_from(*snapshot, pending, 0, snapshot.minerals, snapshot.vespene);
        let mut kept: Vec<UpgradeKind> = Vec::new();
        let mut i: usize = 0;
        while i < self.upgrades_to_research.len()
            invariant
                i <= pending.len(),
                self.upgrades_to_research@ == pending,
                whole == researched_from(*snapshot, pending, 0, snapshot.minerals, snapshot.vespene),
                orders@ + researched_from(*snapshot, pending, i as int, minerals, vespene).orders
                    == whole.orders,
                researched_from(*snapshot, pending, i as int, minerals, vespene).minerals == whole.minerals,
                researched_from(*snapshot, pending, i as int, minerals, vespene).vespene == whole.vespene,
                kept@ == without_owned(*snapshot, pending.take(i as int)),
            decreases pending.len() - i,
        {
            let upgrade = self.upgrades_to_research[i];
            let ghost before = orders@;
            let ghost rest = researched_from(*snapshot, pending, i as int, minerals, vespene);
            assert(pending.take(i + 1).drop_last() =~= pending.take(i as int));
            let owned = contains_upgrade(&snapshot.upgrades, upgrade);
            if !owned {
                kept.push(upgrade);
            }
            let cost = snapshot.costs.get_upgrade_cost(upgrade);
            if !owned && !contains_upgrade(&snapshot.ordered_upgrades, upgrade) && minerals >= cost.minerals
                && vespene >= cost.vespene {
                match upgrade_prereqs(upgrade) {
                    Some((structure_kind, prereq_structures, prereq_upgrades)) => {
                        if self.has_prereqs(snapshot, prereq_structures, prereq_upgrades) {
                            match find_first_free(&snapshot.structures, structure_kind) {
                                Some(s) => {
                                    orders.push(
                                        ResearchOrder { upgrade, structure: snapshot.structures[s].tag },
                                    );
                                    minerals = minerals - cost.minerals;
                                    vespene = vespene - cost.vespene;
                                },
                                None => {},
                            }
                        }
                    },
                    None => {},
                }
            }
            i += 1;
            assert(orders@ + researched_from(*snapshot, pending, i as int, minerals, vespene).orders
                =~= before + rest.orders);
        }
        assert(pending.take(i as int) =~= pending);
        assert(orders@ =~= orders@ + Seq::<ResearchOrder>::empty());
        proof {
            assert forall|upgrade: UpgradeKind| !pending.contains(upgrade) implies !kept@.contains(
                upgrade,
            ) by {
                removed_upgrades_stay_removed(*snapshot, pending, upgrade);
            }
        }
        self.upgrades_to_research = kept;
        UpgradePass { orders, minerals, vespene }
    }
}

} // verus!
