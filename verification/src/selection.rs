//! Picking one place out of many: the nearest that is still open, and the
//! richest mineral field around a base.

use crate::snapshot::{distance_squared, is_closer, MineralField, Point, LOCAL_RADIUS};
use vstd::prelude::*;

verus! {

/// Whether `i` is the place that a unit at `from` goes to: `places[i]` is
/// open, no open place is nearer, and of the open places at the same
/// distance it comes first.
pub open spec fn is_nearest_open(places: Seq<Point>, open: Seq<u32>, from: Point, i: int) -> bool {
    &&& 0 <= i < places.len()
    &&& i < open.len()
    &&& open[i] > 0
    &&& forall|j: int|
        0 <= j < places.len() && j < open.len() && #[trigger] open[j] > 0 ==> {
            &&& distance_squared(places[i], from) <= distance_squared(places[j], from)
            &&& j < i ==> distance_squared(places[i], from) < distance_squared(places[j], from)
        }
}

/// The nearest open place to `from`, or `None` where no place is open.
pub open spec fn nearest_open(places: Seq<Point>, open: Seq<u32>, from: Point) -> Option<int> {
    if exists|i: int| is_nearest_open(places, open, from, i) {
        Some(choose|i: int| is_nearest_open(places, open, from, i))
    } else {
        None
    }
}

/// At most one place is the nearest open one.
pub proof fn nearest_open_is_unique(places: Seq<Point>, open: Seq<u32>, from: Point, i: int, j: int)
    requires
        is_nearest_open(places, open, from, i),
        is_nearest_open(places, open, from, j),
    ensures
        i == j,
{
    if i < j {
        assert(open[i] > 0);
    } else if j < i {
        assert(open[j] > 0);
    }
}

/// Finds the nearest open place to `from`.
pub fn find_nearest_open(places: &Vec<Point>, open: &Vec<u32>, from: &Point) -> (found: Option<usize>)
    ensures
        found is Some ==> is_nearest_open(places@, open@, *from, found->0 as int),
        found is None ==> forall|j: int| 0 <= j < places@.len() && j < open@.len() ==> open@[j] == 0,
        match found {
            Some(i) => nearest_open(places@, open@, *from) == Some(i as int),
            None => nearest_open(places@, open@, *from) is None,
        },
{
    let mut best: Option<usize> = None;
    let mut best_distance: i128 = 0;
    let n: usize = if places.len() < open.len() {
        places.len()
    } else {
        open.len()
    };
    let mut j: usize = 0;
    while j < n
        invariant
            j <= n,
            n <= places@.len(),
            n <= open@.len(),
            n == places@.len() || n == open@.len(),
            best is None ==> forall|k: int| 0 <= k < j ==> open@[k] == 0,
            best is Some ==> {
                &&& best->0 < j
                &&& open@[best->0 as int] > 0
                &&& best_distance == distance_squared(places@[best->0 as int], *from)
                &&& forall|k: int|
                    0 <= k < j && #[trigger] open@[k] > 0 ==> {
                        &&& best_distance <= distance_squared(places@[k], *from)
                        &&& k < best->0 ==> best_distance < distance_squared(places@[k], *from)
                    }
            },
        decreases n - j,
    {
        if open[j] > 0 {
            let d = places[j].distance_squared_to(from);
            if best.is_none() || d < best_distance {
                best = Some(j);
                best_distance = d;
            }
        }
        j += 1;
    }
    proof {
        match best {
            Some(i) => {
                assert(is_nearest_open(places@, open@, *from, i as int));
                let chosen = choose|c: int| is_nearest_open(places@, open@, *from, c);
                nearest_open_is_unique(places@, open@, *from, i as int, chosen);
            },
            None => {
                assert forall|c: int| !is_nearest_open(places@, open@, *from, c) by {
                    if 0 <= c < n {
                        assert(open@[c] == 0);
                    }
                }
            },
        }
    }
    best
}

/// What a mineral field counts for when fields are compared: what is left in
/// it, and nothing where the host does not tell.
pub open spec fn yield_of(field: MineralField) -> int {
    match field.contents {
        Some(c) => c as int,
        None => 0,
    }
}

/// Whether `field` belongs to a base at `base`: it lies within
/// `LOCAL_RADIUS` of it.
pub open spec fn is_local(field: MineralField, base: Point) -> bool {
    is_closer(field.position, base, LOCAL_RADIUS as int)
}

/// Whether `i` is the field that a new harvester of the base at `base` is
/// sent to: a field of that base, none of which holds more, and of those that
/// hold as much the last.
pub open spec fn is_richest_local(fields: Seq<MineralField>, base: Point, i: int) -> bool {
    &&& 0 <= i < fields.len()
    &&& is_local(fields[i], base)
    &&& forall|j: int|
        0 <= j < fields.len() && #[trigger] is_local(fields[j], base) ==> {
            &&& yield_of(fields[j]) <= yield_of(fields[i])
            &&& j > i ==> yield_of(fields[j]) < yield_of(fields[i])
        }
}

/// The richest field of the base at `base`, or `None` where it has no field.
pub open spec fn richest_local(fields: Seq<MineralField>, base: Point) -> Option<int> {
    if exists|i: int| is_richest_local(fields, base, i) {
        Some(choose|i: int| is_richest_local(fields, base, i))
    } else {
        None
    }
}

/// At most one field is the richest of a base.
pub proof fn richest_local_is_unique(fields: Seq<MineralField>, base: Point, i: int, j: int)
    requires
        is_richest_local(fields, base, i),
        is_richest_local(fields, base, j),
    ensures
        i == j,
{
    if i < j {
        assert(is_local(fields[j], base));
    } else if j < i {
        assert(is_local(fields[i], base));
    }
}

/// Finds the richest field of the base at `base`.
pub fn find_richest_local(fields: &Vec<MineralField>, base: &Point) -> (found: Option<usize>)
    ensures
        found is Some ==> is_richest_local(fields@, *base, found->0 as int),
        found is None ==> forall|j: int| 0 <= j < fields@.len() ==> !is_local(fields@[j], *base),
        match found {
            Some(i) => richest_local(fields@, *base) == Some(i as int),
            None => richest_local(fields@, *base) is None,
        },
{
    let mut best: Option<usize> = None;
    let mut best_yield: u32 = 0;
    let mut j: usize = 0;
    while j < fields.len()
        invariant
            j <= fields@.len(),
            best is None ==> forall|k: int| 0 <= k < j ==> !is_local(fields@[k], *base),
            best is Some ==> {
                &&& best->0 < j
                &&& is_local(fields@[best->0 as int], *base)
                &&& best_yield == yield_of(fields@[best->0 as int])
                &&& forall|k: int|
                    0 <= k < j && #[trigger] is_local(fields@[k], *base) ==> {
                        &&& yield_of(fields@[k]) <= best_yield
                        &&& k > best->0 ==> yield_of(fields@[k]) < best_yield
                    }
            },
        decreases fields@.len() - j,
    {
        if fields[j].position.is_local_to(base) {
            let y: u32 = match fields[j].contents {
                Some(c) => c,
                None => 0,
            };
            if best.is_none() || y >= best_yield {
                best = Some(j);
                best_yield = y;
            }
        }
        j += 1;
    }
    proof {
        match best {
            Some(i) => {
                assert(is_richest_local(fields@, *base, i as int));
                let chosen = choose|c: int| is_richest_local(fields@, *base, c);
                richest_local_is_unique(fields@, *base, i as int, chosen);
            },
            None => {
                assert forall|c: int| !is_richest_local(fields@, *base, c) by {
                    if 0 <= c < fields@.len() {
                        assert(!is_local(fields@[c], *base));
                    }
                }
            },
        }
    }
    best
}

} // verus!
