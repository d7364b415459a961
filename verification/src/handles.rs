//! Entity handles: every entity gets the next number of one counter, so the
//! handles of a kind are in ascending order of creation and never repeat.

use vstd::prelude::*;
use crate::components::{Enemy, Star};

verus! {

/// The handles are strictly ascending and all below `limit`.
pub open spec fn handles_ordered(ids: Seq<u64>, limit: int) -> bool {
    &&& forall|i: int, j: int| 0 <= i < j < ids.len() ==> ids[i] < ids[j]
    &&& forall|i: int| 0 <= i < ids.len() ==> ids[i] < limit
}

/// The handles of the stars, in order.
pub open spec fn star_ids(stars: Seq<Star>) -> Seq<u64> {
    stars.map_values(|s: Star| s.id)
}

/// The handles of the enemies, in order.
pub open spec fn enemy_ids(enemies: Seq<Enemy>) -> Seq<u64> {
    enemies.map_values(|e: Enemy| e.id)
}

/// Takes the next handle from the counter.
pub fn allocate(next_id: &mut u64) -> (id: u64)
    requires
        *old(next_id) < u64::MAX,
    ensures
        id == *old(next_id),
        *final(next_id) == *old(next_id) + 1,
{
    let id: u64 = *next_id;
    *next_id = id + 1;
    id
}

/// Every star that a filter keeps is one of the stars it was given.
pub proof fn lemma_kept_stars_are_old(stars: Seq<Star>, keep: spec_fn(Star) -> bool)
    ensures
        forall|i: int|
            0 <= i < stars.filter(keep).len() ==> exists|j: int|
                0 <= j < stars.len() && stars[j] == #[trigger] stars.filter(keep)[i],
    decreases stars.len(),
{
    reveal(Seq::filter);
    if stars.len() > 0 {
        let rest = stars.drop_last();
        lemma_kept_stars_are_old(rest, keep);
        let kept = rest.filter(keep);
        let all = stars.filter(keep);
        assert forall|i: int| 0 <= i < all.len() implies exists|j: int|
            0 <= j < stars.len() && stars[j] == #[trigger] all[i] by {
            if i < kept.len() {
                let j = choose|j: int| 0 <= j < rest.len() && rest[j] == kept[i];
                assert(stars[j] == all[i]);
            } else {
                assert(stars[stars.len() - 1] == all[i]);
            }
        }
    }
}

/// Removing stars keeps the handles of the others in order.
pub proof fn lemma_filter_keeps_star_order(
    stars: Seq<Star>,
    keep: spec_fn(Star) -> bool,
    limit: int,
)
    requires
        handles_ordered(star_ids(stars), limit),
    ensures
        handles_ordered(star_ids(stars.filter(keep)), limit),
    decreases stars.len(),
{
    reveal(Seq::filter);
    if stars.len() > 0 {
        let rest = stars.drop_last();
        let kept = rest.filter(keep);
        let all = stars.filter(keep);
        assert forall|i: int, j: int| 0 <= i < j < rest.len() implies star_ids(rest)[i] < star_ids(
            rest,
        )[j] by {
            assert(star_ids(stars)[i] < star_ids(stars)[j]);
        }
        assert forall|i: int| 0 <= i < rest.len() implies star_ids(rest)[i] < limit by {
            assert(star_ids(stars)[i] < limit);
        }
        lemma_filter_keeps_star_order(rest, keep, limit);
        lemma_kept_stars_are_old(rest, keep);
        assert(star_ids(stars)[stars.len() - 1] < limit);
        assert forall|i: int, j: int| 0 <= i < j < all.len() implies star_ids(all)[i] < star_ids(
            all,
        )[j] by {
            if j < kept.len() {
                assert(star_ids(kept)[i] < star_ids(kept)[j]);
            } else {
                let k = choose|k: int| 0 <= k < rest.len() && rest[k] == kept[i];
                assert(star_ids(stars)[k] < star_ids(stars)[stars.len() - 1]);
            }
        }
        assert forall|i: int| 0 <= i < all.len() implies star_ids(all)[i] < limit by {
            if i < kept.len() {
                assert(star_ids(kept)[i] < limit);
            }
        }
    }
}

/// Handles that are in order below a limit are in order below any larger
/// limit.
pub proof fn lemma_limit_grows(ids: Seq<u64>, limit: int, larger: int)
    requires
        handles_ordered(ids, limit),
        limit <= larger,
    ensures
        handles_ordered(ids, larger),
{
}

/// The handles of the stars, in order.
pub fn star_handles(stars: &Vec<Star>) -> (ids: Vec<u64>)
    ensures
        ids@ == star_ids(stars@),
{
    let mut ids: Vec<u64> = Vec::new();
    let n: usize = stars.len();
    let mut i: usize = 0;
    while i < n
        invariant
            i <= n,
            n == stars@.len(),
            ids@ == star_ids(stars@.take(i as int)),
        decreases n - i,
    {
        ids.push(stars[i].id);
        i = i + 1;
        assert(ids@ =~= star_ids(stars@.take(i as int)));
    }
    assert(stars@.take(n as int) =~= stars@);
    ids
}

/// The handles of the enemies, in order.
pub fn enemy_handles(enemies: &Vec<Enemy>) -> (ids: Vec<u64>)
    ensures
        ids@ == enemy_ids(enemies@),
{
    let mut ids: Vec<u64> = Vec::new();
    let n: usize = enemies.len();
    let mut i: usize = 0;
    while i < n
        invariant
            i <= n,
            n == enemies@.len(),
            ids@ == enemy_ids(enemies@.take(i as int)),
        decreases n - i,
    {
        ids.push(enemies[i].id);
        i = i + 1;
        assert(ids@ =~= enemy_ids(enemies@.take(i as int)));
    }
    assert(enemies@.take(n as int) =~= enemies@);
    ids
}

/// Whether the handles are strictly ascending and all below `limit`.
pub fn in_order(ids: &Vec<u64>, limit: u64) -> (r: bool)
    ensures
        r == handles_ordered(ids@, limit as int),
{
    let n: usize = ids.len();
    let mut i: usize = 0;
    while i < n
        invariant
            i <= n,
            n == ids@.len(),
            handles_ordered(ids@.take(i as int), limit as int),
        decreases n - i,
    {
        if ids[i] >= limit {
            return false;
        }
        if i > 0 && ids[i - 1] >= ids[i] {
            return false;
        }
        proof {
            let shorter = ids@.take(i as int);
            let longer = ids@.take(i + 1);
            assert forall|a: int, b: int| 0 <= a < b < longer.len() implies longer[a] < longer[b] by {
                if b < i {
                    assert(shorter[a] < shorter[b]);
                } else if a < i - 1 {
                    assert(shorter[a] < shorter[i - 1]);
                }
            }
        }
        i = i + 1;
    }
    assert(ids@.take(n as int) =~= ids@);
    true
}

/// Appending the limit itself to handles that are in order below it gives
/// handles that are in order below the next number.
pub proof fn lemma_handle_appended(ids: Seq<u64>, id: u64)
    requires
        handles_ordered(ids, id as int),
    ensures
        handles_ordered(ids.push(id), id + 1),
{
    let longer = ids.push(id);
    assert forall|i: int, j: int| 0 <= i < j < longer.len() implies longer[i] < longer[j] by {
        assert(ids[i] < id);
        if j < ids.len() {
            assert(ids[i] < ids[j]);
        }
    }
    assert forall|i: int| 0 <= i < longer.len() implies longer[i] < id + 1 by {
        if i < ids.len() {
            assert(ids[i] < id);
        }
    }
}

} // verus!
