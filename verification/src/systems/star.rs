//! Creation and removal of stars.

use vstd::prelude::*;
use crate::components::{Star, StarDraws, NUMBER_OF_STARS};
use crate::geometry::Arena;
use crate::handles::{allocate, handles_ordered, lemma_handle_appended, star_ids};
use crate::resources::StarSpawnTimer;

verus! {

/// The stars that a row of draws selects, under the handles from
/// `first_id` on.
pub open spec fn new_stars(first_id: int, arena: Arena, draws: Seq<StarDraws>) -> Seq<Star> {
    Seq::new(draws.len(), |i: int| Star::spawned_spec((first_id + i) as u64, arena, draws[i]))
}

/// Appends the star that `draws` selects, under the next handle.
fn place_star(stars: &mut Vec<Star>, next_id: &mut u64, arena: &Arena, draws: StarDraws)
    requires
        *old(next_id) < u64::MAX,
    ensures
        final(stars)@ == old(stars)@.push(Star::spawned_spec(*old(next_id), *arena, draws)),
        *final(next_id) == *old(next_id) + 1,
        handles_ordered(star_ids(old(stars)@), *old(next_id) as int) ==> handles_ordered(
            star_ids(final(stars)@),
            *final(next_id) as int,
        ),
{
    let id: u64 = allocate(next_id);
    stars.push(Star::spawn(id, arena, draws));
    proof {
        assert(star_ids(stars@) =~= star_ids(old(stars)@).push(id));
        if handles_ordered(star_ids(old(stars)@), id as int) {
            lemma_handle_appended(star_ids(old(stars)@), id);
        }
    }
}

/// Creates the stars of a new session at the places that `draws` select,
/// each moved inside the arena. Without an arena nothing is created.
pub fn spawn_stars(
    stars: &mut Vec<Star>,
    next_id: &mut u64,
    arena: Option<&Arena>,
    draws: &[StarDraws; NUMBER_OF_STARS],
)
    requires
        *old(next_id) + NUMBER_OF_STARS <= u64::MAX,
    ensures
        final(stars)@ == match arena {
            Some(a) => old(stars)@ + new_stars(*old(next_id) as int, *a, draws@),
            None => old(stars)@,
        },
        *final(next_id) == match arena {
            Some(a) => *old(next_id) + NUMBER_OF_STARS,
            None => *old(next_id) as int,
        },
        handles_ordered(star_ids(old(stars)@), *old(next_id) as int) ==> handles_ordered(
            star_ids(final(stars)@),
            *final(next_id) as int,
        ),
{
    if let Some(arena) = arena {
        let ghost first_id = *next_id;
        let mut made: usize = 0;
        assert(stars@ =~= old(stars)@ + new_stars(first_id as int, *arena, draws@.take(0)));
        while made < NUMBER_OF_STARS
            invariant
                made <= NUMBER_OF_STARS,
                draws@.len() == NUMBER_OF_STARS,
                first_id + NUMBER_OF_STARS <= u64::MAX,
                *next_id == first_id + made,
                stars@ == old(stars)@ + new_stars(first_id as int, *arena, draws@.take(made as int)),
                handles_ordered(star_ids(old(stars)@), first_id as int) ==> handles_ordered(
                    star_ids(stars@),
                    *next_id as int,
                ),
            decreases NUMBER_OF_STARS - made,
        {
            place_star(stars, next_id, arena, draws[made]);
            made = made + 1;
            assert(stars@ =~= old(stars)@ + new_stars(
                first_id as int,
                *arena,
                draws@.take(made as int),
            ));
        }
        assert(draws@.take(NUMBER_OF_STARS as int) =~= draws@);
    }
}

/// Removes every star and returns those that were removed.
pub fn despawn_stars(stars: &mut Vec<Star>) -> (removed: Vec<Star>)
    ensures
        final(stars)@.len() == 0,
        removed@ == old(stars)@,
{
    let mut removed: Vec<Star> = Vec::new();
    std::mem::swap(stars, &mut removed);
    removed
}

/// Creates one more star, at the place that `draws` selects, if the spawn
/// timer has just completed a period and the arena is known.
pub fn spawn_stars_over_time(
    stars: &mut Vec<Star>,
    next_id: &mut u64,
    arena: Option<&Arena>,
    star_spawn_timer: &StarSpawnTimer,
    draws: StarDraws,
)
    requires
        *old(next_id) < u64::MAX,
    ensures
        final(stars)@ == if star_spawn_timer.timer.finished && arena.is_some() {
            old(stars)@.push(Star::spawned_spec(*old(next_id), *arena.unwrap(), draws))
        } else {
            old(stars)@
        },
        *final(next_id) == if star_spawn_timer.timer.finished && arena.is_some() {
            *old(next_id) + 1
        } else {
            *old(next_id) as int
        },
        handles_ordered(star_ids(old(stars)@), *old(next_id) as int) ==> handles_ordered(
            star_ids(final(stars)@),
            *final(next_id) as int,
        ),
{
    if star_spawn_timer.timer.is_finished() {
        if let Some(arena) = arena {
            place_star(stars, next_id, arena, draws);
        }
    }
}

} // verus!
