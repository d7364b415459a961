//! The player: creation, movement, confinement and the collection of stars.

use vstd::prelude::*;
use crate::components::{Player, Star};
use crate::geometry::{Arena, Direction};
use crate::handles::{allocate, handles_ordered, lemma_filter_keeps_star_order, star_ids};
use crate::messages::Intents;
use crate::resources::Score;

verus! {

/// The stars that the player touches.
pub open spec fn touched_by(player: Player) -> spec_fn(Star) -> bool {
    |star: Star| player.touches_star(star)
}

/// The stars that the player does not touch.
pub open spec fn missed_by(player: Player) -> spec_fn(Star) -> bool {
    |star: Star| !player.touches_star(star)
}

/// The heading that the movement intents ask for.
pub open spec fn heading_of(intents: Intents) -> Option<Direction> {
    Direction::heading_spec(
        intents.move_left,
        intents.move_right,
        intents.move_up,
        intents.move_down,
    )
}

/// Creates the player at the centre of the arena, under the next handle.
pub fn spawn_player(player: &mut Option<Player>, next_id: &mut u64, arena: &Arena)
    requires
        *old(next_id) < u64::MAX,
    ensures
        *final(player) == Some(Player::spawned_spec(*old(next_id), *arena)),
        *final(next_id) == *old(next_id) + 1,
{
    let id: u64 = allocate(next_id);
    *player = Some(Player::spawn(id, arena));
}

/// Removes the player, if there is one, and returns it.
pub fn despawn_player(player: &mut Option<Player>) -> (removed: Option<Player>)
    ensures
        final(player).is_none(),
        removed == *old(player),
{
    player.take()
}

/// Moves the player along the heading of the movement intents, at the
/// player's speed, for `dt_nanos` nanoseconds. Without a player, or without
/// a heading, nothing moves.
pub fn player_movement(player: &mut Option<Player>, intents: &Intents, dt_nanos: u64)
    ensures
        *final(player) == match *old(player) {
            Some(p) => Some(p.moved_spec(heading_of(*intents), dt_nanos as int)),
            None => None,
        },
{
    let heading = Direction::from_intents(
        intents.move_left,
        intents.move_right,
        intents.move_up,
        intents.move_down,
    );
    if let Some(p) = *player {
        if let Some(direction) = heading {
            *player = Some(
                Player {
                    id: p.id,
                    position: p.position.advanced(
                        direction,
                        crate::components::PLAYER_SPEED,
                        dt_nanos,
                    ),
                },
            );
        }
    }
}

/// Confines the player to the arena. Without a player or without an arena
/// nothing changes.
pub fn confine_player(player: &mut Option<Player>, arena: Option<&Arena>)
    ensures
        *final(player) == match (*old(player), arena) {
            (Some(p), Some(a)) => Some(p.confined_spec(*a)),
            _ => *old(player),
        },
        final(player).is_some() && arena.is_some() && arena.unwrap().fits(
            crate::components::PLAYER_RADIUS as int,
        ) ==> final(player).unwrap().position.inside(
            crate::components::PLAYER_RADIUS as int,
            *arena.unwrap(),
        ),
{
    if let Some(p) = *player {
        if let Some(a) = arena {
            *player = Some(
                Player {
                    id: p.id,
                    position: p.position.confined(crate::components::PLAYER_RADIUS, a),
                },
            );
        }
    }
}

/// Collects every star that the player touches: the star is removed and the
/// score grows by one. Returns the collected stars. Without a player nothing
/// is collected, whatever the stars and the score. With a player, the score
/// must have room for the stars that it touches.
pub fn player_hit_star(player: &Option<Player>, stars: &mut Vec<Star>, score: &mut Score) -> (collected:
    Vec<Star>)
    requires
        player.is_some() ==> old(score).value + old(stars)@.filter(
            touched_by(player.unwrap()),
        ).len() <= u32::MAX,
    ensures
        final(stars)@ == match *player {
            Some(p) => old(stars)@.filter(missed_by(p)),
            None => old(stars)@,
        },
        collected@ == match *player {
            Some(p) => old(stars)@.filter(touched_by(p)),
            None => Seq::<Star>::empty(),
        },
        final(score).value == old(score).value + collected@.len(),
        forall|limit: int|
            #[trigger] handles_ordered(star_ids(old(stars)@), limit) ==> handles_ordered(
                star_ids(final(stars)@),
                limit,
            ) && handles_ordered(star_ids(collected@), limit),
{
    let mut collected: Vec<Star> = Vec::new();
    if let Some(p) = player {
        let mut kept: Vec<Star> = Vec::new();
        let n: usize = stars.len();
        let mut i: usize = 0;
        proof {
            reveal(Seq::filter);
            assert(stars@.take(0).len() == 0);
        }
        while i < n
            invariant
                i <= n,
                n == stars.len(),
                stars@ == old(stars)@,
                kept@ == stars@.take(i as int).filter(missed_by(*p)),
                collected@ == stars@.take(i as int).filter(touched_by(*p)),
                kept.len() + collected.len() == i,
            decreases n - i,
        {
            let star: Star = stars[i];
            proof {
                reveal(Seq::filter);
                assert(stars@.take(i + 1).drop_last() =~= stars@.take(i as int));
                assert(stars@.take(i + 1).last() == star);
            }
            if p.hits_star(&star) {
                collected.push(star);
            } else {
                kept.push(star);
            }
            i = i + 1;
        }
        proof {
            assert(stars@.take(n as int) =~= stars@);
            assert forall|limit: int| handles_ordered(star_ids(stars@), limit) implies handles_ordered(
                star_ids(kept@),
                limit,
            ) && handles_ordered(star_ids(collected@), limit) by {
                lemma_filter_keeps_star_order(stars@, missed_by(*p), limit);
                lemma_filter_keeps_star_order(stars@, touched_by(*p), limit);
            }
        }
        *stars = kept;
        score.value = score.value + (collected.len() as u32);
    }
    collected
}

} // verus!
