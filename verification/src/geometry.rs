//! Points, the arena and unit directions of the playfield.

use vstd::prelude::*;
use crate::fixed::{
    abs_spec, advance, advance_spec, at_bound, at_bound_spec, confine, confine_spec,
    is_unit_component, lemma_confine_within, lemma_floor_sqrt_unique, lemma_unit_component,
    scale_draw, scale_draw_spec, signed_component, signed_draw, signed_unit_component,
    unit_component_spec, DRAW_RANGE, UNIT,
};

verus! {

/// A full direction component divided by the square root of two, rounded down.
pub const DIAGONAL: i64 = 707_106_781;

/// A point of the plane, in fixed-point steps.
#[derive(Clone, Copy, Debug, PartialEq, Eq, Structural)]
pub struct Position {
    pub x: i64,
    pub y: i64,
}

/// The extent of the playfield: the rectangle from the origin to
/// `(width, height)`, neither of them negative.
#[derive(Clone, Copy, Debug)]
pub struct Arena {
    width: i64,
    height: i64,
}

/// A direction of unit length: the component-wise truncation, to whole steps,
/// of a vector whose length is exactly `UNIT`.
#[derive(Clone, Copy, Debug)]
pub struct Direction {
    x: i64,
    y: i64,
}

/// Whether `(x, y)` is the truncation of a vector of length `UNIT`: it is no
/// longer than `UNIT`, and growing both magnitudes by one step makes it longer.
pub open spec fn is_unit_pair(x: int, y: int) -> bool {
    &&& x * x + y * y <= (UNIT as int) * (UNIT as int)
    &&& (UNIT as int) * (UNIT as int) < (abs_spec(x) + 1) * (abs_spec(x) + 1) + (abs_spec(y) + 1)
        * (abs_spec(y) + 1)
}

/// The sum of the four movement intents as a unit direction: `None` when no
/// intent is active or the active ones cancel.
pub open spec fn intent_heading(left: bool, right: bool, up: bool, down: bool) -> Option<
    (int, int),
> {
    let sx: int = (if right { 1int } else { 0int }) - (if left { 1int } else { 0int });
    let sy: int = (if up { 1int } else { 0int }) - (if down { 1int } else { 0int });
    if sx == 0 && sy == 0 {
        None
    } else if sy == 0 {
        Some((sx * UNIT, 0int))
    } else if sx == 0 {
        Some((0int, sy * UNIT))
    } else {
        Some((sx * DIAGONAL, sy * DIAGONAL))
    }
}

/// Whether two points are closer than `reach`, by Euclidean distance.
pub open spec fn within_spec(a: Position, b: Position, reach: int) -> bool {
    let dx = a.x - b.x;
    let dy = a.y - b.y;
    reach > 0 && dx * dx + dy * dy < reach * reach
}

impl Position {
    /// The point `(x, y)`, given in steps.
    pub fn new(x: i64, y: i64) -> (r: Position)
        ensures
            r == (Position { x, y }),
    {
        Position { x, y }
    }

    /// The point `(x, y)`, given in whole units.
    pub fn from_units(x: i32, y: i32) -> (r: Position)
        ensures
            r.x == x * UNIT,
            r.y == y * UNIT,
    {
        assert(-0x8000_0000 * 1_000_000_000 <= x * 1_000_000_000 <= 0x7fff_ffff * 1_000_000_000);
        assert(-0x8000_0000 * 1_000_000_000 <= y * 1_000_000_000 <= 0x7fff_ffff * 1_000_000_000);
        Position { x: (x as i64) * UNIT, y: (y as i64) * UNIT }
    }

    /// This point after moving along `direction` for `dt` nanoseconds at
    /// `speed` units per second.
    pub open spec fn advanced_spec(self, direction: Direction, speed: int, dt: int) -> Position {
        Position {
            x: advance_spec(self.x as int, direction.x_spec(), speed, dt) as i64,
            y: advance_spec(self.y as int, direction.y_spec(), speed, dt) as i64,
        }
    }

    /// This point, as the centre of a body of half-size `half`, confined to
    /// the arena on both axes.
    pub open spec fn confined_spec(self, half: int, arena: Arena) -> Position {
        Position {
            x: confine_spec(self.x as int, half, arena.width_spec()) as i64,
            y: confine_spec(self.y as int, half, arena.height_spec()) as i64,
        }
    }

    /// Whether this point, as the centre of a body of half-size `half`, lies
    /// between the confinement bounds of the arena on both axes.
    pub open spec fn inside(self, half: int, arena: Arena) -> bool {
        &&& half <= self.x <= arena.width_spec() - half
        &&& half <= self.y <= arena.height_spec() - half
    }

    /// Moves the point along `direction` for `dt_nanos` nanoseconds at
    /// `speed` units per second.
    pub fn advanced(self, direction: Direction, speed: u32, dt_nanos: u64) -> (r: Position)
        ensures
            r == self.advanced_spec(direction, speed as int, dt_nanos as int),
    {
        proof {
            use_type_invariant(&direction);
        }
        Position {
            x: advance(self.x, direction.x, speed, dt_nanos),
            y: advance(self.y, direction.y, speed, dt_nanos),
        }
    }

    /// Confines the centre of a body of half-size `half` to the arena.
    pub fn confined(self, half: i64, arena: &Arena) -> (r: Position)
        ensures
            r == self.confined_spec(half as int, *arena),
            arena.fits(half as int) ==> r.inside(half as int, *arena),
    {
        proof {
            use_type_invariant(arena);
            if arena.fits(half as int) {
                lemma_confine_within(self.x as int, half as int, arena.width_spec());
                lemma_confine_within(self.y as int, half as int, arena.height_spec());
            }
        }
        Position {
            x: confine(self.x, half, arena.width),
            y: confine(self.y, half, arena.height),
        }
    }

    /// Whether the Euclidean distance to `other` is less than `reach`.
    pub fn within(self, other: Position, reach: i64) -> (r: bool)
        ensures
            r == within_spec(self, other, reach as int),
    {
        if reach <= 0 {
            return false;
        }
        let dx: u128 = gap(self.x, other.x);
        let dy: u128 = gap(self.y, other.y);
        let limit: u128 = reach as u128;
        proof {
            let sx = self.x - other.x;
            let sy = self.y - other.y;
            assert(sx * sx == dx * dx && sx * sx >= 0) by (nonlinear_arith)
                requires
                    dx == abs_spec(sx),
            ;
            assert(sy * sy == dy * dy && sy * sy >= 0) by (nonlinear_arith)
                requires
                    dy == abs_spec(sy),
            ;
            assert(limit * limit <= 0x7fff_ffff_ffff_ffff * 0x7fff_ffff_ffff_ffff)
                by (nonlinear_arith)
                requires
                    0 <= limit <= 0x7fff_ffff_ffff_ffff,
            ;
            if dx >= limit {
                assert(dx * dx >= limit * limit) by (nonlinear_arith)
                    requires
                        dx >= limit >= 0,
                ;
            } else {
                assert(dx * dx <= limit * limit) by (nonlinear_arith)
                    requires
                        0 <= dx <= limit,
                ;
            }
            if dy >= limit {
                assert(dy * dy >= limit * limit) by (nonlinear_arith)
                    requires
                        dy >= limit >= 0,
                ;
            } else {
                assert(dy * dy <= limit * limit) by (nonlinear_arith)
                    requires
                        0 <= dy <= limit,
                ;
            }
        }
        if dx >= limit || dy >= limit {
            return false;
        }
        dx * dx + dy * dy < limit * limit
    }
}

/// The absolute difference of two coordinates.
fn gap(a: i64, b: i64) -> (r: u128)
    ensures
        r == abs_spec(a - b),
        r <= 0xffff_ffff_ffff_ffff,
{
    let d: i128 = (a as i128) - (b as i128);
    if d < 0 {
        (0 - d) as u128
    } else {
        d as u128
    }
}

impl Arena {
    #[verifier::type_invariant]
    spec fn non_negative(self) -> bool {
        0 <= self.width && 0 <= self.height
    }

    /// The width of the playfield, in steps.
    pub closed spec fn width_spec(self) -> int {
        self.width as int
    }

    /// The height of the playfield, in steps.
    pub closed spec fn height_spec(self) -> int {
        self.height as int
    }

    /// Whether the arena is at least as large as a body of the given size
    /// on both axes.
    pub open spec fn holds(self, size: int) -> bool {
        self.width_spec() >= size && self.height_spec() >= size
    }

    /// Whether a body of half-size `half` fits between the walls on both axes.
    pub open spec fn fits(self, half: int) -> bool {
        self.width_spec() >= 2 * half && self.height_spec() >= 2 * half
    }

    /// The point of the arena that a pair of draws selects.
    pub open spec fn point_at_spec(self, draw_x: int, draw_y: int) -> Position {
        Position {
            x: scale_draw_spec(draw_x, self.width_spec()) as i64,
            y: scale_draw_spec(draw_y, self.height_spec()) as i64,
        }
    }

    /// The extent is that of an `i64` on both axes.
    pub proof fn lemma_extent_is_i64(self)
        ensures
            i64::MIN <= self.width_spec() <= i64::MAX,
            i64::MIN <= self.height_spec() <= i64::MAX,
    {
    }

    /// The centre of the playfield.
    pub open spec fn center_spec(self) -> Position {
        Position { x: (self.width_spec() / 2) as i64, y: (self.height_spec() / 2) as i64 }
    }

    /// An arena of the given extent in steps, if neither is negative.
    pub fn new(width: i64, height: i64) -> (r: Option<Arena>)
        ensures
            r.is_some() <==> 0 <= width && 0 <= height,
            r.is_some() ==> r.unwrap().width_spec() == width && r.unwrap().height_spec() == height,
    {
        if width >= 0 && height >= 0 {
            Some(Arena { width, height })
        } else {
            None
        }
    }

    /// An arena of the given extent in whole units.
    pub fn from_units(width: u32, height: u32) -> (r: Arena)
        ensures
            r.width_spec() == width * UNIT,
            r.height_spec() == height * UNIT,
    {
        assert(0 <= width * 1_000_000_000 <= 0xffff_ffff * 1_000_000_000);
        assert(0 <= height * 1_000_000_000 <= 0xffff_ffff * 1_000_000_000);
        Arena { width: (width as i64) * UNIT, height: (height as i64) * UNIT }
    }

    /// The width of the playfield, in steps.
    pub fn width(&self) -> (r: i64)
        ensures
            r == self.width_spec(),
            0 <= r,
    {
        proof {
            use_type_invariant(self);
        }
        self.width
    }

    /// The height of the playfield, in steps.
    pub fn height(&self) -> (r: i64)
        ensures
            r == self.height_spec(),
            0 <= r,
    {
        proof {
            use_type_invariant(self);
        }
        self.height
    }

    /// The centre of the playfield.
    pub fn center(&self) -> (r: Position)
        ensures
            r == self.center_spec(),
    {
        proof {
            use_type_invariant(self);
        }
        Position { x: ((self.width as u64) / 2) as i64, y: ((self.height as u64) / 2) as i64 }
    }

    /// The point that a pair of draws selects: each draw is a fraction of
    /// the extent on its axis.
    pub fn point_at(&self, draw_x: u32, draw_y: u32) -> (r: Position)
        ensures
            r == self.point_at_spec(draw_x as int, draw_y as int),
            0 <= r.x <= self.width_spec(),
            0 <= r.y <= self.height_spec(),
    {
        proof {
            use_type_invariant(self);
        }
        Position { x: scale_draw(draw_x, self.width), y: scale_draw(draw_y, self.height) }
    }
}

impl Direction {
    /// The invariant of every direction: it has unit length, so neither
    /// component exceeds a full component in magnitude.
    #[verifier::type_invariant]
    pub open spec fn unit(self) -> bool {
        &&& -UNIT <= self.x_spec() <= UNIT
        &&& -UNIT <= self.y_spec() <= UNIT
        &&& self.is_unit()
    }

    /// The horizontal component, in steps.
    pub closed spec fn x_spec(self) -> int {
        self.x as int
    }

    /// The vertical component, in steps.
    pub closed spec fn y_spec(self) -> int {
        self.y as int
    }

    /// The direction with the components `x` and `y`.
    pub closed spec fn of(x: int, y: int) -> Direction {
        Direction { x: x as i64, y: y as i64 }
    }

    /// Whether the direction has unit length.
    pub open spec fn is_unit(self) -> bool {
        is_unit_pair(self.x_spec(), self.y_spec())
    }

    /// The unit direction of the sum of the active movement intents, or
    /// `None` when the sum is the zero vector.
    pub open spec fn heading_spec(left: bool, right: bool, up: bool, down: bool) -> Option<
        Direction,
    > {
        match intent_heading(left, right, up, down) {
            Some((x, y)) => Some(Direction::of(x, y)),
            None => None,
        }
    }

    /// The direction that a pair of draws selects. Each draw stands for a
    /// raw component of either sign, so the draws cover a square around the
    /// origin; the direction is the unit vector from the origin to their
    /// point, and the unit vector to the right for the origin itself.
    pub open spec fn from_draws_spec(draw_x: int, draw_y: int) -> Direction {
        let a = signed_draw(draw_x);
        let b = signed_draw(draw_y);
        if a == 0 && b == 0 {
            Direction::of(UNIT as int, 0)
        } else {
            Direction::of(signed_unit_component(a, b), signed_unit_component(b, a))
        }
    }

    /// This direction mirrored at a vertical wall.
    pub open spec fn flipped_x_spec(self) -> Direction {
        Direction::of(-self.x_spec(), self.y_spec())
    }

    /// This direction mirrored at a horizontal wall.
    pub open spec fn flipped_y_spec(self) -> Direction {
        Direction::of(self.x_spec(), -self.y_spec())
    }

    /// This direction after a bounce check at the centre `at` of a body of
    /// half-size `half`: it is mirrored on each axis on which the centre
    /// touches or passes a confinement bound.
    pub open spec fn bounced_spec(self, at: Position, half: int, arena: Arena) -> Direction {
        let after_x = if at_bound_spec(at.x as int, half, arena.width_spec()) {
            self.flipped_x_spec()
        } else {
            self
        };
        if at_bound_spec(at.y as int, half, arena.height_spec()) {
            after_x.flipped_y_spec()
        } else {
            after_x
        }
    }

    /// The horizontal component, in steps.
    pub fn x(&self) -> (r: i64)
        ensures
            r == self.x_spec(),
            -UNIT <= r <= UNIT,
            self.is_unit(),
    {
        proof {
            use_type_invariant(self);
        }
        self.x
    }

    /// The vertical component, in steps.
    pub fn y(&self) -> (r: i64)
        ensures
            r == self.y_spec(),
            -UNIT <= r <= UNIT,
            self.is_unit(),
    {
        proof {
            use_type_invariant(self);
        }
        self.y
    }

    /// The unit direction of the sum of the active movement intents, or
    /// `None` when the sum is the zero vector.
    pub fn from_intents(left: bool, right: bool, up: bool, down: bool) -> (r: Option<Direction>)
        ensures
            r == Direction::heading_spec(left, right, up, down),
            r.is_some() ==> r.unwrap().is_unit(),
    {
        let sx: i64 = (if right { 1i64 } else { 0i64 }) - (if left { 1i64 } else { 0i64 });
        let sy: i64 = (if up { 1i64 } else { 0i64 }) - (if down { 1i64 } else { 0i64 });
        proof {
            lemma_headings_are_unit();
        }
        if sx == 0 && sy == 0 {
            None
        } else if sy == 0 {
            Some(Direction { x: sx * UNIT, y: 0 })
        } else if sx == 0 {
            Some(Direction { x: 0, y: sy * UNIT })
        } else {
            Some(Direction { x: sx * DIAGONAL, y: sy * DIAGONAL })
        }
    }

    /// The direction that a pair of draws selects: the unit vector from the
    /// origin to the point of the square around it that the draws stand for.
    pub fn from_draws(draw_x: u32, draw_y: u32) -> (r: Direction)
        ensures
            r == Direction::from_draws_spec(draw_x as int, draw_y as int),
            r.is_unit(),
    {
        let a: i64 = (draw_x as i64) - ((DRAW_RANGE / 2) as i64);
        let b: i64 = (draw_y as i64) - ((DRAW_RANGE / 2) as i64);
        proof {
            lemma_drawn_direction_is_unit(draw_x as int, draw_y as int);
        }
        if a == 0 && b == 0 {
            Direction { x: UNIT, y: 0 }
        } else {
            Direction { x: signed_component(a, b), y: signed_component(b, a) }
        }
    }

    /// Mirrors the direction at a vertical wall.
    pub fn flipped_x(self) -> (r: Direction)
        ensures
            r == self.flipped_x_spec(),
            r.is_unit(),
    {
        proof {
            use_type_invariant(&self);
            lemma_flip_keeps_unit(self.x as int, self.y as int);
        }
        Direction { x: -self.x, y: self.y }
    }

    /// Mirrors the direction at a horizontal wall.
    pub fn flipped_y(self) -> (r: Direction)
        ensures
            r == self.flipped_y_spec(),
            r.is_unit(),
    {
        proof {
            use_type_invariant(&self);
            lemma_flip_keeps_unit(self.x as int, self.y as int);
        }
        Direction { x: self.x, y: -self.y }
    }

    /// Mirrors the direction on each axis on which the centre `at` touches or
    /// passes a confinement bound.
    pub fn bounced(self, at: Position, half: i64, arena: &Arena) -> (r: Direction)
        ensures
            r == self.bounced_spec(at, half as int, *arena),
            r.is_unit(),
    {
        proof {
            use_type_invariant(&self);
        }
        let mut direction = self;
        if at_bound(at.x, half, arena.width()) {
            direction = direction.flipped_x();
        }
        if at_bound(at.y, half, arena.height()) {
            direction = direction.flipped_y();
        }
        direction
    }

    /// The components of the heading of the movement intents are the sum
    /// of the intents scaled to unit length.
    pub proof fn lemma_heading_components(left: bool, right: bool, up: bool, down: bool)
        ensures
            match Direction::heading_spec(left, right, up, down) {
                Some(d) => Some((d.x_spec(), d.y_spec())) == intent_heading(left, right, up, down)
                    && d.is_unit(),
                None => intent_heading(left, right, up, down).is_none(),
            },
    {
        lemma_headings_are_unit();
    }

    /// The components after the bounce check: each changes its sign
    /// exactly when the centre touches or passes a bound on its axis.
    pub proof fn lemma_bounced_components(self, at: Position, half: int, arena: Arena)
        requires
            self.is_unit(),
        ensures
            self.bounced_spec(at, half, arena).x_spec() == if at_bound_spec(
                at.x as int,
                half,
                arena.width_spec(),
            ) {
                -self.x_spec()
            } else {
                self.x_spec()
            },
            self.bounced_spec(at, half, arena).y_spec() == if at_bound_spec(
                at.y as int,
                half,
                arena.height_spec(),
            ) {
                -self.y_spec()
            } else {
                self.y_spec()
            },
    {
        lemma_unit_pair_bound(self.x as int, self.y as int);
    }

    /// Mirroring at walls, once or any number of times, keeps a direction at
    /// unit length.
    pub proof fn lemma_bounce_keeps_unit(self, at: Position, half: int, arena: Arena)
        requires
            self.is_unit(),
        ensures
            self.flipped_x_spec().is_unit(),
            self.flipped_y_spec().is_unit(),
            self.bounced_spec(at, half, arena).is_unit(),
    {
        lemma_flip_keeps_unit(self.x as int, self.y as int);
        lemma_unit_pair_bound(self.x as int, self.y as int);
        lemma_flip_keeps_unit(-self.x as int, self.y as int);
    }
}

/// Every heading that the movement intents can add up to has unit length.
pub proof fn lemma_headings_are_unit()
    ensures
        forall|left: bool, right: bool, up: bool, down: bool|
            #![trigger intent_heading(left, right, up, down)]
            match intent_heading(left, right, up, down) {
                Some((x, y)) => is_unit_pair(x, y) && -UNIT <= x <= UNIT && -UNIT <= y <= UNIT,
                None => true,
            },
{
    assert(1_000_000_000int * 1_000_000_000int == 1_000_000_000_000_000_000int)
        by (nonlinear_arith);
    assert((-1_000_000_000int) * (-1_000_000_000int) == 1_000_000_000_000_000_000int)
        by (nonlinear_arith);
    assert(1_000_000_001int * 1_000_000_001int == 1_000_000_002_000_000_001int)
        by (nonlinear_arith);
    assert(707_106_781int * 707_106_781int == 499_999_999_736_181_961int) by (nonlinear_arith);
    assert((-707_106_781int) * (-707_106_781int) == 499_999_999_736_181_961int)
        by (nonlinear_arith);
    assert(707_106_782int * 707_106_782int == 500_000_001_150_395_524int) by (nonlinear_arith);
    assert(0int * 0int == 0 && 1int * 1int == 1) by (nonlinear_arith);
    assert(is_unit_pair(UNIT as int, 0));
    assert(is_unit_pair(-UNIT as int, 0));
    assert(is_unit_pair(0, UNIT as int));
    assert(is_unit_pair(0, -UNIT as int));
    assert(is_unit_pair(DIAGONAL as int, DIAGONAL as int));
    assert(is_unit_pair(-DIAGONAL as int, DIAGONAL as int));
    assert(is_unit_pair(DIAGONAL as int, -DIAGONAL as int));
    assert(is_unit_pair(-DIAGONAL as int, -DIAGONAL as int));
}

/// Changing the sign of either component keeps a vector at unit length.
pub proof fn lemma_flip_keeps_unit(x: int, y: int)
    requires
        is_unit_pair(x, y),
    ensures
        is_unit_pair(-x, y),
        is_unit_pair(x, -y),
        is_unit_pair(-x, -y),
{
    assert((-x) * (-x) == x * x) by (nonlinear_arith);
    assert((-y) * (-y) == y * y) by (nonlinear_arith);
}

/// The truncated components of the unit vector along a non-zero vector form a
/// unit pair. `a_sq` and `b_sq` are the squares of the raw components.
pub proof fn lemma_unit_vector(a_sq: int, b_sq: int, x: int, y: int)
    requires
        0 <= a_sq,
        0 <= b_sq,
        0 < a_sq + b_sq,
        is_unit_component(a_sq, a_sq + b_sq, x),
        is_unit_component(b_sq, a_sq + b_sq, y),
    ensures
        is_unit_pair(x, y),
{
    let u = UNIT as int;
    let n = a_sq + b_sq;
    let qa = (a_sq * u * u) / n;
    let qb = (b_sq * u * u) / n;
    assert(n * qa <= a_sq * u * u < n * qa + n) by (nonlinear_arith)
        requires
            qa == (a_sq * u * u) / n,
            n > 0,
    ;
    assert(n * qb <= b_sq * u * u < n * qb + n) by (nonlinear_arith)
        requires
            qb == (b_sq * u * u) / n,
            n > 0,
    ;
    assert(a_sq * u * u + b_sq * u * u == n * (u * u)) by (nonlinear_arith)
        requires
            n == a_sq + b_sq,
    ;
    assert(x * x + y * y <= u * u) by (nonlinear_arith)
        requires
            n > 0,
            x * x <= qa,
            y * y <= qb,
            n * qa + n * qb <= n * (u * u),
    ;
    assert(u * u < (x + 1) * (x + 1) + (y + 1) * (y + 1)) by (nonlinear_arith)
        requires
            n > 0,
            qa < (x + 1) * (x + 1),
            qb < (y + 1) * (y + 1),
            n * (u * u) < n * qa + n + n * qb + n,
    ;
}

/// Neither component of a unit pair exceeds a full component in magnitude.
pub proof fn lemma_unit_pair_bound(x: int, y: int)
    requires
        is_unit_pair(x, y),
    ensures
        -UNIT <= x <= UNIT,
        -UNIT <= y <= UNIT,
{
    let u = UNIT as int;
    assert(-u <= x <= u) by (nonlinear_arith)
        requires
            x * x + y * y <= u * u,
            u >= 0,
    ;
    assert(-u <= y <= u) by (nonlinear_arith)
        requires
            x * x + y * y <= u * u,
            u >= 0,
    ;
}

/// Confinement puts the centre of a body between the confinement bounds of
/// an arena in which the body fits.
pub proof fn lemma_confined_inside(at: Position, half: int, arena: Arena)
    requires
        0 <= half,
        arena.fits(half),
    ensures
        at.confined_spec(half, arena).inside(half, arena),
{
    lemma_confine_within(at.x as int, half, arena.width_spec());
    lemma_confine_within(at.y as int, half, arena.height_spec());
    arena.lemma_extent_is_i64();
}

/// The direction that a pair of draws selects has unit length, and its
/// components are the signed unit components of the raw vector.
pub proof fn lemma_drawn_direction_is_unit(draw_x: int, draw_y: int)
    ensures
        Direction::from_draws_spec(draw_x, draw_y).is_unit(),
        -UNIT <= Direction::from_draws_spec(draw_x, draw_y).x_spec() <= UNIT,
        -UNIT <= Direction::from_draws_spec(draw_x, draw_y).y_spec() <= UNIT,
        signed_draw(draw_x) != 0 || signed_draw(draw_y) != 0 ==> Direction::from_draws_spec(
            draw_x,
            draw_y,
        ).x_spec() == signed_unit_component(signed_draw(draw_x), signed_draw(draw_y))
            && Direction::from_draws_spec(draw_x, draw_y).y_spec() == signed_unit_component(
            signed_draw(draw_y),
            signed_draw(draw_x),
        ),
        signed_draw(draw_x) == 0 && signed_draw(draw_y) == 0 ==> Direction::from_draws_spec(
            draw_x,
            draw_y,
        ).x_spec() == UNIT && Direction::from_draws_spec(draw_x, draw_y).y_spec() == 0,
{
    let a = signed_draw(draw_x);
    let b = signed_draw(draw_y);
    if a == 0 && b == 0 {
        lemma_headings_are_unit();
        assert(intent_heading(false, true, false, false) == Some((UNIT as int, 0int)));
    } else {
        let ma = abs_spec(a);
        let mb = abs_spec(b);
        lemma_unit_component(ma, mb);
        lemma_unit_component(mb, ma);
        assert(mb * mb + ma * ma == ma * ma + mb * mb);
        let ux = unit_component_spec(ma, mb);
        let uy = unit_component_spec(mb, ma);
        lemma_unit_vector(ma * ma, mb * mb, ux, uy);
        lemma_flip_keeps_unit(ux, uy);
    }
}

/// The sign of each component of a drawn direction is never opposed to the
/// sign of the raw component that its draw stands for.
pub proof fn lemma_drawn_direction_follows_signs(draw_x: int, draw_y: int)
    ensures
        signed_draw(draw_x) < 0 ==> Direction::from_draws_spec(draw_x, draw_y).x_spec() <= 0,
        signed_draw(draw_x) > 0 ==> Direction::from_draws_spec(draw_x, draw_y).x_spec() >= 0,
        signed_draw(draw_y) < 0 ==> Direction::from_draws_spec(draw_x, draw_y).y_spec() <= 0,
        signed_draw(draw_y) > 0 ==> Direction::from_draws_spec(draw_x, draw_y).y_spec() >= 0,
{
    lemma_drawn_direction_is_unit(draw_x, draw_y);
    let a = signed_draw(draw_x);
    let b = signed_draw(draw_y);
    if a != 0 || b != 0 {
        lemma_unit_component(abs_spec(a), abs_spec(b));
        lemma_unit_component(abs_spec(b), abs_spec(a));
    }
}

/// The draw one step below or one step above the middle of the range, which
/// stands for the raw component `-1` or `1`.
pub open spec fn beside_middle(below: bool) -> int {
    if below {
        DRAW_RANGE / 2 - 1
    } else {
        DRAW_RANGE / 2 + 1
    }
}

/// The draws one step to either side of the middle on both axes select the
/// four diagonal directions.
pub proof fn lemma_diagonals_are_drawn(left: bool, down: bool)
    ensures
        Direction::from_draws_spec(beside_middle(left), beside_middle(down)).x_spec() == if left {
            -DIAGONAL
        } else {
            DIAGONAL as int
        },
        Direction::from_draws_spec(beside_middle(left), beside_middle(down)).y_spec() == if down {
            -DIAGONAL
        } else {
            DIAGONAL as int
        },
{
    lemma_drawn_direction_is_unit(beside_middle(left), beside_middle(down));
    let u = UNIT as int;
    assert(1int * 1int == 1) by (nonlinear_arith);
    assert(1int * u * u == 1_000_000_000_000_000_000int) by (nonlinear_arith)
        requires
            u == 1_000_000_000,
    ;
    assert(707_106_781int * 707_106_781int == 499_999_999_736_181_961int) by (nonlinear_arith);
    assert(707_106_782int * 707_106_782int == 500_000_001_150_395_524int) by (nonlinear_arith);
    lemma_floor_sqrt_unique(500_000_000_000_000_000int, DIAGONAL as int);
    assert(unit_component_spec(1, 1) == DIAGONAL);
}

/// Every quadrant is reached: for each pattern of signs there are draws
/// that select a direction with components of those signs.
pub proof fn lemma_every_quadrant_is_drawn()
    ensures
        exists|draw_x: u32, draw_y: u32|
            (#[trigger] Direction::from_draws_spec(draw_x as int, draw_y as int)).x_spec() > 0
                && Direction::from_draws_spec(draw_x as int, draw_y as int).y_spec() > 0,
        exists|draw_x: u32, draw_y: u32|
            (#[trigger] Direction::from_draws_spec(draw_x as int, draw_y as int)).x_spec() < 0
                && Direction::from_draws_spec(draw_x as int, draw_y as int).y_spec() > 0,
        exists|draw_x: u32, draw_y: u32|
            (#[trigger] Direction::from_draws_spec(draw_x as int, draw_y as int)).x_spec() < 0
                && Direction::from_draws_spec(draw_x as int, draw_y as int).y_spec() < 0,
        exists|draw_x: u32, draw_y: u32|
            (#[trigger] Direction::from_draws_spec(draw_x as int, draw_y as int)).x_spec() > 0
                && Direction::from_draws_spec(draw_x as int, draw_y as int).y_spec() < 0,
{
    let above: u32 = 0x8000_0001;
    let below: u32 = 0x7fff_ffff;
    lemma_diagonals_are_drawn(false, false);
    lemma_diagonals_are_drawn(true, false);
    lemma_diagonals_are_drawn(true, true);
    lemma_diagonals_are_drawn(false, true);
    assert(Direction::from_draws_spec(above as int, above as int).x_spec() > 0);
    assert(Direction::from_draws_spec(below as int, above as int).x_spec() < 0);
    assert(Direction::from_draws_spec(below as int, below as int).x_spec() < 0);
    assert(Direction::from_draws_spec(above as int, below as int).x_spec() > 0);
}

} // verus!
