//! Fixed-point scalars.
//!
//! Lengths and direction components are `i64` counts of steps, `UNIT` steps to
//! one whole unit. Time is counted in nanoseconds, so a speed of `s` units per
//! second covers exactly `s` steps per nanosecond along a full direction
//! component.

use vstd::prelude::*;

verus! {

/// Number of fixed-point steps in one whole unit.
pub const UNIT: i64 = 1_000_000_000;

/// Number of values a random draw can take. For a place, a draw `d` stands
/// for the fraction `d / DRAW_RANGE` in `[0, 1)`; for a direction, it stands
/// for a raw component of either sign, the middle of the range being zero.
pub const DRAW_RANGE: u64 = 0x1_0000_0000;

/// `v` limited to `[lo, hi]`: `lo` below the range, `hi` above it.
///
/// The bounds are not required to be ordered. With `lo > hi` every `v` is
/// either below `lo` or above `hi`, and the result is `lo` or `hi`
/// accordingly.
pub open spec fn clamp_spec(v: int, lo: int, hi: int) -> int {
    if v < lo {
        lo
    } else if v > hi {
        hi
    } else {
        v
    }
}

/// The `i64` nearest to `v`.
pub open spec fn saturate_spec(v: int) -> int {
    clamp_spec(v, i64::MIN as int, i64::MAX as int)
}

/// The absolute value of `v`.
pub open spec fn abs_spec(v: int) -> int {
    if v < 0 {
        -v
    } else {
        v
    }
}

/// Distance covered in `dt` nanoseconds at `speed` units per second along a
/// direction component `c` (in steps, `UNIT` being a full component). The
/// magnitude is rounded toward zero, so opposite components cover opposite
/// distances.
pub open spec fn travel_spec(c: int, speed: int, dt: int) -> int {
    if c >= 0 {
        (c * speed * dt) / (UNIT as int)
    } else {
        -(((-c) * speed * dt) / (UNIT as int))
    }
}

/// A coordinate `p` after moving for `dt` nanoseconds, kept in the range of
/// `i64`.
pub open spec fn advance_spec(p: int, c: int, speed: int, dt: int) -> int {
    saturate_spec(p + travel_spec(c, speed, dt))
}

/// A centre coordinate `v` confined so that a body of half-size `half` stays
/// inside `[0, dim]`.
pub open spec fn confine_spec(v: int, half: int, dim: int) -> int {
    clamp_spec(v, half, dim - half)
}

/// Whether a centre coordinate touches or passes either confinement bound.
pub open spec fn at_bound_spec(v: int, half: int, dim: int) -> bool {
    v <= half || v >= dim - half
}

/// The point of `[0, extent)` that a draw selects.
pub open spec fn scale_draw_spec(draw: int, extent: int) -> int {
    (draw * extent) / (DRAW_RANGE as int)
}

/// `r` is the integer square root of `n`, rounded down.
pub open spec fn is_floor_sqrt(n: int, r: int) -> bool {
    0 <= r && r * r <= n < (r + 1) * (r + 1)
}

/// The integer square root of `n`, rounded down.
pub open spec fn floor_sqrt(n: int) -> int {
    choose|r: int| is_floor_sqrt(n, r)
}

/// `r` is the component `a / sqrt(n)` of a unit vector, in steps, rounded
/// down. `a_sq` is the square of the raw component and `n` the squared
/// length of the raw vector.
pub open spec fn is_unit_component(a_sq: int, n: int, r: int) -> bool {
    is_floor_sqrt((a_sq * (UNIT as int) * (UNIT as int)) / n, r)
}

/// The component `a / sqrt(a * a + b * b)` of the unit vector along
/// `(a, b)`, in steps, rounded down.
pub open spec fn unit_component_spec(a: int, b: int) -> int {
    floor_sqrt((a * a * (UNIT as int) * (UNIT as int)) / (a * a + b * b))
}

/// The raw component that a draw stands for: the draws spread evenly over
/// the negative and the positive numbers.
pub open spec fn signed_draw(draw: int) -> int {
    draw - DRAW_RANGE / 2
}

/// The component `a / sqrt(a * a + b * b)` of the unit vector along
/// `(a, b)` for components of either sign, in steps, with its magnitude
/// rounded down.
pub open spec fn signed_unit_component(a: int, b: int) -> int {
    if a < 0 {
        -unit_component_spec(abs_spec(a), abs_spec(b))
    } else {
        unit_component_spec(abs_spec(a), abs_spec(b))
    }
}

/// The absolute value of `v`, which always fits in a `u64`.
pub fn magnitude(v: i64) -> (r: u64)
    ensures
        r == abs_spec(v as int),
{
    if v >= 0 {
        v as u64
    } else {
        (0 - (v as i128)) as u64
    }
}

/// Integer square root, rounded down.
pub fn isqrt(n: u128) -> (r: u64)
    ensures
        r == floor_sqrt(n as int),
        is_floor_sqrt(n as int, r as int),
{
    let mut lo: u128 = 0;
    let mut hi: u128 = 0x1_0000_0000_0000_0000;
    while hi - lo > 1
        invariant
            lo < hi <= 0x1_0000_0000_0000_0000,
            lo * lo <= n < hi * hi,
        decreases hi - lo,
    {
        let mid: u128 = lo + (hi - lo) / 2;
        assert(mid * mid <= 0xffff_ffff_ffff_ffff * 0xffff_ffff_ffff_ffff) by (nonlinear_arith)
            requires
                0 <= mid <= 0xffff_ffff_ffff_ffff,
        ;
        if mid * mid <= n {
            lo = mid;
        } else {
            hi = mid;
        }
    }
    proof {
        lemma_floor_sqrt_unique(n as int, lo as int);
    }
    lo as u64
}

/// Distance covered in `dt_nanos` nanoseconds at `speed` units per second
/// along the direction component `c`.
pub fn travel(c: i64, speed: u32, dt_nanos: u64) -> (r: i128)
    requires
        -UNIT <= c <= UNIT,
    ensures
        r == travel_spec(c as int, speed as int, dt_nanos as int),
{
    let m: u128 = magnitude(c) as u128;
    assert(m * speed <= 1_000_000_000 * 0xffff_ffff) by (nonlinear_arith)
        requires
            0 <= m <= 1_000_000_000,
            0 <= speed <= 0xffff_ffff,
    ;
    let rate: u128 = m * (speed as u128);
    assert(rate * dt_nanos <= 4_294_967_295_000_000_000 * 0xffff_ffff_ffff_ffff)
        by (nonlinear_arith)
        requires
            0 <= rate <= 4_294_967_295_000_000_000,
            0 <= dt_nanos <= 0xffff_ffff_ffff_ffff,
    ;
    let steps: u128 = (rate * (dt_nanos as u128)) / (UNIT as u128);
    if c >= 0 {
        steps as i128
    } else {
        0 - (steps as i128)
    }
}

/// Moves the coordinate `p` along the direction component `c` for `dt_nanos`
/// nanoseconds at `speed` units per second. A coordinate that would leave the
/// range of `i64` stays at the end of that range.
pub fn advance(p: i64, c: i64, speed: u32, dt_nanos: u64) -> (r: i64)
    requires
        -UNIT <= c <= UNIT,
    ensures
        r == advance_spec(p as int, c as int, speed as int, dt_nanos as int),
{
    let t: i128 = travel(c, speed, dt_nanos);
    assert(-0x1_0000_0000_0000_0000_0000_0000 < t < 0x1_0000_0000_0000_0000_0000_0000) by {
        lemma_travel_bound(c as int, speed as int, dt_nanos as int);
    }
    let moved: i128 = (p as i128) + t;
    if moved < i64::MIN as i128 {
        i64::MIN
    } else if moved > i64::MAX as i128 {
        i64::MAX
    } else {
        moved as i64
    }
}

/// Confines the centre coordinate `v` of a body of half-size `half` to an
/// extent of `dim`.
pub fn confine(v: i64, half: i64, dim: i64) -> (r: i64)
    requires
        0 <= dim,
    ensures
        r == confine_spec(v as int, half as int, dim as int),
{
    let upper: i128 = (dim as i128) - (half as i128);
    if v < half {
        half
    } else if (v as i128) > upper {
        upper as i64
    } else {
        v
    }
}

/// Whether the centre coordinate `v` touches or passes either confinement
/// bound.
pub fn at_bound(v: i64, half: i64, dim: i64) -> (r: bool)
    ensures
        r == at_bound_spec(v as int, half as int, dim as int),
{
    v <= half || (v as i128) >= (dim as i128) - (half as i128)
}

/// Maps a draw to a coordinate of `[0, extent)`.
pub fn scale_draw(draw: u32, extent: i64) -> (r: i64)
    requires
        0 <= extent,
    ensures
        r == scale_draw_spec(draw as int, extent as int),
        0 <= r <= extent,
        extent > 0 ==> r < extent,
{
    assert(draw * extent <= 0xffff_ffff * extent) by (nonlinear_arith)
        requires
            0 <= draw <= 0xffff_ffff,
            0 <= extent,
    ;
    let product: u128 = (draw as u128) * (extent as u128);
    let scaled: u128 = product / (DRAW_RANGE as u128);
    assert(scaled <= extent && (extent > 0 ==> scaled < extent)) by (nonlinear_arith)
        requires
            0 <= draw < 0x1_0000_0000,
            0 <= extent,
            product == draw * extent,
            scaled == product / 0x1_0000_0000,
    ;
    scaled as i64
}

/// The component `a / sqrt(a * a + b * b)` of the unit vector along `(a, b)`,
/// in steps, rounded down. The vector is not the zero vector.
pub fn unit_component(a: u64, b: u64) -> (r: i64)
    requires
        a <= DRAW_RANGE,
        b <= DRAW_RANGE,
        a + b > 0,
    ensures
        r == unit_component_spec(a as int, b as int),
        is_unit_component(a * a, a * a + b * b, r as int),
        0 <= r <= UNIT,
{
    assert(0 <= a * a <= 0x1_0000_0000 * 0x1_0000_0000 && (a > 0 ==> a * a > 0))
        by (nonlinear_arith)
        requires
            0 <= a <= 0x1_0000_0000,
    ;
    assert(0 <= b * b <= 0x1_0000_0000 * 0x1_0000_0000 && (b > 0 ==> b * b > 0))
        by (nonlinear_arith)
        requires
            0 <= b <= 0x1_0000_0000,
    ;
    let a_sq: u128 = (a as u128) * (a as u128);
    let n: u128 = a_sq + (b as u128) * (b as u128);
    assert(a_sq * 1_000_000_000 <= 0x1_0000_0000_0000_0000 * 1_000_000_000);
    let scaled: u128 = a_sq * (UNIT as u128);
    assert(scaled * 1_000_000_000 <= 0x1_0000_0000_0000_0000 * 1_000_000_000 * 1_000_000_000);
    let q: u128 = (scaled * (UNIT as u128)) / n;
    let r: u64 = isqrt(q);
    proof {
        lemma_unit_component_bound(a_sq as int, n as int, r as int);
    }
    r as i64
}

/// The component of the unit vector along `(a, b)` on the axis of `a`, for
/// components of either sign. The vector is not the zero vector.
pub fn signed_component(a: i64, b: i64) -> (r: i64)
    requires
        -(DRAW_RANGE as int) <= a <= DRAW_RANGE,
        -(DRAW_RANGE as int) <= b <= DRAW_RANGE,
        a != 0 || b != 0,
    ensures
        r == signed_unit_component(a as int, b as int),
        -UNIT <= r <= UNIT,
{
    let size: i64 = unit_component(magnitude(a), magnitude(b));
    if a < 0 {
        -size
    } else {
        size
    }
}

/// The magnitude of a travelled distance is at most `speed * dt`.
pub proof fn lemma_travel_bound(c: int, speed: int, dt: int)
    requires
        -UNIT <= c <= UNIT,
        0 <= speed <= u32::MAX,
        0 <= dt <= u64::MAX,
    ensures
        -(speed * dt) <= travel_spec(c, speed, dt) <= speed * dt,
        speed * dt < 0x1_0000_0000_0000_0000_0000_0000,
{
    let m = abs_spec(c);
    let u = UNIT as int;
    assert(speed * dt < 0x1_0000_0000_0000_0000_0000_0000) by (nonlinear_arith)
        requires
            0 <= speed <= 0xffff_ffff,
            0 <= dt <= 0xffff_ffff_ffff_ffff,
    ;
    assert(0 <= m * speed * dt <= u * (speed * dt)) by (nonlinear_arith)
        requires
            0 <= m <= u,
            0 <= speed,
            0 <= dt,
    ;
    assert(0 <= (m * speed * dt) / u <= speed * dt) by (nonlinear_arith)
        requires
            0 <= m * speed * dt <= u * (speed * dt),
            u > 0,
    ;
}

/// A unit component never exceeds a full component.
pub proof fn lemma_unit_component_bound(a_sq: int, n: int, r: int)
    requires
        0 <= a_sq <= n,
        0 < n,
        is_unit_component(a_sq, n, r),
    ensures
        0 <= r <= UNIT,
{
    let u = UNIT as int;
    let q = (a_sq * u * u) / n;
    assert(q <= u * u) by (nonlinear_arith)
        requires
            0 <= a_sq <= n,
            0 < n,
            q == (a_sq * u * u) / n,
            u >= 0,
    ;
    assert(r <= u) by (nonlinear_arith)
        requires
            0 <= r,
            0 <= u,
            r * r <= q,
            q <= u * u,
    ;
}

/// Confinement puts a coordinate inside the bounds whenever the extent is at
/// least the body's full size.
pub proof fn lemma_confine_within(v: int, half: int, dim: int)
    requires
        dim >= 2 * half,
    ensures
        half <= confine_spec(v, half, dim) <= dim - half,
{
}

/// Every number that is not negative has an integer square root.
pub proof fn lemma_floor_sqrt_exists(n: int)
    requires
        0 <= n,
    ensures
        is_floor_sqrt(n, floor_sqrt(n)),
    decreases n,
{
    if n == 0 {
        assert(is_floor_sqrt(0, 0));
    } else {
        lemma_floor_sqrt_exists(n - 1);
        let r = floor_sqrt(n - 1);
        if (r + 1) * (r + 1) <= n {
            assert(n < (r + 2) * (r + 2)) by (nonlinear_arith)
                requires
                    0 <= r,
                    n - 1 < (r + 1) * (r + 1),
            ;
            assert(is_floor_sqrt(n, r + 1));
        } else {
            assert(is_floor_sqrt(n, r));
        }
    }
}

/// The integer square root is the only number between whose square and
/// whose successor's square the number lies.
pub proof fn lemma_floor_sqrt_unique(n: int, r: int)
    requires
        is_floor_sqrt(n, r),
    ensures
        floor_sqrt(n) == r,
{
    let s = floor_sqrt(n);
    assert(is_floor_sqrt(n, s));
    assert(s == r) by (nonlinear_arith)
        requires
            0 <= r,
            0 <= s,
            r * r <= n < (r + 1) * (r + 1),
            s * s <= n < (s + 1) * (s + 1),
    ;
}

/// The unit component of a vector without negative components, other than
/// the zero vector, is the rounded-down quotient of the component by the
/// length.
pub proof fn lemma_unit_component(a: int, b: int)
    requires
        0 <= a,
        0 <= b,
        a + b > 0,
    ensures
        is_unit_component(a * a, a * a + b * b, unit_component_spec(a, b)),
        0 <= unit_component_spec(a, b) <= UNIT,
        0 <= a * a,
        0 <= b * b,
        0 < a * a + b * b,
{
    let u = UNIT as int;
    assert(a * a >= 0 && b * b >= 0 && a * a + b * b > 0) by (nonlinear_arith)
        requires
            a >= 0,
            b >= 0,
            a + b > 0,
    ;
    let q = (a * a * u * u) / (a * a + b * b);
    assert(0 <= q) by (nonlinear_arith)
        requires
            a * a >= 0,
            a * a + b * b > 0,
            u >= 0,
            q == (a * a * u * u) / (a * a + b * b),
    ;
    lemma_floor_sqrt_exists(q);
    lemma_unit_component_bound(a * a, a * a + b * b, unit_component_spec(a, b));
}

} // verus!
