//! Shape-based contact detection.
//!
//! A line hitbox spans half its length each way from the body's centre
//! along the body's heading; a circle hitbox is centred on the body.  All
//! tests are exact integer comparisons: the caller supplies each line
//! body's heading unit vector in `UNIT_SCALE` fixed point, and every
//! normalised local-frame condition is multiplied out so that no
//! quotient is ever compared.

use vstd::prelude::*;
use crate::archetype::{Hitbox, HITBOX_LIMIT, MASS_LIMIT};
use crate::body::ActorNative;
use crate::units::{
    ANG_VEL_LIMIT,
    POS_LIMIT,
    UNIT_SCALE,
    VEL_LIMIT,
    clamp_mag,
    div_t,
    isqrt,
    lemma_mag_mul,
    lemma_mag_sq,
    lemma_mul_bound,
    lemma_sqrt_floor_props,
    lemma_tdiv_bounds,
    mag,
    sqrt_floor,
    tdiv,
};

verus! {

/// Bound on a contact normal component: a displacement between two points
/// of the playfield, widened by an endpoint offset.
pub const NORMAL_LIMIT: i64 = 0x400_0000_0000;

/// A unit vector quantised to `UNIT_SCALE` fixed point: the squared norm
/// may be off by at most one rounding step per component.
pub open spec fn unit_ok(ux: int, uy: int) -> bool {
    &&& mag(ux) <= UNIT_SCALE
    &&& mag(uy) <= UNIT_SCALE
    &&& (UNIT_SCALE as int) * (UNIT_SCALE as int) - 2 * UNIT_SCALE <= ux * ux + uy * uy
        <= (UNIT_SCALE as int) * (UNIT_SCALE as int) + 2 * UNIT_SCALE + 1
}

/// A detected overlap: an unnormalised, sign-insensitive contact normal
/// and the lever arm of each body along its own facing axis, in the order
/// the two bodies were passed to the detector.
#[derive(Clone, Copy, Debug)]
pub struct Contact {
    pub normalx: i64,
    pub normaly: i64,
    pub lever_local: i64,
    pub lever_remote: i64,
}

/// The line-versus-circle test, as a mathematical function.  The line
/// sits at `(x, y)` facing `(ux, uy)`
/// with length `len`; the circle of combined radius `rad` sits at
/// `(ox, oy)`.  Returns the contact normal and the line's lever arm.
///
/// In the line's local frame the circle centre is `(a, b)` up to the scale
/// `UNIT_SCALE * len`: within the body span (`2|a| <= UNIT_SCALE * len`)
/// contact means the lateral offset is under the radius, the normal is the
/// line's perpendicular and the lever is the longitudinal offset;
/// otherwise the nearest endpoint cap is tested as a circle, and the lever
/// is the signed half-length scaled by the lateral share of the local
/// offset.
pub open spec fn line_circle_spec(
    x: int,
    y: int,
    ux: int,
    uy: int,
    ox: int,
    oy: int,
    len: int,
    rad: int,
) -> Option<(int, int, int)> {
    let dx = x - ox;
    let dy = y - oy;
    let a = ux * dx + uy * dy;
    let b = ux * dy - uy * dx;
    if 2 * mag(a) <= UNIT_SCALE * len {
        if mag(b) < UNIT_SCALE * rad {
            Some((-uy, ux, -tdiv(a, UNIT_SCALE as int)))
        } else {
            None
        }
    } else {
        let f = if a < 0 {
            tdiv(len, 2)
        } else {
            -tdiv(len, 2)
        };
        let sx = x + tdiv(ux * f, UNIT_SCALE as int);
        let sy = y + tdiv(uy * f, UNIT_SCALE as int);
        let ddx = sx - ox;
        let ddy = sy - oy;
        if ddx * ddx + ddy * ddy < rad * rad {
            Some((ddx, ddy, tdiv(f * b, sqrt_floor(a * a + b * b))))
        } else {
            None
        }
    }
}

/// Executable line-versus-circle test; see `line_circle_spec`.
pub fn line_contacting_circle(
    x: i64,
    y: i64,
    ux: i64,
    uy: i64,
    ox: i64,
    oy: i64,
    len: i64,
    rad: i64,
) -> (r: Option<(i64, i64, i64)>)
    requires
        mag(x as int) <= POS_LIMIT,
        mag(y as int) <= POS_LIMIT,
        mag(ox as int) <= POS_LIMIT + HITBOX_LIMIT,
        mag(oy as int) <= POS_LIMIT + HITBOX_LIMIT,
        unit_ok(ux as int, uy as int),
        0 < len <= HITBOX_LIMIT,
        0 < rad <= 2 * HITBOX_LIMIT,
    ensures
        ({
            let s = line_circle_spec(
                x as int,
                y as int,
                ux as int,
                uy as int,
                ox as int,
                oy as int,
                len as int,
                rad as int,
            );
            &&& r is Some <==> s is Some
            &&& r is Some ==> {
                &&& r.unwrap().0 == s.unwrap().0
                &&& r.unwrap().1 == s.unwrap().1
                &&& r.unwrap().2 == s.unwrap().2
                &&& mag(r.unwrap().0 as int) <= NORMAL_LIMIT
                &&& mag(r.unwrap().1 as int) <= NORMAL_LIMIT
                &&& mag(r.unwrap().2 as int) <= len
            }
        }),
{
    let dx: i128 = x as i128 - ox as i128;
    let dy: i128 = y as i128 - oy as i128;
    proof {
        lemma_mul_bound(ux as int, dx as int, 0x10_0000, 0x300_0000_0000);
        lemma_mul_bound(uy as int, dy as int, 0x10_0000, 0x300_0000_0000);
        lemma_mul_bound(uy as int, dx as int, 0x10_0000, 0x300_0000_0000);
        lemma_mul_bound(ux as int, dy as int, 0x10_0000, 0x300_0000_0000);
    }
    let a: i128 = (ux as i128) * dx + (uy as i128) * dy;
    let b: i128 = (ux as i128) * dy - (uy as i128) * dx;
    let amag: i128 = if a >= 0 {
        2 * a
    } else {
        -(2 * a)
    };
    proof {
        lemma_mul_bound(UNIT_SCALE as int, len as int, 0x10_0000, 0x40_0000);
    }
    let within: bool = amag <= (UNIT_SCALE as i128) * (len as i128);
    if within {
        let lateral: i128 = if b >= 0 {
            b
        } else {
            -b
        };
        proof {
            lemma_mul_bound(UNIT_SCALE as int, rad as int, 0x10_0000, 0x80_0000);
        }
        if lateral < (UNIT_SCALE as i128) * (rad as i128) {
            proof {
                lemma_mul_bound(UNIT_SCALE as int, len as int, 0x10_0000, 0x40_0000);
                crate::units::lemma_tdiv_mag_le(a as int, UNIT_SCALE as int, len as int);
            }
            let lever: i128 = -div_t(a, UNIT_SCALE as i128);
            Some((-uy, ux, lever as i64))
        } else {
            None
        }
    } else {
        let half: i64 = len / 2;
        let f: i128 = if a < 0 {
            half as i128
        } else {
            -(half as i128)
        };
        proof {
            assert(half == tdiv(len as int, 2)) by {
                assert(len >= 0);
            }
            lemma_mul_bound(ux as int, f as int, 0x10_0000, 0x40_0000);
            lemma_mul_bound(uy as int, f as int, 0x10_0000, 0x40_0000);
            crate::units::lemma_tdiv_mag_le(ux * f, UNIT_SCALE as int, HITBOX_LIMIT as int);
            crate::units::lemma_tdiv_mag_le(uy * f, UNIT_SCALE as int, HITBOX_LIMIT as int);
        }
        let sx: i128 = x as i128 + div_t((ux as i128) * f, UNIT_SCALE as i128);
        let sy: i128 = y as i128 + div_t((uy as i128) * f, UNIT_SCALE as i128);
        let ddx: i128 = sx - ox as i128;
        let ddy: i128 = sy - oy as i128;
        proof {
            lemma_mul_bound(ddx as int, ddx as int, 0x400_0000_0000, 0x400_0000_0000);
            lemma_mul_bound(ddy as int, ddy as int, 0x400_0000_0000, 0x400_0000_0000);
            lemma_mul_bound(rad as int, rad as int, 0x80_0000, 0x80_0000);
        }
        if ddx * ddx + ddy * ddy < (rad as i128) * (rad as i128) {
            proof {
                lemma_mag_sq(a as int);
                lemma_mag_sq(b as int);
                lemma_mul_bound(a as int, a as int, 0x6000_0000_0000_0000, 0x6000_0000_0000_0000);
                lemma_mul_bound(b as int, b as int, 0x6000_0000_0000_0000, 0x6000_0000_0000_0000);
            }
            let norm2: i128 = a * a + b * b;
            let il: i128 = isqrt(norm2 as u128) as i128;
            proof {
                // within is false, so 2|a| > UNIT_SCALE * len >= UNIT_SCALE > 1,
                // hence a*a >= 1 and the root is at least 1.
                assert((UNIT_SCALE as int) * (len as int) >= UNIT_SCALE) by (nonlinear_arith)
                    requires
                        len >= 1,
                        UNIT_SCALE == 1048576,
                ;
                assert(mag(a as int) >= 1);
                lemma_mag_sq(a as int);
                assert(a as int * a as int >= 1) by (nonlinear_arith)
                    requires
                        mag(a as int) >= 1,
                        mag(a as int) * mag(a as int) == a as int * a as int,
                ;
                if il == 0 {
                    assert(false) by (nonlinear_arith)
                        requires
                            norm2 >= 1,
                            il == 0,
                            norm2 < (il + 1) * (il + 1),
                    ;
                }
                // |b| <= sqrt_floor(a*a + b*b): otherwise |b| >= il + 1 and
                // b*b > norm2.
                if mag(b as int) > il {
                    assert(false) by (nonlinear_arith)
                        requires
                            mag(b as int) >= il + 1,
                            il >= 0,
                            norm2 < (il + 1) * (il + 1),
                            mag(b as int) * mag(b as int) == b as int * b as int,
                            a as int * a as int >= 0,
                            norm2 == a as int * a as int + b as int * b as int,
                    ;
                }
                lemma_mul_bound(f as int, b as int, 0x40_0000, 0x6000_0000_0000_0000);
                // the lever keeps within the half-length
                crate::units::lemma_mag_mul2(f as int, b as int);
                assert(mag(f as int * b as int) <= mag(f as int) * il) by (nonlinear_arith)
                    requires
                        mag(b as int) <= il,
                        mag(f as int) >= 0,
                        mag(f as int * b as int) == mag(f as int) * mag(b as int),
                ;
                crate::units::lemma_tdiv_mag_le(f * b, il as int, mag(f as int));
                lemma_sqrt_floor_props(norm2 as int);
            }
            let lever: i128 = div_t(f * b, il);
            Some((ddx as i64, ddy as i64, lever as i64))
        } else {
            None
        }
    }
}

/// The lever arm a line body of length `len` gains from a contact normal
/// `(nx, ny)`: the projection of the normalised normal onto the line's
/// perpendicular `(px, py)`, scaled by the half-length.  A zero normal
/// (coincident centres) yields a zero lever.
pub open spec fn lever_proj_spec(px: int, py: int, nx: int, ny: int, len: int) -> int {
    let q = sqrt_floor(nx * nx + ny * ny);
    if q == 0 {
        0
    } else {
        tdiv((px * nx + py * ny) * len, 2 * UNIT_SCALE * q)
    }
}

/// Executable form of `lever_proj_spec`.
pub fn lever_proj(px: i64, py: i64, nx: i64, ny: i64, len: i64) -> (r: i64)
    requires
        mag(px as int) <= UNIT_SCALE,
        mag(py as int) <= UNIT_SCALE,
        mag(nx as int) <= NORMAL_LIMIT,
        mag(ny as int) <= NORMAL_LIMIT,
        0 < len <= HITBOX_LIMIT,
    ensures
        r == lever_proj_spec(px as int, py as int, nx as int, ny as int, len as int),
        mag(r as int) <= len,
{
    proof {
        lemma_mag_sq(nx as int);
        lemma_mag_sq(ny as int);
        lemma_mul_bound(nx as int, nx as int, 0x400_0000_0000, 0x400_0000_0000);
        lemma_mul_bound(ny as int, ny as int, 0x400_0000_0000, 0x400_0000_0000);
    }
    let n2: i128 = (nx as i128) * (nx as i128) + (ny as i128) * (ny as i128);
    let q: i128 = isqrt(n2 as u128) as i128;
    if q == 0 {
        0
    } else {
        proof {
            lemma_mul_bound(px as int, nx as int, 0x10_0000, 0x400_0000_0000);
            lemma_mul_bound(py as int, ny as int, 0x10_0000, 0x400_0000_0000);
            lemma_mul_bound(
                (px as int) * (nx as int) + (py as int) * (ny as int),
                len as int,
                0x8000_0000_0000_0000,
                0x40_0000,
            );
            // each normal component is bounded by the root of the squared norm
            if mag(nx as int) > q {
                assert(false) by (nonlinear_arith)
                    requires
                        mag(nx as int) >= q + 1,
                        q >= 0,
                        n2 < (q + 1) * (q + 1),
                        mag(nx as int) * mag(nx as int) == nx as int * nx as int,
                        ny as int * ny as int >= 0,
                        n2 == nx as int * nx as int + ny as int * ny as int,
                ;
            }
            if mag(ny as int) > q {
                assert(false) by (nonlinear_arith)
                    requires
                        mag(ny as int) >= q + 1,
                        q >= 0,
                        n2 < (q + 1) * (q + 1),
                        mag(ny as int) * mag(ny as int) == ny as int * ny as int,
                        nx as int * nx as int >= 0,
                        n2 == nx as int * nx as int + ny as int * ny as int,
                ;
            }
            // |p . n| <= 2 * UNIT_SCALE * q, so the quotient keeps within len
            crate::units::lemma_mag_mul2(px as int, nx as int);
            crate::units::lemma_mag_mul2(py as int, ny as int);
            assert(mag((px as int) * (nx as int)) <= 1048576 * q) by (nonlinear_arith)
                requires
                    mag((px as int) * (nx as int)) == mag(px as int) * mag(nx as int),
                    mag(px as int) <= 1048576,
                    mag(nx as int) <= q,
                    q >= 0,
                    mag(nx as int) >= 0,
            ;
            assert(mag((py as int) * (ny as int)) <= 1048576 * q) by (nonlinear_arith)
                requires
                    mag((py as int) * (ny as int)) == mag(py as int) * mag(ny as int),
                    mag(py as int) <= 1048576,
                    mag(ny as int) <= q,
                    q >= 0,
                    mag(ny as int) >= 0,
            ;
            crate::units::lemma_mag_mul(
                (px as int) * (nx as int) + (py as int) * (ny as int),
                len as int,
            );
            assert(mag((px as int) * (nx as int) + (py as int) * (ny as int)) * (len as int)
                <= (len as int) * (2097152 * q)) by (nonlinear_arith)
                requires
                    mag((px as int) * (nx as int) + (py as int) * (ny as int)) <= 2097152 * q,
                    len >= 1,
                    q >= 0,
            ;
            crate::units::lemma_tdiv_mag_le(
                ((px as int) * (nx as int) + (py as int) * (ny as int)) * (len as int),
                2097152 * q,
                len as int,
            );
        }
        let num: i128 = ((px as i128) * (nx as i128) + (py as i128) * (ny as i128)) * (len
            as i128);
        let den: i128 = 2097152 * q;
        let lever: i128 = div_t(num, den);
        proof {
            assert(den == 2 * UNIT_SCALE * q);
        }
        lever as i64
    }
}

/// The line-versus-line test: each line's two endpoint caps are tried
/// against the other line treated as a capped cylinder, in a fixed order,
/// and the first hit wins.  The lever of the body whose endpoint was used
/// comes from projecting the contact normal onto that body's perpendicular.
pub open spec fn line_line_spec(
    ax: int,
    ay: int,
    uax: int,
    uay: int,
    la: int,
    bx: int,
    by: int,
    ubx: int,
    uby: int,
    lb: int,
    rad: int,
) -> Option<(int, int, int, int)> {
    let offx = tdiv(uax * la, 2097152);
    let offy = tdiv(uay * la, 2097152);
    let t1 = line_circle_spec(bx, by, ubx, uby, ax + offx, ay + offy, lb, rad);
    if t1 is Some {
        Some(
            (
                t1.unwrap().0,
                t1.unwrap().1,
                lever_proj_spec(uay, -uax, t1.unwrap().0, t1.unwrap().1, la),
                t1.unwrap().2,
            ),
        )
    } else {
        let t2 = line_circle_spec(bx, by, ubx, uby, ax - offx, ay - offy, lb, rad);
        if t2 is Some {
            Some(
                (
                    t2.unwrap().0,
                    t2.unwrap().1,
                    lever_proj_spec(-uay, uax, t2.unwrap().0, t2.unwrap().1, la),
                    t2.unwrap().2,
                ),
            )
        } else {
            let boffx = tdiv(ubx * lb, 2097152);
            let boffy = tdiv(uby * lb, 2097152);
            let t3 = line_circle_spec(ax, ay, uax, uay, bx + boffx, by + boffy, la, rad);
            if t3 is Some {
                Some(
                    (
                        t3.unwrap().0,
                        t3.unwrap().1,
                        t3.unwrap().2,
                        lever_proj_spec(uby, -ubx, t3.unwrap().0, t3.unwrap().1, lb),
                    ),
                )
            } else {
                let t4 = line_circle_spec(ax, ay, uax, uay, bx - boffx, by - boffy, la, rad);
                if t4 is Some {
                    Some(
                        (
                            t4.unwrap().0,
                            t4.unwrap().1,
                            t4.unwrap().2,
                            lever_proj_spec(-uby, ubx, t4.unwrap().0, t4.unwrap().1, lb),
                        ),
                    )
                } else {
                    None
                }
            }
        }
    }
}

/// The shape-pair contact test, as a mathematical function over the two
/// bodies and their heading unit vectors.  The result is the contact
/// normal and the two lever arms, in the order the bodies were given.
pub open spec fn contact_spec(
    a: ActorNative,
    uax: int,
    uay: int,
    b: ActorNative,
    ubx: int,
    uby: int,
) -> Option<(int, int, int, int)> {
    match a.specs.hitbox {
        Hitbox::Absent => None,
        Hitbox::Circle { radius: ra } => match b.specs.hitbox {
            Hitbox::Absent => None,
            Hitbox::Circle { radius: rb } => {
                let dx = a.x - b.x;
                let dy = a.y - b.y;
                if dx * dx + dy * dy < (ra + rb) * (ra + rb) {
                    Some((dx, dy, 0, 0))
                } else {
                    None
                }
            },
            Hitbox::Line { length: lb, radius: rb } => {
                let t = line_circle_spec(b.x as int, b.y as int, ubx, uby, a.x as int, a.y as int, lb as int, rb + ra);
                if t is Some {
                    Some((t.unwrap().0, t.unwrap().1, 0, t.unwrap().2))
                } else {
                    None
                }
            },
        },
        Hitbox::Line { length: la, radius: ra } => match b.specs.hitbox {
            Hitbox::Absent => None,
            Hitbox::Circle { radius: rb } => {
                let t = line_circle_spec(a.x as int, a.y as int, uax, uay, b.x as int, b.y as int, la as int, ra + rb);
                if t is Some {
                    Some((t.unwrap().0, t.unwrap().1, t.unwrap().2, 0))
                } else {
                    None
                }
            },
            Hitbox::Line { length: lb, radius: rb } => line_line_spec(
                a.x as int,
                a.y as int,
                uax,
                uay,
                la as int,
                b.x as int,
                b.y as int,
                ubx,
                uby,
                lb as int,
                ra + rb,
            ),
        },
    }
}

/// Executable shape-pair contact test; see `contact_spec`.  Bodies with an
/// absent hitbox never reach the detector: the caller screens them out.
pub fn contacting(a: &ActorNative, uax: i64, uay: i64, b: &ActorNative, ubx: i64, uby: i64) -> (r:
    Option<Contact>)
    requires
        a.wf(),
        b.wf(),
        unit_ok(uax as int, uay as int),
        unit_ok(ubx as int, uby as int),
        !(a.specs.hitbox is Absent),
        !(b.specs.hitbox is Absent),
    ensures
        ({
            let s = contact_spec(*a, uax as int, uay as int, *b, ubx as int, uby as int);
            &&& r is Some <==> s is Some
            &&& r is Some ==> {
                &&& r.unwrap().normalx == s.unwrap().0
                &&& r.unwrap().normaly == s.unwrap().1
                &&& r.unwrap().lever_local == s.unwrap().2
                &&& r.unwrap().lever_remote == s.unwrap().3
                &&& mag(r.unwrap().normalx as int) <= NORMAL_LIMIT
                &&& mag(r.unwrap().normaly as int) <= NORMAL_LIMIT
                &&& mag(r.unwrap().lever_local as int) <= HITBOX_LIMIT
                &&& mag(r.unwrap().lever_remote as int) <= HITBOX_LIMIT
            }
        }),
{
    match a.specs.hitbox {
        Hitbox::Absent => None,
        Hitbox::Circle { radius: ra } => match b.specs.hitbox {
            Hitbox::Absent => None,
            Hitbox::Circle { radius: rb } => {
                let dx: i128 = a.x as i128 - b.x as i128;
                let dy: i128 = a.y as i128 - b.y as i128;
                proof {
                    lemma_mul_bound(dx as int, dx as int, 0x200_0000_0000, 0x200_0000_0000);
                    lemma_mul_bound(dy as int, dy as int, 0x200_0000_0000, 0x200_0000_0000);
                    lemma_mul_bound(ra + rb, ra + rb, 0x80_0000, 0x80_0000);
                }
                if dx * dx + dy * dy < ((ra + rb) as i128) * ((ra + rb) as i128) {
                    Some(
                        Contact {
                            normalx: dx as i64,
                            normaly: dy as i64,
                            lever_local: 0,
                            lever_remote: 0,
                        },
                    )
                } else {
                    None
                }
            },
            Hitbox::Line { length: lb, radius: rb } => {
                match line_contacting_circle(b.x, b.y, ubx, uby, a.x, a.y, lb, rb + ra) {
                    Some((nx, ny, lever)) => Some(
                        Contact { normalx: nx, normaly: ny, lever_local: 0, lever_remote: lever },
                    ),
                    None => None,
                }
            },
        },
        Hitbox::Line { length: la, radius: ra } => match b.specs.hitbox {
            Hitbox::Absent => None,
            Hitbox::Circle { radius: rb } => {
                match line_contacting_circle(a.x, a.y, uax, uay, b.x, b.y, la, ra + rb) {
                    Some((nx, ny, lever)) => Some(
                        Contact { normalx: nx, normaly: ny, lever_local: lever, lever_remote: 0 },
                    ),
                    None => None,
                }
            },
            Hitbox::Line { length: lb, radius: rb } => {
                let rad: i64 = ra + rb;
                proof {
                    lemma_mul_bound(uax as int, la as int, 0x10_0000, 0x40_0000);
                    lemma_mul_bound(uay as int, la as int, 0x10_0000, 0x40_0000);
                    crate::units::lemma_tdiv_mag_le(uax * la, 2097152, HITBOX_LIMIT as int);
                    crate::units::lemma_tdiv_mag_le(uay * la, 2097152, HITBOX_LIMIT as int);
                }
                let offx: i64 = div_t((uax as i128) * (la as i128), 2097152) as i64;
                let offy: i64 = div_t((uay as i128) * (la as i128), 2097152) as i64;
                if let Some((nx, ny, lr)) = line_contacting_circle(
                    b.x,
                    b.y,
                    ubx,
                    uby,
                    a.x + offx,
                    a.y + offy,
                    lb,
                    rad,
                ) {
                    let ll = lever_proj(uay, -uax, nx, ny, la);
                    return Some(
                        Contact { normalx: nx, normaly: ny, lever_local: ll, lever_remote: lr },
                    );
                }
                if let Some((nx, ny, lr)) = line_contacting_circle(
                    b.x,
                    b.y,
                    ubx,
                    uby,
                    a.x - offx,
                    a.y - offy,
                    lb,
                    rad,
                ) {
                    let ll = lever_proj(-uay, uax, nx, ny, la);
                    return Some(
                        Contact { normalx: nx, normaly: ny, lever_local: ll, lever_remote: lr },
                    );
                }
                proof {
                    lemma_mul_bound(ubx as int, lb as int, 0x10_0000, 0x40_0000);
                    lemma_mul_bound(uby as int, lb as int, 0x10_0000, 0x40_0000);
                    crate::units::lemma_tdiv_mag_le(ubx * lb, 2097152, HITBOX_LIMIT as int);
                    crate::units::lemma_tdiv_mag_le(uby * lb, 2097152, HITBOX_LIMIT as int);
                }
                let boffx: i64 = div_t((ubx as i128) * (lb as i128), 2097152) as i64;
                let boffy: i64 = div_t((uby as i128) * (lb as i128), 2097152) as i64;
                if let Some((nx, ny, ll)) = line_contacting_circle(
                    a.x,
                    a.y,
                    uax,
                    uay,
                    b.x + boffx,
                    b.y + boffy,
                    la,
                    rad,
                ) {
                    let lr = lever_proj(uby, -ubx, nx, ny, lb);
                    return Some(
                        Contact { normalx: nx, normaly: ny, lever_local: ll, lever_remote: lr },
                    );
                }
                if let Some((nx, ny, ll)) = line_contacting_circle(
                    a.x,
                    a.y,
                    uax,
                    uay,
                    b.x - boffx,
                    b.y - boffy,
                    la,
                    rad,
                ) {
                    let lr = lever_proj(-uby, ubx, nx, ny, lb);
                    return Some(
                        Contact { normalx: nx, normaly: ny, lever_local: ll, lever_remote: lr },
                    );
                }
                None
            },
        },
    }
}

/// The per-axis centre-of-momentum velocity of a colliding pair.
pub open spec fn refl_cm(m1: int, m2: int, p1: int, p2: int) -> int {
    tdiv(m1 * p1 + m2 * p2, m1 + m2)
}

/// Component of a relative velocity along the (unnormalised) contact
/// normal, carrying a factor of the normal's magnitude.
pub open spec fn axis_along(nx: int, ny: int, rx: int, ry: int) -> int {
    nx * rx + ny * ry
}

/// Component of a relative velocity across the contact normal, carrying a
/// factor of the normal's magnitude.
pub open spec fn axis_across(nx: int, ny: int, rx: int, ry: int) -> int {
    nx * ry - ny * rx
}

/// The bounce of a relative velocity `(rx, ry)`: into the normal frame,
/// the normal component negated and halved (elasticity one half), the
/// tangential kept, and back; the result carries a factor of the squared
/// normal magnitude, which `refl_vel_x`/`refl_vel_y` divide away.
pub open spec fn bounce_x(nx: int, ny: int, rx: int, ry: int) -> int {
    let wx = axis_along(nx, ny, rx, ry);
    let wy = axis_across(nx, ny, rx, ry);
    let ex = -tdiv(wx, 2);
    nx * ex - ny * wy
}

pub open spec fn bounce_y(nx: int, ny: int, rx: int, ry: int) -> int {
    let wx = axis_along(nx, ny, rx, ry);
    let wy = axis_across(nx, ny, rx, ry);
    let ex = -tdiv(wx, 2);
    ny * ex + nx * wy
}

/// The first body's new velocity (x component) after an elastic exchange
/// in the centre-of-momentum frame; swap the argument pairs for the
/// second body.
pub open spec fn refl_vel_x(
    m1: int,
    m2: int,
    v1x: int,
    v1y: int,
    v2x: int,
    v2y: int,
    nx: int,
    ny: int,
) -> int {
    let cmx = refl_cm(m1, m2, v1x, v2x);
    let cmy = refl_cm(m1, m2, v1y, v2y);
    cmx + tdiv(bounce_x(nx, ny, v1x - cmx, v1y - cmy), nx * nx + ny * ny)
}

pub open spec fn refl_vel_y(
    m1: int,
    m2: int,
    v1x: int,
    v1y: int,
    v2x: int,
    v2y: int,
    nx: int,
    ny: int,
) -> int {
    let cmx = refl_cm(m1, m2, v1x, v2x);
    let cmy = refl_cm(m1, m2, v1y, v2y);
    cmy + tdiv(bounce_y(nx, ny, v1x - cmx, v1y - cmy), nx * nx + ny * ny)
}

/// The angular kick a body receives: the magnitude of its velocity change
/// times its lever arm, divided by its rotational-inertia factor.
pub open spec fn refl_omega(dvx: int, dvy: int, lever: int, inertia: int) -> int {
    tdiv(sqrt_floor(dvx * dvx + dvy * dvy) * lever, inertia)
}

/// Circle-circle symmetry: for two circle bodies the contact condition
/// does not depend on the order of the operands, and the reported normal
/// is the same displacement up to sign.
pub proof fn lemma_circle_contact_symmetry(
    a: ActorNative,
    uax: int,
    uay: int,
    b: ActorNative,
    ubx: int,
    uby: int,
)
    requires
        a.specs.hitbox is Circle,
        b.specs.hitbox is Circle,
    ensures
        contact_spec(a, uax, uay, b, ubx, uby) is Some <==> contact_spec(
            b,
            ubx,
            uby,
            a,
            uax,
            uay,
        ) is Some,
        contact_spec(a, uax, uay, b, ubx, uby) is Some ==> {
            &&& contact_spec(a, uax, uay, b, ubx, uby).unwrap().0 == -contact_spec(
                b,
                ubx,
                uby,
                a,
                uax,
                uay,
            ).unwrap().0
            &&& contact_spec(a, uax, uay, b, ubx, uby).unwrap().1 == -contact_spec(
                b,
                ubx,
                uby,
                a,
                uax,
                uay,
            ).unwrap().1
        },
{
    let dx = a.x - b.x;
    let dy = a.y - b.y;
    assert(dx * dx == (b.x - a.x) * (b.x - a.x) && dy * dy == (b.y - a.y) * (b.y - a.y))
        by (nonlinear_arith)
        requires
            dx == a.x - b.x,
            dy == a.y - b.y,
    ;
}

/// Resolve a contact as a partially elastic impulse exchange.  Velocities
/// are moved into the centre-of-momentum frame, reflected about the
/// contact normal with elasticity one half, and moved back; each body's
/// angular velocity gains its velocity-change magnitude times its lever
/// arm over its rotational-inertia factor.  Results are clamped to the
/// engine's hard working bounds.
pub fn reflect(
    left: &mut ActorNative,
    right: &mut ActorNative,
    normalx: i64,
    normaly: i64,
    angularleft: i64,
    angularright: i64,
)
    requires
        old(left).wf(),
        old(right).wf(),
        mag(normalx as int) <= NORMAL_LIMIT,
        mag(normaly as int) <= NORMAL_LIMIT,
        normalx != 0 || normaly != 0,
        mag(angularleft as int) <= HITBOX_LIMIT,
        mag(angularright as int) <= HITBOX_LIMIT,
    ensures
        final(left).wf(),
        final(right).wf(),
        *final(left) == (ActorNative {
            dx: final(left).dx,
            dy: final(left).dy,
            angularvelocity: final(left).angularvelocity,
            ..*old(left)
        }),
        *final(right) == (ActorNative {
            dx: final(right).dx,
            dy: final(right).dy,
            angularvelocity: final(right).angularvelocity,
            ..*old(right)
        }),
        ({
            let m1 = old(left).specs.mass as int;
            let m2 = old(right).specs.mass as int;
            let v1x = old(left).dx as int;
            let v1y = old(left).dy as int;
            let v2x = old(right).dx as int;
            let v2y = old(right).dy as int;
            let nx = normalx as int;
            let ny = normaly as int;
            &&& final(left).dx == clamp_mag(
                refl_vel_x(m1, m2, v1x, v1y, v2x, v2y, nx, ny),
                VEL_LIMIT as int,
            )
            &&& final(left).dy == clamp_mag(
                refl_vel_y(m1, m2, v1x, v1y, v2x, v2y, nx, ny),
                VEL_LIMIT as int,
            )
            &&& final(right).dx == clamp_mag(
                refl_vel_x(m2, m1, v2x, v2y, v1x, v1y, nx, ny),
                VEL_LIMIT as int,
            )
            &&& final(right).dy == clamp_mag(
                refl_vel_y(m2, m1, v2x, v2y, v1x, v1y, nx, ny),
                VEL_LIMIT as int,
            )
            &&& final(left).angularvelocity == clamp_mag(
                old(left).angularvelocity + refl_omega(
                    v1x - final(left).dx,
                    v1y - final(left).dy,
                    angularleft as int,
                    old(left).specs.inertia as int,
                ),
                ANG_VEL_LIMIT as int,
            )
            &&& final(right).angularvelocity == clamp_mag(
                old(right).angularvelocity + refl_omega(
                    v2x - final(right).dx,
                    v2y - final(right).dy,
                    angularright as int,
                    old(right).specs.inertia as int,
                ),
                ANG_VEL_LIMIT as int,
            )
        }),
{
    let m1: i128 = left.specs.mass;
    let m2: i128 = right.specs.mass;
    let total: i128 = m1 + m2;
    let v1x = left.dx;
    let v1y = left.dy;
    let v2x = right.dx;
    let v2y = right.dy;
    proof {
        lemma_mass_vel_bound(m1 as int, m2 as int, v1x as int, v2x as int);
        lemma_mass_vel_bound(m1 as int, m2 as int, v1y as int, v2y as int);
    }
    let cmx: i128 = div_t(m1 * (v1x as i128) + m2 * (v2x as i128), total);
    let cmy: i128 = div_t(m1 * (v1y as i128) + m2 * (v2y as i128), total);
    let (newv1x, newv1y) = bounce_exec(v1x as i128 - cmx, v1y as i128 - cmy, cmx, cmy, normalx, normaly);
    let (newv2x, newv2y) = bounce_exec(v2x as i128 - cmx, v2y as i128 - cmy, cmx, cmy, normalx, normaly);
    left.dx = newv1x;
    left.dy = newv1y;
    right.dx = newv2x;
    right.dy = newv2y;
    let om1 = omega_kick(
        left.angularvelocity,
        v1x as i128 - newv1x as i128,
        v1y as i128 - newv1y as i128,
        angularleft,
        left.specs.inertia,
    );
    left.angularvelocity = om1;
    let om2 = omega_kick(
        right.angularvelocity,
        v2x as i128 - newv2x as i128,
        v2y as i128 - newv2y as i128,
        angularright,
        right.specs.inertia,
    );
    right.angularvelocity = om2;
}

/// The combined momentum along one axis stays within `VEL_LIMIT` of the
/// total mass, so the centre-of-momentum quotient stays within
/// `VEL_LIMIT`.
proof fn lemma_mass_vel_bound(m1: int, m2: int, p1: int, p2: int)
    requires
        1 <= m1 <= MASS_LIMIT,
        1 <= m2 <= MASS_LIMIT,
        mag(p1) <= VEL_LIMIT,
        mag(p2) <= VEL_LIMIT,
    ensures
        mag(m1 * p1 + m2 * p2) <= (m1 + m2) * (VEL_LIMIT as int),
        mag(m1 * p1 + m2 * p2) < 0x4000_0000_0000_0000_0000_0000_0000_0000,
        mag(m1 * p1) < 0x2000_0000_0000_0000_0000_0000_0000_0000,
        mag(m2 * p2) < 0x2000_0000_0000_0000_0000_0000_0000_0000,
        mag(refl_cm(m1, m2, p1, p2)) <= VEL_LIMIT,
{
    assert(mag(m1 * p1) < 0x2000_0000_0000_0000_0000_0000_0000_0000 && mag(m2 * p2)
        < 0x2000_0000_0000_0000_0000_0000_0000_0000) by (nonlinear_arith)
        requires
            1 <= m1 <= MASS_LIMIT,
            1 <= m2 <= MASS_LIMIT,
            mag(p1) <= VEL_LIMIT,
            mag(p2) <= VEL_LIMIT,
            MASS_LIMIT == 200_000_000_000_000_000_000_000int,
            VEL_LIMIT == 0x100_0000_0000,
            mag(p1) >= p1 >= -mag(p1),
            mag(p2) >= p2 >= -mag(p2),
    ;
    assert(mag(m1 * p1 + m2 * p2) <= (m1 + m2) * (VEL_LIMIT as int) && (m1 + m2) * (VEL_LIMIT
        as int) < 0x4000_0000_0000_0000_0000_0000_0000_0000) by (nonlinear_arith)
        requires
            1 <= m1 <= MASS_LIMIT,
            1 <= m2 <= MASS_LIMIT,
            mag(p1) <= VEL_LIMIT,
            mag(p2) <= VEL_LIMIT,
            MASS_LIMIT == 200_000_000_000_000_000_000_000int,
            VEL_LIMIT == 0x100_0000_0000,
            mag(p1) >= p1 >= -mag(p1),
            mag(p2) >= p2 >= -mag(p2),
    ;
    crate::units::lemma_tdiv_mag_le(m1 * p1 + m2 * p2, m1 + m2, VEL_LIMIT as int);
}

/// One body's side of the exchange: rotate the relative velocity into the
/// normal frame, halve and negate the normal part, rotate back, divide by
/// the squared normal magnitude, re-add the frame velocity, clamp.
fn bounce_exec(rx: i128, ry: i128, cmx: i128, cmy: i128, nx: i64, ny: i64) -> (r: (i64, i64))
    requires
        mag(rx as int) <= 2 * VEL_LIMIT,
        mag(ry as int) <= 2 * VEL_LIMIT,
        mag(cmx as int) <= VEL_LIMIT,
        mag(cmy as int) <= VEL_LIMIT,
        mag(nx as int) <= NORMAL_LIMIT,
        mag(ny as int) <= NORMAL_LIMIT,
        nx != 0 || ny != 0,
    ensures
        r.0 == clamp_mag(
            cmx + tdiv(bounce_x(nx as int, ny as int, rx as int, ry as int), nx * nx + ny * ny),
            VEL_LIMIT as int,
        ),
        r.1 == clamp_mag(
            cmy + tdiv(bounce_y(nx as int, ny as int, rx as int, ry as int), nx * nx + ny * ny),
            VEL_LIMIT as int,
        ),
{
    proof {
        lemma_mul_bound(nx as int, rx as int, 0x400_0000_0000, 0x200_0000_0000);
        lemma_mul_bound(ny as int, ry as int, 0x400_0000_0000, 0x200_0000_0000);
        lemma_mul_bound(nx as int, ry as int, 0x400_0000_0000, 0x200_0000_0000);
        lemma_mul_bound(ny as int, rx as int, 0x400_0000_0000, 0x200_0000_0000);
    }
    let wx: i128 = (nx as i128) * rx + (ny as i128) * ry;
    let wy: i128 = (nx as i128) * ry - (ny as i128) * rx;
    proof {
        crate::units::lemma_tdiv_mag_le(wx as int, 2, 0x8_0000_0000_0000_0000_0000);
    }
    let ex: i128 = -div_t(wx, 2);
    proof {
        lemma_mul_bound(nx as int, ex as int, 0x400_0000_0000, 0x8_0000_0000_0000_0000_0000);
        lemma_mul_bound(ny as int, wy as int, 0x400_0000_0000, 0x10_0000_0000_0000_0000_0000);
        lemma_mul_bound(nx as int, wy as int, 0x400_0000_0000, 0x10_0000_0000_0000_0000_0000);
        lemma_mul_bound(ny as int, ex as int, 0x400_0000_0000, 0x8_0000_0000_0000_0000_0000);
        lemma_mag_sq(nx as int);
        lemma_mag_sq(ny as int);
        lemma_mul_bound(nx as int, nx as int, 0x400_0000_0000, 0x400_0000_0000);
        lemma_mul_bound(ny as int, ny as int, 0x400_0000_0000, 0x400_0000_0000);
        if nx as int * nx as int + ny as int * ny as int <= 0 {
            if nx != 0 {
                assert(false) by (nonlinear_arith)
                    requires
                        mag(nx as int) >= 1,
                        mag(nx as int) * mag(nx as int) == nx as int * nx as int,
                        ny as int * ny as int >= 0,
                        nx as int * nx as int + ny as int * ny as int <= 0,
                ;
            } else {
                assert(false) by (nonlinear_arith)
                    requires
                        mag(ny as int) >= 1,
                        mag(ny as int) * mag(ny as int) == ny as int * ny as int,
                        nx as int * nx as int >= 0,
                        nx as int * nx as int + ny as int * ny as int <= 0,
                ;
            }
        }
    }
    let fx: i128 = (nx as i128) * ex - (ny as i128) * wy;
    let fy: i128 = (ny as i128) * ex + (nx as i128) * wy;
    let n2: i128 = (nx as i128) * (nx as i128) + (ny as i128) * (ny as i128);
    proof {
        crate::units::lemma_tdiv_bounds(fx as int, n2 as int);
        crate::units::lemma_tdiv_bounds(fy as int, n2 as int);
    }
    let outx: i128 = cmx + div_t(fx, n2);
    let outy: i128 = cmy + div_t(fy, n2);
    (crate::units::clamp_to(outx, VEL_LIMIT), crate::units::clamp_to(outy, VEL_LIMIT))
}

/// Momentum conservation in the resolver: the elastic exchange moves both
/// velocities relative to the centre-of-momentum frame, and whenever the
/// fixed-point divisions involved come out exact - as they do in the
/// symmetric head-on configurations the elasticity rule is tuned for -
/// the total momentum along each axis is exactly the same after the
/// exchange as before it.  (With inexact divisions each truncation can
/// shift a velocity by one raw unit, so exact equality is stated under
/// these side conditions; elasticity affects only the energy, never the
/// momentum.)
#[verifier::rlimit(60)]
pub proof fn lemma_reflect_momentum(
    m1: int,
    m2: int,
    v1x: int,
    v1y: int,
    v2x: int,
    v2y: int,
    nx: int,
    ny: int,
)
    requires
        m1 >= 1,
        m2 >= 1,
        nx * nx + ny * ny > 0,
        (m1 * v1x + m2 * v2x) % (m1 + m2) == 0,
        (m1 * v1y + m2 * v2y) % (m1 + m2) == 0,
        axis_along(
            nx,
            ny,
            v1x - refl_cm(m1, m2, v1x, v2x),
            v1y - refl_cm(m1, m2, v1y, v2y),
        ) % 2 == 0,
        axis_along(
            nx,
            ny,
            v2x - refl_cm(m1, m2, v1x, v2x),
            v2y - refl_cm(m1, m2, v1y, v2y),
        ) % 2 == 0,
        bounce_x(nx, ny, v1x - refl_cm(m1, m2, v1x, v2x), v1y - refl_cm(m1, m2, v1y, v2y)) % (nx
            * nx + ny * ny) == 0,
        bounce_y(nx, ny, v1x - refl_cm(m1, m2, v1x, v2x), v1y - refl_cm(m1, m2, v1y, v2y)) % (nx
            * nx + ny * ny) == 0,
        bounce_x(nx, ny, v2x - refl_cm(m1, m2, v1x, v2x), v2y - refl_cm(m1, m2, v1y, v2y)) % (nx
            * nx + ny * ny) == 0,
        bounce_y(nx, ny, v2x - refl_cm(m1, m2, v1x, v2x), v2y - refl_cm(m1, m2, v1y, v2y)) % (nx
            * nx + ny * ny) == 0,
    ensures
        m1 * refl_vel_x(m1, m2, v1x, v1y, v2x, v2y, nx, ny) + m2 * refl_vel_x(
            m2,
            m1,
            v2x,
            v2y,
            v1x,
            v1y,
            nx,
            ny,
        ) == m1 * v1x + m2 * v2x,
        m1 * refl_vel_y(m1, m2, v1x, v1y, v2x, v2y, nx, ny) + m2 * refl_vel_y(
            m2,
            m1,
            v2x,
            v2y,
            v1x,
            v1y,
            nx,
            ny,
        ) == m1 * v1y + m2 * v2y,
{
    let s = m1 + m2;
    let px = m1 * v1x + m2 * v2x;
    let py = m1 * v1y + m2 * v2y;
    let cmx = refl_cm(m1, m2, v1x, v2x);
    let cmy = refl_cm(m1, m2, v1y, v2y);
    crate::units::lemma_tdiv_exact(px, s);
    crate::units::lemma_tdiv_exact(py, s);
    let r1x = v1x - cmx;
    let r1y = v1y - cmy;
    let r2x = v2x - cmx;
    let r2y = v2y - cmy;
    lemma_cm_split(m1, m2, v1x, v2x, cmx, r1x, r2x);
    lemma_cm_split(m1, m2, v1y, v2y, cmy, r1y, r2y);
    let w1x = axis_along(nx, ny, r1x, r1y);
    let w1y = axis_across(nx, ny, r1x, r1y);
    let w2x = axis_along(nx, ny, r2x, r2y);
    let w2y = axis_across(nx, ny, r2x, r2y);
    lemma_lin_comb_zero(m1, m2, r1x, r2x, r1y, r2y, nx, ny, w1x, w2x);
    lemma_lin_comb_zero_sub(m1, m2, r1x, r2x, r1y, r2y, nx, ny, w1y, w2y);
    let e1x = -tdiv(w1x, 2);
    let e2x = -tdiv(w2x, 2);
    crate::units::lemma_tdiv_exact(w1x, 2);
    crate::units::lemma_tdiv_exact(w2x, 2);
    lemma_half_zero(m1, m2, w1x, w2x, e1x, e2x);
    let f1x = bounce_x(nx, ny, r1x, r1y);
    let f1y = bounce_y(nx, ny, r1x, r1y);
    let f2x = bounce_x(nx, ny, r2x, r2y);
    let f2y = bounce_y(nx, ny, r2x, r2y);
    lemma_lin_comb_zero_sub(m1, m2, w1y, w2y, e1x, e2x, nx, ny, f1x, f2x);
    lemma_lin_comb_zero(m1, m2, e1x, e2x, w1y, w2y, ny, nx, f1y, f2y);
    let n2 = nx * nx + ny * ny;
    let q1x = tdiv(f1x, n2);
    let q1y = tdiv(f1y, n2);
    let q2x = tdiv(f2x, n2);
    let q2y = tdiv(f2y, n2);
    crate::units::lemma_tdiv_exact(f1x, n2);
    crate::units::lemma_tdiv_exact(f1y, n2);
    crate::units::lemma_tdiv_exact(f2x, n2);
    crate::units::lemma_tdiv_exact(f2y, n2);
    lemma_scaled_zero(m1, m2, n2, f1x, f2x, q1x, q2x);
    lemma_scaled_zero(m1, m2, n2, f1y, f2y, q1y, q2y);
    lemma_recombine(m1, m2, s, cmx, q1x, q2x, px);
    lemma_recombine(m1, m2, s, cmy, q1y, q2y, py);
}

/// Relative velocities about an exact centre of momentum sum to zero
/// when weighted by the masses.
proof fn lemma_cm_split(m1: int, m2: int, v1: int, v2: int, cm: int, r1: int, r2: int)
    by (nonlinear_arith)
    requires
        (m1 + m2) * cm == m1 * v1 + m2 * v2,
        r1 == v1 - cm,
        r2 == v2 - cm,
    ensures
        m1 * r1 + m2 * r2 == 0,
{
}

/// A common linear combination of two mass-weighted zero sums is zero.
proof fn lemma_lin_comb_zero(
    m1: int,
    m2: int,
    x1: int,
    x2: int,
    y1: int,
    y2: int,
    al: int,
    be: int,
    w1: int,
    w2: int,
)
    requires
        m1 * x1 + m2 * x2 == 0,
        m1 * y1 + m2 * y2 == 0,
        w1 == al * x1 + be * y1,
        w2 == al * x2 + be * y2,
    ensures
        m1 * w1 + m2 * w2 == 0,
{
    assert(m1 * w1 == al * (m1 * x1) + be * (m1 * y1)) by (nonlinear_arith)
        requires
            w1 == al * x1 + be * y1,
    ;
    assert(m2 * w2 == al * (m2 * x2) + be * (m2 * y2)) by (nonlinear_arith)
        requires
            w2 == al * x2 + be * y2,
    ;
    assert(al * (m1 * x1) + al * (m2 * x2) == 0) by (nonlinear_arith)
        requires
            m1 * x1 + m2 * x2 == 0,
    ;
    assert(be * (m1 * y1) + be * (m2 * y2) == 0) by (nonlinear_arith)
        requires
            m1 * y1 + m2 * y2 == 0,
    ;
}

/// The same with the second coefficient entering by subtraction.
proof fn lemma_lin_comb_zero_sub(
    m1: int,
    m2: int,
    x1: int,
    x2: int,
    y1: int,
    y2: int,
    al: int,
    be: int,
    w1: int,
    w2: int,
)
    requires
        m1 * x1 + m2 * x2 == 0,
        m1 * y1 + m2 * y2 == 0,
        w1 == al * y1 - be * x1,
        w2 == al * y2 - be * x2,
    ensures
        m1 * w1 + m2 * w2 == 0,
{
    assert(m1 * w1 == al * (m1 * y1) - be * (m1 * x1)) by (nonlinear_arith)
        requires
            w1 == al * y1 - be * x1,
    ;
    assert(m2 * w2 == al * (m2 * y2) - be * (m2 * x2)) by (nonlinear_arith)
        requires
            w2 == al * y2 - be * x2,
    ;
    assert(al * (m1 * y1) + al * (m2 * y2) == 0) by (nonlinear_arith)
        requires
            m1 * y1 + m2 * y2 == 0,
    ;
    assert(be * (m1 * x1) + be * (m2 * x2) == 0) by (nonlinear_arith)
        requires
            m1 * x1 + m2 * x2 == 0,
    ;
}

/// Exact negated halves of a mass-weighted zero sum are a zero sum.
proof fn lemma_half_zero(m1: int, m2: int, w1: int, w2: int, e1: int, e2: int)
    by (nonlinear_arith)
    requires
        2 * tdiv(w1, 2) == w1,
        2 * tdiv(w2, 2) == w2,
        e1 == -tdiv(w1, 2),
        e2 == -tdiv(w2, 2),
        m1 * w1 + m2 * w2 == 0,
    ensures
        m1 * e1 + m2 * e2 == 0,
{
}

/// Exact quotients of a mass-weighted zero sum are a zero sum.
proof fn lemma_scaled_zero(m1: int, m2: int, n2: int, f1: int, f2: int, q1: int, q2: int)
    by (nonlinear_arith)
    requires
        n2 > 0,
        n2 * q1 == f1,
        n2 * q2 == f2,
        m1 * f1 + m2 * f2 == 0,
    ensures
        m1 * q1 + m2 * q2 == 0,
{
}

/// Re-adding the frame velocity restores the original momentum.
proof fn lemma_recombine(m1: int, m2: int, s: int, cm: int, q1: int, q2: int, p: int)
    by (nonlinear_arith)
    requires
        s == m1 + m2,
        s * cm == p,
        m1 * q1 + m2 * q2 == 0,
    ensures
        m1 * (cm + q1) + m2 * (cm + q2) == p,
{
}

/// The angular-velocity update of one body after the exchange.
fn omega_kick(av: i64, dvx: i128, dvy: i128, lever: i64, inertia: i64) -> (r: i64)
    requires
        mag(av as int) <= ANG_VEL_LIMIT,
        mag(dvx as int) <= 2 * VEL_LIMIT,
        mag(dvy as int) <= 2 * VEL_LIMIT,
        mag(lever as int) <= HITBOX_LIMIT,
        1 <= inertia,
    ensures
        r == clamp_mag(
            av + refl_omega(dvx as int, dvy as int, lever as int, inertia as int),
            ANG_VEL_LIMIT as int,
        ),
{
    proof {
        lemma_mag_sq(dvx as int);
        lemma_mag_sq(dvy as int);
        lemma_mul_bound(dvx as int, dvx as int, 0x200_0000_0000, 0x200_0000_0000);
        lemma_mul_bound(dvy as int, dvy as int, 0x200_0000_0000, 0x200_0000_0000);
    }
    let d2: i128 = dvx * dvx + dvy * dvy;
    let dv: i128 = isqrt(d2 as u128) as i128;
    proof {
        lemma_mul_bound(dv as int, lever as int, 0x1_0000_0000_0000_0000, 0x40_0000);
        crate::units::lemma_tdiv_bounds(dv * lever, inertia as int);
    }
    let kick: i128 = div_t(dv * (lever as i128), inertia as i128);
    crate::units::clamp_to(av as i128 + kick, ANG_VEL_LIMIT)
}

} // verus!
