use vstd::prelude::*;

verus! {

/// Fineness of the parameter grid on which cubic derivative roots are
/// located: curve parameters are taken at multiples of `1 / ROOT_GRID`.
pub const ROOT_GRID: i64 = 1048576;

/// Floor division for a positive divisor, written out over the two sign
/// cases of the dividend.
pub open spec fn spec_floor_div(a: int, b: int) -> int {
    if a >= 0 {
        a / b
    } else {
        -(((-a) + b - 1) / b)
    }
}

/// Ceiling division for a positive divisor, written out over the two sign
/// cases of the dividend.
pub open spec fn spec_ceil_div(a: int, b: int) -> int {
    if a >= 0 {
        (a + b - 1) / b
    } else {
        -((-a) / b)
    }
}

pub(crate) fn floor_div(a: i128, b: i128) -> (r: i128)
    requires
        a > i128::MIN,
        0 < b,
    ensures
        r == spec_floor_div(a as int, b as int),
{
    if a >= 0 {
        ((a as u128) / (b as u128)) as i128
    } else {
        let na: u128 = (-a) as u128;
        let q: u128 = (na + (b as u128) - 1) / (b as u128);
        proof {
            assert(((na as int) + (b as int) - 1) / (b as int) <= na as int) by (nonlinear_arith)
                requires
                    (b as int) >= 1,
                    (na as int) >= 1,
            ;
        }
        -(q as i128)
    }
}

pub(crate) fn ceil_div(a: i128, b: i128) -> (r: i128)
    requires
        a > i128::MIN,
        0 < b,
    ensures
        r == spec_ceil_div(a as int, b as int),
{
    if a >= 0 {
        let q: u128 = ((a as u128) + (b as u128) - 1) / (b as u128);
        proof {
            assert(((a as int) + (b as int) - 1) / (b as int) <= (if a as int >= 1 {
                a as int
            } else {
                0
            })) by (nonlinear_arith)
                requires
                    (b as int) >= 1,
                    (a as int) >= 0,
            ;
        }
        q as i128
    } else {
        -(((-a) as u128 / (b as u128)) as i128)
    }
}

proof fn lemma_i64_product_bounds(a: i128, b: i128)
    requires
        -0x8000_0000_0000_0000i128 <= a <= 0x7fff_ffff_ffff_ffffi128,
        -0x8000_0000_0000_0000i128 <= b <= 0x7fff_ffff_ffff_ffffi128,
    ensures
        -0x3fff_ffff_ffff_ffff_8000_0000_0000_0000i128 <= a * b,
        a * b <= 0x4000_0000_0000_0000_0000_0000_0000_0000i128,
{
    assert(-0x3fff_ffff_ffff_ffff_8000_0000_0000_0000i128 <= a * b
        <= 0x4000_0000_0000_0000_0000_0000_0000_0000i128) by (nonlinear_arith)
        requires
            -0x8000_0000_0000_0000i128 <= a <= 0x7fff_ffff_ffff_ffffi128,
            -0x8000_0000_0000_0000i128 <= b <= 0x7fff_ffff_ffff_ffffi128,
    ;
}

proof fn lemma_square_nonneg(a: i128)
    ensures
        a * a >= 0,
{
    assert(a * a >= 0) by (nonlinear_arith);
}

/// The least raw value a quadratic segment attains on one axis, given the
/// raw fixed-point values of its start, control and end points.
///
/// When the derivative has an interior root the extremum is the exact
/// rational `(v0 * v2 - v1 * v1) / d`, rounded down to the raw grid; it
/// always lies between the smallest control value and the smaller
/// endpoint, and the clamp only writes that down. Otherwise the segment is
/// monotone on that axis and the smaller endpoint is the minimum.
pub open spec fn spec_quad_min_raw(v0: int, v1: int, v2: int) -> int {
    let d = v0 - 2 * v1 + v2;
    let n = v0 - v1;
    let base = if v0 <= v2 {
        v0
    } else {
        v2
    };
    let low = if v1 <= base {
        v1
    } else {
        base
    };
    if d > 0 && 0 < n && n < d {
        let e = spec_floor_div(v0 * v2 - v1 * v1, d);
        if e < low {
            low
        } else if e > base {
            base
        } else {
            e
        }
    } else {
        base
    }
}

/// The greatest raw value a quadratic segment attains on one axis; the
/// dual of [`spec_quad_min_raw`], with the extremum rounded up.
pub open spec fn spec_quad_max_raw(v0: int, v1: int, v2: int) -> int {
    let d = v0 - 2 * v1 + v2;
    let n = v0 - v1;
    let base = if v0 >= v2 {
        v0
    } else {
        v2
    };
    let high = if v1 >= base {
        v1
    } else {
        base
    };
    if d < 0 && d < n && n < 0 {
        let e = spec_ceil_div(-(v0 * v2 - v1 * v1), -d);
        if e > high {
            high
        } else if e < base {
            base
        } else {
            e
        }
    } else {
        base
    }
}

pub(crate) fn quad_min_raw(x: i64, y: i64, z: i64) -> (r: i64)
    ensures
        r as int == spec_quad_min_raw(x as int, y as int, z as int),
{
    let xi: i128 = x as i128;
    let yi: i128 = y as i128;
    let zi: i128 = z as i128;
    let d: i128 = xi - 2 * yi + zi;
    let n: i128 = xi - yi;
    let base: i128 = if xi <= zi {
        xi
    } else {
        zi
    };
    let low: i128 = if yi <= base {
        yi
    } else {
        base
    };
    if d > 0 && 0 < n && n < d {
        proof {
            lemma_i64_product_bounds(xi, zi);
            lemma_i64_product_bounds(yi, yi);
            lemma_square_nonneg(yi);
        }
        let num: i128 = xi * zi - yi * yi;
        let e = floor_div(num, d);
        let e2: i128 = if e < low {
            low
        } else if e > base {
            base
        } else {
            e
        };
        e2 as i64
    } else {
        base as i64
    }
}

pub(crate) fn quad_max_raw(x: i64, y: i64, z: i64) -> (r: i64)
    ensures
        r as int == spec_quad_max_raw(x as int, y as int, z as int),
{
    let xi: i128 = x as i128;
    let yi: i128 = y as i128;
    let zi: i128 = z as i128;
    let d: i128 = xi - 2 * yi + zi;
    let n: i128 = xi - yi;
    let base: i128 = if xi >= zi {
        xi
    } else {
        zi
    };
    let high: i128 = if yi >= base {
        yi
    } else {
        base
    };
    if d < 0 && d < n && n < 0 {
        proof {
            lemma_i64_product_bounds(xi, zi);
            lemma_i64_product_bounds(yi, yi);
            lemma_square_nonneg(yi);
        }
        let num: i128 = xi * zi - yi * yi;
        let e = ceil_div(-num, -d);
        let e2: i128 = if e > high {
            high
        } else if e < base {
            base
        } else {
            e
        };
        e2 as i64
    } else {
        base as i64
    }
}

/// The scaled value of the derivative quadratic `qa * t^2 + 2 qb * t + qc`
/// at the grid parameter `n / ROOT_GRID`, multiplied by the square of the
/// grid so it stays integral.
pub open spec fn spec_qval(qa: int, qb: int, qc: int, n: int) -> int {
    qa * n * n + 2 * qb * n * (ROOT_GRID as int) + qc * (ROOT_GRID as int) * (ROOT_GRID as int)
}

/// Do the two values lie on opposite sides of zero (either may be zero)?
pub open spec fn spec_opposite(x: int, y: int) -> bool {
    (x <= 0 && 0 <= y) || (y <= 0 && 0 <= x)
}

/// The grid cell to which bisection on the derivative's sign narrows the
/// interval `[lo, hi]`: whenever the derivative changes sign on the
/// interval, the returned unit cell brackets a root.
pub open spec fn spec_root_cell(qa: int, qb: int, qc: int, lo: int, hi: int) -> int
    decreases hi - lo,
{
    if hi - lo <= 1 {
        lo
    } else {
        let mid = lo + (hi - lo) / 2;
        if spec_opposite(spec_qval(qa, qb, qc, lo), spec_qval(qa, qb, qc, mid)) {
            spec_root_cell(qa, qb, qc, lo, mid)
        } else {
            spec_root_cell(qa, qb, qc, mid, hi)
        }
    }
}

/// The grid position of the derivative parabola's vertex, clamped into the
/// parameter range; the derivative is monotone on each side of it. For a
/// linear derivative the midpoint serves as the split.
pub open spec fn spec_vertex_cell(qa: int, qb: int) -> int {
    if qa == 0 {
        (ROOT_GRID as int) / 2
    } else {
        let raw = if qa > 0 {
            spec_floor_div(-(qb * (ROOT_GRID as int)), qa)
        } else {
            spec_floor_div(qb * (ROOT_GRID as int), -qa)
        };
        if raw < 0 {
            0
        } else if raw > ROOT_GRID as int {
            ROOT_GRID as int
        } else {
            raw
        }
    }
}

/// The raw value of a cubic segment on one axis at the grid parameter
/// `n / ROOT_GRID`, scaled by the cube of the grid so it stays integral:
/// the Bernstein form of the cubic.
pub open spec fn spec_cubic_eval(v0: int, v1: int, v2: int, v3: int, n: int) -> int {
    let u = (ROOT_GRID as int) - n;
    u * u * u * v0 + 3 * n * u * u * v1 + 3 * n * n * u * v2 + n * n * n * v3
}

/// Fold one sampled curve value into a running minimum: the sample is the
/// cubic's exact value at a grid parameter, rounded down to the raw grid
/// and kept within the control range, where every curve value lies.
pub open spec fn spec_take_min(acc: int, lowc: int, highc: int, num: int) -> int {
    let e = spec_floor_div(num, 0x1000_0000_0000_0000);
    let e2 = if e < lowc {
        lowc
    } else if e > highc {
        highc
    } else {
        e
    };
    if e2 < acc {
        e2
    } else {
        acc
    }
}

/// Fold one sampled curve value into a running maximum, rounding up.
pub open spec fn spec_take_max(acc: int, lowc: int, highc: int, num: int) -> int {
    let e = spec_ceil_div(num, 0x1000_0000_0000_0000);
    let e2 = if e < lowc {
        lowc
    } else if e > highc {
        highc
    } else {
        e
    };
    if e2 > acc {
        e2
    } else {
        acc
    }
}

/// The least raw value a cubic segment attains on one axis, given the raw
/// values of its start, two control and end points: the smaller endpoint,
/// refined by the curve's values at the grid cells that bisection of the
/// derivative's sign singles out on either side of the derivative's
/// vertex. Both ends of each root cell are sampled, so the result tracks
/// the true extremum to the resolution of the grid.
pub open spec fn spec_cubic_min_raw(v0: int, v1: int, v2: int, v3: int) -> int {
    let a = v1 - v0;
    let b = v2 - v1;
    let c = v3 - v2;
    let qa = a - 2 * b + c;
    let qb = b - a;
    let qc = a;
    let base = if v0 <= v3 {
        v0
    } else {
        v3
    };
    let m01 = if v0 <= v1 {
        v0
    } else {
        v1
    };
    let m23 = if v2 <= v3 {
        v2
    } else {
        v3
    };
    let lowc = if m01 <= m23 {
        m01
    } else {
        m23
    };
    let x01 = if v0 >= v1 {
        v0
    } else {
        v1
    };
    let x23 = if v2 >= v3 {
        v2
    } else {
        v3
    };
    let highc = if x01 >= x23 {
        x01
    } else {
        x23
    };
    let nv = spec_vertex_cell(qa, qb);
    let acc0 = base;
    let acc1 = if nv >= 1 {
        let s = spec_root_cell(qa, qb, qc, 0, nv);
        spec_take_min(
            spec_take_min(acc0, lowc, highc, spec_cubic_eval(v0, v1, v2, v3, s)),
            lowc,
            highc,
            spec_cubic_eval(v0, v1, v2, v3, s + 1),
        )
    } else {
        acc0
    };
    if nv <= (ROOT_GRID as int) - 1 {
        let s2 = spec_root_cell(qa, qb, qc, nv, ROOT_GRID as int);
        spec_take_min(
            spec_take_min(acc1, lowc, highc, spec_cubic_eval(v0, v1, v2, v3, s2)),
            lowc,
            highc,
            spec_cubic_eval(v0, v1, v2, v3, s2 + 1),
        )
    } else {
        acc1
    }
}

/// The greatest raw value a cubic segment attains on one axis; the dual of
/// [`spec_cubic_min_raw`], rounding sampled values up.
pub open spec fn spec_cubic_max_raw(v0: int, v1: int, v2: int, v3: int) -> int {
    let a = v1 - v0;
    let b = v2 - v1;
    let c = v3 - v2;
    let qa = a - 2 * b + c;
    let qb = b - a;
    let qc = a;
    let base = if v0 >= v3 {
        v0
    } else {
        v3
    };
    let m01 = if v0 <= v1 {
        v0
    } else {
        v1
    };
    let m23 = if v2 <= v3 {
        v2
    } else {
        v3
    };
    let lowc = if m01 <= m23 {
        m01
    } else {
        m23
    };
    let x01 = if v0 >= v1 {
        v0
    } else {
        v1
    };
    let x23 = if v2 >= v3 {
        v2
    } else {
        v3
    };
    let highc = if x01 >= x23 {
        x01
    } else {
        x23
    };
    let nv = spec_vertex_cell(qa, qb);
    let acc0 = base;
    let acc1 = if nv >= 1 {
        let s = spec_root_cell(qa, qb, qc, 0, nv);
        spec_take_max(
            spec_take_max(acc0, lowc, highc, spec_cubic_eval(v0, v1, v2, v3, s)),
            lowc,
            highc,
            spec_cubic_eval(v0, v1, v2, v3, s + 1),
        )
    } else {
        acc0
    };
    if nv <= (ROOT_GRID as int) - 1 {
        let s2 = spec_root_cell(qa, qb, qc, nv, ROOT_GRID as int);
        spec_take_max(
            spec_take_max(acc1, lowc, highc, spec_cubic_eval(v0, v1, v2, v3, s2)),
            lowc,
            highc,
            spec_cubic_eval(v0, v1, v2, v3, s2 + 1),
        )
    } else {
        acc1
    }
}

fn qval(qa: i128, qb: i128, qc: i128, n: i128) -> (r: i128)
    requires
        -0x100_0000_0000_0000_0000i128 <= qa <= 0x100_0000_0000_0000_0000i128,
        -0x100_0000_0000_0000_0000i128 <= qb <= 0x100_0000_0000_0000_0000i128,
        -0x100_0000_0000_0000_0000i128 <= qc <= 0x100_0000_0000_0000_0000i128,
        0 <= n <= ROOT_GRID as i128,
    ensures
        r == spec_qval(qa as int, qb as int, qc as int, n as int),
{
    proof {
        assert(-0x1000_0000_0000_0000_0000_0000i128 <= qa * n
            <= 0x1000_0000_0000_0000_0000_0000i128) by (nonlinear_arith)
            requires
                -0x100_0000_0000_0000_0000i128 <= qa <= 0x100_0000_0000_0000_0000i128,
                0 <= n <= 0x10_0000i128,
        ;
        assert(-0x1_0000_0000_0000_0000_0000_0000_0000i128 <= qa * n * n
            <= 0x1_0000_0000_0000_0000_0000_0000_0000i128) by (nonlinear_arith)
            requires
                -0x1000_0000_0000_0000_0000_0000i128 <= qa * n
                    <= 0x1000_0000_0000_0000_0000_0000i128,
                0 <= n <= 0x10_0000i128,
        ;
        assert(-0x2000_0000_0000_0000_0000_0000i128 <= 2 * qb * n
            <= 0x2000_0000_0000_0000_0000_0000i128) by (nonlinear_arith)
            requires
                -0x100_0000_0000_0000_0000i128 <= qb <= 0x100_0000_0000_0000_0000i128,
                0 <= n <= 0x10_0000i128,
        ;
    }
    qa * n * n + 2 * qb * n * (ROOT_GRID as i128) + qc * (ROOT_GRID as i128) * (ROOT_GRID as i128)
}

pub(crate) fn root_cell(qa: i128, qb: i128, qc: i128, lo0: usize, hi0: usize) -> (r: usize)
    requires
        -0x100_0000_0000_0000_0000i128 <= qa <= 0x100_0000_0000_0000_0000i128,
        -0x100_0000_0000_0000_0000i128 <= qb <= 0x100_0000_0000_0000_0000i128,
        -0x100_0000_0000_0000_0000i128 <= qc <= 0x100_0000_0000_0000_0000i128,
        lo0 < hi0 <= ROOT_GRID as usize,
    ensures
        r as int == spec_root_cell(qa as int, qb as int, qc as int, lo0 as int, hi0 as int),
        lo0 <= r < hi0,
{
    let mut lo: usize = lo0;
    let mut hi: usize = hi0;
    while hi - lo > 1
        invariant
            -0x100_0000_0000_0000_0000i128 <= qa <= 0x100_0000_0000_0000_0000i128,
            -0x100_0000_0000_0000_0000i128 <= qb <= 0x100_0000_0000_0000_0000i128,
            -0x100_0000_0000_0000_0000i128 <= qc <= 0x100_0000_0000_0000_0000i128,
            lo0 <= lo < hi <= hi0,
            hi0 <= ROOT_GRID as usize,
            spec_root_cell(qa as int, qb as int, qc as int, lo0 as int, hi0 as int)
                == spec_root_cell(qa as int, qb as int, qc as int, lo as int, hi as int),
        decreases hi - lo,
    {
        let mid: usize = lo + (hi - lo) / 2;
        let ql = qval(qa, qb, qc, lo as i128);
        let qm = qval(qa, qb, qc, mid as i128);
        if (ql <= 0 && 0 <= qm) || (qm <= 0 && 0 <= ql) {
            hi = mid;
        } else {
            lo = mid;
        }
    }
    lo
}

pub(crate) fn vertex_cell(qa: i128, qb: i128) -> (r: usize)
    requires
        -0x100_0000_0000_0000_0000i128 <= qa <= 0x100_0000_0000_0000_0000i128,
        -0x100_0000_0000_0000_0000i128 <= qb <= 0x100_0000_0000_0000_0000i128,
    ensures
        r as int == spec_vertex_cell(qa as int, qb as int),
        r <= ROOT_GRID as usize,
{
    if qa == 0 {
        (ROOT_GRID / 2) as usize
    } else {
        proof {
            assert(-0x1_0000_0000_0000_0000_0000_0000i128 <= qb * (ROOT_GRID as i128)
                <= 0x1_0000_0000_0000_0000_0000_0000i128) by (nonlinear_arith)
                requires
                    -0x100_0000_0000_0000_0000i128 <= qb <= 0x100_0000_0000_0000_0000i128,
                    (ROOT_GRID as i128) == 0x10_0000i128,
            ;
        }
        let num: i128 = qb * (ROOT_GRID as i128);
        let raw: i128 = if qa > 0 {
            floor_div(-num, qa)
        } else {
            floor_div(num, -qa)
        };
        if raw < 0 {
            0
        } else if raw > ROOT_GRID as i128 {
            ROOT_GRID as usize
        } else {
            raw as usize
        }
    }
}

pub(crate) fn cubic_eval(v0: i64, v1: i64, v2: i64, v3: i64, n: usize) -> (r: i128)
    requires
        n <= ROOT_GRID as usize,
    ensures
        r == spec_cubic_eval(v0 as int, v1 as int, v2 as int, v3 as int, n as int),
        -0x6000_0000_0000_0000_0000_0000_0000_0000i128 <= r,
        r <= 0x6000_0000_0000_0000_0000_0000_0000_0000i128,
{
    let ni: i128 = n as i128;
    let u: i128 = (ROOT_GRID as i128) - ni;
    proof {
        assert(0 <= u * u <= 0x100_0000_0000i128) by (nonlinear_arith)
            requires
                0 <= u <= 0x10_0000i128,
        ;
        assert(0 <= u * u * u <= 0x1000_0000_0000_0000i128) by (nonlinear_arith)
            requires
                0 <= u * u <= 0x100_0000_0000i128,
                0 <= u <= 0x10_0000i128,
        ;
        assert(0 <= ni * ni <= 0x100_0000_0000i128) by (nonlinear_arith)
            requires
                0 <= ni <= 0x10_0000i128,
        ;
        assert(0 <= ni * ni * ni <= 0x1000_0000_0000_0000i128) by (nonlinear_arith)
            requires
                0 <= ni * ni <= 0x100_0000_0000i128,
                0 <= ni <= 0x10_0000i128,
        ;
        assert(0 <= 3 * ni * u <= 0x300_0000_0000i128) by (nonlinear_arith)
            requires
                0 <= ni <= 0x10_0000i128,
                0 <= u <= 0x10_0000i128,
        ;
        assert(0 <= 3 * ni * u * u <= 0x3000_0000_0000_0000i128) by (nonlinear_arith)
            requires
                0 <= 3 * ni * u <= 0x300_0000_0000i128,
                0 <= u <= 0x10_0000i128,
        ;
        assert(0 <= 3 * ni * ni <= 0x300_0000_0000i128) by (nonlinear_arith)
            requires
                0 <= ni <= 0x10_0000i128,
        ;
        assert(0 <= 3 * ni * ni * u <= 0x3000_0000_0000_0000i128) by (nonlinear_arith)
            requires
                0 <= 3 * ni * ni <= 0x300_0000_0000i128,
                0 <= u <= 0x10_0000i128,
        ;
        lemma_coeff_value_bounds((u as int) * (u as int) * (u as int), v0 as int);
        lemma_coeff_value_bounds(3 * (ni as int) * (u as int) * (u as int), v1 as int);
        lemma_coeff_value_bounds(3 * (ni as int) * (ni as int) * (u as int), v2 as int);
        lemma_coeff_value_bounds((ni as int) * (ni as int) * (ni as int), v3 as int);
    }
    u * u * u * (v0 as i128) + 3 * ni * u * u * (v1 as i128) + 3 * ni * ni * u * (v2 as i128)
        + ni * ni * ni * (v3 as i128)
}

proof fn lemma_coeff_value_bounds(k: int, v: int)
    requires
        0 <= k <= 0x3000_0000_0000_0000,
        -0x8000_0000_0000_0000 <= v <= 0x7fff_ffff_ffff_ffff,
    ensures
        -0x1800_0000_0000_0000_0000_0000_0000_0000 <= k * v,
        k * v <= 0x1800_0000_0000_0000_0000_0000_0000_0000,
{
    assert(-0x1800_0000_0000_0000_0000_0000_0000_0000 <= k * v
        <= 0x1800_0000_0000_0000_0000_0000_0000_0000) by (nonlinear_arith)
        requires
            0 <= k <= 0x3000_0000_0000_0000,
            -0x8000_0000_0000_0000 <= v <= 0x7fff_ffff_ffff_ffff,
    ;
}

fn take_min(acc: i128, lowc: i128, highc: i128, num: i128) -> (r: i128)
    requires
        num > i128::MIN,
        -0x8000_0000_0000_0000i128 <= lowc <= highc <= 0x7fff_ffff_ffff_ffffi128,
        -0x8000_0000_0000_0000i128 <= acc <= 0x7fff_ffff_ffff_ffffi128,
    ensures
        r == spec_take_min(acc as int, lowc as int, highc as int, num as int),
        -0x8000_0000_0000_0000i128 <= r <= 0x7fff_ffff_ffff_ffffi128,
{
    let e = floor_div(num, 0x1000_0000_0000_0000i128);
    let e2: i128 = if e < lowc {
        lowc
    } else if e > highc {
        highc
    } else {
        e
    };
    if e2 < acc {
        e2
    } else {
        acc
    }
}

fn take_max(acc: i128, lowc: i128, highc: i128, num: i128) -> (r: i128)
    requires
        num > i128::MIN,
        -0x8000_0000_0000_0000i128 <= lowc <= highc <= 0x7fff_ffff_ffff_ffffi128,
        -0x8000_0000_0000_0000i128 <= acc <= 0x7fff_ffff_ffff_ffffi128,
    ensures
        r == spec_take_max(acc as int, lowc as int, highc as int, num as int),
        -0x8000_0000_0000_0000i128 <= r <= 0x7fff_ffff_ffff_ffffi128,
{
    let e = ceil_div(num, 0x1000_0000_0000_0000i128);
    let e2: i128 = if e < lowc {
        lowc
    } else if e > highc {
        highc
    } else {
        e
    };
    if e2 > acc {
        e2
    } else {
        acc
    }
}

#[verifier::rlimit(60)]
pub(crate) fn cubic_min_raw(v0: i64, v1: i64, v2: i64, v3: i64) -> (r: i64)
    ensures
        r as int == spec_cubic_min_raw(v0 as int, v1 as int, v2 as int, v3 as int),
{
    let a: i128 = (v1 as i128) - (v0 as i128);
    let b: i128 = (v2 as i128) - (v1 as i128);
    let c: i128 = (v3 as i128) - (v2 as i128);
    let qa: i128 = a - 2 * b + c;
    let qb: i128 = b - a;
    let qc: i128 = a;
    let base: i128 = if v0 <= v3 {
        v0 as i128
    } else {
        v3 as i128
    };
    let m01: i128 = if v0 <= v1 {
        v0 as i128
    } else {
        v1 as i128
    };
    let m23: i128 = if v2 <= v3 {
        v2 as i128
    } else {
        v3 as i128
    };
    let lowc: i128 = if m01 <= m23 {
        m01
    } else {
        m23
    };
    let x01: i128 = if v0 >= v1 {
        v0 as i128
    } else {
        v1 as i128
    };
    let x23: i128 = if v2 >= v3 {
        v2 as i128
    } else {
        v3 as i128
    };
    let highc: i128 = if x01 >= x23 {
        x01
    } else {
        x23
    };
    let nv = vertex_cell(qa, qb);
    let mut acc: i128 = base;
    if nv >= 1 {
        let s = root_cell(qa, qb, qc, 0, nv);
        acc = take_min(acc, lowc, highc, cubic_eval(v0, v1, v2, v3, s));
        acc = take_min(acc, lowc, highc, cubic_eval(v0, v1, v2, v3, s + 1));
    }
    if nv <= (ROOT_GRID as usize) - 1 {
        let s2 = root_cell(qa, qb, qc, nv, ROOT_GRID as usize);
        acc = take_min(acc, lowc, highc, cubic_eval(v0, v1, v2, v3, s2));
        acc = take_min(acc, lowc, highc, cubic_eval(v0, v1, v2, v3, s2 + 1));
    }
    acc as i64
}

#[verifier::rlimit(60)]
pub(crate) fn cubic_max_raw(v0: i64, v1: i64, v2: i64, v3: i64) -> (r: i64)
    ensures
        r as int == spec_cubic_max_raw(v0 as int, v1 as int, v2 as int, v3 as int),
{
    let a: i128 = (v1 as i128) - (v0 as i128);
    let b: i128 = (v2 as i128) - (v1 as i128);
    let c: i128 = (v3 as i128) - (v2 as i128);
    let qa: i128 = a - 2 * b + c;
    let qb: i128 = b - a;
    let qc: i128 = a;
    let base: i128 = if v0 >= v3 {
        v0 as i128
    } else {
        v3 as i128
    };
    let m01: i128 = if v0 <= v1 {
        v0 as i128
    } else {
        v1 as i128
    };
    let m23: i128 = if v2 <= v3 {
        v2 as i128
    } else {
        v3 as i128
    };
    let lowc: i128 = if m01 <= m23 {
        m01
    } else {
        m23
    };
    let x01: i128 = if v0 >= v1 {
        v0 as i128
    } else {
        v1 as i128
    };
    let x23: i128 = if v2 >= v3 {
        v2 as i128
    } else {
        v3 as i128
    };
    let highc: i128 = if x01 >= x23 {
        x01
    } else {
        x23
    };
    let nv = vertex_cell(qa, qb);
    let mut acc: i128 = base;
    if nv >= 1 {
        let s = root_cell(qa, qb, qc, 0, nv);
        acc = take_max(acc, lowc, highc, cubic_eval(v0, v1, v2, v3, s));
        acc = take_max(acc, lowc, highc, cubic_eval(v0, v1, v2, v3, s + 1));
    }
    if nv <= (ROOT_GRID as usize) - 1 {
        let s2 = root_cell(qa, qb, qc, nv, ROOT_GRID as usize);
        acc = take_max(acc, lowc, highc, cubic_eval(v0, v1, v2, v3, s2));
        acc = take_max(acc, lowc, highc, cubic_eval(v0, v1, v2, v3, s2 + 1));
    }
    acc as i64
}

} // verus!
