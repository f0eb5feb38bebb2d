use vstd::prelude::*;

verus! {

/// A grid coordinate: an ordered (row, column) pair of small unsigned
/// integers.  The one type serves three scales: a quadrant address and a
/// quadrant-local sector address (each axis in 0..8), and a galactic sector
/// address (each axis in 0..64, `quadrant * 8 + local sector`).
#[derive(PartialEq, Eq, Structural, Clone, Copy, Debug, Hash)]
pub struct Pos(pub u8, pub u8);

/// A course bearing: the exact rational `num / den`, always in [1, 9).
/// It encodes one of the eight principal directions plus a fractional
/// offset on the minor axis, per the legacy convention of `Pos::direction`.
#[derive(PartialEq, Eq, Structural, Clone, Copy, Debug)]
pub struct Course {
    pub num: i16,
    pub den: i16,
}

pub open spec fn abs_int(x: int) -> int {
    if x < 0 {
        -x
    } else {
        x
    }
}

pub open spec fn sq(x: int) -> int {
    x * x
}

fn sq_u32(x: u32) -> (r: u32)
    requires
        x <= 100,
    ensures
        r == sq(x as int),
{
    proof {
        assert(x * x <= 10000) by (nonlinear_arith)
            requires
                x <= 100,
        ;
    }
    x * x
}

/// Sum of the absolute per-axis differences.
pub open spec fn manhattan_spec(a: Pos, b: Pos) -> int {
    abs_int(a.0 - b.0) + abs_int(a.1 - b.1)
}

/// Squared Euclidean distance.
pub open spec fn dist2_spec(a: Pos, b: Pos) -> int {
    sq(b.0 - a.0) + sq(b.1 - a.1)
}

/// Denominator of the course fraction: the magnitude of the dominant axis
/// difference (the strictly larger one, ties going to the column axis).
pub open spec fn course_den_spec(a: Pos, b: Pos) -> int {
    let dx = b.0 - a.0;
    let dy = b.1 - a.1;
    if abs_int(dx) > abs_int(dy) {
        abs_int(dx)
    } else {
        abs_int(dy)
    }
}

/// Numerator of the signed fractional offset on the minor axis, relative
/// to the dominant axis: `dy/dx` when the row difference dominates, else
/// `-dx/dy`, both brought to the positive denominator `course_den_spec`.
pub open spec fn course_frac_spec(a: Pos, b: Pos) -> int {
    let dx = b.0 - a.0;
    let dy = b.1 - a.1;
    if abs_int(dx) > abs_int(dy) {
        if dx > 0 {
            dy
        } else {
            -dy
        }
    } else {
        if dy > 0 {
            -dx
        } else {
            dx
        }
    }
}

/// Base cardinal value: 7 or 3 when the row difference dominates (towards
/// larger or smaller rows), 1 or 5 otherwise (towards larger or smaller
/// columns).
pub open spec fn course_cardinal_spec(a: Pos, b: Pos) -> int {
    let dx = b.0 - a.0;
    let dy = b.1 - a.1;
    if abs_int(dx) > abs_int(dy) {
        if dx > 0 {
            7
        } else {
            3
        }
    } else {
        if dy > 0 {
            1
        } else {
            5
        }
    }
}

/// Course numerator before the wrap rule, over `course_den_spec`.
pub open spec fn course_raw_num_spec(a: Pos, b: Pos) -> int {
    course_cardinal_spec(a, b) * course_den_spec(a, b) + course_frac_spec(a, b)
}

/// Course numerator after the wrap rule: a bearing below 1 gains a full
/// turn of 8.
pub open spec fn course_num_spec(a: Pos, b: Pos) -> int {
    if course_raw_num_spec(a, b) < course_den_spec(a, b) {
        course_raw_num_spec(a, b) + 8 * course_den_spec(a, b)
    } else {
        course_raw_num_spec(a, b)
    }
}

impl Pos {
    /// Both axes fit one 8x8 grid.
    pub open spec fn valid_sector(self) -> bool {
        self.0 < 8 && self.1 < 8
    }

    /// Both axes fit the combined 64x64 galactic grid.
    pub open spec fn valid_galactic(self) -> bool {
        self.0 < 64 && self.1 < 64
    }

    /// Linear index of an 8x8 grid address, row-major.
    pub open spec fn index_spec(self) -> int {
        self.0 * 8 + self.1
    }

    /// A local sector address scaled into the 64x64 galactic grid.
    pub open spec fn to_galactic_spec(self, containing_quadrant: Pos) -> Pos {
        Pos(
            (containing_quadrant.0 * 8 + self.0) as u8,
            (containing_quadrant.1 * 8 + self.1) as u8,
        )
    }

    /// A galactic sector address split into (quadrant, local sector).
    pub open spec fn to_local_spec(self) -> (Pos, Pos) {
        (Pos(self.0 / 8, self.1 / 8), Pos(self.0 % 8, self.1 % 8))
    }

    /// Linear index into a flat 64-element collection of quadrants or
    /// sectors.
    pub fn as_index(&self) -> (r: usize)
        requires
            self.valid_sector(),
        ensures
            r == self.index_spec(),
            r < 64,
    {
        (self.0 as usize) * 8 + (self.1 as usize)
    }

    /// Manhattan distance between two galactic (or local) addresses.
    pub fn abs_diff(&self, other: Pos) -> (r: u8)
        requires
            self.valid_galactic(),
            other.valid_galactic(),
        ensures
            r == manhattan_spec(*self, other),
    {
        let d0: u8 = if self.0 >= other.0 {
            self.0 - other.0
        } else {
            other.0 - self.0
        };
        let d1: u8 = if self.1 >= other.1 {
            self.1 - other.1
        } else {
            other.1 - self.1
        };
        d0 + d1
    }

    /// Euclidean distance rounded down to an integer.
    pub fn dist(&self, other: Pos) -> (r: u8)
        requires
            self.valid_galactic(),
            other.valid_galactic(),
        ensures
            sq(r as int) <= dist2_spec(*self, other),
            dist2_spec(*self, other) < sq(r as int + 1),
    {
        let dx: i32 = other.0 as i32 - self.0 as i32;
        let dy: i32 = other.1 as i32 - self.1 as i32;
        proof {
            assert(dx * dx <= 3969 && dx * dx >= 0) by (nonlinear_arith)
                requires
                    -63 <= dx <= 63,
            ;
            assert(dy * dy <= 3969 && dy * dy >= 0) by (nonlinear_arith)
                requires
                    -63 <= dy <= 63,
            ;
        }
        let dd: u32 = (dx * dx + dy * dy) as u32;
        let mut r: u32 = 0;
        while sq_u32(r + 1) <= dd
            invariant
                dd < 8100,
                r <= 89,
                sq(r as int) <= dd,
            decreases 90 - r,
        {
            proof {
                assert((r + 1) * (r + 1) >= 8100 || r + 1 <= 89) by (nonlinear_arith)
                    requires
                        r <= 89,
                ;
            }
            r = r + 1;
        }
        r as u8
    }

    /// Course from `self` towards `other`, as an exact rational bearing in
    /// [1, 9): the dominant axis picks a base cardinal (7, 3, 1 or 5), the
    /// minor axis adds a signed fractional offset, and a result below 1
    /// wraps by a full turn of 8.
    pub fn direction(&self, other: Pos) -> (r: Course)
        requires
            self.valid_galactic(),
            other.valid_galactic(),
            !(self.0 == other.0 && self.1 == other.1),
        ensures
            r.den == course_den_spec(*self, other),
            r.num == course_num_spec(*self, other),
            1 <= r.den,
            r.den <= r.num,
            r.num < 9 * r.den,
    {
        let dx: i16 = other.0 as i16 - self.0 as i16;
        let dy: i16 = other.1 as i16 - self.1 as i16;
        let adx: i16 = if dx < 0 {
            -dx
        } else {
            dx
        };
        let ady: i16 = if dy < 0 {
            -dy
        } else {
            dy
        };
        let den: i16;
        let frac: i16;
        let cardinal: i16;
        if adx > ady {
            den = adx;
            if dx > 0 {
                frac = dy;
                cardinal = 7;
            } else {
                frac = -dy;
                cardinal = 3;
            }
        } else {
            den = ady;
            if dy > 0 {
                frac = -dx;
                cardinal = 1;
            } else {
                frac = dx;
                cardinal = 5;
            }
        }
        let raw: i16 = cardinal * den + frac;
        let num: i16 = if raw < den {
            raw + 8 * den
        } else {
            raw
        };
        Course { num, den }
    }

    /// Scales a local sector address into the 64x64 galactic grid.
    pub fn as_galactic_sector(&self, containing_quadrant: Pos) -> (r: Pos)
        requires
            self.valid_sector(),
            containing_quadrant.valid_sector(),
        ensures
            r == self.to_galactic_spec(containing_quadrant),
            r.valid_galactic(),
    {
        Pos(containing_quadrant.0 * 8 + self.0, containing_quadrant.1 * 8 + self.1)
    }

    /// Splits a galactic sector address into its containing quadrant and
    /// the sector local to it.
    pub fn to_local_quadrant_sector(&self) -> (r: (Pos, Pos))
        requires
            self.valid_galactic(),
        ensures
            r == self.to_local_spec(),
            r.0.valid_sector(),
            r.1.valid_sector(),
    {
        (Pos(self.0 / 8, self.1 / 8), Pos(self.0 % 8, self.1 % 8))
    }
}

/// Converting a local sector address to the galactic scale and back yields
/// the original quadrant and local sector: the two addressings are exact
/// inverses.
pub proof fn lemma_galactic_round_trip(sector: Pos, quadrant: Pos)
    requires
        sector.valid_sector(),
        quadrant.valid_sector(),
    ensures
        sector.to_galactic_spec(quadrant).to_local_spec() == (quadrant, sector),
{
    let g = sector.to_galactic_spec(quadrant);
    assert(g.0 == quadrant.0 * 8 + sector.0 && g.1 == quadrant.1 * 8 + sector.1);
    assert(g.0 / 8 == quadrant.0 && g.0 % 8 == sector.0) by (nonlinear_arith)
        requires
            g.0 == quadrant.0 * 8 + sector.0,
            sector.0 < 8,
            quadrant.0 < 8,
    ;
    assert(g.1 / 8 == quadrant.1 && g.1 % 8 == sector.1) by (nonlinear_arith)
        requires
            g.1 == quadrant.1 * 8 + sector.1,
            sector.1 < 8,
            quadrant.1 < 8,
    ;
}

/// The unit step of each whole-numbered course, as (row delta, column
/// delta): course 1 heads along growing columns and the courses advance
/// counter-clockwise; course 9 coincides with course 1.
pub open spec fn course_step_spec(course: int) -> (i8, i8) {
    if course == 1 {
        (0i8, 1i8)
    } else if course == 2 {
        (-1i8, 1i8)
    } else if course == 3 {
        (-1i8, 0i8)
    } else if course == 4 {
        (-1i8, -1i8)
    } else if course == 5 {
        (0i8, -1i8)
    } else if course == 6 {
        (1i8, -1i8)
    } else if course == 7 {
        (1i8, 0i8)
    } else if course == 8 {
        (1i8, 1i8)
    } else {
        (0i8, 1i8)
    }
}

/// The unit step of a whole-numbered course.
pub fn course_step(course: u8) -> (r: (i8, i8))
    requires
        1 <= course <= 9,
    ensures
        r == course_step_spec(course as int),
{
    match course {
        1 => (0, 1),
        2 => (-1, 1),
        3 => (-1, 0),
        4 => (-1, -1),
        5 => (0, -1),
        6 => (1, -1),
        7 => (1, 0),
        8 => (1, 1),
        _ => (0, 1),
    }
}

} // verus!
