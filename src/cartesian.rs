//! A precomputed table from polar bins (angle, radius) to integer pixel
//! offsets, so that placing a spoke sample needs no trigonometry.
use vstd::prelude::*;
use vstd::arithmetic::div_mod::lemma_mod_add_multiples_vanish;

verus! {

/// A two-dimensional ndarray of pixel offsets, seen by the proofs only
/// through `grid_points`, `grid_rows` and `grid_cols`.
#[verifier::external_body]
pub struct PointGrid {
    grid: ndarray::Array2<PointInt>,
}

/// ndarray's error for a shape that does not fit the data given.
#[verifier::external_type_specification]
#[verifier::external_body]
pub struct ExShapeError(ndarray::ShapeError);

/// The elements of a two-dimensional array, row by row.
pub uninterp spec fn grid_points(g: PointGrid) -> Seq<PointInt>;

/// The number of rows of a two-dimensional array.
pub uninterp spec fn grid_rows(g: PointGrid) -> nat;

/// The number of columns of a two-dimensional array.
pub uninterp spec fn grid_cols(g: PointGrid) -> nat;

/// The product of the axis lengths that are not zero.
pub open spec fn nonzero_product(a: nat, b: nat) -> nat {
    (if a == 0 {
        1
    } else {
        a
    }) * (if b == 0 {
        1
    } else {
        b
    })
}

/// Relies on ndarray's `Array2::from_shape_vec` with a `(rows, cols)` shape:
/// the vector becomes the array in row-major order; the call fails when the
/// vector's length is not `rows * cols`, or when the product of the nonzero
/// axis lengths exceeds `isize::MAX`.
#[verifier::external_body]
fn grid_from_vec(rows: usize, cols: usize, v: Vec<PointInt>) -> (r: Result<
    PointGrid,
    ndarray::ShapeError,
>)
    ensures
        (r is Ok) == (v@.len() == rows * cols && nonzero_product(rows as nat, cols as nat)
            <= isize::MAX),
        r matches Ok(g) ==> grid_points(g) == v@ && grid_rows(g) == rows && grid_cols(g) == cols,
{
    ndarray::Array2::from_shape_vec((rows, cols), v).map(|grid| PointGrid { grid })
}

/// Relies on indexing an ndarray `Array2` by `[row, col]`: the element at
/// `row * cols + col` in row-major order; out of bounds it panics.
#[verifier::external_body]
fn grid_at(g: &PointGrid, row: usize, col: usize) -> (p: PointInt)
    requires
        row < grid_rows(*g),
        col < grid_cols(*g),
    ensures
        p == grid_points(*g)[row * grid_cols(*g) + col],
{
    g.grid[[row, col]]
}

/// An integer pixel offset.
#[derive(Clone, Copy, Debug, PartialEq, Eq, Structural)]
pub struct PointInt {
    pub x: i16,
    pub y: i16,
}

/// What a lookup table stands for: its shape and its entries, row by row
/// (one row of `spoke_len` entries per angular bin).
pub struct LookupModel {
    pub spokes: nat,
    pub spoke_len: nat,
    pub table: Seq<PointInt>,
}

/// The entry for an angle and a radius: the angle is taken modulo the
/// number of spokes, after adding it once; a radius past the spoke, or a
/// table without spokes, has none.
pub open spec fn point_at(m: LookupModel, angle: int, radius: int) -> Option<PointInt> {
    if m.spokes == 0 || radius < 0 || radius >= m.spoke_len {
        None
    } else {
        Some(m.table[((angle + m.spokes) % (m.spokes as int)) * m.spoke_len + radius])
    }
}

/// The table of pixel offsets for every (angle, radius) bin.
pub struct PolarToCartesianLookup {
    spokes_per_revolution: usize,
    spoke_len: usize,
    xyi: PointGrid,
}

impl View for PolarToCartesianLookup {
    type V = LookupModel;

    closed spec fn view(&self) -> LookupModel {
        LookupModel {
            spokes: self.spokes_per_revolution as nat,
            spoke_len: self.spoke_len as nat,
            table: grid_points(self.xyi),
        }
    }
}

impl PolarToCartesianLookup {
    /// The table holds one entry per bin.
    pub closed spec fn wf(&self) -> bool {
        &&& grid_rows(self.xyi) == self.spokes_per_revolution
        &&& grid_cols(self.xyi) == self.spoke_len
        &&& grid_points(self.xyi).len() == self.spokes_per_revolution * self.spoke_len
    }

    /// Builds a lookup from its entries, listed angle by angle; `None` unless
    /// there is exactly one entry per bin (and the table's shape fits `isize`).
    pub fn from_table(spokes_per_revolution: usize, spoke_len: usize, points: Vec<PointInt>) -> (r:
        Option<Self>)
        ensures
            (r is Some) == (points@.len() == spokes_per_revolution * spoke_len && nonzero_product(
                spokes_per_revolution as nat,
                spoke_len as nat,
            ) <= isize::MAX),
            r matches Some(l) ==> l.wf() && l@ == (LookupModel {
                spokes: spokes_per_revolution as nat,
                spoke_len: spoke_len as nat,
                table: points@,
            }),
    {
        match grid_from_vec(spokes_per_revolution, spoke_len, points) {
            Ok(xyi) => Some(PolarToCartesianLookup { spokes_per_revolution, spoke_len, xyi }),
            Err(_) => None,
        }
    }

    /// The number of angular bins.
    pub fn spokes_per_revolution(&self) -> (r: usize)
        ensures
            r == self@.spokes,
    {
        self.spokes_per_revolution
    }

    /// The number of radial bins.
    pub fn spoke_len(&self) -> (r: usize)
        ensures
            r == self@.spoke_len,
    {
        self.spoke_len
    }

    /// The pixel offset for an angle (taken modulo the number of spokes)
    /// and a radius; `None` where the radius is past the spoke.
    pub fn get_point_int(&self, angle: usize, radius: usize) -> (r: Option<PointInt>)
        requires
            self.wf(),
        ensures
            r == point_at(self@, angle as int, radius as int),
    {
        if self.spokes_per_revolution == 0 || radius >= self.spoke_len {
            return None;
        }
        let a = angle % self.spokes_per_revolution;
        proof {
            lemma_mod_add_multiples_vanish(angle as int, self.spokes_per_revolution as int);
        }
        Some(grid_at(&self.xyi, a, radius))
    }
}

/// The angle wraps around: asking for angle `spokes_per_revolution` gives
/// what angle 0 gives, at every radius.
pub proof fn angle_wraps_around(l: &PolarToCartesianLookup, radius: int)
    ensures
        point_at(l@, l@.spokes as int, radius) == point_at(l@, 0, radius),
{
    if l@.spokes > 0 {
        lemma_mod_add_multiples_vanish(l@.spokes as int, l@.spokes as int);
        lemma_mod_add_multiples_vanish(0, l@.spokes as int);
        vstd::arithmetic::div_mod::lemma_mod_self_0(l@.spokes as int);
    }
}

} // verus!
