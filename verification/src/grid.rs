//! Grid gizmo line planning.
//!
//! A grid of `divisions_x` by `divisions_y` cells is drawn as straight
//! lines: one vertical line per interior column boundary and one
//! horizontal line per interior row boundary, plus the four outer lines
//! when a border is requested. Each line is identified by the index of
//! the boundary it sits on; turning an index into floating-point
//! endpoints is left to the caller.

use vstd::prelude::*;

verus! {

/// One grid line, identified by the boundary index it lies on.
///
/// A vertical line with index `i` runs along the `i`-th column boundary,
/// counted from the left edge; a horizontal line with index `i` runs
/// along the `i`-th row boundary, counted from the bottom edge.
#[derive(Clone, Copy, Debug, PartialEq, Eq, Structural)]
pub enum GridLine {
    Vertical { index: u32 },
    Horizontal { index: u32 },
}

/// Index of the first boundary that gets a line on one axis.
/// With a border the edge boundary `0` is included; without it the
/// first interior boundary `1` is.
pub open spec fn axis_first(border: bool) -> int {
    if border {
        0
    } else {
        1
    }
}

/// One past the index of the last boundary that gets a line on one axis.
/// With a border the far edge boundary `divisions` is included.
pub open spec fn axis_end(divisions: u32, border: bool) -> int {
    if border {
        divisions as int + 1
    } else {
        divisions as int
    }
}

/// How many lines one axis contributes: the size of the index range
/// `axis_first .. axis_end`, which is empty without a border when the
/// axis has fewer than two cells.
pub open spec fn axis_line_count(divisions: u32, border: bool) -> int {
    if axis_first(border) <= axis_end(divisions, border) {
        axis_end(divisions, border) - axis_first(border)
    } else {
        0
    }
}

/// The full plan for a grid: all vertical lines in ascending index
/// order, then all horizontal lines in ascending index order.
pub open spec fn plan_seq(divisions_x: u32, divisions_y: u32, border: bool) -> Seq<GridLine> {
    Seq::new(
        axis_line_count(divisions_x, border) as nat,
        |i: int| GridLine::Vertical { index: (axis_first(border) + i) as u32 },
    ) + Seq::new(
        axis_line_count(divisions_y, border) as nat,
        |i: int| GridLine::Horizontal { index: (axis_first(border) + i) as u32 },
    )
}

/// The boundary indices that get a line on one axis, in ascending order.
pub fn axis_lines(divisions: u32, border: bool) -> (r: Vec<u32>)
    requires
        border ==> divisions < u32::MAX,
    ensures
        r@.len() == axis_line_count(divisions, border),
        forall|i: int| 0 <= i < r@.len() ==> r@[i] == (axis_first(border) + i) as u32,
{
    let first: u32 = if border {
        0
    } else {
        1
    };
    let count: u32 = if border {
        divisions + 1
    } else if divisions >= 1 {
        divisions - 1
    } else {
        0
    };
    let mut r: Vec<u32> = Vec::new();
    let mut j: u32 = 0;
    while j < count
        invariant
            j <= count,
            first == axis_first(border),
            count == axis_line_count(divisions, border),
            first + count <= u32::MAX,
            r@.len() == j as int,
            forall|i: int| 0 <= i < j as int ==> r@[i] == (axis_first(border) + i) as u32,
        decreases count - j,
    {
        r.push(first + j);
        j = j + 1;
    }
    r
}

/// The discrete part of a grid gizmo: how many cells per axis and
/// whether the outer lines are drawn. Position, rotation, cell size and
/// color only move the lines around and are left to the caller.
///
/// A freshly built grid draws its border; `with_border(false)` turns
/// the outer lines off.
#[derive(Clone, Copy, Debug, PartialEq, Eq, Structural)]
pub struct GridParams {
    pub divisions_x: u32,
    pub divisions_y: u32,
    pub border: bool,
}

impl GridParams {
    /// A grid of `divisions_x` by `divisions_y` cells, with its border.
    pub fn new(divisions_x: u32, divisions_y: u32) -> (r: GridParams)
        ensures
            r == (GridParams { divisions_x, divisions_y, border: true }),
    {
        GridParams { divisions_x, divisions_y, border: true }
    }

    /// Whether to draw the outer lines of the grid.
    pub fn with_border(&mut self, border: bool)
        ensures
            *final(self) == (GridParams { border, ..*old(self) }),
    {
        self.border = border;
    }

    /// The lines this grid asks to be drawn: none while the gizmos are
    /// disabled, the full plan otherwise.
    pub fn lines(&self, enabled: bool) -> (r: Vec<GridLine>)
        requires
            self.border ==> self.divisions_x < u32::MAX && self.divisions_y < u32::MAX,
        ensures
            !enabled ==> r@ == Seq::<GridLine>::empty(),
            enabled ==> r@ == plan_seq(self.divisions_x, self.divisions_y, self.border),
    {
        if !enabled {
            let r: Vec<GridLine> = Vec::new();
            proof {
                assert(r@ =~= Seq::<GridLine>::empty());
            }
            return r;
        }
        grid_line_plan(self.divisions_x, self.divisions_y, self.border)
    }
}

/// All lines of a grid: every vertical line in ascending index order,
/// then every horizontal line in ascending index order.
pub fn grid_line_plan(divisions_x: u32, divisions_y: u32, border: bool) -> (r: Vec<GridLine>)
    requires
        border ==> divisions_x < u32::MAX && divisions_y < u32::MAX,
    ensures
        r@ == plan_seq(divisions_x, divisions_y, border),
{
    let verticals = axis_lines(divisions_x, border);
    let horizontals = axis_lines(divisions_y, border);
    let mut r: Vec<GridLine> = Vec::new();
    let mut j: usize = 0;
    while j < verticals.len()
        invariant
            j <= verticals@.len(),
            r@.len() == j as int,
            forall|i: int| 0 <= i < j as int ==> r@[i] == (GridLine::Vertical {
                index: verticals@[i],
            }),
        decreases verticals@.len() - j,
    {
        let index = verticals[j];
        r.push(GridLine::Vertical { index });
        j = j + 1;
    }
    let mut k: usize = 0;
    while k < horizontals.len()
        invariant
            k <= horizontals@.len(),
            r@.len() == verticals@.len() + k as int,
            forall|i: int| 0 <= i < verticals@.len() ==> r@[i] == (GridLine::Vertical {
                index: verticals@[i],
            }),
            forall|i: int| 0 <= i < k as int ==> r@[verticals@.len() + i] == (GridLine::Horizontal {
                index: horizontals@[i],
            }),
        decreases horizontals@.len() - k,
    {
        let index = horizontals[k];
        r.push(GridLine::Horizontal { index });
        k = k + 1;
    }
    proof {
        let p = plan_seq(divisions_x, divisions_y, border);
        assert forall|i: int| 0 <= i < p.len() implies r@[i] == p[i] by {
            if i >= verticals@.len() {
                assert(r@[verticals@.len() + (i - verticals@.len())] == (GridLine::Horizontal {
                    index: horizontals@[i - verticals@.len()],
                }));
            }
        }
        assert(r@ =~= p);
    }
    r
}

} // verus!
