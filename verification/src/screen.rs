//! The owned flat grid of cells sized to the terminal, and the portion
//! abstraction: a bounds-checked, coordinate-translating window onto a
//! rectangular sub-region of that grid.
//!
//! A portion is a pure descriptor (a dimension and an absolute offset); every
//! write goes through it together with a mutable borrow of the buffer, so two
//! sibling portions never alias even though the type itself never checks
//! disjointness.

use vstd::prelude::*;

use crate::cell::CellKind;
use crate::dimension::Dimension;
use crate::position::Position;

verus! {

/// The mathematical model of a screen buffer: a dimension and a row-major
/// sequence of cells, cell (x, y) at index `x + y * width`.
#[verifier::ext_equal]
pub ghost struct Grid {
    pub dim: Dimension,
    pub cells: Seq<CellKind>,
}

impl Grid {
    /// A grid is well formed when it holds exactly width * height cells.
    pub open spec fn wf(self) -> bool {
        self.cells.len() == self.dim.area()
    }

    /// Whether (x, y) is an absolute coordinate inside the grid.
    pub open spec fn in_bounds(self, x: int, y: int) -> bool {
        0 <= x < self.dim.width && 0 <= y < self.dim.height
    }

    /// The row-major index of absolute coordinate (x, y).
    pub open spec fn index_of(self, x: int, y: int) -> int {
        x + y * self.dim.width
    }

    /// The cell at absolute coordinate (x, y).
    pub open spec fn at(self, x: int, y: int) -> CellKind {
        self.cells[self.index_of(x, y)]
    }

    /// The grid with the cell at absolute coordinate (x, y) replaced by `k`.
    pub open spec fn write(self, x: int, y: int, k: CellKind) -> Grid {
        Grid { dim: self.dim, cells: self.cells.update(self.index_of(x, y), k) }
    }

    /// The all-empty grid of the given dimension.
    pub open spec fn blank(dim: Dimension) -> Grid {
        Grid { dim, cells: Seq::new(dim.area() as nat, |i: int| CellKind::Empty) }
    }
}

/// The row-major index of an in-bounds coordinate lies inside the grid.
pub proof fn lemma_index_in_range(g: Grid, x: int, y: int)
    requires
        g.wf(),
        g.in_bounds(x, y),
    ensures
        0 <= g.index_of(x, y) < g.cells.len(),
{
    assert(0 <= x + y * g.dim.width < g.dim.width * g.dim.height) by (nonlinear_arith)
        requires
            0 <= x < g.dim.width,
            0 <= y < g.dim.height,
    ;
}

/// Distinct in-bounds coordinates have distinct row-major indices.
pub proof fn lemma_index_injective(g: Grid, x1: int, y1: int, x2: int, y2: int)
    requires
        g.in_bounds(x1, y1),
        g.in_bounds(x2, y2),
        g.index_of(x1, y1) == g.index_of(x2, y2),
    ensures
        x1 == x2 && y1 == y2,
{
    assert(x1 == x2 && y1 == y2) by (nonlinear_arith)
        requires
            0 <= x1 < g.dim.width,
            0 <= y1 < g.dim.height,
            0 <= x2 < g.dim.width,
            0 <= y2 < g.dim.height,
            x1 + y1 * g.dim.width == x2 + y2 * g.dim.width,
    ;
}

/// An owned flat grid of cells, entirely owned by the renderer: built fresh
/// for one frame, then retained as the previous frame until replaced.
pub struct ScreenBuffer {
    dim: Dimension,
    cells: Vec<CellKind>,
}

impl View for ScreenBuffer {
    type V = Grid;

    closed spec fn view(&self) -> Grid {
        Grid { dim: self.dim, cells: self.cells@ }
    }
}

impl ScreenBuffer {
    /// A buffer of the given dimension with every cell empty.
    pub fn new(dim: Dimension) -> (b: ScreenBuffer)
        requires
            dim.area() <= usize::MAX,
        ensures
            b@ == Grid::blank(dim),
            b@.wf(),
    {
        let n: usize = (dim.width as usize) * (dim.height as usize);
        let mut cells: Vec<CellKind> = Vec::new();
        let mut i: usize = 0;
        while i < n
            invariant
                i <= n,
                n == dim.area(),
                cells@.len() == i,
                forall|j: int| 0 <= j < i ==> cells@[j] == CellKind::Empty,
            decreases n - i,
        {
            cells.push(CellKind::Empty);
            i = i + 1;
        }
        let b = ScreenBuffer { dim, cells };
        proof {
            assert(b@ =~= Grid::blank(dim));
        }
        b
    }

    /// The portion covering the whole buffer at offset (0, 0).
    pub fn as_portion(&self) -> (p: ScreenPortion)
        ensures
            p.dim == self@.dim,
            p.offset_x == 0,
            p.offset_y == 0,
            p.fits(self@.dim),
    {
        ScreenPortion { dim: self.dim, offset_x: 0, offset_y: 0 }
    }

    /// This buffer's dimension.
    pub fn dimension(&self) -> (d: Dimension)
        ensures
            d == self@.dim,
    {
        self.dim
    }

    /// The number of cells this buffer holds: its width times its height.
    pub fn len(&self) -> (n: usize)
        ensures
            n == self@.cells.len(),
    {
        self.cells.len()
    }

    /// The cell at a row-major index. Used by the frame differ, which walks
    /// both frames in the same row-major order.
    pub fn cell(&self, index: usize) -> (c: CellKind)
        requires
            index < self@.cells.len(),
        ensures
            c == self@.cells[index as int],
    {
        self.cells[index]
    }

    /// The cell at an absolute position, or nothing when the position lies
    /// outside the buffer. Used by the frame differ, not by components.
    pub fn get(&self, pos: Position) -> (r: Option<CellKind>)
        requires
            self@.wf(),
        ensures
            r == if self@.in_bounds(pos.x as int, pos.y as int) {
                Some(self@.at(pos.x as int, pos.y as int))
            } else {
                None::<CellKind>
            },
    {
        if pos.x < self.dim.width && pos.y < self.dim.height {
            let _len = self.cells.len();
            proof {
                lemma_index_in_range(self@, pos.x as int, pos.y as int);
            }
            let index: usize = (pos.x as usize) + (pos.y as usize) * (self.dim.width as usize);
            Some(self.cells[index])
        } else {
            None
        }
    }
}

/// A rectangular window into a screen buffer: a dimension and an absolute
/// offset. It never holds cell data; it only translates local coordinates
/// to absolute ones and rejects out-of-bounds requests.
#[derive(Debug, Clone, Copy, PartialEq, Eq, Structural)]
pub struct ScreenPortion {
    pub dim: Dimension,
    pub offset_x: u16,
    pub offset_y: u16,
}

impl ScreenPortion {
    /// The portion's own extent stays representable: offset plus dimension
    /// does not leave the coordinate space.
    pub open spec fn wf(self) -> bool {
        &&& self.offset_x + self.dim.width <= u16::MAX
        &&& self.offset_y + self.dim.height <= u16::MAX
    }

    /// The portion lies entirely inside a region of the given dimension.
    pub open spec fn fits(self, outer: Dimension) -> bool {
        &&& self.offset_x + self.dim.width <= outer.width
        &&& self.offset_y + self.dim.height <= outer.height
    }

    /// Whether the absolute coordinate (x, y) lies inside this portion.
    pub open spec fn contains_abs(self, x: int, y: int) -> bool {
        &&& self.offset_x <= x < self.offset_x + self.dim.width
        &&& self.offset_y <= y < self.offset_y + self.dim.height
    }

    /// The child portion a successful carve at local offset (ox, oy) with
    /// dimension `dim` yields: same coordinate space, offsets added.
    pub open spec fn spec_portion(self, ox: u16, oy: u16, dim: Dimension) -> ScreenPortion {
        ScreenPortion {
            dim,
            offset_x: (self.offset_x + ox) as u16,
            offset_y: (self.offset_y + oy) as u16,
        }
    }

    /// Whether a carve request is inside this portion's bounds.
    pub open spec fn carve_ok(self, ox: u16, oy: u16, dim: Dimension) -> bool {
        &&& ox + dim.width <= self.dim.width
        &&& oy + dim.height <= self.dim.height
    }

    /// This portion's dimension.
    pub fn dimension(&self) -> (d: Dimension)
        ensures
            d == self.dim,
    {
        self.dim
    }

    /// Writes `kind` at local coordinate (x, y), translating to the absolute
    /// cell at (offset_x + x, offset_y + y). Fails with OutOfBounds, leaving
    /// the buffer untouched, exactly when the local coordinate lies outside
    /// this portion's dimension.
    pub fn set(&self, buffer: &mut ScreenBuffer, x: u16, y: u16, kind: CellKind) -> (r: Result<
        (),
        ScreenPortionSetError,
    >)
        requires
            old(buffer)@.wf(),
            self.fits(old(buffer)@.dim),
        ensures
            final(buffer)@.wf(),
            final(buffer)@.dim == old(buffer)@.dim,
            x < self.dim.width && y < self.dim.height ==> {
                &&& r is Ok
                &&& final(buffer)@ == old(buffer)@.write(
                    self.offset_x + x,
                    self.offset_y + y,
                    kind,
                )
            },
            !(x < self.dim.width && y < self.dim.height) ==> {
                &&& r matches Err(ScreenPortionSetError::OutOfBounds)
                &&& final(buffer)@ == old(buffer)@
            },
    {
        let ok_x = x < self.dim.width;
        let ok_y = y < self.dim.height;

        if !(ok_x && ok_y) {
            return Err(ScreenPortionSetError::OutOfBounds);
        }

        let absolute_x = x + self.offset_x;
        let absolute_y = y + self.offset_y;

        let _len = buffer.cells.len();
        proof {
            lemma_index_in_range(buffer@, absolute_x as int, absolute_y as int);
        }
        let buffer_index: usize = (absolute_x as usize) + (absolute_y as usize) * (
        buffer.dim.width as usize);

        let cell = &mut buffer.cells[buffer_index];
        *cell = kind;

        proof {
            assert(buffer@ =~= old(buffer)@.write(self.offset_x + x, self.offset_y + y, kind));
        }

        Ok(())
    }

    /// Carves a child portion at local offset (ox, oy) with dimension `dim`.
    /// Fails with OutOfBounds exactly when the requested rectangle exceeds
    /// this portion's dimension; otherwise the child's absolute offset is
    /// this portion's absolute offset plus the requested offset.
    pub fn portion(&self, offset_x: u16, offset_y: u16, dim: Dimension) -> (r: Result<
        ScreenPortion,
        ScreenPortionPortionError,
    >)
        requires
            self.wf(),
        ensures
            self.carve_ok(offset_x, offset_y, dim) ==> {
                &&& r matches Ok(child)
                &&& child == self.spec_portion(offset_x, offset_y, dim)
                &&& child.wf()
            },
            !self.carve_ok(offset_x, offset_y, dim) ==> r matches Err(
                ScreenPortionPortionError::OutOfBounds,
            ),
    {
        let width_ok = (offset_x as u32) + (dim.width as u32) <= (self.dim.width as u32);
        let height_ok = (offset_y as u32) + (dim.height as u32) <= (self.dim.height as u32);
        if !(width_ok && height_ok) {
            return Err(ScreenPortionPortionError::OutOfBounds);
        }

        let absolute_offset_x = self.offset_x + offset_x;
        let absolute_offset_y = self.offset_y + offset_y;

        Ok(ScreenPortion { dim, offset_x: absolute_offset_x, offset_y: absolute_offset_y })
    }
}

/// The failure of a portion write: the local coordinate lay outside the
/// portion's dimension.
#[derive(Debug, Clone, Copy, PartialEq, Eq, Structural)]
pub enum ScreenPortionSetError {
    OutOfBounds,
}

/// The failure of a carve: the requested rectangle exceeded the portion's
/// dimension.
#[derive(Debug, Clone, Copy, PartialEq, Eq, Structural)]
pub enum ScreenPortionPortionError {
    OutOfBounds,
}

/// Law: inside a portion, writing a cell and reading the same coordinate
/// back yields the written cell, the grid stays well formed, and every
/// other in-bounds coordinate keeps its previous cell.
pub proof fn lemma_set_get_round_trip(p: ScreenPortion, g: Grid, x: int, y: int, k: CellKind)
    requires
        g.wf(),
        p.fits(g.dim),
        0 <= x < p.dim.width,
        0 <= y < p.dim.height,
    ensures
        ({
            let written = g.write(p.offset_x + x, p.offset_y + y, k);
            &&& written.wf()
            &&& written.dim == g.dim
            &&& written.at(p.offset_x + x, p.offset_y + y) == k
            &&& forall|x2: int, y2: int|
                g.in_bounds(x2, y2) && !(x2 == p.offset_x + x && y2 == p.offset_y + y)
                    ==> #[trigger] written.at(x2, y2) == g.at(x2, y2)
        }),
{
    let ax = p.offset_x + x;
    let ay = p.offset_y + y;
    let written = g.write(ax, ay, k);
    lemma_index_in_range(g, ax, ay);
    assert forall|x2: int, y2: int|
        g.in_bounds(x2, y2) && !(x2 == ax && y2 == ay) implies #[trigger] written.at(x2, y2) == g.at(
        x2,
        y2,
    ) by {
        lemma_index_in_range(g, x2, y2);
        if g.index_of(x2, y2) == g.index_of(ax, ay) {
            lemma_index_injective(g, x2, y2, ax, ay);
        }
    }
}

/// Law: a write through a child portion carved at local offset (ox, oy)
/// lands at the parent's absolute offset plus the carve offset plus the
/// local coordinate, and a valid carve of a fitting parent fits the same
/// region.
pub proof fn lemma_subview_write_absolute(
    parent: ScreenPortion,
    ox: u16,
    oy: u16,
    dim: Dimension,
    g: Grid,
    x: int,
    y: int,
    k: CellKind,
)
    requires
        g.wf(),
        parent.fits(g.dim),
        parent.carve_ok(ox, oy, dim),
        0 <= x < dim.width,
        0 <= y < dim.height,
    ensures
        ({
            let child = parent.spec_portion(ox, oy, dim);
            &&& child.fits(g.dim)
            &&& child.offset_x + x == parent.offset_x + ox + x
            &&& child.offset_y + y == parent.offset_y + oy + y
            &&& g.write(child.offset_x + x, child.offset_y + y, k).at(
                parent.offset_x + ox + x,
                parent.offset_y + oy + y,
            ) == k
        }),
{
    let child = parent.spec_portion(ox, oy, dim);
    lemma_set_get_round_trip(child, g, x, y, k);
}

} // verus!
