//! The frame renderer and differ: builds a fresh buffer each frame by running
//! the component tree, diffs it against the retained previous frame, and
//! coalesces the changed cells into a minimal stream of cursor moves and
//! character emissions. The fresh buffer then becomes the retained frame.

use vstd::arithmetic::div_mod::{
    lemma_fundamental_div_mod, lemma_fundamental_div_mod_converse, lemma_mod_bound,
};
use vstd::prelude::*;

use crate::cell::CellKind;
use crate::component::Component;
use crate::dimension::Dimension;
use crate::position::Position;
use crate::screen::{Grid, ScreenBuffer, ScreenPortion};

verus! {

/// One terminal update: either move the cursor to a one-based position, or
/// emit one cell's character at the cursor, advancing it one column.
#[derive(Debug, Clone, Copy, PartialEq, Eq, Structural)]
pub enum DrawCommand {
    Goto(Position),
    Put(CellKind),
}

/// The one-based terminal position of the cell at row-major index `i`.
pub open spec fn command_position(dim: Dimension, i: int) -> Position {
    Position { x: (i % (dim.width as int) + 1) as u16, y: (i / (dim.width as int) + 1) as u16 }
}

/// The change list of a full redraw: every cell of the frame, in row-major
/// order, paired with its one-based position.
pub open spec fn full_redraw(g: Grid) -> Seq<(Position, CellKind)> {
    Seq::new(g.dim.area() as nat, |i: int| (command_position(g.dim, i), g.cells[i]))
}

/// The change list of the first `n` cells of a same-dimension diff: the cells
/// whose value differs between the two frames, in row-major order.
pub open spec fn diff_upto(prev: Grid, next: Grid, n: int) -> Seq<(Position, CellKind)>
    decreases n,
{
    if n <= 0 {
        Seq::empty()
    } else {
        diff_upto(prev, next, n - 1) + if next.cells[n - 1] != prev.cells[n - 1] {
            seq![(command_position(next.dim, n - 1), next.cells[n - 1])]
        } else {
            Seq::empty()
        }
    }
}

/// The change list between the retained frame and the new frame: a cell-wise
/// diff when a previous frame of the same dimension exists, and a full
/// redraw on the first frame or after a resize.
pub open spec fn frame_changes(prev: Option<Grid>, next: Grid) -> Seq<(Position, CellKind)> {
    match prev {
        Some(p) => if p.dim == next.dim {
            diff_upto(p, next, next.dim.area())
        } else {
            full_redraw(next)
        },
        None => full_redraw(next),
    }
}

/// Whether a change at `pos` continues the run of the previous change at
/// `last`: the same row, exactly one column to the right.
pub open spec fn continues_run(last: Position, pos: Position) -> bool {
    last.y == pos.y && last.x + 1 == pos.x
}

/// The coalesced command stream of a change list: every change emits its
/// cell, preceded by a cursor move exactly when it does not continue the
/// previous change's run — so a row of horizontally adjacent changes costs
/// one cursor move followed by a contiguous character run.
pub open spec fn coalesce(cmds: Seq<(Position, CellKind)>) -> Seq<DrawCommand>
    decreases cmds.len(),
{
    if cmds.len() == 0 {
        Seq::empty()
    } else {
        let i = cmds.len() - 1;
        coalesce(cmds.drop_last()) + if i > 0 && continues_run(cmds[i - 1].0, cmds[i].0) {
            seq![DrawCommand::Put(cmds[i].1)]
        } else {
            seq![DrawCommand::Goto(cmds[i].0), DrawCommand::Put(cmds[i].1)]
        }
    }
}

/// The portion covering a whole frame of the given dimension.
pub open spec fn full_portion(dim: Dimension) -> ScreenPortion {
    ScreenPortion { dim, offset_x: 0, offset_y: 0 }
}

/// The grid a component tree leaves when drawn over a blank frame of the
/// given dimension: the new frame is a function of the tree and the
/// dimension alone.
pub open spec fn frame_of<C: Component>(root: &C, dim: Dimension) -> Grid {
    root.spec_draw(full_portion(dim), Grid::blank(dim))
}

/// Computes the change list between the retained frame and the new frame.
pub fn compute_changes(prev: &Option<ScreenBuffer>, next: &ScreenBuffer) -> (r: Vec<
    (Position, CellKind),
>)
    requires
        (prev matches Some(b) ==> b@.wf()),
        next@.wf(),
    ensures
        r@ == frame_changes(
            match prev {
                Some(b) => Some(b@),
                None => None::<Grid>,
            },
            next@,
        ),
{
    let dim = next.dimension();
    let n: usize = next.len();
    let mut changes: Vec<(Position, CellKind)> = Vec::new();

    match prev {
        Some(last) if last.dimension().width == dim.width && last.dimension().height == dim.height
            => {
            let mut i: usize = 0;
            while i < n
                invariant
                    i <= n,
                    n == dim.area(),
                    dim == next@.dim,
                    next@.wf(),
                    last@.wf(),
                    last@.dim == dim,
                    changes@ == diff_upto(last@, next@, i as int),
                decreases n - i,
            {
                let new_kind = next.cell(i);
                let old_kind = last.cell(i);
                if new_kind != old_kind {
                    proof {
                        assert(dim.width > 0) by (nonlinear_arith)
                            requires
                                0 <= i < dim.width * dim.height,
                        ;
                    }
                    let x: usize = i % (dim.width as usize);
                    let y: usize = i / (dim.width as usize);
                    proof {
                        assert(y < dim.height) by (nonlinear_arith)
                            requires
                                i < dim.width * dim.height,
                                y == i as int / (dim.width as int),
                                dim.width > 0,
                        ;
                    }
                    let pos = Position { x: (x + 1) as u16, y: (y + 1) as u16 };
                    changes.push((pos, new_kind));
                    proof {
                        assert(pos == command_position(dim, i as int));
                        assert(changes@ =~= diff_upto(last@, next@, i + 1));
                    }
                } else {
                    proof {
                        assert(changes@ =~= diff_upto(last@, next@, i + 1));
                    }
                }
                i = i + 1;
            }
            proof {
                assert(changes@ == frame_changes(Some(last@), next@));
            }
        },
        _ => {
            let mut i: usize = 0;
            while i < n
                invariant
                    i <= n,
                    n == dim.area(),
                    dim == next@.dim,
                    next@.wf(),
                    changes@.len() == i,
                    forall|j: int|
                        0 <= j < i ==> changes@[j] == (
                        command_position(dim, j),
                        next@.cells[j],
                        ),
                decreases n - i,
            {
                let kind = next.cell(i);
                proof {
                    assert(dim.width > 0) by (nonlinear_arith)
                        requires
                            0 <= i < dim.width * dim.height,
                    ;
                }
                let x: usize = i % (dim.width as usize);
                let y: usize = i / (dim.width as usize);
                proof {
                    assert(y < dim.height) by (nonlinear_arith)
                        requires
                            i < dim.width * dim.height,
                            y == i as int / (dim.width as int),
                            dim.width > 0,
                    ;
                }
                let pos = Position { x: (x + 1) as u16, y: (y + 1) as u16 };
                changes.push((pos, kind));
                proof {
                    assert(changes@[i as int] == (command_position(dim, i as int), next@.cells[i as int]));
                }
                i = i + 1;
            }
            proof {
                assert(changes@ =~= full_redraw(next@));
            }
        },
    }
    changes
}

/// Coalesces a change list into the command stream: runs of horizontally
/// adjacent changes get a single cursor move.
pub fn coalesce_commands(changes: &Vec<(Position, CellKind)>) -> (out: Vec<DrawCommand>)
    ensures
        out@ == coalesce(changes@),
{
    let mut out: Vec<DrawCommand> = Vec::new();
    let mut i: usize = 0;
    while i < changes.len()
        invariant
            i <= changes@.len(),
            out@ == coalesce(changes@.take(i as int)),
        decreases changes@.len() - i,
    {
        let (pos, kind) = changes[i];
        let continues = if i > 0 {
            let last = changes[i - 1].0;
            last.y == pos.y && (last.x as u32) + 1 == (pos.x as u32)
        } else {
            false
        };
        if continues {
            out.push(DrawCommand::Put(kind));
        } else {
            out.push(DrawCommand::Goto(pos));
            out.push(DrawCommand::Put(kind));
        }
        proof {
            let taken = changes@.take(i + 1);
            assert(taken.drop_last() =~= changes@.take(i as int));
            assert(out@ =~= coalesce(taken));
        }
        i = i + 1;
    }
    proof {
        assert(changes@.take(changes@.len() as int) =~= changes@);
    }
    out
}

/// The frame renderer: retains the previous frame's buffer, and turns each
/// new frame — the component tree drawn over a blank buffer of the current
/// terminal dimension — into the coalesced command stream of the changes
/// against the retained frame.
pub struct Renderer {
    last_buffer: Option<ScreenBuffer>,
}

impl Renderer {
    /// The retained previous frame, if any.
    pub closed spec fn last_frame(self) -> Option<Grid> {
        match self.last_buffer {
            Some(b) => Some(b@),
            None => None,
        }
    }

    /// Any retained frame is well formed.
    pub open spec fn wf(self) -> bool {
        match self.last_frame() {
            Some(g) => g.wf(),
            None => true,
        }
    }

    /// A renderer with no previous frame: the first render is a full redraw.
    pub fn new() -> (r: Renderer)
        ensures
            r.last_frame() is None,
            r.wf(),
    {
        Renderer { last_buffer: None }
    }

    /// Renders one frame: draws the tree over a blank buffer of the given
    /// dimension, emits the coalesced changes against the retained frame,
    /// and retains the new frame for the next call.
    pub fn render<C: Component>(&mut self, dim: Dimension, root: &C) -> (cmds: Vec<DrawCommand>)
        requires
            old(self).wf(),
            dim.area() <= usize::MAX,
        ensures
            final(self).last_frame() == Some(frame_of(root, dim)),
            final(self).wf(),
            frame_of(root, dim).dim == dim,
            cmds@ == coalesce(frame_changes(old(self).last_frame(), frame_of(root, dim))),
    {
        let mut buffer = ScreenBuffer::new(dim);
        let portion = buffer.as_portion();
        root.draw(&portion, &mut buffer);
        let changes = compute_changes(&self.last_buffer, &buffer);
        let cmds = coalesce_commands(&changes);
        self.last_buffer = Some(buffer);
        cmds
    }
}

/// Law: a frame identical to the retained frame yields an empty change list
/// and hence an empty command stream — rendering an unchanged tree at an
/// unchanged dimension emits nothing.
pub proof fn lemma_identical_frame_no_commands(g: Grid)
    ensures
        frame_changes(Some(g), g) == Seq::<(Position, CellKind)>::empty(),
        coalesce(frame_changes(Some(g), g)) == Seq::<DrawCommand>::empty(),
{
    lemma_diff_upto_identical(g, g.dim.area());
}

proof fn lemma_diff_upto_identical(g: Grid, n: int)
    ensures
        diff_upto(g, g, n) == Seq::<(Position, CellKind)>::empty(),
    decreases n,
{
    if n <= 0 {
    } else {
        lemma_diff_upto_identical(g, n - 1);
        assert(diff_upto(g, g, n) =~= Seq::<(Position, CellKind)>::empty());
    }
}

/// Law: rendering the same component tree twice in succession at the same
/// dimension produces zero commands on the second render: the second frame
/// equals the retained first frame, so nothing is emitted.
pub proof fn lemma_second_render_empty<C: Component>(root: &C, dim: Dimension)
    ensures
        coalesce(frame_changes(Some(frame_of(root, dim)), frame_of(root, dim)))
            == Seq::<DrawCommand>::empty(),
{
    lemma_identical_frame_no_commands(frame_of(root, dim));
}

/// Law: on the first frame, or when the terminal dimension changed between
/// two renders, every cell of the new frame is emitted, exactly once, in
/// row-major order: change `i` carries the one-based position of row-major
/// index `i` and the new frame's cell at that index.
pub proof fn lemma_resize_full_redraw(prev: Grid, next: Grid)
    requires
        prev.dim != next.dim,
    ensures
        frame_changes(Some(prev), next) == full_redraw(next),
        frame_changes(None::<Grid>, next) == full_redraw(next),
        full_redraw(next).len() == next.dim.area(),
        forall|i: int|
            0 <= i < next.dim.area() ==> #[trigger] full_redraw(next)[i] == (
            command_position(next.dim, i),
            next.cells[i],
            ),
{
}

/// The number of cursor moves in a command stream.
pub open spec fn goto_count(cmds: Seq<DrawCommand>) -> int
    decreases cmds.len(),
{
    if cmds.len() == 0 {
        0
    } else {
        goto_count(cmds.drop_last()) + if cmds.last() is Goto {
            1int
        } else {
            0int
        }
    }
}

/// The number of runs in a change list: changes that do not continue their
/// predecessor's run start a new one.
pub open spec fn run_count(changes: Seq<(Position, CellKind)>) -> int
    decreases changes.len(),
{
    if changes.len() == 0 {
        0
    } else {
        let i = changes.len() - 1;
        run_count(changes.drop_last()) + if i > 0 && continues_run(changes[i - 1].0, changes[i].0) {
            0int
        } else {
            1int
        }
    }
}

/// Law: the coalesced stream holds exactly one cursor move per run of
/// adjacent changes — never two for one run.
pub proof fn lemma_one_goto_per_run(changes: Seq<(Position, CellKind)>)
    ensures
        goto_count(coalesce(changes)) == run_count(changes),
    decreases changes.len(),
{
    if changes.len() == 0 {
    } else {
        let i = changes.len() - 1;
        lemma_one_goto_per_run(changes.drop_last());
        let head = coalesce(changes.drop_last());
        if i > 0 && continues_run(changes[i - 1].0, changes[i].0) {
            let whole = head + seq![DrawCommand::Put(changes[i].1)];
            assert(coalesce(changes) == whole);
            assert(whole.drop_last() =~= head);
            assert(goto_count(whole) == goto_count(head));
        } else {
            let whole = head + seq![DrawCommand::Goto(changes[i].0), DrawCommand::Put(changes[i].1)];
            assert(coalesce(changes) == whole);
            let up_to_goto = head + seq![DrawCommand::Goto(changes[i].0)];
            assert(whole.drop_last() =~= up_to_goto);
            assert(up_to_goto.drop_last() =~= head);
            assert(goto_count(whole) == goto_count(up_to_goto));
            assert(goto_count(up_to_goto) == goto_count(head) + 1);
        }
    }
}

proof fn lemma_full_redraw_runs_upto(g: Grid, n: int)
    requires
        g.dim.width >= 1,
        0 <= n <= g.dim.area(),
    ensures
        run_count(full_redraw(g).take(n)) == (n + g.dim.width - 1) / (g.dim.width as int),
    decreases n,
{
    let w = g.dim.width as int;
    let s = full_redraw(g);
    if n == 0 {
        assert(s.take(0) =~= Seq::<(Position, CellKind)>::empty());
        lemma_fundamental_div_mod_converse(w - 1, w, 0, w - 1);
    } else {
        lemma_full_redraw_runs_upto(g, n - 1);
        let i = n - 1;
        lemma_fundamental_div_mod(i, w);
        lemma_mod_bound(i, w);
        let q = i / w;
        let r = i % w;
        assert(0 <= q < g.dim.height) by (nonlinear_arith)
            requires
                0 <= i < g.dim.width * g.dim.height,
                q == i / (g.dim.width as int),
                g.dim.width >= 1,
        ;
        assert(s.take(n).drop_last() =~= s.take(i));
        assert(s[i].0 == command_position(g.dim, i));
        assert(s[i].0 == (Position { x: (r + 1) as u16, y: (q + 1) as u16 }));
        if r == 0 {
            // this cell starts a row, so it starts a new run
            if i > 0 {
                assert(q >= 1) by (nonlinear_arith)
                    requires
                        i >= 1,
                        i == g.dim.width * q,
                        g.dim.width >= 1,
                        q >= 0,
                ;
                assert(i - 1 == (q - 1) * w + (w - 1)) by (nonlinear_arith)
                    requires
                        i == g.dim.width * q,
                        w == g.dim.width,
                ;
                lemma_fundamental_div_mod_converse(i - 1, w, q - 1, w - 1);
                assert(s[i - 1].0 == (Position { x: w as u16, y: q as u16 }));
                assert(!continues_run(s[i - 1].0, s[i].0));
            }
            assert(i + w - 1 == q * w + (w - 1)) by (nonlinear_arith)
                requires
                    i == g.dim.width * q,
                    w == g.dim.width,
            ;
            lemma_fundamental_div_mod_converse(i + w - 1, w, q, w - 1);
            assert(i + w == (q + 1) * w + 0) by (nonlinear_arith)
                requires
                    i == g.dim.width * q,
                    w == g.dim.width,
            ;
            lemma_fundamental_div_mod_converse(i + w, w, q + 1, 0);
            assert(run_count(s.take(n)) == q + 1);
        } else {
            // this cell continues its row's run
            assert(i >= 1) by (nonlinear_arith)
                requires
                    i == g.dim.width * q + r,
                    g.dim.width >= 1,
                    q >= 0,
                    r >= 1,
            ;
            assert(i - 1 == q * w + (r - 1)) by (nonlinear_arith)
                requires
                    i == g.dim.width * q + r,
                    w == g.dim.width,
            ;
            lemma_fundamental_div_mod_converse(i - 1, w, q, r - 1);
            assert(s[i - 1].0 == (Position { x: r as u16, y: (q + 1) as u16 }));
            assert(continues_run(s[i - 1].0, s[i].0));
            assert(i + w - 1 == (q + 1) * w + (r - 1)) by (nonlinear_arith)
                requires
                    i == g.dim.width * q + r,
                    w == g.dim.width,
            ;
            lemma_fundamental_div_mod_converse(i + w - 1, w, q + 1, r - 1);
            assert(i + w == (q + 1) * w + r) by (nonlinear_arith)
                requires
                    i == g.dim.width * q + r,
                    w == g.dim.width,
            ;
            lemma_fundamental_div_mod_converse(i + w, w, q + 1, r);
            assert(run_count(s.take(n)) == q + 1);
        }
    }
}

/// Law: a full redraw of a frame at least one cell wide — the first frame,
/// or any frame after a resize — coalesces to exactly one cursor move per
/// row: each row's first cell starts a run and the rest of the row
/// continues it.
pub proof fn lemma_full_redraw_one_goto_per_row(g: Grid)
    requires
        g.dim.width >= 1,
    ensures
        goto_count(coalesce(full_redraw(g))) == g.dim.height,
{
    let w = g.dim.width as int;
    let h = g.dim.height as int;
    let area = g.dim.area();
    lemma_one_goto_per_run(full_redraw(g));
    lemma_full_redraw_runs_upto(g, area);
    assert(full_redraw(g).take(area) =~= full_redraw(g));
    assert(area + w - 1 == h * w + (w - 1)) by (nonlinear_arith)
        requires
            area == g.dim.width * g.dim.height,
            w == g.dim.width,
            h == g.dim.height,
    ;
    lemma_fundamental_div_mod_converse(area + w - 1, w, h, w - 1);
}

/// Law: two changed cells in the same row at adjacent columns coalesce into
/// exactly one cursor move followed by the two character emissions — one
/// reposition for the run, not two.
pub proof fn lemma_adjacent_cells_one_goto(p1: Position, k1: CellKind, p2: Position, k2: CellKind)
    requires
        p1.y == p2.y,
        p1.x + 1 == p2.x,
    ensures
        coalesce(seq![(p1, k1), (p2, k2)]) == seq![
            DrawCommand::Goto(p1),
            DrawCommand::Put(k1),
            DrawCommand::Put(k2),
        ],
{
    let pair = seq![(p1, k1), (p2, k2)];
    let single = seq![(p1, k1)];
    assert(pair.drop_last() =~= single);
    assert(single.drop_last() =~= Seq::<(Position, CellKind)>::empty());
    assert(coalesce(Seq::<(Position, CellKind)>::empty()) == Seq::<DrawCommand>::empty());
    assert(single.len() == 1 && single[0] == (p1, k1));
    assert(coalesce(single) == coalesce(single.drop_last()) + seq![
        DrawCommand::Goto(p1),
        DrawCommand::Put(k1),
    ]);
    assert(coalesce(single) =~= seq![DrawCommand::Goto(p1), DrawCommand::Put(k1)]);
    assert(pair.len() == 2 && pair[0] == (p1, k1) && pair[1] == (p2, k2));
    assert(continues_run(p1, p2));
    assert(coalesce(pair) == coalesce(pair.drop_last()) + seq![DrawCommand::Put(k2)]);
    assert(coalesce(pair) =~= seq![
        DrawCommand::Goto(p1),
        DrawCommand::Put(k1),
        DrawCommand::Put(k2),
    ]);
}

} // verus!
