//! Component composition: the interface every drawable node implements, and
//! the three node kinds — a text label leaf, a side-by-side split, and a
//! bordered wrapper — that partition screen real estate by carving child
//! portions and delegating.
//!
//! Each component's `draw` is pinned to a spec-level `spec_draw` function, so
//! drawing a tree is a mathematical function of the portion and the grid it
//! starts from: running the same tree twice provably leaves the same grid.

use vstd::prelude::*;
use vstd::string::StrSliceExecFns;

use crate::cell::{BoxBorder, CellKind, Char};
use crate::dimension::Dimension;
use crate::screen::{
    lemma_set_get_round_trip, Grid, ScreenBuffer, ScreenPortion,
};

verus! {

/// Drawing into a portion keeps the grid's dimension and well-formedness and
/// changes no cell outside the portion: the aliasing discipline that lets
/// sibling portions share one buffer without observing each other.
pub open spec fn draw_frame(p: ScreenPortion, pre: Grid, post: Grid) -> bool {
    &&& post.dim == pre.dim
    &&& post.wf()
    &&& forall|x: int, y: int|
        pre.in_bounds(x, y) && !p.contains_abs(x, y) ==> #[trigger] post.at(x, y) == pre.at(x, y)
}

/// Two framed draws in a row frame the whole.
pub proof fn lemma_draw_frame_trans(p: ScreenPortion, a: Grid, b: Grid, c: Grid)
    requires
        draw_frame(p, a, b),
        draw_frame(p, b, c),
    ensures
        draw_frame(p, a, c),
{
}

/// A draw framed by a portion contained in a wider portion is framed by the
/// wider portion too.
pub proof fn lemma_draw_frame_widen(inner: ScreenPortion, outer: ScreenPortion, a: Grid, b: Grid)
    requires
        draw_frame(inner, a, b),
        outer.offset_x <= inner.offset_x,
        inner.offset_x + inner.dim.width <= outer.offset_x + outer.dim.width,
        outer.offset_y <= inner.offset_y,
        inner.offset_y + inner.dim.height <= outer.offset_y + outer.dim.height,
    ensures
        draw_frame(outer, a, b),
{
}

/// The capability each drawable node implements. `spec_draw` is the
/// mathematical meaning of the node: the grid its draw leaves behind as a
/// function of the target portion and the grid it started from. `draw` is the
/// executable rendering, proved to realise exactly that function while never
/// touching a cell outside its portion.
pub trait Component {
    /// The grid this component's draw leaves behind.
    spec fn spec_draw(&self, p: ScreenPortion, pre: Grid) -> Grid;

    /// Draws this component into the given portion of the buffer.
    fn draw(&self, p: &ScreenPortion, buffer: &mut ScreenBuffer)
        requires
            old(buffer)@.wf(),
            p.fits(old(buffer)@.dim),
        ensures
            final(buffer)@ == self.spec_draw(*p, old(buffer)@),
            draw_frame(*p, old(buffer)@, final(buffer)@),
    ;
}

/// A boxed component tree draws as the tree it holds: composition may mix
/// node kinds behind dynamic dispatch.
impl Component for Box<dyn Component> {
    open spec fn spec_draw(&self, p: ScreenPortion, pre: Grid) -> Grid {
        (**self).spec_draw(p, pre)
    }

    fn draw(&self, p: &ScreenPortion, buffer: &mut ScreenBuffer) {
        (**self).draw(p, buffer)
    }
}

/// A leaf that renders a text string left to right along the portion's top
/// row, truncated at the portion width.
pub struct Label {
    pub text: String,
}

impl Label {
    /// The grid after the first `n` characters of the text have been written
    /// along the portion's top row.
    pub open spec fn written_upto(text: Seq<char>, p: ScreenPortion, pre: Grid, n: int) -> Grid
        decreases n,
    {
        if n <= 0 {
            pre
        } else {
            Label::written_upto(text, p, pre, n - 1).write(
                p.offset_x + n - 1,
                p.offset_y as int,
                CellKind::Char(Char::spec_from_char(text[n - 1])),
            )
        }
    }

    /// How many cells a label draw writes: the text length capped at the
    /// portion width, and nothing at all on a zero-height portion, whose
    /// writes would all be out of bounds.
    pub open spec fn write_count(text: Seq<char>, p: ScreenPortion) -> int {
        if p.dim.height == 0 {
            0
        } else if text.len() <= p.dim.width {
            text.len() as int
        } else {
            p.dim.width as int
        }
    }
}

impl Component for Label {
    open spec fn spec_draw(&self, p: ScreenPortion, pre: Grid) -> Grid {
        Label::written_upto(self.text@, p, pre, Label::write_count(self.text@, p))
    }

    /// Writes each character at local (x, 0), stopping at the portion width;
    /// text shorter than the portion leaves the remaining cells untouched.
    fn draw(&self, p: &ScreenPortion, buffer: &mut ScreenBuffer) {
        let dim = p.dimension();
        let s = self.text.as_str();
        let text_len = s.unicode_len();
        if dim.height == 0 {
            return;
        }
        let limit: usize = if (dim.width as usize) < text_len {
            dim.width as usize
        } else {
            text_len
        };
        let mut x: usize = 0;
        while x < limit
            invariant
                x <= limit,
                limit == Label::write_count(self.text@, *p),
                limit <= dim.width,
                dim == p.dim,
                dim.height > 0,
                text_len == self.text@.len(),
                s@ == self.text@,
                old(buffer)@.wf(),
                p.fits(old(buffer)@.dim),
                buffer@ == Label::written_upto(self.text@, *p, old(buffer)@, x as int),
                draw_frame(*p, old(buffer)@, buffer@),
            decreases limit - x,
        {
            let c = s.get_char(x);
            let kind = CellKind::Char(Char::from(c));
            proof {
                lemma_set_get_round_trip(*p, buffer@, x as int, 0, kind);
            }
            let ghost before = buffer@;
            p.set(buffer, x as u16, 0, kind).unwrap();
            proof {
                lemma_draw_frame_trans(*p, old(buffer)@, before, buffer@);
            }
            x = x + 1;
        }
    }
}

/// The width of the left half of a split of total width `w`.
pub open spec fn split_left_width(w: u16) -> u16 {
    (w / 2) as u16
}

/// The width of the right half of a split of total width `w`: the right side
/// absorbs the remainder on odd widths.
pub open spec fn split_right_width(w: u16) -> u16 {
    (w - w / 2) as u16
}

/// Law: for any width, the two halves of a split partition it exactly, and
/// the left half is the floor of half the width.
pub proof fn lemma_split_widths(w: u16)
    ensures
        split_left_width(w) + split_right_width(w) == w,
        split_left_width(w) == w as int / 2,
{
}

/// The portion the left child of a split draws into.
pub open spec fn split_left_portion(p: ScreenPortion) -> ScreenPortion {
    p.spec_portion(0, 0, Dimension { width: split_left_width(p.dim.width), height: p.dim.height })
}

/// The portion the right child of a split draws into.
pub open spec fn split_right_portion(p: ScreenPortion) -> ScreenPortion {
    p.spec_portion(
        split_left_width(p.dim.width),
        0,
        Dimension { width: split_right_width(p.dim.width), height: p.dim.height },
    )
}

/// A composite that divides its portion into two side-by-side child portions
/// of full height: the left one floor(width / 2) wide at local (0, 0), the
/// right one taking the rest at local (left width, 0). Each child is drawn
/// independently and cannot affect the other's cells.
pub struct VerticalSplit<L, R> {
    pub left: L,
    pub right: R,
}

impl<L: Component, R: Component> Component for VerticalSplit<L, R> {
    open spec fn spec_draw(&self, p: ScreenPortion, pre: Grid) -> Grid {
        self.right.spec_draw(split_right_portion(p), self.left.spec_draw(split_left_portion(p), pre))
    }

    fn draw(&self, p: &ScreenPortion, buffer: &mut ScreenBuffer) {
        let dim = p.dimension();
        let left_width = dim.width / 2;
        let right_width = dim.width - left_width;

        let left_dim = Dimension { width: left_width, height: dim.height };
        let right_dim = Dimension { width: right_width, height: dim.height };

        let left_portion = p.portion(0, 0, left_dim).unwrap();
        self.left.draw(&left_portion, buffer);
        let ghost mid = buffer@;

        let right_portion = p.portion(left_width, 0, right_dim).unwrap();
        self.right.draw(&right_portion, buffer);

        proof {
            lemma_draw_frame_widen(left_portion, *p, old(buffer)@, mid);
            lemma_draw_frame_widen(right_portion, *p, mid, buffer@);
            lemma_draw_frame_trans(*p, old(buffer)@, mid, buffer@);
        }
    }
}

/// The grid after the four corner glyphs of a border have been written.
pub open spec fn border_corners(p: ScreenPortion, g: Grid) -> Grid {
    g.write(p.offset_x as int, p.offset_y as int, CellKind::BoxBorder(BoxBorder::TopLeft)).write(
        p.offset_x + p.dim.width - 1,
        p.offset_y as int,
        CellKind::BoxBorder(BoxBorder::TopRight),
    ).write(
        p.offset_x + p.dim.width - 1,
        p.offset_y + p.dim.height - 1,
        CellKind::BoxBorder(BoxBorder::BottomRight),
    ).write(
        p.offset_x as int,
        p.offset_y + p.dim.height - 1,
        CellKind::BoxBorder(BoxBorder::BottomLeft),
    )
}

/// The grid after the top and bottom edge glyphs have been written in the
/// columns 1 .. n, each column getting its top and bottom cell in turn.
pub open spec fn border_top_bottom_upto(p: ScreenPortion, g: Grid, n: int) -> Grid
    decreases n,
{
    if n <= 1 {
        g
    } else {
        border_top_bottom_upto(p, g, n - 1).write(
            p.offset_x + n - 1,
            p.offset_y as int,
            CellKind::BoxBorder(BoxBorder::Top),
        ).write(
            p.offset_x + n - 1,
            p.offset_y + p.dim.height - 1,
            CellKind::BoxBorder(BoxBorder::Bottom),
        )
    }
}

/// The grid after the left and right edge glyphs have been written in the
/// rows 1 .. n, each row getting its left and right cell in turn.
pub open spec fn border_sides_upto(p: ScreenPortion, g: Grid, n: int) -> Grid
    decreases n,
{
    if n <= 1 {
        g
    } else {
        border_sides_upto(p, g, n - 1).write(
            p.offset_x as int,
            p.offset_y + n - 1,
            CellKind::BoxBorder(BoxBorder::Left),
        ).write(
            p.offset_x + p.dim.width - 1,
            p.offset_y + n - 1,
            CellKind::BoxBorder(BoxBorder::Right),
        )
    }
}

/// The grid after all border glyphs — corners, then top and bottom edges,
/// then left and right edges — have been written around the portion's rim.
pub open spec fn border_glyphs(p: ScreenPortion, g: Grid) -> Grid {
    border_sides_upto(
        p,
        border_top_bottom_upto(p, border_corners(p, g), p.dim.width - 1),
        p.dim.height - 1,
    )
}

/// The inset portion a border's child draws into: local offset (1, 1),
/// two cells narrower and two cells shorter.
pub open spec fn border_inner(p: ScreenPortion) -> ScreenPortion {
    p.spec_portion(
        1,
        1,
        Dimension { width: (p.dim.width - 2) as u16, height: (p.dim.height - 2) as u16 },
    )
}

proof fn lemma_border_corners_frame(p: ScreenPortion, g: Grid)
    requires
        g.wf(),
        p.fits(g.dim),
        p.dim.width >= 2,
        p.dim.height >= 2,
    ensures
        draw_frame(p, g, border_corners(p, g)),
{
    let g1 = g.write(p.offset_x as int, p.offset_y as int, CellKind::BoxBorder(BoxBorder::TopLeft));
    let g2 = g1.write(
        p.offset_x + p.dim.width - 1,
        p.offset_y as int,
        CellKind::BoxBorder(BoxBorder::TopRight),
    );
    let g3 = g2.write(
        p.offset_x + p.dim.width - 1,
        p.offset_y + p.dim.height - 1,
        CellKind::BoxBorder(BoxBorder::BottomRight),
    );
    lemma_set_get_round_trip(p, g, 0, 0, CellKind::BoxBorder(BoxBorder::TopLeft));
    lemma_set_get_round_trip(p, g1, p.dim.width - 1, 0, CellKind::BoxBorder(BoxBorder::TopRight));
    lemma_set_get_round_trip(
        p,
        g2,
        p.dim.width - 1,
        p.dim.height - 1,
        CellKind::BoxBorder(BoxBorder::BottomRight),
    );
    lemma_set_get_round_trip(p, g3, 0, p.dim.height - 1, CellKind::BoxBorder(BoxBorder::BottomLeft));
}

proof fn lemma_border_top_bottom_frame(p: ScreenPortion, g: Grid, n: int)
    requires
        g.wf(),
        p.fits(g.dim),
        p.dim.width >= 2,
        p.dim.height >= 2,
        n <= p.dim.width,
    ensures
        draw_frame(p, g, border_top_bottom_upto(p, g, n)),
    decreases n,
{
    if n <= 1 {
    } else {
        lemma_border_top_bottom_frame(p, g, n - 1);
        let prev = border_top_bottom_upto(p, g, n - 1);
        let mid = prev.write(p.offset_x + n - 1, p.offset_y as int, CellKind::BoxBorder(BoxBorder::Top));
        lemma_set_get_round_trip(p, prev, n - 1, 0, CellKind::BoxBorder(BoxBorder::Top));
        lemma_set_get_round_trip(p, mid, n - 1, p.dim.height - 1, CellKind::BoxBorder(BoxBorder::Bottom));
    }
}

proof fn lemma_border_sides_frame(p: ScreenPortion, g: Grid, n: int)
    requires
        g.wf(),
        p.fits(g.dim),
        p.dim.width >= 2,
        p.dim.height >= 2,
        n <= p.dim.height,
    ensures
        draw_frame(p, g, border_sides_upto(p, g, n)),
    decreases n,
{
    if n <= 1 {
    } else {
        lemma_border_sides_frame(p, g, n - 1);
        let prev = border_sides_upto(p, g, n - 1);
        let mid = prev.write(p.offset_x as int, p.offset_y + n - 1, CellKind::BoxBorder(BoxBorder::Left));
        lemma_set_get_round_trip(p, prev, 0, n - 1, CellKind::BoxBorder(BoxBorder::Left));
        lemma_set_get_round_trip(p, mid, p.dim.width - 1, n - 1, CellKind::BoxBorder(BoxBorder::Right));
    }
}

/// Writing the full rim of glyphs is framed by the portion.
pub proof fn lemma_border_glyphs_frame(p: ScreenPortion, g: Grid)
    requires
        g.wf(),
        p.fits(g.dim),
        p.dim.width >= 2,
        p.dim.height >= 2,
    ensures
        draw_frame(p, g, border_glyphs(p, g)),
{
    lemma_border_corners_frame(p, g);
    let cornered = border_corners(p, g);
    lemma_border_top_bottom_frame(p, cornered, p.dim.width - 1);
    let topped = border_top_bottom_upto(p, cornered, p.dim.width - 1);
    lemma_border_sides_frame(p, topped, p.dim.height - 1);
    lemma_draw_frame_trans(p, g, cornered, topped);
    lemma_draw_frame_trans(p, g, topped, border_glyphs(p, g));
}

/// A composite that draws a one-cell rim of box-drawing glyphs around its
/// portion and delegates the inset interior to its child; on a portion too
/// small to fit a border it delegates the whole portion unchanged.
pub struct Border<C> {
    pub c: C,
}

impl<C: Component> Component for Border<C> {
    open spec fn spec_draw(&self, p: ScreenPortion, pre: Grid) -> Grid {
        if p.dim.width < 2 || p.dim.height < 2 {
            self.c.spec_draw(p, pre)
        } else {
            self.c.spec_draw(border_inner(p), border_glyphs(p, pre))
        }
    }

    fn draw(&self, p: &ScreenPortion, buffer: &mut ScreenBuffer) {
        let dim = p.dimension();
        if dim.width < 2 || dim.height < 2 {
            self.c.draw(p, buffer);
            return;
        }

        p.set(buffer, 0, 0, CellKind::BoxBorder(BoxBorder::TopLeft)).unwrap();
        p.set(buffer, dim.width - 1, 0, CellKind::BoxBorder(BoxBorder::TopRight)).unwrap();
        p.set(buffer, dim.width - 1, dim.height - 1, CellKind::BoxBorder(BoxBorder::BottomRight)).unwrap();
        p.set(buffer, 0, dim.height - 1, CellKind::BoxBorder(BoxBorder::BottomLeft)).unwrap();

        let ghost cornered = buffer@;
        assert(cornered == border_corners(*p, old(buffer)@));

        let mut x: u16 = 1;
        while x < dim.width - 1
            invariant
                1 <= x <= dim.width - 1,
                dim == p.dim,
                dim.width >= 2,
                dim.height >= 2,
                old(buffer)@.wf(),
                p.fits(old(buffer)@.dim),
                cornered == border_corners(*p, old(buffer)@),
                cornered.wf(),
                cornered.dim == old(buffer)@.dim,
                buffer@ == border_top_bottom_upto(*p, cornered, x as int),
                buffer@.wf(),
                buffer@.dim == old(buffer)@.dim,
            decreases dim.width - 1 - x,
        {
            p.set(buffer, x, 0, CellKind::BoxBorder(BoxBorder::Top)).unwrap();
            p.set(buffer, x, dim.height - 1, CellKind::BoxBorder(BoxBorder::Bottom)).unwrap();
            x = x + 1;
        }
        let ghost topped = buffer@;
        assert(topped == border_top_bottom_upto(*p, cornered, p.dim.width - 1));

        let mut y: u16 = 1;
        while y < dim.height - 1
            invariant
                1 <= y <= dim.height - 1,
                dim == p.dim,
                dim.width >= 2,
                dim.height >= 2,
                old(buffer)@.wf(),
                p.fits(old(buffer)@.dim),
                topped == border_top_bottom_upto(*p, cornered, p.dim.width - 1),
                topped.wf(),
                topped.dim == old(buffer)@.dim,
                buffer@ == border_sides_upto(*p, topped, y as int),
                buffer@.wf(),
                buffer@.dim == old(buffer)@.dim,
            decreases dim.height - 1 - y,
        {
            p.set(buffer, 0, y, CellKind::BoxBorder(BoxBorder::Left)).unwrap();
            p.set(buffer, dim.width - 1, y, CellKind::BoxBorder(BoxBorder::Right)).unwrap();
            y = y + 1;
        }

        assert(buffer@ == border_glyphs(*p, old(buffer)@));
        proof {
            lemma_border_glyphs_frame(*p, old(buffer)@);
        }

        let inner_dim = Dimension { width: dim.width - 2, height: dim.height - 2 };
        let inner = p.portion(1, 1, inner_dim).unwrap();
        let ghost rimmed = buffer@;

        self.c.draw(&inner, buffer);

        proof {
            lemma_draw_frame_widen(inner, *p, rimmed, buffer@);
            lemma_draw_frame_trans(*p, old(buffer)@, rimmed, buffer@);
        }
    }
}

/// Law: on a portion at least two cells wide and two high, a border's child
/// draws into dimension (width - 2, height - 2) at the parent's absolute
/// offset plus (1, 1), into the grid with the rim of glyphs written.
pub proof fn lemma_border_geometry<C: Component>(b: &Border<C>, p: ScreenPortion, pre: Grid)
    requires
        p.wf(),
        p.dim.width >= 2,
        p.dim.height >= 2,
    ensures
        border_inner(p).dim == (Dimension {
            width: (p.dim.width - 2) as u16,
            height: (p.dim.height - 2) as u16,
        }),
        border_inner(p).offset_x == p.offset_x + 1,
        border_inner(p).offset_y == p.offset_y + 1,
        b.spec_draw(p, pre) == b.c.spec_draw(border_inner(p), border_glyphs(p, pre)),
{
}

/// Law: on a portion narrower or shorter than two cells, a border writes no
/// glyph and delegates the full portion to its child unchanged.
pub proof fn lemma_border_small_delegates<C: Component>(b: &Border<C>, p: ScreenPortion, pre: Grid)
    requires
        p.dim.width < 2 || p.dim.height < 2,
    ensures
        b.spec_draw(p, pre) == b.c.spec_draw(p, pre),
{
}

/// Wraps any component in a border.
pub trait WithBorder where Self: Sized {
    /// This component inside a border.
    fn with_border(self) -> (b: Border<Self>)
        ensures
            b == (Border { c: self }),
    ;
}

impl<C: Component> WithBorder for C {
    fn with_border(self) -> (b: Border<C>)
    {
        Border { c: self }
    }
}

} // verus!
