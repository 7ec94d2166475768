//! The grid of columns: construction sized to the terminal, the per-frame
//! advance over every column, and the computation of one frame's render
//! operations.

use vstd::prelude::*;

use crate::block::Block;
use crate::block::Color;
use crate::block::palette_color;
use crate::column::Column;
use crate::column::old_shift_rel;
use crate::column::shift_rel;
use crate::column::step_rel;
use crate::column::lemma_step_oldshift_ready;
use crate::column::lemma_step_shift_ready;
use crate::config::Config;
use crate::rng::next_u64;
use rand::rngs::SmallRng;

verus! {

/// The smallest number of columns and of lines a grid is built with.
pub const MIN_DIM: usize = 10;

/// The grid: an ordered sequence of columns of equal height.
pub struct Matrix {
    /// The columns, leftmost first.
    pub m: Vec<Column>,
}

/// What one whole frame does to one column: some mid-state is reached by the
/// per-frame machine and the configured shift policy then moves it down.
pub open spec fn advanced(pre: Column, post: Column, cfg: Config, h: int) -> bool {
    exists|mid: Column|
        #[trigger] step_rel(pre, mid, cfg.colour, h) && (if cfg.oldstyle {
            old_shift_rel(mid, post)
        } else {
            shift_rel(mid, post)
        })
}

impl Matrix {
    /// The height every column of the grid shares.
    pub open spec fn height(self) -> int {
        self.m@[0].cells@.len() as int
    }

    /// The grid's invariant: at least one column, and every column ready at
    /// the common height.
    pub open spec fn wf(self) -> bool {
        &&& self.m@.len() >= 1
        &&& forall|j: int| 0 <= j < self.m@.len() ==> (#[trigger] self.m@[j]).ready(self.height())
    }

    /// Build a grid for the requested dimensions. Each axis is clamped to
    /// the floor of `MIN_DIM` before any column is built, so the modulus
    /// arithmetic of the column machine stays well defined.
    pub fn new(cols: usize, lines: usize, rng: &mut SmallRng) -> (g: Matrix)
        ensures
            g.wf(),
            g.m@.len() == (if cols < MIN_DIM { MIN_DIM as int } else { cols as int }),
            g.height() == (if lines < MIN_DIM { MIN_DIM as int } else { lines as int }),
            g.m@.len() >= MIN_DIM,
            g.height() >= MIN_DIM,
            forall|j: int, i: int|
                0 <= j < g.m@.len() && 0 <= i < g.height() ==> (#[trigger] g.m@[j].cells@[i])
                    == Block::spec_default(),
    {
        let cols = if cols < MIN_DIM { MIN_DIM } else { cols };
        let lines = if lines < MIN_DIM { MIN_DIM } else { lines };
        let mut m: Vec<Column> = Vec::new();
        let mut j: usize = 0;
        while j < cols
            invariant
                j <= cols,
                m@.len() == j,
                MIN_DIM <= lines,
                forall|k: int| 0 <= k < j ==> (#[trigger] m@[k]).ready(lines as int),
                forall|k: int| 0 <= k < j ==> (#[trigger] m@[k]).cells@.len() == lines,
                forall|k: int, i: int|
                    0 <= k < j && 0 <= i < lines ==> (#[trigger] m@[k].cells@[i])
                        == Block::spec_default(),
            decreases cols - j,
        {
            m.push(Column::new(lines, rng));
            j = j + 1;
        }
        Matrix { m }
    }

    /// Return how many columns the grid has.
    pub fn num_columns(&self) -> (n: usize)
        ensures
            n == self.m@.len(),
    {
        self.m.len()
    }

    /// Return the common height of the grid's columns.
    pub fn num_lines(&self) -> (n: usize)
        requires
            self.m@.len() >= 1,
        ensures
            n == self.height(),
    {
        self.m[0].cells.len()
    }

    /// Return the column at position `i`.
    pub fn index(&self, i: usize) -> (c: &Column)
        requires
            i < self.m@.len(),
        ensures
            *c == self.m@[i as int],
    {
        &self.m[i]
    }

    /// Apply the default downward shift to every column.
    pub fn move_down(&mut self, rng: &mut SmallRng)
        ensures
            final(self).m@.len() == old(self).m@.len(),
            forall|j: int|
                0 <= j < old(self).m@.len() ==> shift_rel(
                    old(self).m@[j],
                    #[trigger] final(self).m@[j],
                ),
    {
        let n = self.m.len();
        let mut j: usize = 0;
        while j < n
            invariant
                j <= n,
                n == self.m@.len(),
                n == old(self).m@.len(),
                forall|k: int|
                    0 <= k < j ==> shift_rel(old(self).m@[k], #[trigger] self.m@[k]),
                forall|k: int| j <= k < n ==> self.m@[k] == old(self).m@[k],
            decreases n - j,
        {
            let ghost before = self.m@;
            let mut col = self.m.remove(j);
            col.move_down(rng);
            self.m.insert(j, col);
            proof {
                assert(self.m@ =~= before.update(j as int, self.m@[j as int]));
            }
            j = j + 1;
        }
    }

    /// Apply the old-style downward shift to every column.
    pub fn old_style_move_down(&mut self)
        requires
            forall|j: int| 0 <= j < old(self).m@.len() ==> (#[trigger] old(self).m@[j]).cells@.len()
                >= 1,
        ensures
            final(self).m@.len() == old(self).m@.len(),
            forall|j: int|
                0 <= j < old(self).m@.len() ==> old_shift_rel(
                    old(self).m@[j],
                    #[trigger] final(self).m@[j],
                ),
    {
        let n = self.m.len();
        let mut j: usize = 0;
        while j < n
            invariant
                j <= n,
                n == self.m@.len(),
                n == old(self).m@.len(),
                forall|k: int|
                    0 <= k < n ==> (#[trigger] old(self).m@[k]).cells@.len() >= 1,
                forall|k: int|
                    0 <= k < j ==> old_shift_rel(old(self).m@[k], #[trigger] self.m@[k]),
                forall|k: int| j <= k < n ==> self.m@[k] == old(self).m@[k],
            decreases n - j,
        {
            let ghost before = self.m@;
            let mut col = self.m.remove(j);
            col.old_style_move_down();
            self.m.insert(j, col);
            proof {
                assert(self.m@ =~= before.update(j as int, self.m@[j as int]));
            }
            j = j + 1;
        }
    }

    /// Advance the whole grid by one frame: run the per-frame machine on
    /// every column, then apply the configured shift policy to every column.
    /// Every column keeps its height, and every column stays ready.
    pub fn arrange(&mut self, config: &Config, rng: &mut SmallRng)
        requires
            old(self).wf(),
        ensures
            final(self).wf(),
            final(self).m@.len() == old(self).m@.len(),
            final(self).height() == old(self).height(),
            forall|j: int|
                0 <= j < old(self).m@.len() ==> (#[trigger] final(self).m@[j]).cells@.len()
                    == old(self).m@[j].cells@.len(),
            forall|j: int|
                0 <= j < old(self).m@.len() ==> advanced(
                    old(self).m@[j],
                    #[trigger] final(self).m@[j],
                    *config,
                    old(self).height(),
                ),
    {
        let lines = self.num_lines();
        let n = self.m.len();
        let mut j: usize = 0;
        while j < n
            invariant
                j <= n,
                n == self.m@.len(),
                n == old(self).m@.len(),
                old(self).wf(),
                lines == old(self).height(),
                forall|k: int|
                    0 <= k < j ==> step_rel(
                        old(self).m@[k],
                        #[trigger] self.m@[k],
                        config.colour,
                        lines as int,
                    ),
                forall|k: int| 0 <= k < j ==> (#[trigger] self.m@[k]).cells@.len() == lines,
                forall|k: int| j <= k < n ==> self.m@[k] == old(self).m@[k],
            decreases n - j,
        {
            let ghost before = self.m@;
            let mut col = self.m.remove(j);
            col.step(config, lines, rng);
            self.m.insert(j, col);
            proof {
                assert(self.m@ =~= before.update(j as int, self.m@[j as int]));
            }
            j = j + 1;
        }
        let ghost midm = self.m@;
        if config.oldstyle {
            self.old_style_move_down();
        } else {
            self.move_down(rng);
        }
        proof {
            let pre = *old(self);
            let h = pre.height();
            assert forall|k: int| 0 <= k < pre.m@.len() implies advanced(
                pre.m@[k],
                #[trigger] final(self).m@[k],
                *config,
                h,
            ) && final(self).m@[k].ready(h) && final(self).m@[k].cells@.len()
                == pre.m@[k].cells@.len() by {
                assert(step_rel(pre.m@[k], midm[k], config.colour, h));
                if config.oldstyle {
                    assert(old_shift_rel(midm[k], final(self).m@[k]));
                    lemma_step_oldshift_ready(
                        pre.m@[k],
                        midm[k],
                        final(self).m@[k],
                        config.colour,
                        h,
                    );
                } else {
                    assert(shift_rel(midm[k], final(self).m@[k]));
                    lemma_step_shift_ready(
                        pre.m@[k],
                        midm[k],
                        final(self).m@[k],
                        config.colour,
                        h,
                    );
                }
            }
            assert(final(self).height() == h);
        }
    }
}

/// One render operation for the terminal surface: move the cursor, change
/// the foreground colour, write one glyph, or wait.
#[derive(Clone, Copy, Debug, PartialEq, Eq, Structural)]
pub enum DrawOp {
    /// Move the cursor to a screen position, row first.
    MoveTo {
        /// The screen row, topmost first.
        row: usize,
        /// The screen column.
        col: usize,
    },
    /// Switch the foreground colour.
    SetColor {
        /// The colour to draw with from here on.
        color: Color,
    },
    /// Write one glyph at the cursor.
    PutGlyph {
        /// The glyph to write.
        glyph: char,
    },
    /// Wait this many milliseconds before the next frame.
    Delay {
        /// The wait in milliseconds.
        ms: usize,
    },
}

impl Matrix {
    /// The grid is rectangular: at least one column, every column of the
    /// common height, and the height at least one.
    pub open spec fn rect(self) -> bool {
        &&& self.m@.len() >= 1
        &&& self.height() >= 1
        &&& forall|j: int|
            0 <= j < self.m@.len() ==> (#[trigger] self.m@[j]).cells@.len() == self.height()
    }
}

/// The colour a cell renders in when rainbow mode is off: leading-white
/// cells render in the fixed white, every other cell in its stored colour.
pub open spec fn spec_effective_color(b: Block) -> Color {
    if b.white {
        Color::White
    } else {
        b.color
    }
}

/// Whether `c` is one of the six colours of the stream palette.
pub open spec fn in_palette(c: Color) -> bool {
    ||| c == Color::Green
    ||| c == Color::Blue
    ||| c == Color::White
    ||| c == Color::Yellow
    ||| c == Color::Cyan
    ||| c == Color::Magenta
}

/// A well-formed table of per-cell display colours for one frame:
/// one colour for every cell, white wherever the cell is leading-white,
/// the stored colour everywhere else when rainbow mode is off, and a
/// palette colour everywhere else when it is on.
pub open spec fn frame_colors_ok(g: Matrix, cfg: Config, cs: Seq<Seq<Color>>) -> bool {
    &&& cs.len() == g.m@.len()
    &&& forall|i: int| 0 <= i < cs.len() ==> (#[trigger] cs[i]).len() == g.height()
    &&& forall|i: int, j: int|
        0 <= i < cs.len() && 0 <= j < g.height() ==> #[trigger] cs[i][j] == (if g.m@[i].cells@[j].white {
            Color::White
        } else if !cfg.rainbow {
            g.m@[i].cells@[j].color
        } else {
            cs[i][j]
        })
    &&& cfg.rainbow ==> forall|i: int, j: int|
        0 <= i < cs.len() && 0 <= j < g.height() && !g.m@[i].cells@[j].white ==> in_palette(
            #[trigger] cs[i][j],
        )
}

/// The colour table that rainbow-off rendering uses.
pub open spec fn spec_frame_colors(g: Matrix) -> Seq<Seq<Color>> {
    Seq::new(
        g.m@.len(),
        |i: int| Seq::new(g.height() as nat, |j: int| spec_effective_color(g.m@[i].cells@[j])),
    )
}

/// The operations that draw one cell: move there, switch the colour if it
/// differs from the colour already set, and write the glyph.
pub open spec fn cell_ops(j: int, i: int, glyph: char, c: Color, last: Color) -> Seq<DrawOp> {
    if c != last {
        seq![
            (DrawOp::MoveTo { row: (j - 1) as usize, col: (2 * i) as usize }),
            (DrawOp::SetColor { color: c }),
            (DrawOp::PutGlyph { glyph: glyph }),
        ]
    } else {
        seq![
            (DrawOp::MoveTo { row: (j - 1) as usize, col: (2 * i) as usize }),
            (DrawOp::PutGlyph { glyph: glyph }),
        ]
    }
}

/// The operations that draw row `j` from column `i` on, with `last` the
/// colour already set on the surface.
pub open spec fn row_ops_from(g: Matrix, cs: Seq<Seq<Color>>, j: int, i: int, last: Color) -> Seq<
    DrawOp,
>
    decreases g.m@.len() - i,
{
    if i < 0 || i >= g.m@.len() {
        Seq::empty()
    } else {
        cell_ops(j, i, g.m@[i].cells@[j].val, cs[i][j], last) + row_ops_from(
            g,
            cs,
            j,
            i + 1,
            cs[i][j],
        )
    }
}

/// The operations that draw the rows from `j` down. Each row starts by
/// setting the stored colour of its leftmost cell, as the renderer's
/// colour-run cache does.
pub open spec fn rows_ops_from(g: Matrix, cs: Seq<Seq<Color>>, j: int) -> Seq<DrawOp>
    decreases g.height() - j,
{
    if j < 1 || j >= g.height() {
        Seq::empty()
    } else {
        seq![(DrawOp::SetColor { color: g.m@[0].cells@[j].color })] + row_ops_from(
            g,
            cs,
            j,
            0,
            g.m@[0].cells@[j].color,
        ) + rows_ops_from(g, cs, j + 1)
    }
}

/// Everything one frame draws: the rows from row 1 down (row 0 is the
/// off-screen staging row), then the end-of-frame delay.
pub open spec fn spec_draw_ops(g: Matrix, cs: Seq<Seq<Color>>, ms: usize) -> Seq<DrawOp> {
    rows_ops_from(g, cs, 1) + seq![(DrawOp::Delay { ms: ms })]
}

impl Matrix {
    /// Compute the display colour of every cell for this frame. With
    /// rainbow mode off the table is exactly the stored colours with white
    /// overriding; with it on, every non-white cell gets a palette colour
    /// drawn afresh, and the stored colours are not touched.
    pub fn frame_colors(&self, config: &Config, rng: &mut SmallRng) -> (r: Vec<Vec<Color>>)
        requires
            self.rect(),
        ensures
            frame_colors_ok(*self, *config, r@.map_values(|v: Vec<Color>| v@)),
            r@.len() == self.m@.len(),
    {
        let cols = self.m.len();
        let lines = self.num_lines();
        let mut r: Vec<Vec<Color>> = Vec::new();
        let mut i: usize = 0;
        while i < cols
            invariant
                i <= cols,
                cols == self.m@.len(),
                lines == self.height(),
                self.rect(),
                r@.len() == i,
                forall|k: int| 0 <= k < i ==> (#[trigger] r@[k])@.len() == lines,
                forall|k: int, j: int|
                    0 <= k < i && 0 <= j < lines ==> #[trigger] r@[k]@[j] == (
                    if self.m@[k].cells@[j].white {
                        Color::White
                    } else if !config.rainbow {
                        self.m@[k].cells@[j].color
                    } else {
                        r@[k]@[j]
                    }),
                config.rainbow ==> forall|k: int, j: int|
                    0 <= k < i && 0 <= j < lines && !self.m@[k].cells@[j].white ==> in_palette(
                        #[trigger] r@[k]@[j],
                    ),
            decreases cols - i,
        {
            let mut row: Vec<Color> = Vec::new();
            let mut j: usize = 0;
            while j < lines
                invariant
                    j <= lines,
                    i < cols,
                    cols == self.m@.len(),
                    lines == self.height(),
                    self.rect(),
                    row@.len() == j,
                    forall|t: int|
                        0 <= t < j ==> #[trigger] row@[t] == (if self.m@[i as int].cells@[t].white {
                            Color::White
                        } else if !config.rainbow {
                            self.m@[i as int].cells@[t].color
                        } else {
                            row@[t]
                        }),
                    config.rainbow ==> forall|t: int|
                        0 <= t < j && !self.m@[i as int].cells@[t].white ==> in_palette(
                            #[trigger] row@[t],
                        ),
                decreases lines - j,
            {
                let b = self.m[i].cells[j];
                let c = if b.white {
                    Color::White
                } else if config.rainbow {
                    palette_color(next_u64(rng))
                } else {
                    b.color
                };
                row.push(c);
                j = j + 1;
            }
            r.push(row);
            i = i + 1;
        }
        proof {
            let cs = r@.map_values(|v: Vec<Color>| v@);
            assert forall|k: int| 0 <= k < cs.len() implies (#[trigger] cs[k]).len()
                == self.height() by {
                assert(cs[k] == r@[k]@);
            }
            assert forall|k: int, j: int|
                0 <= k < cs.len() && 0 <= j < self.height() implies #[trigger] cs[k][j] == (
            if self.m@[k].cells@[j].white {
                Color::White
            } else if !config.rainbow {
                self.m@[k].cells@[j].color
            } else {
                cs[k][j]
            }) by {
                assert(cs[k] == r@[k]@);
            }
            if config.rainbow {
                assert forall|k: int, j: int|
                    0 <= k < cs.len() && 0 <= j < self.height()
                        && !self.m@[k].cells@[j].white implies in_palette(#[trigger] cs[k][j]) by {
                    assert(cs[k] == r@[k]@);
                }
            }
        }
        r
    }

    /// Compute the render operations of one frame: rows from row 1 down in
    /// row-major order, one cursor move and one glyph per cell, a colour
    /// switch only where the display colour changes, and the end-of-frame
    /// delay of `update * 10` milliseconds. The grid itself is only read:
    /// re-rendering the same grid with rainbow mode off yields the same
    /// operations.
    pub fn draw(&self, config: &Config, rng: &mut SmallRng) -> (r: Vec<DrawOp>)
        requires
            self.rect(),
            config.wf(),
            self.m@.len() * 2 <= usize::MAX,
        ensures
            exists|cs: Seq<Seq<Color>>|
                #[trigger] frame_colors_ok(*self, *config, cs) && r@ == spec_draw_ops(
                    *self,
                    cs,
                    (config.update * 10) as usize,
                ),
            !config.rainbow ==> r@ == spec_draw_ops(
                *self,
                spec_frame_colors(*self),
                (config.update * 10) as usize,
            ),
    {
        let colors = self.frame_colors(config, rng);
        let ghost cs = colors@.map_values(|v: Vec<Color>| v@);
        let cols = self.m.len();
        let lines = self.num_lines();
        let mut ops: Vec<DrawOp> = Vec::new();
        let mut j: usize = 1;
        proof {
            assert(ops@ + rows_ops_from(*self, cs, 1) =~= rows_ops_from(*self, cs, 1));
        }
        while j < lines
            invariant
                1 <= j,
                j <= lines || j == 1,
                cols == self.m@.len(),
                lines == self.height(),
                self.rect(),
                cols * 2 <= usize::MAX,
                cs.len() == cols,
                forall|k: int| 0 <= k < cols ==> (#[trigger] cs[k]).len() == lines,
                colors@.len() == cols,
                forall|k: int| 0 <= k < cols ==> #[trigger] colors@[k]@ == cs[k],
                ops@ + rows_ops_from(*self, cs, j as int) == rows_ops_from(*self, cs, 1),
            decreases lines - j,
        {
            let c0 = self.m[0].cells[j].color;
            let ghost row_target = ops@ + rows_ops_from(*self, cs, j as int);
            ops.push(DrawOp::SetColor { color: c0 });
            let mut last = c0;
            let mut i: usize = 0;
            proof {
                assert(ops@ + row_ops_from(*self, cs, j as int, 0, c0) + rows_ops_from(
                    *self,
                    cs,
                    j as int + 1,
                ) =~= row_target);
            }
            while i < cols
                invariant
                    i <= cols,
                    1 <= j < lines,
                    cols == self.m@.len(),
                    lines == self.height(),
                    self.rect(),
                    cols * 2 <= usize::MAX,
                    cs.len() == cols,
                    forall|k: int| 0 <= k < cols ==> (#[trigger] cs[k]).len() == lines,
                    colors@.len() == cols,
                    forall|k: int| 0 <= k < cols ==> #[trigger] colors@[k]@ == cs[k],
                    ops@ + row_ops_from(*self, cs, j as int, i as int, last) + rows_ops_from(
                        *self,
                        cs,
                        j as int + 1,
                    ) == row_target,
                decreases cols - i,
            {
                let cell = self.m[i].cells[j];
                let c = colors[i][j];
                proof {
                    assert(cs[i as int] == colors@[i as int]@);
                    assert(row_ops_from(*self, cs, j as int, i as int, last) == cell_ops(
                        j as int,
                        i as int,
                        self.m@[i as int].cells@[j as int].val,
                        cs[i as int][j as int],
                        last,
                    ) + row_ops_from(*self, cs, j as int, i as int + 1, cs[i as int][j as int]));
                }
                let ghost ops_before = ops@;
                let ghost last_before = last;
                ops.push(DrawOp::MoveTo { row: j - 1, col: 2 * i });
                if last != c {
                    ops.push(DrawOp::SetColor { color: c });
                    last = c;
                }
                ops.push(DrawOp::PutGlyph { glyph: cell.val });
                proof {
                    assert(ops@ =~= ops_before + cell_ops(
                        j as int,
                        i as int,
                        self.m@[i as int].cells@[j as int].val,
                        cs[i as int][j as int],
                        last_before,
                    ));
                    assert(ops@ + row_ops_from(*self, cs, j as int, i as int + 1, cs[i as int][j as int])
                        + rows_ops_from(*self, cs, j as int + 1) =~= row_target);
                }
                i = i + 1;
            }
            proof {
                assert(row_ops_from(*self, cs, j as int, cols as int, last) == Seq::<
                    DrawOp,
                >::empty());
                assert(ops@ + rows_ops_from(*self, cs, j as int + 1) =~= row_target);
            }
            j = j + 1;
        }
        proof {
            assert(rows_ops_from(*self, cs, j as int) == Seq::<DrawOp>::empty());
            assert(ops@ =~= rows_ops_from(*self, cs, 1));
        }
        ops.push(DrawOp::Delay { ms: config.update * 10 });
        proof {
            assert(ops@ =~= spec_draw_ops(*self, cs, (config.update * 10) as usize));
            if !config.rainbow {
                assert(cs =~~= spec_frame_colors(*self));
            }
        }
        ops
    }
}

} // verus!
