//! Tests of the animation engine: the column state machine, the two shift
//! policies, the grid orchestration, and the render-op computation.

use rand::rngs::SmallRng;
use rand::SeedableRng;

use r_matrix::block::{Block, Color};
use r_matrix::column::Column;
use r_matrix::config::Config;
use r_matrix::matrix::{DrawOp, Matrix};

fn rng(seed: u64) -> SmallRng {
    SmallRng::seed_from_u64(seed)
}

fn cfg(oldstyle: bool, rainbow: bool) -> Config {
    Config::new(0, false, oldstyle, false, false, 4, Color::Green, rainbow)
}

fn blank_cells(n: usize) -> Vec<Block> {
    let mut v = Vec::new();
    for _ in 0..n {
        v.push(Block::default());
    }
    v
}

fn glyph_column(glyphs: &[char]) -> Column {
    let mut cells = Vec::new();
    for &g in glyphs {
        cells.push(Block {
            val: g,
            white: false,
            color: Color::Green,
        });
    }
    Column {
        length: 3,
        spaces: 1,
        cells,
    }
}

fn count_nonempty(m: &Matrix) -> usize {
    let mut n = 0;
    for i in 0..m.num_columns() {
        let col = m.index(i);
        for b in col.cells.iter() {
            if b.val != ' ' {
                n += 1;
            }
        }
    }
    n
}

#[test]
fn min_size_clamp() {
    // Requested dimensions far below the floor still yield a 10-by-10 grid.
    let mut r = rng(1);
    let m = Matrix::new(2, 1, &mut r);
    assert_eq!(m.num_columns(), 10);
    assert_eq!(m.num_lines(), 10);
    // Requested dimensions above the floor are kept.
    let m2 = Matrix::new(17, 31, &mut r);
    assert_eq!(m2.num_columns(), 17);
    assert_eq!(m2.num_lines(), 31);
}

#[test]
fn new_grid_is_blank_with_counters_in_band() {
    let mut r = rng(2);
    let m = Matrix::new(12, 10, &mut r);
    for i in 0..m.num_columns() {
        let col = m.index(i);
        assert_eq!(col.cells.len(), 10);
        for b in col.cells.iter() {
            assert_eq!(b.val, ' ');
            assert!(!b.white);
        }
        assert!(3 <= col.length && col.length <= 9);
        assert!(1 <= col.spaces && col.spaces <= 10);
    }
}

#[test]
fn column_lengths_invariant_across_advance() {
    // Every column keeps its height across many frames, with both policies.
    for oldstyle in [false, true] {
        let mut r = rng(3);
        let mut m = Matrix::new(14, 11, &mut r);
        let c = cfg(oldstyle, false);
        for _ in 0..200 {
            m.arrange(&c, &mut r);
            assert_eq!(m.num_columns(), 14);
            for i in 0..m.num_columns() {
                assert_eq!(m.index(i).cells.len(), 11);
            }
        }
    }
}

#[test]
fn counters_stay_in_band_over_ten_thousand_frames() {
    // Height 10, 10,000 simulated frames: the stream and gap counters never
    // leave their bands.
    let mut r = rng(4);
    let mut m = Matrix::new(10, 10, &mut r);
    let c = cfg(false, false);
    for _ in 0..10_000 {
        m.arrange(&c, &mut r);
        for i in 0..m.num_columns() {
            let col = m.index(i);
            assert!(col.length <= 9);
            assert!(col.spaces <= 10);
            // A column sitting in a gap always has a stream of at least 3
            // glyphs prepared for its next reset.
            if col.cells[1].val == ' ' {
                assert!(col.length >= 3);
            }
        }
    }
}

#[test]
fn gap_waiting_branch_decrements_gap() {
    let mut r = rng(5);
    let mut col = Column {
        length: 5,
        spaces: 3,
        cells: blank_cells(10),
    };
    let c = cfg(false, false);
    col.step(&c, 10, &mut r);
    assert_eq!(col.spaces, 2);
    assert_eq!(col.length, 5);
    for b in col.cells.iter() {
        assert_eq!(b.val, ' ');
    }
}

#[test]
fn gap_expired_branch_starts_stream() {
    let mut r = rng(6);
    let mut col = Column {
        length: 5,
        spaces: 0,
        cells: blank_cells(10),
    };
    let c = cfg(false, false);
    col.step(&c, 10, &mut r);
    // A new head in the configured colour; the counters move as specified.
    assert_ne!(col.cells[0].val, ' ');
    assert!('!' <= col.cells[0].val && col.cells[0].val <= '}');
    assert_eq!(col.cells[0].color, Color::Green);
    assert_eq!(col.length, 4);
    assert!(1 <= col.spaces && col.spaces <= 10);
}

#[test]
fn mid_stream_branch_extends_stream() {
    let mut r = rng(7);
    let mut cells = blank_cells(10);
    cells[1] = Block {
        val: 'x',
        white: false,
        color: Color::Magenta,
    };
    let mut col = Column {
        length: 2,
        spaces: 4,
        cells,
    };
    let c = cfg(false, false);
    col.step(&c, 10, &mut r);
    // The fresh glyph continues the stream in the head's colour.
    assert_ne!(col.cells[0].val, ' ');
    assert_eq!(col.cells[0].color, Color::Magenta);
    assert_eq!(col.length, 1);
    assert_eq!(col.spaces, 4);
}

#[test]
fn stream_exhausted_branch_blanks_head_and_redraws_length() {
    let mut r = rng(8);
    let mut cells = blank_cells(10);
    cells[1] = Block {
        val: 'x',
        white: false,
        color: Color::Green,
    };
    let mut col = Column {
        length: 0,
        spaces: 4,
        cells,
    };
    let c = cfg(false, false);
    col.step(&c, 10, &mut r);
    assert_eq!(col.cells[0].val, ' ');
    assert!(3 <= col.length && col.length <= 9);
    assert_eq!(col.spaces, 4);
}

#[test]
fn old_style_shift_is_insert_blank_at_head_drop_tail() {
    // The concrete four-by-four fixture: columns [a,b,c,d], [e,f,g,h],
    // [i,j,k,l], [m,n,o,p] shift to [' ',a,b,c], [' ',e,f,g], [' ',i,j,k],
    // [' ',m,n,o].
    let mut m = Matrix {
        m: vec![
            glyph_column(&['a', 'b', 'c', 'd']),
            glyph_column(&['e', 'f', 'g', 'h']),
            glyph_column(&['i', 'j', 'k', 'l']),
            glyph_column(&['m', 'n', 'o', 'p']),
        ],
    };
    m.old_style_move_down();
    let want = [
        [' ', 'a', 'b', 'c'],
        [' ', 'e', 'f', 'g'],
        [' ', 'i', 'j', 'k'],
        [' ', 'm', 'n', 'o'],
    ];
    for (i, col_want) in want.iter().enumerate() {
        let col = m.index(i);
        for (j, &g) in col_want.iter().enumerate() {
            assert_eq!(col.cells[j].val, g);
        }
    }
}

#[test]
fn old_style_shift_height_times_blanks_every_column() {
    let mut m = Matrix {
        m: vec![
            glyph_column(&['a', 'b', 'c', 'd']),
            glyph_column(&['e', 'f', 'g', 'h']),
        ],
    };
    for _ in 0..4 {
        m.old_style_move_down();
    }
    for i in 0..m.num_columns() {
        for b in m.index(i).cells.iter() {
            assert_eq!(b.val, ' ');
        }
    }
}

#[test]
fn move_down_carries_stream_head_downward() {
    // A single glyph at the head: the default shift blanks it and the
    // trailing edge lands one slot below, keeping colour and whiteness.
    let mut r = rng(9);
    let mut cells = blank_cells(6);
    cells[0] = Block {
        val: 'x',
        white: true,
        color: Color::Magenta,
    };
    let mut col = Column {
        length: 3,
        spaces: 1,
        cells,
    };
    col.move_down(&mut r);
    assert_eq!(col.cells[0].val, ' ');
    assert_ne!(col.cells[1].val, ' ');
    assert!(col.cells[1].white);
    assert_eq!(col.cells[1].color, Color::Magenta);
    for j in 2..6 {
        assert_eq!(col.cells[j].val, ' ');
    }
}

#[test]
fn move_down_preserves_nonempty_count_away_from_tail() {
    // No column has a run touching the tail, so the default shift moves
    // glyphs without creating or destroying any.
    let mut r = rng(10);
    let mut m = Matrix {
        m: vec![
            glyph_column(&[' ', 'a', 'b', ' ', ' ', ' ']),
            glyph_column(&['c', ' ', ' ', 'd', 'e', ' ']),
            glyph_column(&[' ', ' ', ' ', ' ', ' ', ' ']),
        ],
    };
    let before = count_nonempty(&m);
    assert_eq!(before, 5);
    m.move_down(&mut r);
    assert_eq!(count_nonempty(&m), before);
}

#[test]
fn move_down_drops_glyph_off_tail() {
    // A run touching the tail loses its leading glyph off the bottom edge.
    let mut r = rng(11);
    let mut m = Matrix {
        m: vec![glyph_column(&[' ', ' ', ' ', ' ', 'a', 'b'])],
    };
    assert_eq!(count_nonempty(&m), 2);
    m.move_down(&mut r);
    assert_eq!(count_nonempty(&m), 1);
}

#[test]
fn rerendering_without_rainbow_is_identical() {
    // Rendering is a pure read of the grid: the same state drawn twice with
    // rainbow off yields identical operations.
    let mut r = rng(12);
    let mut m = Matrix::new(10, 10, &mut r);
    let c = cfg(false, false);
    for _ in 0..25 {
        m.arrange(&c, &mut r);
    }
    let ops1 = m.draw(&c, &mut r);
    let ops2 = m.draw(&c, &mut r);
    assert_eq!(ops1, ops2);
}

#[test]
fn rainbow_never_mutates_stored_colors() {
    let mut r = rng(13);
    let mut m = Matrix::new(10, 10, &mut r);
    let plain = cfg(false, false);
    let rainbow = cfg(false, true);
    for _ in 0..25 {
        m.arrange(&plain, &mut r);
    }
    let stored_before: Vec<Vec<(char, bool, Color)>> = (0..m.num_columns())
        .map(|i| {
            m.index(i)
                .cells
                .iter()
                .map(|b| (b.val, b.white, b.color))
                .collect()
        })
        .collect();
    let baseline = m.draw(&plain, &mut r);
    let _coloured = m.draw(&rainbow, &mut r);
    let stored_after: Vec<Vec<(char, bool, Color)>> = (0..m.num_columns())
        .map(|i| {
            m.index(i)
                .cells
                .iter()
                .map(|b| (b.val, b.white, b.color))
                .collect()
        })
        .collect();
    assert_eq!(stored_before, stored_after);
    // And rendering with rainbow off again still gives the same frame.
    assert_eq!(m.draw(&plain, &mut r), baseline);
}

#[test]
fn draw_emits_rows_then_delay() {
    let mut r = rng(14);
    let m = Matrix::new(10, 10, &mut r);
    let c = cfg(false, false);
    let ops = m.draw(&c, &mut r);
    // 9 drawn rows of 10 cells on a blank grid: one SetColor per row, then
    // one MoveTo and one PutGlyph per cell, and the final delay.
    assert_eq!(ops.len(), 9 * (1 + 2 * 10) + 1);
    assert_eq!(*ops.first().unwrap(), DrawOp::SetColor { color: Color::Red });
    assert_eq!(*ops.last().unwrap(), DrawOp::Delay { ms: 40 });
    assert_eq!(ops[1], DrawOp::MoveTo { row: 0, col: 0 });
    assert_eq!(ops[2], DrawOp::PutGlyph { glyph: ' ' });
    assert_eq!(ops[3], DrawOp::MoveTo { row: 0, col: 2 });
}

#[test]
fn white_cells_render_white() {
    // A leading-white cell renders in the fixed white colour, overriding
    // the stream's stored colour.
    let mut cells = blank_cells(4);
    cells[1] = Block {
        val: 'x',
        white: true,
        color: Color::Green,
    };
    let m = Matrix {
        m: vec![
            Column {
                length: 3,
                spaces: 1,
                cells,
            },
            glyph_column(&[' ', ' ', ' ', ' ']),
        ],
    };
    let mut r = rng(15);
    let c = cfg(false, false);
    let ops = m.draw(&c, &mut r);
    // Row 1 starts with the stored colour of the leftmost cell (green),
    // then the white override fires before the glyph is written.
    assert_eq!(ops[0], DrawOp::SetColor { color: Color::Green });
    assert_eq!(ops[1], DrawOp::MoveTo { row: 0, col: 0 });
    assert_eq!(ops[2], DrawOp::SetColor { color: Color::White });
    assert_eq!(ops[3], DrawOp::PutGlyph { glyph: 'x' });
}

#[test]
fn paused_grid_still_renders() {
    // The caller skips advance while paused but keeps rendering; rendering
    // alone never changes the grid.
    let mut r = rng(16);
    let mut m = Matrix::new(10, 10, &mut r);
    let mut c = cfg(false, false);
    for _ in 0..10 {
        m.arrange(&c, &mut r);
    }
    assert!(!c.handle_keypress('p'));
    assert!(c.pause);
    let frame1 = m.draw(&c, &mut r);
    let frame2 = m.draw(&c, &mut r);
    assert_eq!(frame1, frame2);
}
