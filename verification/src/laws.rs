//! General theorems about the animation engine, stated and proved against
//! the contracts of the column machine and the two shift policies.

use vstd::prelude::*;

use crate::block::Block;
use crate::column::Column;
use crate::column::old_shifted;
use crate::column::shift_rel;
use crate::column::shift_state_at;
use crate::column::shift_step;
use crate::column::shifted_cell_ok;
use crate::column::step_rel;
use crate::config::Config;
use crate::matrix::Matrix;
use crate::matrix::advanced;

verus! {

/// The cells of a column after `k` old-style shifts.
pub open spec fn old_shifted_n(s: Seq<Block>, k: nat) -> Seq<Block>
    decreases k,
{
    if k == 0 {
        s
    } else {
        old_shifted(old_shifted_n(s, (k - 1) as nat))
    }
}

/// The old-style shift is a pure rotation through blanks: after `k` shifts
/// the topmost `k` cells are blank and every other cell is the cell that
/// stood `k` slots above it. In particular, one shift is exactly "insert an
/// empty cell at the head, drop the tail cell".
pub proof fn lemma_old_style_rotation(s: Seq<Block>, k: nat)
    requires
        s.len() >= 1,
        k <= s.len(),
    ensures
        old_shifted_n(s, k).len() == s.len(),
        forall|i: int| 0 <= i < k ==> old_shifted_n(s, k)[i] == Block::spec_default(),
        forall|i: int| k <= i < s.len() ==> old_shifted_n(s, k)[i] == s[i - k],
    decreases k,
{
    if k > 0 {
        lemma_old_style_rotation(s, (k - 1) as nat);
    }
}

/// Applying the old-style shift `height` times returns every column to the
/// all-empty state, whatever it held before.
pub proof fn lemma_old_style_full_rotation(s: Seq<Block>)
    requires
        s.len() >= 1,
    ensures
        old_shifted_n(s, s.len()).len() == s.len(),
        forall|i: int|
            0 <= i < s.len() ==> old_shifted_n(s, s.len())[i] == Block::spec_default(),
{
    lemma_old_style_rotation(s, s.len());
}

/// How many cells of `s` are non-empty.
pub open spec fn count_nonempty(s: Seq<Block>) -> int
    decreases s.len(),
{
    if s.len() == 0 {
        0
    } else {
        count_nonempty(s.drop_last()) + (if s.last().spec_is_space() {
            0int
        } else {
            1int
        })
    }
}

/// The running balance of the default shift walk: over any prefix, the
/// shifted cells hold one glyph fewer than the originals exactly while the
/// walk stands inside a run (its leading glyph is blanked first and only
/// refilled one slot below the run).
proof fn lemma_shift_count_prefix(s: Seq<Block>, t: Seq<Block>, p: int)
    requires
        s.len() == t.len(),
        0 <= p <= s.len(),
        forall|i: int| 0 <= i < s.len() ==> shifted_cell_ok(s, i, #[trigger] t[i]),
    ensures
        count_nonempty(t.take(p)) == count_nonempty(s.take(p)) + (if shift_state_at(
            s,
            p,
        ).in_stream {
            -1int
        } else {
            0int
        }),
    decreases p,
{
    if p == 0 {
        assert(s.take(0) =~= Seq::<Block>::empty());
        assert(t.take(0) =~= Seq::<Block>::empty());
    } else {
        lemma_shift_count_prefix(s, t, p - 1);
        assert(s.take(p).drop_last() =~= s.take(p - 1));
        assert(t.take(p).drop_last() =~= t.take(p - 1));
        assert(shifted_cell_ok(s, p - 1, t[p - 1]));
        assert(shift_state_at(s, p) == shift_step(shift_state_at(s, p - 1), s[p - 1]));
    }
}

/// The default shift preserves the number of non-empty cells of a column
/// whose tail cell is empty: glyphs move, none are created or destroyed.
/// (A run touching the tail is the one transition that loses its leading
/// glyph off the bottom edge.)
pub proof fn lemma_move_down_preserves_count(pre: Column, post: Column)
    requires
        shift_rel(pre, post),
        pre.cells@.len() >= 1,
        pre.cells@.last().spec_is_space(),
    ensures
        count_nonempty(post.cells@) == count_nonempty(pre.cells@),
{
    let s = pre.cells@;
    let t = post.cells@;
    let n = s.len() as int;
    lemma_shift_count_prefix(s, t, n);
    assert(shift_state_at(s, n) == shift_step(shift_state_at(s, n - 1), s[n - 1]));
    assert(!shift_state_at(s, n).in_stream);
    assert(s.take(n) =~= s);
    assert(t.take(n) =~= t);
}

/// How many cells of the whole grid are non-empty.
pub open spec fn total_nonempty(cols: Seq<Column>) -> int
    decreases cols.len(),
{
    if cols.len() == 0 {
        0
    } else {
        total_nonempty(cols.drop_last()) + count_nonempty(cols.last().cells@)
    }
}

/// The default shift preserves the grid's total number of non-empty cells
/// when no column has a run touching its tail cell.
pub proof fn lemma_grid_count_preserved(pre: Seq<Column>, post: Seq<Column>)
    requires
        pre.len() == post.len(),
        forall|j: int| 0 <= j < pre.len() ==> shift_rel(#[trigger] pre[j], post[j]),
        forall|j: int| 0 <= j < pre.len() ==> (#[trigger] pre[j]).cells@.len() >= 1,
        forall|j: int| 0 <= j < pre.len() ==> (#[trigger] pre[j]).cells@.last().spec_is_space(),
    ensures
        total_nonempty(post) == total_nonempty(pre),
    decreases pre.len(),
{
    if pre.len() > 0 {
        assert(pre.drop_last().len() == post.drop_last().len());
        lemma_grid_count_preserved(pre.drop_last(), post.drop_last());
        lemma_move_down_preserves_count(pre.last(), post.last());
    }
}

/// The stream and gap counters never leave their bands across a frame: both
/// stay non-negative and within the height, and at their reset points they
/// land in `[3, height - 1]` (stream) and `[1, height]` (gap).
pub proof fn lemma_counters_in_band(pre: Column, post: Column, cfg: Config, h: int)
    requires
        pre.ready(h),
        advanced(pre, post, cfg, h),
    ensures
        0 <= post.length <= h - 1,
        0 <= post.spaces <= h,
        pre.gap_expired() ==> 1 <= post.spaces <= h,
        pre.stream_exhausted() ==> 3 <= post.length <= h - 1,
{
    let mid = choose|mid: Column|
        #[trigger] step_rel(pre, mid, cfg.colour, h) && (if cfg.oldstyle {
            crate::column::old_shift_rel(mid, post)
        } else {
            shift_rel(mid, post)
        });
}

/// Every frame of the whole grid keeps every counter of every column in
/// band.
pub proof fn lemma_grid_counters_in_band(pre: Matrix, post: Matrix, cfg: Config)
    requires
        pre.wf(),
        pre.m@.len() == post.m@.len(),
        forall|j: int|
            0 <= j < pre.m@.len() ==> advanced(pre.m@[j], #[trigger] post.m@[j], cfg, pre.height()),
    ensures
        forall|j: int|
            0 <= j < post.m@.len() ==> 0 <= (#[trigger] post.m@[j]).length <= pre.height() - 1
                && 0 <= post.m@[j].spaces <= pre.height(),
{
    assert forall|j: int|
        0 <= j < post.m@.len() implies 0 <= (#[trigger] post.m@[j]).length <= pre.height() - 1
        && 0 <= post.m@[j].spaces <= pre.height() by {
        lemma_counters_in_band(pre.m@[j], post.m@[j], cfg, pre.height());
    }
}

} // verus!
