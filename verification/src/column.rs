//! One column of the grid: a fixed-height stack of cells together with the
//! stream-generation state, and the per-frame state machine that drives it.
//!
//! Each frame, exactly one of four branches fires for a column, decided by
//! whether the stream head is empty and by the two counters: wait out a gap,
//! start a new stream, extend the running stream, or retire an exhausted
//! stream. A downward-shift policy then moves the glyphs one step.

use vstd::prelude::*;

use crate::block::Block;
use crate::block::Color;
use crate::block::printable;
use crate::config::Config;
use crate::rng::next_u64;
use crate::rng::rand_char;
use crate::rng::coin_flip;
use rand::rngs::SmallRng;

verus! {

/// A stream length drawn from `r`: a value in `[3, lines - 1]`.
pub fn stream_len_from(r: u64, lines: usize) -> (n: usize)
    requires
        lines >= 4,
    ensures
        n == r as int % (lines - 3) + 3,
        3 <= n <= lines - 1,
{
    let m: u64 = (lines - 3) as u64;
    let k = r % m;
    (k as usize) + 3
}

/// A gap length drawn from `r`: a value in `[1, lines]`.
pub fn gap_from(r: u64, lines: usize) -> (n: usize)
    requires
        lines >= 1,
    ensures
        n == r as int % (lines as int) + 1,
        1 <= n <= lines,
{
    let k = r % (lines as u64);
    (k as usize) + 1
}

/// An ordered stack of cells plus the stream-generation counters.
pub struct Column {
    /// How many more glyphs the active stream will emit.
    pub length: usize,
    /// How many idle frames remain before the next stream starts.
    pub spaces: usize,
    /// The cells of the column, head first. Index 0 is the staging slot that
    /// each frame writes and the shift then carries downward.
    pub cells: Vec<Block>,
}

impl Column {
    /// The structural invariant against a grid height `h`: the cell stack
    /// has exactly `h` cells and the two counters stay inside their bands.
    pub open spec fn wf(self, h: int) -> bool {
        &&& self.cells@.len() == h
        &&& h >= 4
        &&& self.length <= h - 1
        &&& self.spaces <= h
    }

    /// Whether the stream head is empty. The head under test is the cell at
    /// index 1: the shift that ends every frame blanks the staging slot at
    /// index 0 and lands the freshly written glyph on index 1.
    pub open spec fn head_empty(self) -> bool {
        self.cells@[1].val == ' '
    }

    /// The steady state between frames: structurally well formed, the
    /// staging slot blank, and a column sitting in a gap always has a
    /// stream of at least 3 glyphs prepared.
    pub open spec fn ready(self, h: int) -> bool {
        &&& self.wf(h)
        &&& self.cells@[0].val == ' '
        &&& (self.head_empty() ==> self.length >= 3)
    }

    /// Branch 1 of the per-frame machine: in a gap with frames still to wait.
    pub open spec fn gap_waiting(self) -> bool {
        self.head_empty() && self.spaces != 0
    }

    /// Branch 2: the gap has run out; a new stream starts this frame.
    pub open spec fn gap_expired(self) -> bool {
        self.head_empty() && self.spaces == 0
    }

    /// Branch 3: a stream is running and still has glyphs to emit.
    pub open spec fn mid_stream(self) -> bool {
        !self.head_empty() && self.length != 0
    }

    /// Branch 4: a stream is running but has no glyphs left.
    pub open spec fn stream_exhausted(self) -> bool {
        !self.head_empty() && self.length == 0
    }

    /// Return a column of `lines` blank cells with freshly drawn counters.
    pub fn new(lines: usize, rng: &mut SmallRng) -> (c: Column)
        requires
            lines >= 4,
        ensures
            c.ready(lines as int),
            c.cells@.len() == lines,
            forall|i: int| 0 <= i < lines ==> c.cells@[i] == Block::spec_default(),
            3 <= c.length <= lines - 1,
            1 <= c.spaces <= lines,
    {
        let length = stream_len_from(next_u64(rng), lines);
        let spaces = gap_from(next_u64(rng), lines);
        let mut cells: Vec<Block> = Vec::new();
        let mut i: usize = 0;
        while i < lines
            invariant
                i <= lines,
                cells@.len() == i,
                forall|k: int| 0 <= k < i ==> cells@[k] == Block::spec_default(),
            decreases lines - i,
        {
            cells.push(Block::default());
            i = i + 1;
        }
        Column { length, spaces, cells }
    }

    /// Return the cell at position `i`.
    pub fn index(&self, i: usize) -> (b: &Block)
        requires
            i < self.cells@.len(),
        ensures
            *b == self.cells@[i as int],
    {
        &self.cells[i]
    }

    /// Return whether the stream head (the cell at index 1) is empty.
    pub fn head_is_empty(&self) -> (r: bool)
        requires
            self.cells@.len() >= 2,
        ensures
            r == self.head_empty(),
    {
        self.cells[1].val == ' '
    }

    /// Write a fresh glyph into the staging slot, continuing the running
    /// stream: the new glyph takes the colour of the current head.
    pub fn new_rand_char(&mut self, rng: &mut SmallRng)
        requires
            old(self).cells@.len() >= 2,
        ensures
            final(self).cells@.len() == old(self).cells@.len(),
            forall|i: int|
                1 <= i < old(self).cells@.len() ==> final(self).cells@[i] == old(self).cells@[i],
            printable(final(self).cells@[0].val),
            final(self).cells@[0].color == old(self).cells@[1].color,
            final(self).cells@[0].white == old(self).cells@[0].white,
            final(self).length == old(self).length,
            final(self).spaces == old(self).spaces,
    {
        let v = rand_char(rng);
        let white = self.cells[0].white;
        let color = self.cells[1].color;
        self.cells.set(0, Block { val: v, white, color });
    }

    /// Seed a brand-new stream in the staging slot: a fresh glyph in the
    /// configured stream colour, white-headed on a coin flip.
    pub fn new_rand_head(&mut self, config: &Config, rng: &mut SmallRng)
        requires
            old(self).cells@.len() >= 1,
        ensures
            final(self).cells@.len() == old(self).cells@.len(),
            forall|i: int|
                1 <= i < old(self).cells@.len() ==> final(self).cells@[i] == old(self).cells@[i],
            printable(final(self).cells@[0].val),
            final(self).cells@[0].color == config.colour,
            final(self).length == old(self).length,
            final(self).spaces == old(self).spaces,
    {
        let v = rand_char(rng);
        let white = coin_flip(rng);
        self.cells.set(0, Block { val: v, white, color: config.colour });
    }

    /// Run one frame of the per-frame state machine on this column,
    /// against grid height `lines`. The four branches are checked in
    /// order and the first match fires.
    pub fn step(&mut self, config: &Config, lines: usize, rng: &mut SmallRng)
        requires
            old(self).ready(lines as int),
        ensures
            step_rel(*old(self), *final(self), config.colour, lines as int),
            final(self).cells@.len() == lines,
    {
        if self.head_is_empty() && self.spaces != 0 {
            // Gap-waiting: burn one idle frame.
            self.spaces = self.spaces - 1;
        } else if self.head_is_empty() && self.spaces == 0 {
            // Gap-expired: start a new stream and draw the next gap.
            self.new_rand_head(config, rng);
            self.length = self.length - 1;
            self.spaces = gap_from(next_u64(rng), lines);
        } else if self.length != 0 {
            // Mid-stream: keep emitting.
            self.new_rand_char(rng);
            self.length = self.length - 1;
        } else {
            // Stream-exhausted: blank the staging slot and draw the next
            // stream length.
            let b = self.cells[0];
            self.cells.set(0, Block { val: ' ', white: b.white, color: b.color });
            self.length = stream_len_from(next_u64(rng), lines);
        }
    }
}

/// The cells below the staging slot are untouched.
pub open spec fn rest_unchanged(pre: Column, post: Column) -> bool {
    &&& post.cells@.len() == pre.cells@.len()
    &&& forall|i: int| 1 <= i < pre.cells@.len() ==> post.cells@[i] == pre.cells@[i]
}

/// What one frame of the per-frame machine does to a column, by branch.
/// Exactly one branch describes the transition, decided by the pre-state.
pub open spec fn step_rel(pre: Column, post: Column, colour: Color, h: int) -> bool {
    if pre.gap_waiting() {
        // Only the gap counter moves.
        &&& post.cells@ == pre.cells@
        &&& post.length == pre.length
        &&& post.spaces == pre.spaces - 1
    } else if pre.gap_expired() {
        // A new head in the configured colour; the gap counter is redrawn
        // into [1, h]; the stream counter ticks down.
        &&& rest_unchanged(pre, post)
        &&& printable(post.cells@[0].val)
        &&& post.cells@[0].color == colour
        &&& post.length == pre.length - 1
        &&& 1 <= post.spaces <= h
    } else if pre.mid_stream() {
        // A fresh glyph continuing the stream in the head's colour.
        &&& rest_unchanged(pre, post)
        &&& printable(post.cells@[0].val)
        &&& post.cells@[0].color == pre.cells@[1].color
        &&& post.cells@[0].white == pre.cells@[0].white
        &&& post.length == pre.length - 1
        &&& post.spaces == pre.spaces
    } else {
        // Stream exhausted: the staging slot goes blank and the stream
        // counter is redrawn into [3, h - 1].
        &&& post.cells@ == pre.cells@.update(
            0,
            (Block { val: ' ', white: pre.cells@[0].white, color: pre.cells@[0].color }),
        )
        &&& 3 <= post.length <= h - 1
        &&& post.spaces == pre.spaces
    }
}

/// The walker state of the default shift policy at one cell: whether the
/// walk is inside a stream, the white flag handed down from the slot above,
/// and the colour the current run carries.
pub struct ShiftState {
    /// Whether the walk stands inside a non-empty run.
    pub in_stream: bool,
    /// The white flag the previous slot handed down.
    pub last_white: bool,
    /// The colour the current run carries forward.
    pub run_color: Color,
}

/// The walker state before the first cell.
pub open spec fn shift_start() -> ShiftState {
    ShiftState { in_stream: false, last_white: false, run_color: Color::Cyan }
}

/// How one original cell advances the walker state.
pub open spec fn shift_step(st: ShiftState, b: Block) -> ShiftState {
    if !st.in_stream && !b.spec_is_space() {
        // Entering a run: remember its colour, hand the cell's white flag on.
        ShiftState { in_stream: true, last_white: b.white, run_color: b.color }
    } else if st.in_stream && b.spec_is_space() {
        // The trailing edge is refilled here; the run ends.
        ShiftState { in_stream: false, last_white: st.last_white, run_color: st.run_color }
    } else {
        ShiftState { in_stream: st.in_stream, last_white: b.white, run_color: st.run_color }
    }
}

/// The walker state before cell `i`, over the original cells `s`.
pub open spec fn shift_state_at(s: Seq<Block>, i: int) -> ShiftState
    decreases i,
{
    if i <= 0 {
        shift_start()
    } else {
        shift_step(shift_state_at(s, i - 1), s[i - 1])
    }
}

/// What the default shift leaves in slot `i`, given the original cells `s`:
/// the first cell of each run is blanked, the empty cell after a run gets a
/// fresh glyph, every slot takes the handed-down white flag, and the whole
/// run is painted in the run's colour.
pub open spec fn shifted_cell_ok(s: Seq<Block>, i: int, nb: Block) -> bool {
    let st = shift_state_at(s, i);
    let b = s[i];
    &&& nb.white == st.last_white
    &&& nb.color == shift_step(st, b).run_color
    &&& (if !st.in_stream && !b.spec_is_space() {
        nb.val == ' '
    } else if st.in_stream && b.spec_is_space() {
        printable(nb.val) && nb.val != ' '
    } else {
        nb.val == b.val
    })
}

/// What the default shift policy does to a column.
pub open spec fn shift_rel(pre: Column, post: Column) -> bool {
    &&& post.cells@.len() == pre.cells@.len()
    &&& forall|i: int| 0 <= i < pre.cells@.len() ==> shifted_cell_ok(pre.cells@, i, post.cells@[i])
    &&& post.length == pre.length
    &&& post.spaces == pre.spaces
}

/// The cells the old-style shift leaves behind: a blank cell enters at the
/// head, every cell moves one slot toward the tail, the tail cell drops.
pub open spec fn old_shifted(s: Seq<Block>) -> Seq<Block> {
    seq![Block::spec_default()] + s.take(s.len() - 1)
}

/// What the old-style shift policy does to a column.
pub open spec fn old_shift_rel(pre: Column, post: Column) -> bool {
    &&& post.cells@ == old_shifted(pre.cells@)
    &&& post.length == pre.length
    &&& post.spaces == pre.spaces
}

impl Column {
    /// The default downward shift: walk the cells from the head, blank the
    /// first cell of each run, refill the first empty cell after it with a
    /// fresh glyph, and carry the run's colour and the white flag forward.
    pub fn move_down(&mut self, rng: &mut SmallRng)
        ensures
            shift_rel(*old(self), *final(self)),
            final(self).cells@.len() == old(self).cells@.len(),
    {
        let ghost orig = self.cells@;
        let mut in_stream = false;
        let mut last_was_white = false;
        let mut running_color = Color::Cyan;
        let n = self.cells.len();
        let mut i: usize = 0;
        while i < n
            invariant
                i <= n,
                n == self.cells@.len(),
                orig.len() == n,
                self.length == old(self).length,
                self.spaces == old(self).spaces,
                in_stream == shift_state_at(orig, i as int).in_stream,
                last_was_white == shift_state_at(orig, i as int).last_white,
                running_color == shift_state_at(orig, i as int).run_color,
                forall|k: int| 0 <= k < i ==> shifted_cell_ok(orig, k, self.cells@[k]),
                forall|k: int| i <= k < n ==> self.cells@[k] == orig[k],
            decreases n - i,
        {
            let b = self.cells[i];
            let mut nb = b;
            if !in_stream {
                if !b.is_space() {
                    // Entering a run: the leading cell is blanked and the
                    // run's colour is picked up.
                    nb.val = ' ';
                    in_stream = true;
                    running_color = b.color;
                }
            } else if b.is_space() {
                // The trailing edge catches up: a fresh glyph lands here.
                nb.val = rand_char(rng);
                nb.white = last_was_white;
                in_stream = false;
            }
            // Hand the white flag one slot down and paint the run's colour.
            let handed = last_was_white;
            last_was_white = nb.white;
            nb.white = handed;
            nb.color = running_color;
            self.cells.set(i, nb);
            i = i + 1;
        }
    }

    /// The old-style downward shift: a literal scroll by one cell.
    pub fn old_style_move_down(&mut self)
        requires
            old(self).cells@.len() >= 1,
        ensures
            old_shift_rel(*old(self), *final(self)),
            final(self).cells@.len() == old(self).cells@.len(),
    {
        let ghost orig = self.cells@;
        let n = self.cells.len();
        let mut i: usize = n - 1;
        while i > 0
            invariant
                i <= n - 1,
                n == self.cells@.len(),
                orig.len() == n,
                self.length == old(self).length,
                self.spaces == old(self).spaces,
                forall|k: int| i < k < n ==> self.cells@[k] == orig[k - 1],
                forall|k: int| 0 <= k <= i ==> self.cells@[k] == orig[k],
            decreases i,
        {
            let v = self.cells[i - 1];
            self.cells.set(i, v);
            i = i - 1;
        }
        self.cells.set(0, Block::default());
        proof {
            assert(self.cells@ =~= seq![Block::spec_default()] + orig.take(orig.len() - 1));
        }
    }
}

/// A frame (one machine step followed by the default shift) keeps a ready
/// column ready.
pub proof fn lemma_step_shift_ready(pre: Column, mid: Column, post: Column, colour: Color, h: int)
    requires
        pre.ready(h),
        step_rel(pre, mid, colour, h),
        shift_rel(mid, post),
    ensures
        post.ready(h),
        post.length == mid.length,
{
    assert(shift_state_at(mid.cells@, 0) == shift_start());
    assert(shift_state_at(mid.cells@, 1) == shift_step(shift_start(), mid.cells@[0]));
    assert(shifted_cell_ok(mid.cells@, 0, post.cells@[0]));
    assert(shifted_cell_ok(mid.cells@, 1, post.cells@[1]));
}

/// A frame (one machine step followed by the old-style shift) keeps a ready
/// column ready.
pub proof fn lemma_step_oldshift_ready(
    pre: Column,
    mid: Column,
    post: Column,
    colour: Color,
    h: int,
)
    requires
        pre.ready(h),
        step_rel(pre, mid, colour, h),
        old_shift_rel(mid, post),
    ensures
        post.ready(h),
        post.length == mid.length,
{
    assert(post.cells@[0] == Block::spec_default());
    assert(post.cells@[1] == mid.cells@[0]);
}

/// Exactly one of the four per-frame branches applies to any column:
/// they are mutually exclusive and together exhaustive.
pub proof fn lemma_branches_exclusive_exhaustive(c: Column)
    ensures
        c.gap_waiting() || c.gap_expired() || c.mid_stream() || c.stream_exhausted(),
        c.gap_waiting() ==> !c.gap_expired() && !c.mid_stream() && !c.stream_exhausted(),
        c.gap_expired() ==> !c.gap_waiting() && !c.mid_stream() && !c.stream_exhausted(),
        c.mid_stream() ==> !c.gap_waiting() && !c.gap_expired() && !c.stream_exhausted(),
        c.stream_exhausted() ==> !c.gap_waiting() && !c.gap_expired() && !c.mid_stream(),
{
}

} // verus!
