//! The per-tick output frame.
//!
//! Effects write colors at output-device coordinates — either a row/column
//! grid position on the keyboard matrix or a named logical key.  A frame is
//! built fresh each tick, collects writes in application order, and is
//! committed atomically at the end of the tick; within one tick the last
//! write at a coordinate wins.

use vstd::prelude::*;

verus! {

/// Number of rows of the keyboard grid.
pub const MAX_ROW: u8 = 6;

/// Number of columns of the keyboard grid.
pub const MAX_COLUMN: u8 = 22;

/// An 8-bit-per-channel color.
#[derive(Clone, Copy, Debug, PartialEq, Eq, Structural)]
pub struct Rgb {
    pub r: u8,
    pub g: u8,
    pub b: u8,
}

/// The named logical keys a discrete effect can illuminate: the numeric
/// keypad digits and the number row.
#[derive(Clone, Copy, Debug, PartialEq, Eq, Structural)]
pub enum Key {
    Numpad1,
    Numpad2,
    Numpad3,
    Numpad4,
    Numpad5,
    Numpad6,
    Numpad7,
    Numpad8,
    Numpad9,
    Row1,
    Row2,
    Row3,
    Row4,
    Row5,
    Row6,
    Row7,
    Row8,
    Row9,
    Row0,
}

/// One output-device coordinate.
#[derive(Clone, Copy, Debug, PartialEq, Eq, Structural)]
pub enum Target {
    /// An explicit grid position.
    Grid { row: u8, column: u8 },
    /// A named logical key.
    Named(Key),
}

/// One coordinate/color write into the frame.
#[derive(Clone, Copy, Debug, PartialEq, Eq, Structural)]
pub struct ChromaWrite {
    pub target: Target,
    pub color: Rgb,
}

/// Timing information for one tick: the current wall-clock instant and the
/// time elapsed since the previous tick, both in milliseconds.  The first
/// tick of a run has no elapsed value.
#[derive(Clone, Copy, Debug, PartialEq, Eq, Structural)]
pub struct Tick {
    pub now: u64,
    pub elapsed: Option<u64>,
}

/// The frame under construction for the current tick: the ordered sequence
/// of writes the effects have made so far.
pub struct ChromaState {
    writes: Vec<ChromaWrite>,
}

impl View for ChromaState {
    type V = Seq<ChromaWrite>;

    closed spec fn view(&self) -> Seq<ChromaWrite> {
        self.writes@
    }
}

/// The committed meaning of a frame: coordinate by coordinate, the color of
/// the last write made there.
pub open spec fn spec_frame_map(writes: Seq<ChromaWrite>) -> Map<Target, Rgb>
    decreases writes.len(),
{
    if writes.len() == 0 {
        Map::empty()
    } else {
        spec_frame_map(writes.drop_last()).insert(writes.last().target, writes.last().color)
    }
}

/// Within one tick the last write at a coordinate wins: one more write
/// overrides exactly its own coordinate in the committed frame.
pub proof fn lemma_frame_last_write_wins(writes: Seq<ChromaWrite>, w: ChromaWrite)
    ensures
        spec_frame_map(writes.push(w)) == spec_frame_map(writes).insert(w.target, w.color),
{
    assert(writes.push(w).drop_last() =~= writes);
}

impl ChromaState {
    /// A fresh, empty frame; previous-tick colors never persist.
    pub fn new() -> (r: ChromaState)
        ensures
            r@ == Seq::<ChromaWrite>::empty(),
    {
        ChromaState { writes: Vec::new() }
    }

    /// Writes `color` at an explicit grid position.
    pub fn set_position(&mut self, row: u8, column: u8, color: Rgb)
        ensures
            final(self)@ == old(self)@.push(ChromaWrite { target: Target::Grid { row, column }, color }),
    {
        self.writes.push(ChromaWrite { target: Target::Grid { row, column }, color });
    }

    /// Writes `color` at a named logical key.
    pub fn set_key(&mut self, key: Key, color: Rgb)
        ensures
            final(self)@ == old(self)@.push(ChromaWrite { target: Target::Named(key), color }),
    {
        self.writes.push(ChromaWrite { target: Target::Named(key), color });
    }

    /// Finishes the frame, yielding the writes in application order for the
    /// output device to commit atomically.
    pub fn apply(self) -> (r: Vec<ChromaWrite>)
        ensures
            r@ == self@,
    {
        self.writes
    }
}

} // verus!
