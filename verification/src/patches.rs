//! Writes into the game's code segment, described as plain values.
use vstd::prelude::*;

verus! {

/// What is written at an offset of the code segment.
#[derive(Clone, Copy, Debug, PartialEq, Eq)]
pub enum PatchWrite {
    /// One 32-bit instruction, given as its four bytes in memory order.
    Word(u8, u8, u8, u8),
    /// A no-op instruction.
    Nop,
}

/// One write into the code segment, at `offset` from its start.
#[derive(Clone, Copy, Debug, PartialEq, Eq)]
pub struct TextPatch {
    pub offset: usize,
    pub write: PatchWrite,
}

pub open spec fn spec_word_patch(offset: usize, b0: u8, b1: u8, b2: u8, b3: u8) -> TextPatch {
    TextPatch { offset, write: PatchWrite::Word(b0, b1, b2, b3) }
}

pub open spec fn spec_nop_patch(offset: usize) -> TextPatch {
    TextPatch { offset, write: PatchWrite::Nop }
}

/// A patch that writes the instruction `b0 b1 b2 b3` at `offset`.
pub fn word_patch(offset: usize, b0: u8, b1: u8, b2: u8, b3: u8) -> (p: TextPatch)
    ensures
        p == spec_word_patch(offset, b0, b1, b2, b3),
{
    TextPatch { offset, write: PatchWrite::Word(b0, b1, b2, b3) }
}

/// A patch that writes a no-op at `offset`.
pub fn nop_patch(offset: usize) -> (p: TextPatch)
    ensures
        p == spec_nop_patch(offset),
{
    TextPatch { offset, write: PatchWrite::Nop }
}

} // verus!
