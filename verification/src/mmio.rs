//! Memory-mapped register operations, as values.

use vstd::prelude::*;

verus! {

/// One operation on the memory-mapped register space (or a pause between
/// two of them).
#[allow(inconsistent_fields)]
#[derive(Clone, Copy, Debug, PartialEq, Eq, Structural)]
pub enum MmioOp {
    /// Store a byte at `addr`.
    Write8 { addr: usize, value: u8 },
    /// Store a half-word at `addr`.
    Write16 { addr: usize, value: u16 },
    /// Store a word at `addr`.
    Write32 { addr: usize, value: u32 },
    /// Read the word at `addr`, clear the bits of `clear`, set those of `set`,
    /// and store the result back at `addr`.
    Update32 { addr: usize, clear: u32, set: u32 },
    /// Spin for `cycles` iterations of a busy loop.
    Delay { cycles: usize },
}

/// The word that an [`MmioOp::Update32`] with masks `clear` and `set`
/// stores, when the register held `old`.
pub open spec fn updated_word(old: u32, clear: u32, set: u32) -> u32 {
    (old & !clear) | set
}

impl MmioOp {
    /// The word that this operation stores when applied to a register that
    /// held `old`: the update for [`MmioOp::Update32`], the value itself for
    /// the plain stores (widened), and `old` for a pause.
    pub open spec fn result_of(self, old: u32) -> u32 {
        match self {
            MmioOp::Write8 { value, .. } => value as u32,
            MmioOp::Write16 { value, .. } => value as u32,
            MmioOp::Write32 { value, .. } => value,
            MmioOp::Update32 { clear, set, .. } => updated_word(old, clear, set),
            MmioOp::Delay { .. } => old,
        }
    }

    /// Computes the word that this operation stores when the register held
    /// `old`.
    pub fn apply(&self, old: u32) -> (r: u32)
        ensures
            r == self.result_of(old),
    {
        match *self {
            MmioOp::Write8 { value, .. } => value as u32,
            MmioOp::Write16 { value, .. } => value as u32,
            MmioOp::Write32 { value, .. } => value,
            MmioOp::Update32 { clear, set, .. } => (old & !clear) | set,
            MmioOp::Delay { .. } => old,
        }
    }
}

/// Applying the same update twice leaves the register as applying it once:
/// every bit of `set` is set, every bit of `clear` not in `set` is clear, and
/// every other bit keeps its value.
pub proof fn lemma_update_idempotent(old: u32, clear: u32, set: u32)
    ensures
        updated_word(updated_word(old, clear, set), clear, set) == updated_word(old, clear, set),
        updated_word(old, clear, set) & set == set,
        updated_word(old, clear, set) & (clear & !set) == 0,
        updated_word(old, clear, set) & !(clear | set) == old & !(clear | set),
{
    assert(((((old & !clear) | set) & !clear) | set) == ((old & !clear) | set)) by (bit_vector);
    assert(((old & !clear) | set) & set == set) by (bit_vector);
    assert(((old & !clear) | set) & (clear & !set) == 0) by (bit_vector);
    assert(((old & !clear) | set) & !(clear | set) == old & !(clear | set)) by (bit_vector);
}

} // verus!
