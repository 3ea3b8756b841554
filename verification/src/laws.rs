//! General laws of the device model, proved once and for all contents.

use vstd::prelude::*;

use crate::model::{erase_range, overlay, range_erased};

verus! {

/// Erasing a range is idempotent: erasing `[from, to)` a second time leaves
/// exactly the contents the first erase produced, and either way the range
/// holds only erased-value bytes.
pub proof fn lemma_erase_idempotent(s: Seq<u8>, from: int, to: int)
    requires
        0 <= from <= to <= s.len(),
    ensures
        erase_range(erase_range(s, from, to), from, to) == erase_range(s, from, to),
        range_erased(erase_range(s, from, to), from, to - from),
{
    assert(erase_range(erase_range(s, from, to), from, to) =~= erase_range(s, from, to));
}

/// Write round-trip: writing bytes `b` at `offset` of a freshly erased range
/// and reading the same range back yields exactly `b`.
pub proof fn lemma_write_round_trip(s: Seq<u8>, offset: int, b: Seq<u8>)
    requires
        0 <= offset,
        offset + b.len() <= s.len(),
        range_erased(s, offset, b.len() as int),
    ensures
        overlay(s, offset, b).subrange(offset, offset + b.len()) == b,
{
    assert(overlay(s, offset, b).subrange(offset, offset + b.len()) =~= b);
}

/// Read-modify-write overlay correctness: merging `b` at `k` into contents
/// `p` yields `p[0 .. k] + b + p[k + b.len() .. p.len()]` — the requested
/// range holds exactly `b`, everything around it keeps its previous value.
pub proof fn lemma_overlay_decomposition(p: Seq<u8>, k: int, b: Seq<u8>)
    requires
        0 <= k,
        k + b.len() <= p.len(),
    ensures
        overlay(p, k, b) == p.subrange(0, k) + b + p.subrange(k + b.len(), p.len() as int),
{
    assert(overlay(p, k, b) =~= p.subrange(0, k) + b + p.subrange(k + b.len(), p.len() as int));
}

} // verus!
