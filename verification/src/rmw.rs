//! The read-modify-write adapter: ordinary overwrite semantics on top of the
//! device emulator.
//!
//! A caller hands it an arbitrary byte range; the adapter visits every erase
//! unit the range overlaps in ascending address order, reads the unit's full
//! current contents into a scratch buffer, overlays the caller's bytes at the
//! right sub-offset, erases the unit and writes the merged buffer back. The
//! device underneath keeps enforcing true NOR semantics; the adapter is
//! purely a client of its public operations.

use vstd::arithmetic::div_mod::{
    lemma_div_pos_is_pos, lemma_fundamental_div_mod, lemma_mod_add_multiples_vanish,
    lemma_mod_division_less_than_divisor, lemma_mod_multiples_basic,
};
use vstd::prelude::*;

use crate::flash::{FlashMock, FlashMockError, erased_vec};
use crate::model::{is_power_of_two, overlay};

verus! {

/// `x` clamped into `[0, n]`.
spec fn clip(x: int, n: int) -> int {
    if x < 0 {
        0
    } else if x > n {
        n
    } else {
        x
    }
}

/// The requests the adapter carries out: the range lies within the device,
/// and (unless it is empty) the page-sized reads and writes the merge issues
/// are themselves aligned, that is, the read and write units divide the
/// erase unit.
pub open spec fn rmw_accepts(
    offset: int,
    len: int,
    read_unit: int,
    write_unit: int,
    erase_unit: int,
    cap: int,
) -> bool {
    &&& offset + len <= cap
    &&& (len == 0 || (erase_unit % read_unit == 0 && erase_unit % write_unit == 0))
}

proof fn lemma_pow2_pos(n: int)
    requires
        is_power_of_two(n),
    ensures
        n >= 1,
{
}

proof fn lemma_align_down(x: int, e: int)
    requires
        x >= 0,
        e > 0,
    ensures
        0 <= (x / e) * e <= x,
        x < (x / e) * e + e,
        ((x / e) * e) % e == 0,
{
    let q = x / e;
    let r0 = x % e;
    lemma_fundamental_div_mod(x, e);
    lemma_mod_division_less_than_divisor(x, e);
    lemma_mod_multiples_basic(q, e);
    lemma_div_pos_is_pos(x, e);
    assert(e * q == q * e) by (nonlinear_arith);
    assert(0 <= q * e) by (nonlinear_arith)
        requires
            0 <= q,
            0 < e,
    ;
    assert(x == q * e + r0);
}

proof fn lemma_aligned_step(x: int, c: int, e: int)
    requires
        e > 0,
        x % e == 0,
        c % e == 0,
        x < c,
    ensures
        x + e <= c,
{
    lemma_fundamental_div_mod(x, e);
    lemma_fundamental_div_mod(c, e);
    let a = x / e;
    let b = c / e;
    assert(a < b) by (nonlinear_arith)
        requires
            e > 0,
            x == e * a,
            c == e * b,
            x < c,
    ;
    assert(x + e <= c) by (nonlinear_arith)
        requires
            e > 0,
            x == e * a,
            c == e * b,
            a < b,
    ;
}

proof fn lemma_mod_chain(x: int, e: int, r: int)
    requires
        e > 0,
        r > 0,
        x % e == 0,
        e % r == 0,
    ensures
        x % r == 0,
{
    lemma_fundamental_div_mod(x, e);
    lemma_fundamental_div_mod(e, r);
    let a = x / e;
    let b = e / r;
    assert(x == (a * b) * r) by (nonlinear_arith)
        requires
            x == e * a,
            e == r * b,
    ;
    lemma_mod_multiples_basic(a * b, r);
}

/// Writes `bytes` at `offset` with ordinary overwrite semantics: afterwards
/// the requested range holds exactly `bytes`, and every other byte of the
/// device — also within the touched erase units — keeps its previous value.
/// The range needs no alignment of its own; the adapter merges it into whole
/// erase units, erasing each before writing it back.
///
/// Fails with `AlignmentOrBounds`, before changing anything, exactly when
/// the device cannot carry the request out: the range reaches past the
/// capacity, or the geometry leaves the merge's own page-aligned reads and
/// writes misaligned (see [`rmw_accepts`]).
pub fn write_merged<const READ_SIZE: usize, const WRITE_SIZE: usize, const ERASE_SIZE: usize>(
    flash: &mut FlashMock<READ_SIZE, WRITE_SIZE, ERASE_SIZE>,
    offset: u32,
    bytes: &Vec<u8>,
) -> (r: Result<(), FlashMockError>)
    requires
        old(flash).wf(),
    ensures
        final(flash).wf(),
        match r {
            Ok(()) => {
                &&& rmw_accepts(
                    offset as int,
                    bytes@.len() as int,
                    READ_SIZE as int,
                    WRITE_SIZE as int,
                    ERASE_SIZE as int,
                    old(flash)@.len() as int,
                )
                &&& final(flash)@ == overlay(old(flash)@, offset as int, bytes@)
            },
            Err(e) => {
                &&& e == FlashMockError::AlignmentOrBounds
                &&& !rmw_accepts(
                    offset as int,
                    bytes@.len() as int,
                    READ_SIZE as int,
                    WRITE_SIZE as int,
                    ERASE_SIZE as int,
                    old(flash)@.len() as int,
                )
                &&& *final(flash) == *old(flash)
            },
        },
{
    let len = bytes.len();
    let cap = flash.capacity();
    if !(offset as usize <= cap && len <= cap - offset as usize) {
        return Err(FlashMockError::AlignmentOrBounds);
    }
    if len == 0 {
        proof {
            assert(flash@ =~= overlay(flash@, offset as int, bytes@));
        }
        return Ok(());
    }
    proof {
        lemma_pow2_pos(READ_SIZE as int);
        lemma_pow2_pos(WRITE_SIZE as int);
        lemma_pow2_pos(ERASE_SIZE as int);
    }
    if !(ERASE_SIZE % READ_SIZE == 0 && ERASE_SIZE % WRITE_SIZE == 0) {
        return Err(FlashMockError::AlignmentOrBounds);
    }
    let end = offset as usize + len;
    proof {
        lemma_align_down(offset as int, ERASE_SIZE as int);
    }
    let mut pstart: usize = (offset as usize / ERASE_SIZE) * ERASE_SIZE;
    let mut buf = erased_vec(ERASE_SIZE);
    proof {
        assert(flash@ =~= overlay(
            old(flash)@,
            offset as int,
            bytes@.take(clip(pstart - offset, len as int)),
        ));
    }
    while pstart < end
        invariant
            flash.wf(),
            flash@.len() == cap,
            cap == old(flash)@.len(),
            bytes@.len() == len,
            0 < len,
            end == offset + len,
            end <= cap,
            READ_SIZE >= 1,
            WRITE_SIZE >= 1,
            ERASE_SIZE >= 1,
            ERASE_SIZE as int % READ_SIZE as int == 0,
            ERASE_SIZE as int % WRITE_SIZE as int == 0,
            pstart as int % ERASE_SIZE as int == 0,
            pstart <= cap,
            offset < pstart + ERASE_SIZE,
            buf@.len() == ERASE_SIZE,
            flash@ == overlay(
                old(flash)@,
                offset as int,
                bytes@.take(clip(pstart - offset, len as int)),
            ),
        decreases cap - pstart,
    {
        proof {
            lemma_aligned_step(pstart as int, cap as int, ERASE_SIZE as int);
            lemma_mod_add_multiples_vanish(pstart as int, ERASE_SIZE as int);
            lemma_mod_chain(pstart as int, ERASE_SIZE as int, READ_SIZE as int);
            lemma_mod_chain(pstart as int, ERASE_SIZE as int, WRITE_SIZE as int);
        }
        let pend = pstart + ERASE_SIZE;
        let ghost prev = flash@;
        match flash.read(pstart as u32, &mut buf) {
            Ok(()) => {},
            Err(e) => {
                proof {
                    assert(false);
                }
                return Err(e);
            },
        }
        let lo = if offset as usize > pstart {
            offset as usize
        } else {
            pstart
        };
        let hi = if end < pend {
            end
        } else {
            pend
        };
        let ghost buf0 = buf@;
        let mut k = lo;
        while k < hi
            invariant
                lo <= k <= hi,
                pstart <= lo,
                offset <= lo,
                hi <= pend,
                hi <= end,
                pend == pstart + ERASE_SIZE,
                end == offset + len,
                bytes@.len() == len,
                buf@.len() == ERASE_SIZE,
                forall|j: int|
                    lo - pstart <= j < k - pstart ==> buf@[j] == bytes@[pstart + j - offset],
                forall|j: int|
                    0 <= j < ERASE_SIZE as int && !(lo - pstart <= j < k - pstart) ==> buf@[j]
                        == buf0[j],
            decreases hi - k,
        {
            buf.set(k - pstart, bytes[k - offset as usize]);
            k = k + 1;
        }
        match flash.erase(pstart as u32, pend as u32) {
            Ok(()) => {},
            Err(e) => {
                proof {
                    assert(false);
                }
                return Err(e);
            },
        }
        match flash.write(pstart as u32, &buf) {
            Ok(()) => {},
            Err(e) => {
                proof {
                    assert(false);
                }
                return Err(e);
            },
        }
        proof {
            let n = len as int;
            let m = clip(pstart - offset, n);
            let m2 = clip(pend - offset, n);
            assert(offset + m == lo);
            assert(offset + m2 == hi);
            assert forall|i: int| 0 <= i < cap implies flash@[i] == overlay(
                old(flash)@,
                offset as int,
                bytes@.take(m2),
            )[i] by {
                if pstart <= i < pend {
                    assert(flash@[i] == buf@[i - pstart]);
                    if !(lo <= i < hi) {
                        assert(buf@[i - pstart] == buf0[i - pstart]);
                        assert(buf0[i - pstart] == prev[i]);
                    }
                } else {
                    assert(flash@[i] == prev[i]);
                }
            }
            assert(flash@ =~= overlay(old(flash)@, offset as int, bytes@.take(m2)));
        }
        pstart = pend;
    }
    proof {
        assert(bytes@.take(clip(pstart - offset, len as int)) =~= bytes@);
    }
    Ok(())
}

} // verus!
