//! Fixed-size memory block transfer.
//!
//! Operand memory is modelled as a flat byte vector; an operand address is
//! an offset into it. `copy_effect` is the dispatch contract of the two
//! block-copy operations: the bytes the host environment leaves behind when
//! it completes a native copy. `memcpy32` and `memcpy64` are the local
//! fallback bodies, proved to produce exactly `copy_effect`, so the two
//! modes agree byte for byte on every placement of the blocks, overlapping
//! placements included.

use vstd::prelude::*;

verus! {

/// `MEMCPY_32` syscall ID.
pub const SYSCALL_ID_MEMCPY_32: u32 = 0x00_01_01_90;

/// `MEMCPY_64` syscall ID.
pub const SYSCALL_ID_MEMCPY_64: u32 = 0x00_01_01_91;

/// `mem` with the `block.len()` bytes starting at `at` replaced by `block`;
/// every byte outside that window keeps its value.
pub open spec fn store_block(mem: Seq<u8>, at: int, block: Seq<u8>) -> Seq<u8> {
    Seq::new(
        mem.len(),
        |i: int|
            if at <= i < at + block.len() {
                block[i - at]
            } else {
                mem[i]
            },
    )
}

/// Contents of `mem` once `n` bytes have moved from offset `src` to offset
/// `dst`: the destination window holds the source window's original bytes,
/// everything else is untouched. The source bytes are read before any byte
/// of the destination is written, so the definition is indifferent to how
/// the two windows overlap.
pub open spec fn copy_effect(mem: Seq<u8>, src: int, dst: int, n: int) -> Seq<u8> {
    store_block(mem, dst, mem.subrange(src, src + n))
}

/// For every placement of the two windows — disjoint, partly overlapping
/// or coincident — a copy leaves the destination window byte-identical to
/// the source window's original contents, keeps the length, and moves no
/// byte outside the destination window.
pub proof fn lemma_copy_destination(mem: Seq<u8>, src: int, dst: int, n: int)
    requires
        0 <= n,
        0 <= src,
        src + n <= mem.len(),
        0 <= dst,
        dst + n <= mem.len(),
    ensures
        copy_effect(mem, src, dst, n).len() == mem.len(),
        copy_effect(mem, src, dst, n).subrange(dst, dst + n) == mem.subrange(src, src + n),
        forall|i: int|
            0 <= i < mem.len() && !(dst <= i < dst + n) ==> copy_effect(mem, src, dst, n)[i]
                == mem[i],
{
    assert(copy_effect(mem, src, dst, n).subrange(dst, dst + n) =~= mem.subrange(src, src + n));
}

/// A copy onto itself moves every byte to the place it already occupies:
/// under full overlap the memory is unchanged.
pub proof fn lemma_copy_full_overlap(mem: Seq<u8>, at: int, n: int)
    requires
        0 <= at,
        0 <= n,
        at + n <= mem.len(),
    ensures
        copy_effect(mem, at, at, n) == mem,
{
    assert(copy_effect(mem, at, at, n) =~= mem);
}

/// The destination window after a copy is a function of the source window's
/// contents alone: two copies moving identical bytes leave identical
/// destination contents, wherever the windows sit and whatever mode — local
/// fallback or native dispatch — performed them.
pub proof fn lemma_copy_determined_by_source(
    mem1: Seq<u8>,
    src1: int,
    dst1: int,
    mem2: Seq<u8>,
    src2: int,
    dst2: int,
    n: int,
)
    requires
        0 <= n,
        0 <= src1,
        src1 + n <= mem1.len(),
        0 <= dst1,
        dst1 + n <= mem1.len(),
        0 <= src2,
        src2 + n <= mem2.len(),
        0 <= dst2,
        dst2 + n <= mem2.len(),
        mem1.subrange(src1, src1 + n) == mem2.subrange(src2, src2 + n),
    ensures
        copy_effect(mem1, src1, dst1, n).subrange(dst1, dst1 + n) == copy_effect(
            mem2,
            src2,
            dst2,
            n,
        ).subrange(dst2, dst2 + n),
{
    let out1 = copy_effect(mem1, src1, dst1, n).subrange(dst1, dst1 + n);
    let out2 = copy_effect(mem2, src2, dst2, n).subrange(dst2, dst2 + n);
    assert forall|i: int| 0 <= i < n implies out1[i] == out2[i] by {
        assert(out1[i] == mem1[src1 + i]);
        assert(mem1.subrange(src1, src1 + n)[i] == mem1[src1 + i]);
        assert(mem2.subrange(src2, src2 + n)[i] == mem2[src2 + i]);
    }
    assert(out1 =~= out2);
}

/// Move `n` bytes from offset `src` to offset `dst` of `mem`, tolerating any
/// overlap of the two windows: the whole source window is read into a
/// scratch buffer before the first destination byte is written.
fn copy_block(mem: &mut Vec<u8>, src: usize, dst: usize, n: usize)
    requires
        src + n <= old(mem).len(),
        dst + n <= old(mem).len(),
    ensures
        final(mem)@ == copy_effect(old(mem)@, src as int, dst as int, n as int),
{
    let mut buf: Vec<u8> = Vec::new();
    let mut i: usize = 0;
    while i < n
        invariant
            i <= n,
            src + n <= mem.len(),
            dst + n <= mem.len(),
            mem@ == old(mem)@,
            buf@ == old(mem)@.subrange(src as int, src + i),
        decreases n - i,
    {
        let b = mem[src + i];
        buf.push(b);
        proof {
            assert(buf@ =~= old(mem)@.subrange(src as int, src + i + 1));
        }
        i += 1;
    }
    let m = mem.len();
    let mut j: usize = 0;
    while j < n
        invariant
            j <= n,
            src + n <= old(mem)@.len(),
            dst + n <= m,
            m == mem@.len(),
            mem@.len() == old(mem)@.len(),
            buf@.len() == n,
            buf@ == old(mem)@.subrange(src as int, src + n),
            forall|k: int| 0 <= k < j ==> mem@[#[trigger] (dst + k)] == old(mem)@[src + k],
            forall|k: int|
                0 <= k < mem@.len() && !(dst <= k < dst + j) ==> mem@[k] == old(mem)@[k],
        decreases n - j,
    {
        let b = buf[j];
        mem.set(dst + j, b);
        proof {
            assert(b == old(mem)@.subrange(src as int, src + n)[j as int]);
            assert(old(mem)@.subrange(src as int, src + n)[j as int] == old(mem)@[src + j]);
            assert(mem@[dst + j as int] == b);
        }
        j += 1;
    }
    proof {
        let out = copy_effect(old(mem)@, src as int, dst as int, n as int);
        assert forall|i: int| 0 <= i < mem@.len() implies mem@[i] == out[i] by {
            if dst <= i < dst + n {
                let k = i - dst;
                assert(mem@[dst + k] == old(mem)@[src + k]);
            }
        }
        assert(mem@ =~= out);
    }
}

/// Create a 32-byte bitwise copy from offset `src` to offset `dst`; the two
/// windows may overlap in any way. This is the local fallback body of the
/// `MEMCPY_32` operation, and it meets the same contract the host
/// environment promises for a native dispatch of that identifier.
pub fn memcpy32(mem: &mut Vec<u8>, src: usize, dst: usize)
    requires
        src + 32 <= old(mem).len(),
        dst + 32 <= old(mem).len(),
    ensures
        final(mem)@ == copy_effect(old(mem)@, src as int, dst as int, 32),
{
    copy_block(mem, src, dst, 32);
}

/// Create a 64-byte bitwise copy from offset `src` to offset `dst`; the two
/// windows may overlap in any way. This is the local fallback body of the
/// `MEMCPY_64` operation, and it meets the same contract the host
/// environment promises for a native dispatch of that identifier.
pub fn memcpy64(mem: &mut Vec<u8>, src: usize, dst: usize)
    requires
        src + 64 <= old(mem).len(),
        dst + 64 <= old(mem).len(),
    ensures
        final(mem)@ == copy_effect(old(mem)@, src as int, dst as int, 64),
{
    copy_block(mem, src, dst, 64);
}

} // verus!
