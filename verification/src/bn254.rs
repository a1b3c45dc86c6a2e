//! Scalar-field operations of the BN254 curve.
//!
//! The host environment owns the arithmetic; this module states its
//! dispatch contract. A field element travels as a 32-byte little-endian
//! block of operand memory, and `scalar_mul_effect` / `scalar_mac_effect`
//! give the memory contents the environment leaves behind when it completes
//! the corresponding operation. The two contract lemmas show that those
//! effects mean exactly "the written block holds the field product, or the
//! accumulated product, of the operand blocks, and no other byte moves".

use vstd::arithmetic::div_mod::lemma_fundamental_div_mod;
use vstd::arithmetic::div_mod::lemma_multiply_divide_lt;
use vstd::prelude::*;

use crate::memory::store_block;

pub mod scalar;

verus! {

/// `BN254_SCALAR_MUL` syscall ID.
pub const BN254_SCALAR_MUL: u32 = 0x00_01_01_80;

/// `BN254_SCALAR_MAC` syscall ID.
pub const BN254_SCALAR_MAC: u32 = 0x00_01_01_81;

/// Width in bytes of a scalar field element in operand memory.
pub const FR_BYTES: usize = 32;

/// Order of the BN254 scalar field.
pub open spec fn fr_modulus() -> nat {
    21888242871839275222246405745257275088548364400416034343698204186575808495617nat
}

/// Field product of two scalars.
pub open spec fn fr_mul(a: nat, b: nat) -> nat {
    (a * b) % fr_modulus()
}

/// Multiply-accumulate over the scalar field: `r` plus the product of `a`
/// and `b`.
pub open spec fn fr_mac(r: nat, a: nat, b: nat) -> nat {
    (r + a * b) % fr_modulus()
}

/// The value of a byte block read as a little-endian integer.
pub open spec fn le_word(bytes: Seq<u8>) -> nat
    decreases bytes.len(),
{
    if bytes.len() == 0 {
        0
    } else {
        bytes[0] as nat + 256 * le_word(bytes.subrange(1, bytes.len() as int))
    }
}

/// The `n`-byte little-endian block holding the value `v`.
pub open spec fn le_bytes(v: nat, n: nat) -> Seq<u8>
    decreases n,
{
    if n == 0 {
        Seq::empty()
    } else {
        seq![(v % 256) as u8] + le_bytes(v / 256, (n - 1) as nat)
    }
}

/// `256^n`: the number of values an `n`-byte block can hold.
pub open spec fn pow256(n: nat) -> nat
    decreases n,
{
    if n == 0 {
        1nat
    } else {
        256 * pow256((n - 1) as nat)
    }
}

/// A little-endian block always has the requested width.
pub proof fn lemma_le_bytes_len(v: nat, n: nat)
    ensures
        le_bytes(v, n).len() == n,
    decreases n,
{
    if n > 0 {
        lemma_le_bytes_len(v / 256, (n - 1) as nat);
    }
}

/// Reading back an `n`-byte little-endian block recovers every value that
/// fits in `n` bytes.
pub proof fn lemma_le_round_trip(v: nat, n: nat)
    requires
        v < pow256(n),
    ensures
        le_word(le_bytes(v, n)) == v,
    decreases n,
{
    if n == 0 {
        assert(le_bytes(v, 0nat) =~= Seq::<u8>::empty());
    } else {
        let tail = le_bytes(v / 256, (n - 1) as nat);
        let whole = le_bytes(v, n);
        lemma_le_bytes_len(v, n);
        lemma_le_bytes_len(v / 256, (n - 1) as nat);
        assert(whole.subrange(1, whole.len() as int) =~= tail);
        assert(v / 256 < pow256((n - 1) as nat)) by {
            lemma_multiply_divide_lt(v as int, 256, pow256((n - 1) as nat) as int);
        }
        lemma_le_round_trip(v / 256, (n - 1) as nat);
        assert(v == 256 * (v / 256) + v % 256) by {
            lemma_fundamental_div_mod(v as int, 256);
        }
    }
}

/// The scalar stored in the 32-byte block at offset `a` of `mem`.
pub open spec fn fr_at(mem: Seq<u8>, a: int) -> nat {
    le_word(mem.subrange(a, a + FR_BYTES))
}

/// The block at offset `a` holds a canonical field element: a value below
/// the field order.
pub open spec fn fr_valid_at(mem: Seq<u8>, a: int) -> bool {
    &&& 0 <= a
    &&& a + FR_BYTES <= mem.len()
    &&& fr_at(mem, a) < fr_modulus()
}

/// Contents of operand memory after the environment completes
/// scalar-multiply-in-place: the block at `p` is overwritten with the field
/// product of the blocks at `p` and `q`.
pub open spec fn scalar_mul_effect(mem: Seq<u8>, p: int, q: int) -> Seq<u8> {
    store_block(mem, p, le_bytes(fr_mul(fr_at(mem, p), fr_at(mem, q)), FR_BYTES as nat))
}

/// Contents of operand memory after the environment completes
/// scalar-multiply-and-accumulate: the block at `ret` is overwritten with
/// its own value plus the field product of the blocks at `a` and `b`.
pub open spec fn scalar_mac_effect(mem: Seq<u8>, ret: int, a: int, b: int) -> Seq<u8> {
    store_block(
        mem,
        ret,
        le_bytes(fr_mac(fr_at(mem, ret), fr_at(mem, a), fr_at(mem, b)), FR_BYTES as nat),
    )
}

/// The field order fits in a 32-byte block, so every canonical field
/// element survives the little-endian round trip.
pub proof fn lemma_fr_fits()
    ensures
        fr_modulus() < pow256(FR_BYTES as nat),
{
    assert(pow256(32)
        == 115792089237316195423570985008687907853269984665640564039457584007913129639936nat) by {
        reveal_with_fuel(pow256, 33);
    }
}

/// Writing a 32-byte block into memory leaves exactly that scalar readable
/// at the written offset and moves no byte outside the block.
proof fn lemma_store_scalar(mem: Seq<u8>, at: int, v: nat)
    requires
        0 <= at,
        at + FR_BYTES <= mem.len(),
        v < fr_modulus(),
    ensures
        store_block(mem, at, le_bytes(v, FR_BYTES as nat)).len() == mem.len(),
        fr_at(store_block(mem, at, le_bytes(v, FR_BYTES as nat)), at) == v,
        forall|i: int|
            0 <= i < mem.len() && !(at <= i < at + FR_BYTES) ==> store_block(
                mem,
                at,
                le_bytes(v, FR_BYTES as nat),
            )[i] == mem[i],
{
    let block = le_bytes(v, FR_BYTES as nat);
    lemma_le_bytes_len(v, FR_BYTES as nat);
    let out = store_block(mem, at, block);
    assert(out.subrange(at, at + FR_BYTES) =~= block);
    lemma_fr_fits();
    lemma_le_round_trip(v, FR_BYTES as nat);
}

/// Dispatch contract of scalar-multiply-in-place, for every pair of valid,
/// non-overlapping field-element blocks: afterwards the block at `p` holds
/// the field product of the original blocks at `p` and `q`, the block at
/// `q` is unchanged, and so is every byte outside the block at `p`.
pub proof fn lemma_scalar_mul_contract(mem: Seq<u8>, p: int, q: int)
    requires
        fr_valid_at(mem, p),
        fr_valid_at(mem, q),
        p + FR_BYTES <= q || q + FR_BYTES <= p,
    ensures
        scalar_mul_effect(mem, p, q).len() == mem.len(),
        fr_at(scalar_mul_effect(mem, p, q), p) == fr_mul(fr_at(mem, p), fr_at(mem, q)),
        fr_valid_at(scalar_mul_effect(mem, p, q), p),
        scalar_mul_effect(mem, p, q).subrange(q, q + FR_BYTES) == mem.subrange(q, q + FR_BYTES),
        fr_at(scalar_mul_effect(mem, p, q), q) == fr_at(mem, q),
        forall|i: int|
            0 <= i < mem.len() && !(p <= i < p + FR_BYTES) ==> scalar_mul_effect(mem, p, q)[i]
                == mem[i],
{
    let v = fr_mul(fr_at(mem, p), fr_at(mem, q));
    lemma_store_scalar(mem, p, v);
    assert(scalar_mul_effect(mem, p, q).subrange(q, q + FR_BYTES) =~= mem.subrange(
        q,
        q + FR_BYTES,
    ));
}

/// Dispatch contract of scalar-multiply-and-accumulate, for every triple of
/// valid, mutually non-overlapping field-element blocks: afterwards the
/// block at `ret` holds its original value plus the field product of the
/// blocks at `a` and `b`, those two blocks are unchanged, and so is every
/// byte outside the block at `ret`.
pub proof fn lemma_scalar_mac_contract(mem: Seq<u8>, ret: int, a: int, b: int)
    requires
        fr_valid_at(mem, ret),
        fr_valid_at(mem, a),
        fr_valid_at(mem, b),
        ret + FR_BYTES <= a || a + FR_BYTES <= ret,
        ret + FR_BYTES <= b || b + FR_BYTES <= ret,
        a + FR_BYTES <= b || b + FR_BYTES <= a,
    ensures
        scalar_mac_effect(mem, ret, a, b).len() == mem.len(),
        fr_at(scalar_mac_effect(mem, ret, a, b), ret) == fr_mac(
            fr_at(mem, ret),
            fr_at(mem, a),
            fr_at(mem, b),
        ),
        fr_valid_at(scalar_mac_effect(mem, ret, a, b), ret),
        scalar_mac_effect(mem, ret, a, b).subrange(a, a + FR_BYTES) == mem.subrange(
            a,
            a + FR_BYTES,
        ),
        scalar_mac_effect(mem, ret, a, b).subrange(b, b + FR_BYTES) == mem.subrange(
            b,
            b + FR_BYTES,
        ),
        fr_at(scalar_mac_effect(mem, ret, a, b), a) == fr_at(mem, a),
        fr_at(scalar_mac_effect(mem, ret, a, b), b) == fr_at(mem, b),
        forall|i: int|
            0 <= i < mem.len() && !(ret <= i < ret + FR_BYTES) ==> scalar_mac_effect(
                mem,
                ret,
                a,
                b,
            )[i] == mem[i],
{
    let v = fr_mac(fr_at(mem, ret), fr_at(mem, a), fr_at(mem, b));
    lemma_store_scalar(mem, ret, v);
    assert(scalar_mac_effect(mem, ret, a, b).subrange(a, a + FR_BYTES) =~= mem.subrange(
        a,
        a + FR_BYTES,
    ));
    assert(scalar_mac_effect(mem, ret, a, b).subrange(b, b + FR_BYTES) =~= mem.subrange(
        b,
        b + FR_BYTES,
    ));
}

} // verus!
