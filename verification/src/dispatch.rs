//! The dispatch calling convention and the operation catalog.
//!
//! A dispatch hands the host environment one operation identifier and up to
//! two operand words; a ternary operation passes a two-element address list
//! in the second slot. `OpTable` is the catalog active in one
//! configuration, chosen once — the current numbering or the legacy one,
//! never both — and `dispatch_effect` is the contract the environment
//! honours for every call formed against the active catalog.

use vstd::prelude::*;

use crate::bn254;
use crate::memory;

verus! {

/// The second transport slot of a dispatch: a single operand address, or a
/// two-element address list, which is how a ternary operation fits the
/// two-slot convention.
#[derive(Clone, Copy, Debug, PartialEq, Eq, Structural)]
pub enum SecondSlot {
    Addr(usize),
    AddrPair(usize, usize),
}

/// One dispatch into the host environment: the operation identifier in its
/// designated slot and the operand words in the two argument slots.
#[derive(Clone, Copy, Debug, PartialEq, Eq, Structural)]
pub struct SyscallCall {
    pub id: u32,
    pub arg0: usize,
    pub arg1: SecondSlot,
}

/// The operation identifiers active in one configuration.
#[derive(Clone, Copy, Debug, PartialEq, Eq, Structural)]
pub struct OpTable {
    pub scalar_mul: u32,
    pub scalar_mac: u32,
    pub memcpy32: u32,
    pub memcpy64: u32,
}

/// The current numbering of the catalog.
pub open spec fn current_table() -> OpTable {
    OpTable {
        scalar_mul: bn254::BN254_SCALAR_MUL,
        scalar_mac: bn254::BN254_SCALAR_MAC,
        memcpy32: memory::SYSCALL_ID_MEMCPY_32,
        memcpy64: memory::SYSCALL_ID_MEMCPY_64,
    }
}

/// The legacy numbering of the catalog: the scalar operations under their
/// older identifiers, the copy operations unchanged.
pub open spec fn legacy_table() -> OpTable {
    OpTable {
        scalar_mul: bn254::scalar::BN254_SCALAR_MUL,
        scalar_mac: bn254::scalar::BN254_SCALAR_MAC,
        memcpy32: memory::SYSCALL_ID_MEMCPY_32,
        memcpy64: memory::SYSCALL_ID_MEMCPY_64,
    }
}

/// Domain part of an operation identifier: everything above the low byte.
pub open spec fn domain_prefix(id: u32) -> u32 {
    id / 256
}

/// Low byte of an operation identifier, distinguishing operations within a
/// domain.
pub open spec fn op_index(id: u32) -> u32 {
    id % 256
}

impl OpTable {
    /// The identifiers of one configuration never collide: an identifier
    /// names exactly one operation for the lifetime of the build.
    pub open spec fn wf(self) -> bool {
        &&& self.scalar_mul != self.scalar_mac
        &&& self.scalar_mul != self.memcpy32
        &&& self.scalar_mul != self.memcpy64
        &&& self.scalar_mac != self.memcpy32
        &&& self.scalar_mac != self.memcpy64
        &&& self.memcpy32 != self.memcpy64
    }

    /// Select the current numbering. The choice is made once, when the
    /// caller configures itself; no later call revisits it.
    pub fn current() -> (t: OpTable)
        ensures
            t == current_table(),
            t.wf(),
    {
        OpTable {
            scalar_mul: bn254::BN254_SCALAR_MUL,
            scalar_mac: bn254::BN254_SCALAR_MAC,
            memcpy32: memory::SYSCALL_ID_MEMCPY_32,
            memcpy64: memory::SYSCALL_ID_MEMCPY_64,
        }
    }

    /// Select the legacy numbering.
    pub fn legacy() -> (t: OpTable)
        ensures
            t == legacy_table(),
            t.wf(),
    {
        OpTable {
            scalar_mul: bn254::scalar::BN254_SCALAR_MUL,
            scalar_mac: bn254::scalar::BN254_SCALAR_MAC,
            memcpy32: memory::SYSCALL_ID_MEMCPY_32,
            memcpy64: memory::SYSCALL_ID_MEMCPY_64,
        }
    }

    /// Package scalar-multiply-in-place: the mutable operand `p` rides in
    /// the first argument slot, the read-only operand `q` in the second.
    pub fn scalar_mul_call(&self, p: usize, q: usize) -> (c: SyscallCall)
        ensures
            c == (SyscallCall { id: self.scalar_mul, arg0: p, arg1: SecondSlot::Addr(q) }),
    {
        SyscallCall { id: self.scalar_mul, arg0: p, arg1: SecondSlot::Addr(q) }
    }

    /// Package scalar-multiply-and-accumulate: the accumulator `ret` rides
    /// in the first argument slot; the two read-only operands share the
    /// second slot as an address pair.
    pub fn scalar_mac_call(&self, ret: usize, a: usize, b: usize) -> (c: SyscallCall)
        ensures
            c == (SyscallCall { id: self.scalar_mac, arg0: ret, arg1: SecondSlot::AddrPair(a, b) }),
    {
        SyscallCall { id: self.scalar_mac, arg0: ret, arg1: SecondSlot::AddrPair(a, b) }
    }

    /// Package copy-32-bytes: source address first, destination second.
    pub fn memcpy32_call(&self, src: usize, dst: usize) -> (c: SyscallCall)
        ensures
            c == (SyscallCall { id: self.memcpy32, arg0: src, arg1: SecondSlot::Addr(dst) }),
    {
        SyscallCall { id: self.memcpy32, arg0: src, arg1: SecondSlot::Addr(dst) }
    }

    /// Package copy-64-bytes: source address first, destination second.
    pub fn memcpy64_call(&self, src: usize, dst: usize) -> (c: SyscallCall)
        ensures
            c == (SyscallCall { id: self.memcpy64, arg0: src, arg1: SecondSlot::Addr(dst) }),
    {
        SyscallCall { id: self.memcpy64, arg0: src, arg1: SecondSlot::Addr(dst) }
    }
}

/// The contract the host environment honours: the contents of operand
/// memory once it has completed the operation that `c` names under the
/// active catalog `t`. A call whose identifier is outside the catalog, or
/// whose second slot does not fit the named operation's arity, has no
/// contract; the environment is then free, and this model keeps memory
/// still.
pub open spec fn dispatch_effect(t: OpTable, c: SyscallCall, mem: Seq<u8>) -> Seq<u8> {
    if c.id == t.scalar_mul {
        match c.arg1 {
            SecondSlot::Addr(q) => bn254::scalar_mul_effect(mem, c.arg0 as int, q as int),
            SecondSlot::AddrPair(_, _) => mem,
        }
    } else if c.id == t.scalar_mac {
        match c.arg1 {
            SecondSlot::AddrPair(a, b) => bn254::scalar_mac_effect(
                mem,
                c.arg0 as int,
                a as int,
                b as int,
            ),
            SecondSlot::Addr(_) => mem,
        }
    } else if c.id == t.memcpy32 {
        match c.arg1 {
            SecondSlot::Addr(dst) => memory::copy_effect(mem, c.arg0 as int, dst as int, 32),
            SecondSlot::AddrPair(_, _) => mem,
        }
    } else if c.id == t.memcpy64 {
        match c.arg1 {
            SecondSlot::Addr(dst) => memory::copy_effect(mem, c.arg0 as int, dst as int, 64),
            SecondSlot::AddrPair(_, _) => mem,
        }
    } else {
        mem
    }
}

/// Within a single active configuration the operation identifiers are
/// pairwise distinct, whichever numbering was selected.
pub proof fn lemma_active_ids_distinct(t: OpTable)
    requires
        t == current_table() || t == legacy_table(),
    ensures
        t.wf(),
{
}

/// Every identifier of either numbering carries the same domain prefix in
/// its upper bytes, and the low byte sorts the operations into disjoint
/// family sub-ranges: one for the scalar-field operations of each
/// numbering, one for the block-copy operations.
pub proof fn lemma_id_encoding(t: OpTable)
    requires
        t == current_table() || t == legacy_table(),
    ensures
        domain_prefix(t.scalar_mul) == 0x00_01_01,
        domain_prefix(t.scalar_mac) == 0x00_01_01,
        domain_prefix(t.memcpy32) == 0x00_01_01,
        domain_prefix(t.memcpy64) == 0x00_01_01,
        t == current_table() ==> 0x80 <= op_index(t.scalar_mul) < 0x90 && 0x80 <= op_index(
            t.scalar_mac,
        ) < 0x90,
        t == legacy_table() ==> 0x20 <= op_index(t.scalar_mul) < 0x30 && 0x20 <= op_index(
            t.scalar_mac,
        ) < 0x30,
        0x90 <= op_index(t.memcpy32) < 0xA0,
        0x90 <= op_index(t.memcpy64) < 0xA0,
{
}

/// A packaged call that the fallback mode can honour: one of the two
/// block-copy operations, with a single destination address in the second
/// slot and both windows inside the operand memory. Only the copy
/// operations degrade to a local copy; the scalar-field operations have no
/// in-process body in this layer.
pub open spec fn fallback_call_ok(t: OpTable, c: SyscallCall, mem: Seq<u8>) -> bool {
    &&& t.wf()
    &&& (c.id == t.memcpy32 || c.id == t.memcpy64)
    &&& match c.arg1 {
        SecondSlot::Addr(dst) => {
            let n: int = if c.id == t.memcpy32 {
                32
            } else {
                64
            };
            c.arg0 + n <= mem.len() && dst + n <= mem.len()
        },
        SecondSlot::AddrPair(_, _) => false,
    }
}

/// Perform a packaged block-copy call locally instead of handing it to the
/// host environment: the fallback mode, selected once at build
/// configuration time. The memory it leaves behind is exactly
/// `dispatch_effect`, the contents a native dispatch of the same call
/// promises, so the two modes are observably equivalent.
pub fn run_fallback(t: &OpTable, c: &SyscallCall, mem: &mut Vec<u8>)
    requires
        fallback_call_ok(*t, *c, old(mem)@),
    ensures
        final(mem)@ == dispatch_effect(*t, *c, old(mem)@),
{
    match c.arg1 {
        SecondSlot::Addr(dst) => {
            if c.id == t.memcpy32 {
                memory::memcpy32(mem, c.arg0, dst);
            } else {
                memory::memcpy64(mem, c.arg0, dst);
            }
        },
        SecondSlot::AddrPair(_, _) => {
            proof {
                assert(false);
            }
        },
    }
}

/// Under a well-formed catalog a packaged scalar call names exactly its
/// operation, and the environment's contract for it is the corresponding
/// scalar effect: together with the scalar contract lemmas, dispatching
/// `scalar_mul_call(p, q)` leaves the field product of the blocks at `p`
/// and `q` in the block at `p`, and dispatching
/// `scalar_mac_call(ret, a, b)` accumulates the product of the blocks at
/// `a` and `b` into the block at `ret`, the read-only operands unchanged
/// either way.
pub proof fn lemma_scalar_call_dispatches(
    t: OpTable,
    p: usize,
    q: usize,
    ret: usize,
    a: usize,
    b: usize,
    mem: Seq<u8>,
)
    requires
        t.wf(),
    ensures
        dispatch_effect(
            t,
            (SyscallCall { id: t.scalar_mul, arg0: p, arg1: SecondSlot::Addr(q) }),
            mem,
        ) == bn254::scalar_mul_effect(mem, p as int, q as int),
        dispatch_effect(
            t,
            (SyscallCall { id: t.scalar_mac, arg0: ret, arg1: SecondSlot::AddrPair(a, b) }),
            mem,
        ) == bn254::scalar_mac_effect(mem, ret as int, a as int, b as int),
{
}

/// The dispatch contract of a packaged copy call is exactly `copy_effect`,
/// the contract the local fallback copy is proved to meet: native dispatch
/// and fallback mode leave byte-identical destination contents on every
/// valid input.
pub proof fn lemma_copy_call_matches_fallback(t: OpTable, src: usize, dst: usize, mem: Seq<u8>)
    requires
        t.wf(),
    ensures
        dispatch_effect(
            t,
            (SyscallCall { id: t.memcpy32, arg0: src, arg1: SecondSlot::Addr(dst) }),
            mem,
        ) == memory::copy_effect(mem, src as int, dst as int, 32),
        dispatch_effect(
            t,
            (SyscallCall { id: t.memcpy64, arg0: src, arg1: SecondSlot::Addr(dst) }),
            mem,
        ) == memory::copy_effect(mem, src as int, dst as int, 64),
{
}

} // verus!

