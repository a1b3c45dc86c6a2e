use sp1_intrinsics::bn254;
use sp1_intrinsics::bn254::scalar;
use sp1_intrinsics::dispatch::{OpTable, SecondSlot, SyscallCall};
use sp1_intrinsics::memory;

fn patterned(len: usize) -> Vec<u8> {
    let mut v: Vec<u8> = Vec::new();
    let mut i: usize = 0;
    while i < len {
        v.push((i % 251) as u8);
        i += 1;
    }
    v
}

#[test]
fn id_values_current() {
    assert_eq!(bn254::BN254_SCALAR_MUL, 0x00_01_01_80);
    assert_eq!(bn254::BN254_SCALAR_MAC, 0x00_01_01_81);
    assert_eq!(memory::SYSCALL_ID_MEMCPY_32, 0x00_01_01_90);
    assert_eq!(memory::SYSCALL_ID_MEMCPY_64, 0x00_01_01_91);
}

#[test]
fn id_values_legacy() {
    assert_eq!(scalar::BN254_SCALAR_MUL, 0x00_01_01_20);
    assert_eq!(scalar::BN254_SCALAR_MAC, 0x00_01_01_21);
}

#[test]
fn current_ids_pairwise_distinct() {
    let t = OpTable::current();
    let ids = [t.scalar_mul, t.scalar_mac, t.memcpy32, t.memcpy64];
    for i in 0..ids.len() {
        for j in 0..ids.len() {
            if i != j {
                assert_ne!(ids[i], ids[j]);
            }
        }
    }
}

#[test]
fn legacy_ids_pairwise_distinct() {
    let t = OpTable::legacy();
    let ids = [t.scalar_mul, t.scalar_mac, t.memcpy32, t.memcpy64];
    for i in 0..ids.len() {
        for j in 0..ids.len() {
            if i != j {
                assert_ne!(ids[i], ids[j]);
            }
        }
    }
}

#[test]
fn scalar_mul_call_packaging() {
    let t = OpTable::current();
    let c = t.scalar_mul_call(0x1000, 0x2000);
    assert_eq!(c.id, 0x00_01_01_80);
    assert_eq!(c.arg0, 0x1000);
    assert_eq!(c.arg1, SecondSlot::Addr(0x2000));
}

#[test]
fn scalar_mac_call_packaging() {
    let t = OpTable::legacy();
    let c = t.scalar_mac_call(0x1000, 0x2000, 0x3000);
    assert_eq!(c.id, 0x00_01_01_21);
    assert_eq!(c.arg0, 0x1000);
    assert_eq!(c.arg1, SecondSlot::AddrPair(0x2000, 0x3000));
}

#[test]
fn copy_call_packaging() {
    let t = OpTable::current();
    let c32 = t.memcpy32_call(16, 48);
    assert_eq!(c32, SyscallCall { id: 0x00_01_01_90, arg0: 16, arg1: SecondSlot::Addr(48) });
    let c64 = t.memcpy64_call(0, 64);
    assert_eq!(c64, SyscallCall { id: 0x00_01_01_91, arg0: 0, arg1: SecondSlot::Addr(64) });
}

#[test]
fn copy64_disjoint_blocks() {
    // Source block: 64 bytes of 0xAA; destination pre-filled with 0x00.
    let mut mem: Vec<u8> = Vec::new();
    for _ in 0..64 {
        mem.push(0xAA);
    }
    for _ in 0..64 {
        mem.push(0x00);
    }
    memory::memcpy64(&mut mem, 0, 64);
    for i in 0..64 {
        assert_eq!(mem[i], 0xAA, "source byte {} changed", i);
        assert_eq!(mem[64 + i], 0xAA, "destination byte {} not copied", i);
    }
}

#[test]
fn copy32_full_overlap_is_noop() {
    let before = patterned(48);
    let mut mem = before.clone();
    memory::memcpy32(&mut mem, 8, 8);
    assert_eq!(mem, before);
}

#[test]
fn copy64_full_overlap_is_noop() {
    let before = patterned(80);
    let mut mem = before.clone();
    memory::memcpy64(&mut mem, 16, 16);
    assert_eq!(mem, before);
}

#[test]
fn copy32_partial_overlap_forward() {
    // Windows [0, 32) and [16, 48) overlap; the destination must still
    // receive the source window's original bytes.
    let before = patterned(64);
    let mut mem = before.clone();
    memory::memcpy32(&mut mem, 0, 16);
    for i in 0..16 {
        assert_eq!(mem[i], before[i]);
    }
    for i in 0..32 {
        assert_eq!(mem[16 + i], before[i]);
    }
    for i in 48..64 {
        assert_eq!(mem[i], before[i]);
    }
}

#[test]
fn copy32_partial_overlap_backward() {
    // Destination window starts below the source window.
    let before = patterned(64);
    let mut mem = before.clone();
    memory::memcpy32(&mut mem, 24, 8);
    for i in 0..8 {
        assert_eq!(mem[i], before[i]);
    }
    for i in 0..32 {
        assert_eq!(mem[8 + i], before[24 + i]);
    }
    for i in 40..64 {
        assert_eq!(mem[i], before[i]);
    }
}

#[test]
fn copy32_moves_exactly_32_bytes() {
    // Bytes past the 32-byte window stay put: the 32-byte copy is not a
    // 64-byte copy in disguise.
    let before = patterned(128);
    let mut mem = before.clone();
    memory::memcpy32(&mut mem, 0, 64);
    for i in 0..32 {
        assert_eq!(mem[64 + i], before[i]);
    }
    for i in 96..128 {
        assert_eq!(mem[i], before[i]);
    }
}

#[test]
fn fallback_matches_direct_copy() {
    // Running a packaged copy call in fallback mode leaves the same bytes
    // as the copy it names.
    let t = OpTable::current();
    let before = patterned(160);

    let mut via_call = before.clone();
    let c = t.memcpy64_call(32, 64);
    sp1_intrinsics::dispatch::run_fallback(&t, &c, &mut via_call);

    let mut direct = before.clone();
    memory::memcpy64(&mut direct, 32, 64);

    assert_eq!(via_call, direct);

    let mut via_call32 = before.clone();
    let c32 = t.memcpy32_call(100, 10);
    sp1_intrinsics::dispatch::run_fallback(&t, &c32, &mut via_call32);

    let mut direct32 = before.clone();
    memory::memcpy32(&mut direct32, 100, 10);

    assert_eq!(via_call32, direct32);
}
