//! Verified policy, protocol and timing logic of the Bonanza bridge firmware.
//!
//! - [`safety`]: the local output interlock (lease, trip latch, status encoding).
//! - [`uart_timing`]: timing helpers for the PIO UART and the ASIC RX DMA ring.
//! - [`image_manifest`]: the flash image identity manifest with its CRC-32.
//! - [`info`]: the firmware and protocol identity reported to the host.
//! - [`safety_laws`]: what the interlock guarantees across its operations.
//! - [`status_buffer`]: the fixed-capacity buffer an encoded status travels in.
use vstd::prelude::*;

pub mod image_manifest;
pub mod info;
pub mod safety;
pub mod safety_laws;
pub mod status_buffer;
pub mod uart_timing;

verus! {

/// The two little-endian bytes of `value`.
pub open spec fn le_bytes_u16(value: u16) -> Seq<u8> {
    seq![(value % 0x100) as u8, (value / 0x100) as u8]
}

/// The four little-endian bytes of `value`.
pub open spec fn le_bytes_u32(value: u32) -> Seq<u8> {
    seq![
        (value % 0x100) as u8,
        (value / 0x100 % 0x100) as u8,
        (value / 0x1_0000 % 0x100) as u8,
        (value / 0x100_0000) as u8,
    ]
}

/// The value of the little-endian bytes `bytes[0]`, `bytes[1]`, ...
pub open spec fn le_value(bytes: Seq<u8>) -> int
    decreases bytes.len(),
{
    if bytes.len() == 0 {
        0
    } else {
        bytes[0] + 0x100 * le_value(bytes.drop_first())
    }
}

/// Little-endian bytes read back as the value they encode.
pub proof fn lemma_le_bytes_round_trip(x: u16, y: u32)
    ensures
        le_value(le_bytes_u16(x)) == x,
        le_value(le_bytes_u32(y)) == y,
{
    let b = le_bytes_u16(x);
    assert(b.drop_first().drop_first() =~= Seq::<u8>::empty());
    assert(le_value(b.drop_first()) == b[1] + 0x100 * le_value(b.drop_first().drop_first()));
    assert(le_value(b) == b[0] + 0x100 * b[1]);
    assert(x == x % 0x100 + 0x100 * (x / 0x100)) by (nonlinear_arith);
    let c = le_bytes_u32(y);
    let c1 = c.drop_first();
    let c2 = c1.drop_first();
    let c3 = c2.drop_first();
    assert(c3.drop_first() =~= Seq::<u8>::empty());
    assert(le_value(c3) == c[3]);
    assert(le_value(c2) == c[2] + 0x100 * c[3]);
    assert(le_value(c1) == c[1] + 0x100 * (c[2] + 0x100 * c[3]));
    assert(le_value(c) == c[0] + 0x100 * (c[1] + 0x100 * (c[2] + 0x100 * c[3])));
    assert(y == y % 0x100 + 0x100 * (y / 0x100 % 0x100 + 0x100 * (y / 0x1_0000 % 0x100 + 0x100 * (
    y / 0x100_0000)))) by (nonlinear_arith);
}

} // verus!
