//! The fixed 96-byte image identity manifest embedded in flash, checked by
//! the host before it reprograms the bridge.
use vstd::prelude::*;
use vstd::string::StringSliceAdditionalSpecFns;

use crate::{le_bytes_u32, le_value, lemma_le_bytes_round_trip};
use crate::info::{FIRMWARE_VERSION, PROTOCOL_MAJOR, PROTOCOL_MINOR, VERSION_MAX_LENGTH};

verus! {

pub const MANIFEST_MAGIC: [u8; 16] = [
    0x42, 0x5a, 0x4d, 0x2d, 0x42, 0x52, 0x49, 0x44, 0x47, 0x45, 0x2d, 0x46, 0x57, 0x00, 0x00, 0x00,
];

pub const MANIFEST_SCHEMA_VERSION: u8 = 1;

pub const MANIFEST_SIZE: usize = 96;

pub const MANIFEST_CRC_OFFSET: usize = MANIFEST_SIZE - 4;

pub const TARGET_BOARD_VERSION: u16 = 1002;

pub const FIRMWARE_KIND_BRIDGE: u8 = 1;

pub const VERSION_OFFSET: usize = 24;

pub const VERSION_CAPACITY: usize = 64;

/// The reflected CRC-32 polynomial.
pub const CRC32_POLYNOMIAL: u32 = 0xedb8_8320;

/// One bit of the reflected CRC-32 shift register.
pub open spec fn crc32_bit_step(crc: u32) -> u32 {
    if crc & 1 == 1 {
        (crc >> 1) ^ CRC32_POLYNOMIAL
    } else {
        crc >> 1
    }
}

/// `bits` steps of the shift register.
pub open spec fn crc32_shift(crc: u32, bits: nat) -> u32
    decreases bits,
{
    if bits == 0 {
        crc
    } else {
        crc32_shift(crc32_bit_step(crc), (bits - 1) as nat)
    }
}

/// The CRC-32 register after `bytes`, starting from all ones.
pub open spec fn crc32_register(bytes: Seq<u8>) -> u32
    decreases bytes.len(),
{
    if bytes.len() == 0 {
        0xffff_ffff
    } else {
        crc32_shift(crc32_register(bytes.drop_last()) ^ (bytes.last() as u32), 8)
    }
}

/// The CRC-32 (IEEE 802.3) of `bytes`: the final register, inverted.
pub open spec fn crc32_of(bytes: Seq<u8>) -> u32 {
    !crc32_register(bytes)
}

/// Eight steps of the shift register, written out.
pub open spec fn crc32_eight_steps(crc: u32) -> u32 {
    crc32_bit_step(
        crc32_bit_step(
            crc32_bit_step(
                crc32_bit_step(
                    crc32_bit_step(crc32_bit_step(crc32_bit_step(crc32_bit_step(crc)))),
                ),
            ),
        ),
    )
}

/// The register after `bytes` followed by `byte`: eight steps from the
/// previous register XOR the byte.
proof fn lemma_crc32_register_push(bytes: Seq<u8>, byte: u8)
    ensures
        crc32_register(bytes.push(byte)) == crc32_eight_steps(crc32_register(bytes) ^ (byte as u32)),
{
    assert(bytes.push(byte).drop_last() =~= bytes);
    reveal_with_fuel(crc32_shift, 9);
}

/// Each appended byte enters the CRC register through its low eight bits
/// only: the register after `bytes` followed by `byte` is eight shift steps
/// of the previous register XOR the byte's value (below 256), which leaves
/// the upper 24 bits of the previous register in place before the shifts.
/// The standard IEEE check values hold: the empty input gives 0,
/// `"123456789"` gives `0xcbf43926`, `[0x80]` gives `0x3fba6cad` and `[0xea]`
/// gives `0x92dde4eb`.
pub proof fn lemma_crc32_is_the_ieee_crc(bytes: Seq<u8>, byte: u8)
    ensures
        crc32_register(bytes.push(byte)) == crc32_shift(crc32_register(bytes) ^ (byte as u32), 8),
        (byte as u32) < 0x100,
        (crc32_register(bytes) ^ (byte as u32)) >> 8 == crc32_register(bytes) >> 8,
        crc32_of(Seq::<u8>::empty()) == 0,
        crc32_of(seq![0x31u8, 0x32, 0x33, 0x34, 0x35, 0x36, 0x37, 0x38, 0x39]) == 0xcbf4_3926,
        crc32_of(seq![0x80u8]) == 0x3fba_6cad,
        crc32_of(seq![0xeau8]) == 0x92dd_e4eb,
{
    assert(bytes.push(byte).drop_last() =~= bytes);
    let r = crc32_register(bytes);
    let b = byte as u32;
    assert((r ^ b) >> 8 == r >> 8) by (bit_vector)
        requires
            b < 0x100,
    ;
    assert(!0xffff_ffffu32 == 0u32) by (bit_vector);

    let e = Seq::<u8>::empty();
    lemma_crc32_register_push(e, 0x80);
    assert(e.push(0x80) =~= seq![0x80u8]);
    assert(!crc32_eight_steps(0xffff_ffffu32 ^ 0x80u32) == 0x3fba_6cadu32) by (bit_vector);
    lemma_crc32_register_push(e, 0xea);
    assert(e.push(0xea) =~= seq![0xeau8]);
    assert(!crc32_eight_steps(0xffff_ffffu32 ^ 0xeau32) == 0x92dd_e4ebu32) by (bit_vector);

    let check = seq![0x31u8, 0x32, 0x33, 0x34, 0x35, 0x36, 0x37, 0x38, 0x39];
    assert(crc32_eight_steps(0xffff_ffffu32 ^ 0x31u32) == 0x7c23_1048u32) by (bit_vector);
    assert(crc32_eight_steps(0x7c23_1048u32 ^ 0x32u32) == 0xb0ac_bb32u32) by (bit_vector);
    assert(crc32_eight_steps(0xb0ac_bb32u32 ^ 0x33u32) == 0x77b7_9c2du32) by (bit_vector);
    assert(crc32_eight_steps(0x77b7_9c2du32 ^ 0x34u32) == 0x641c_1f5cu32) by (bit_vector);
    assert(crc32_eight_steps(0x641c_1f5cu32 ^ 0x35u32) == 0x340a_c5e3u32) by (bit_vector);
    assert(crc32_eight_steps(0x340a_c5e3u32 ^ 0x36u32) == 0xf68d_2c9eu32) by (bit_vector);
    assert(crc32_eight_steps(0xf68d_2c9eu32 ^ 0x37u32) == 0xaffc_9660u32) by (bit_vector);
    assert(crc32_eight_steps(0xaffc_9660u32 ^ 0x38u32) == 0x651f_2550u32) by (bit_vector);
    assert(crc32_eight_steps(0x651f_2550u32 ^ 0x39u32) == 0x340b_c6d9u32) by (bit_vector);
    assert(check.take(0) =~= Seq::<u8>::empty());
    lemma_crc32_register_push(check.take(0), check[0]);
    assert(check.take(0).push(check[0]) =~= check.take(1));
    lemma_crc32_register_push(check.take(1), check[1]);
    assert(check.take(1).push(check[1]) =~= check.take(2));
    lemma_crc32_register_push(check.take(2), check[2]);
    assert(check.take(2).push(check[2]) =~= check.take(3));
    lemma_crc32_register_push(check.take(3), check[3]);
    assert(check.take(3).push(check[3]) =~= check.take(4));
    lemma_crc32_register_push(check.take(4), check[4]);
    assert(check.take(4).push(check[4]) =~= check.take(5));
    lemma_crc32_register_push(check.take(5), check[5]);
    assert(check.take(5).push(check[5]) =~= check.take(6));
    lemma_crc32_register_push(check.take(6), check[6]);
    assert(check.take(6).push(check[6]) =~= check.take(7));
    lemma_crc32_register_push(check.take(7), check[7]);
    assert(check.take(7).push(check[7]) =~= check.take(8));
    lemma_crc32_register_push(check.take(8), check[8]);
    assert(check.take(8).push(check[8]) =~= check.take(9));
    assert(check.take(9) =~= check);
    assert(!0x340b_c6d9u32 == 0xcbf4_3926u32) by (bit_vector);
}

/// The CRC-32 of the first `length` bytes of `bytes`.
pub fn crc32(bytes: &[u8], length: usize) -> (crc: u32)
    requires
        length <= bytes@.len(),
    ensures
        crc == crc32_of(bytes@.take(length as int)),
{
    let mut crc = 0xffff_ffffu32;
    let mut index: usize = 0;
    while index < length
        invariant
            index <= length <= bytes@.len(),
            crc == crc32_register(bytes@.take(index as int)),
        decreases length - index,
    {
        assert(bytes@.take(index + 1).drop_last() =~= bytes@.take(index as int));
        crc = crc ^ bytes[index] as u32;
        let ghost start = crc;
        let mut bit: u32 = 0;
        while bit < 8
            invariant
                bit <= 8,
                crc32_shift(crc, (8 - bit) as nat) == crc32_shift(start, 8),
            decreases 8 - bit,
        {
            let low = crc & 1;
            let mask = 0u32.wrapping_sub(low);
            assert(low == 0 || low == 1) by (bit_vector)
                requires
                    low == crc & 1,
            ;
            let next = (crc >> 1) ^ (CRC32_POLYNOMIAL & mask);
            assert(next == crc32_bit_step(crc)) by (bit_vector)
                requires
                    low == crc & 1,
                    low == 0 ==> mask == 0,
                    low == 1 ==> mask == 0xffff_ffff,
                    next == (crc >> 1) ^ (CRC32_POLYNOMIAL & mask),
            ;
            crc = next;
            bit += 1;
        }
        index += 1;
    }
    !crc
}

/// A version string the manifest can carry: one to
/// [`VERSION_MAX_LENGTH`] printable ASCII bytes.
pub open spec fn is_manifest_version(version: Seq<u8>) -> bool {
    &&& 1 <= version.len() <= VERSION_MAX_LENGTH
    &&& forall|i: int| 0 <= i < version.len() ==> 0x20 <= #[trigger] version[i] <= 0x7e
}

/// The fixed fields before the version string: magic, schema, manifest
/// size, target board (little endian), image kind, protocol version and
/// version length.
pub open spec fn manifest_header(version: Seq<u8>) -> Seq<u8> {
    MANIFEST_MAGIC@ + seq![
        MANIFEST_SCHEMA_VERSION,
        MANIFEST_SIZE as u8,
        (TARGET_BOARD_VERSION % 0x100) as u8,
        (TARGET_BOARD_VERSION / 0x100) as u8,
        FIRMWARE_KIND_BRIDGE,
        PROTOCOL_MAJOR,
        PROTOCOL_MINOR,
        version.len() as u8,
    ]
}

/// Everything the CRC covers: the header, then the version string padded
/// with zeros up to the CRC.
pub open spec fn manifest_body(version: Seq<u8>) -> Seq<u8> {
    manifest_header(version) + version + Seq::new(
        (MANIFEST_CRC_OFFSET - VERSION_OFFSET - version.len()) as nat,
        |i: int| 0u8,
    )
}

/// The manifest of `version`: the body followed by its CRC-32, little endian.
pub open spec fn manifest_bytes(version: Seq<u8>) -> Seq<u8> {
    manifest_body(version) + le_bytes_u32(crc32_of(manifest_body(version)))
}

/// A manifest identifies its image and checks itself: it is 96 bytes long,
/// starts with the magic, carries the version's length and bytes at fixed
/// offsets with zeros up to the CRC, and its last four bytes are the
/// little-endian CRC-32 of everything before them.
pub proof fn lemma_manifest_identifies_and_checks_itself(version: Seq<u8>)
    requires
        is_manifest_version(version),
    ensures
        ({
            let m = manifest_bytes(version);
            &&& m.len() == MANIFEST_SIZE
            &&& m.subrange(0, 16) == MANIFEST_MAGIC@
            &&& m[16] == MANIFEST_SCHEMA_VERSION
            &&& m[17] == MANIFEST_SIZE
            &&& m[18] + 0x100 * m[19] == TARGET_BOARD_VERSION
            &&& m[20] == FIRMWARE_KIND_BRIDGE
            &&& m[21] == PROTOCOL_MAJOR
            &&& m[22] == PROTOCOL_MINOR
            &&& m[23] == version.len()
            &&& m.subrange(VERSION_OFFSET as int, VERSION_OFFSET + version.len()) == version
            &&& forall|i: int|
                VERSION_OFFSET + version.len() <= i < MANIFEST_CRC_OFFSET ==> m[i] == 0
            &&& le_value(m.subrange(MANIFEST_CRC_OFFSET as int, MANIFEST_SIZE as int)) == crc32_of(
                m.subrange(0, MANIFEST_CRC_OFFSET as int),
            )
        }),
{
    let m = manifest_bytes(version);
    let body = manifest_body(version);
    let crc = crc32_of(body);
    assert(m.subrange(0, 16) =~= MANIFEST_MAGIC@);
    assert(m.subrange(VERSION_OFFSET as int, VERSION_OFFSET + version.len()) =~= version);
    assert(m.subrange(0, MANIFEST_CRC_OFFSET as int) =~= body);
    assert(m.subrange(MANIFEST_CRC_OFFSET as int, MANIFEST_SIZE as int) =~= le_bytes_u32(crc));
    lemma_le_bytes_round_trip(0, crc);
}

/// Builds the manifest for `version`.
pub fn encode(version: &str) -> (manifest: [u8; MANIFEST_SIZE])
    requires
        is_manifest_version(version.spec_bytes()),
    ensures
        manifest@ == manifest_bytes(version.spec_bytes()),
{
    let version_bytes = version.as_bytes();
    let ghost v = version_bytes@;
    let mut manifest = [0u8; MANIFEST_SIZE];
    let mut index: usize = 0;
    while index < MANIFEST_MAGIC.len()
        invariant
            index <= 16,
            manifest@.len() == MANIFEST_SIZE,
            forall|i: int| 0 <= i < index ==> manifest@[i] == MANIFEST_MAGIC@[i],
            forall|i: int| index <= i < MANIFEST_SIZE ==> manifest@[i] == 0,
        decreases 16 - index,
    {
        manifest[index] = MANIFEST_MAGIC[index];
        index += 1;
    }

    manifest[16] = MANIFEST_SCHEMA_VERSION;
    manifest[17] = MANIFEST_SIZE as u8;
    manifest[18] = (TARGET_BOARD_VERSION % 0x100) as u8;
    manifest[19] = (TARGET_BOARD_VERSION / 0x100) as u8;
    manifest[20] = FIRMWARE_KIND_BRIDGE;
    manifest[21] = PROTOCOL_MAJOR;
    manifest[22] = PROTOCOL_MINOR;
    manifest[23] = version_bytes.len() as u8;
    assert(manifest@.take(VERSION_OFFSET as int) =~= manifest_header(v));

    index = 0;
    while index < version_bytes.len()
        invariant
            v == version_bytes@,
            is_manifest_version(v),
            index <= v.len(),
            manifest@.len() == MANIFEST_SIZE,
            manifest@.take(VERSION_OFFSET as int) == manifest_header(v),
            forall|i: int| 0 <= i < index ==> manifest@[VERSION_OFFSET + i] == v[i],
            forall|i: int| VERSION_OFFSET + index <= i < MANIFEST_SIZE ==> manifest@[i] == 0,
        decreases v.len() - index,
    {
        let byte = version_bytes[index];
        manifest[VERSION_OFFSET + index] = byte;
        assert(manifest@.take(VERSION_OFFSET as int) =~= manifest_header(v));
        index += 1;
    }
    assert(manifest@.take(MANIFEST_CRC_OFFSET as int) =~= manifest_body(v));

    let crc = crc32(&manifest, MANIFEST_CRC_OFFSET);
    manifest[MANIFEST_CRC_OFFSET] = (crc % 0x100) as u8;
    manifest[MANIFEST_CRC_OFFSET + 1] = (crc / 0x100 % 0x100) as u8;
    manifest[MANIFEST_CRC_OFFSET + 2] = (crc / 0x1_0000 % 0x100) as u8;
    manifest[MANIFEST_CRC_OFFSET + 3] = (crc / 0x100_0000) as u8;
    assert(manifest@ =~= manifest_bytes(v));
    manifest
}

/// The manifest of this firmware image, for [`FIRMWARE_VERSION`].
pub fn image_manifest() -> (manifest: [u8; MANIFEST_SIZE])
    ensures
        manifest@ == manifest_bytes(FIRMWARE_VERSION.spec_bytes()),
{
    proof {
        reveal_strlit("0.1.0");
        broadcast use vstd::string::is_ascii_spec_bytes;
        assert(vstd::string::is_ascii(FIRMWARE_VERSION));
        assert(is_manifest_version(FIRMWARE_VERSION.spec_bytes()));
    }
    encode(FIRMWARE_VERSION)
}

} // verus!
