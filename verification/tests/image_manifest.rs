use bonanza_bridge_fw::image_manifest::{
    crc32, encode, image_manifest, FIRMWARE_KIND_BRIDGE, MANIFEST_CRC_OFFSET, MANIFEST_MAGIC,
    MANIFEST_SCHEMA_VERSION, MANIFEST_SIZE, TARGET_BOARD_VERSION, VERSION_OFFSET,
};
use bonanza_bridge_fw::info::{FIRMWARE_VERSION, PROTOCOL_MAJOR, PROTOCOL_MINOR};

fn read_le32(bytes: &[u8]) -> u32 {
    u32::from_le_bytes(bytes.try_into().unwrap())
}

#[test]
fn firmware_manifest_identifies_the_bridge_image() {
    let image_manifest = image_manifest();
    assert_eq!(&image_manifest[..MANIFEST_MAGIC.len()], MANIFEST_MAGIC);
    assert_eq!(image_manifest[16], MANIFEST_SCHEMA_VERSION);
    assert_eq!(image_manifest[17] as usize, MANIFEST_SIZE);
    assert_eq!(u16::from_le_bytes([image_manifest[18], image_manifest[19]]), TARGET_BOARD_VERSION);
    assert_eq!(image_manifest[20], FIRMWARE_KIND_BRIDGE);
    assert_eq!(image_manifest[21], PROTOCOL_MAJOR);
    assert_eq!(image_manifest[22], PROTOCOL_MINOR);
    assert_eq!(image_manifest[23] as usize, FIRMWARE_VERSION.len());
    assert_eq!(
        &image_manifest[VERSION_OFFSET..VERSION_OFFSET + FIRMWARE_VERSION.len()],
        FIRMWARE_VERSION.as_bytes()
    );
    assert!(image_manifest[VERSION_OFFSET + FIRMWARE_VERSION.len()..MANIFEST_CRC_OFFSET]
        .iter()
        .all(|byte| *byte == 0));
    assert_eq!(
        read_le32(&image_manifest[MANIFEST_CRC_OFFSET..]),
        crc32(&image_manifest, MANIFEST_CRC_OFFSET)
    );
}

#[test]
fn manifest_encoding_is_deterministic_and_versioned() {
    let manifest = encode("1.2.3-test");

    assert_eq!(&manifest[..MANIFEST_MAGIC.len()], MANIFEST_MAGIC);
    assert_eq!(manifest[23], 10);
    assert_eq!(&manifest[VERSION_OFFSET..VERSION_OFFSET + 10], b"1.2.3-test");
    assert_eq!(read_le32(&manifest[MANIFEST_CRC_OFFSET..]), crc32(&manifest, MANIFEST_CRC_OFFSET));
}

#[test]
fn crc32_matches_the_standard_check_value() {
    // The IEEE 802.3 CRC-32 check value of "123456789".
    assert_eq!(crc32(b"123456789", 9), 0xcbf4_3926);
    assert_eq!(crc32(b"123456789xyz", 9), 0xcbf4_3926);
    assert_eq!(crc32(b"", 0), 0);
    assert_eq!(crc32(b"a", 1), 0xe8b7_be43);
}

#[test]
fn manifest_magic_is_the_bridge_name() {
    assert_eq!(&MANIFEST_MAGIC, b"BZM-BRIDGE-FW\0\0\0");
}

#[test]
fn manifests_of_different_versions_differ() {
    let a = encode("1.2.3");
    let b = encode("1.2.4");
    assert_eq!(a, encode("1.2.3"));
    assert_ne!(a, b);
    assert_ne!(a[MANIFEST_CRC_OFFSET..], b[MANIFEST_CRC_OFFSET..]);
    let longest = "x".repeat(63);
    let manifest = encode(&longest);
    assert_eq!(manifest[23], 63);
    assert_eq!(&manifest[VERSION_OFFSET..VERSION_OFFSET + 63], longest.as_bytes());
    assert_eq!(read_le32(&manifest[MANIFEST_CRC_OFFSET..]), crc32(&manifest, MANIFEST_CRC_OFFSET));
}
