use const_hex::FromHex;

use vhd_decrypt::keyparse::{key_parser, KeyParseError};
use vhd_decrypt::presets::Preset;

const OPT_KEY: [u8; 16] = [
    0x5c, 0x84, 0xa9, 0xe7, 0x26, 0xea, 0xa5, 0xdd, 0x35, 0x1f, 0x2b, 0x07, 0x50, 0xc2, 0x36,
    0x97,
];

const EXFAT_HEADER: [u8; 16] = [
    0xeb, 0x76, 0x90, 0x45, 0x58, 0x46, 0x41, 0x54, 0x20, 0x20, 0x20, 0x00, 0x00, 0x00, 0x00,
    0x00,
];

const NTFS_HEADER: [u8; 16] = [
    0xeb, 0x52, 0x90, 0x4e, 0x54, 0x46, 0x53, 0x20, 0x20, 0x20, 0x20, 0x00, 0x10, 0x01, 0x00,
    0x00,
];

#[test]
fn parses_lower_case_key() {
    let k = key_parser("5c84a9e726eaa5dd351f2b0750c23697").unwrap();
    assert_eq!(k, OPT_KEY);
}

#[test]
fn parses_upper_case_key() {
    let k = key_parser("5C84A9E726EAA5DD351F2B0750C23697").unwrap();
    assert_eq!(k, OPT_KEY);
}

#[test]
fn parses_prefixed_key() {
    let k = key_parser("0x5c84a9e726eaa5dd351f2b0750c23697").unwrap();
    assert_eq!(k, OPT_KEY);
    let k = key_parser("0X5c84a9e726eaa5dd351f2b0750c23697").unwrap();
    assert_eq!(k, OPT_KEY);
}

#[test]
fn rejects_odd_length() {
    assert_eq!(key_parser("5c8"), Err(KeyParseError::OddLength));
}

#[test]
fn rejects_wrong_length() {
    assert_eq!(key_parser("5c84"), Err(KeyParseError::InvalidStringLength));
    assert_eq!(
        key_parser("5c84a9e726eaa5dd351f2b0750c2369700"),
        Err(KeyParseError::InvalidStringLength)
    );
    assert_eq!(key_parser(""), Err(KeyParseError::InvalidStringLength));
}

#[test]
fn rejects_bad_digit_with_its_position() {
    assert_eq!(
        key_parser("5c84a9e726eaa5dd351f2b0750c2369g"),
        Err(KeyParseError::InvalidHexCharacter { index: 31 })
    );
    assert_eq!(
        key_parser("zc84a9e726eaa5dd351f2b0750c23697"),
        Err(KeyParseError::InvalidHexCharacter { index: 0 })
    );
}

#[test]
fn agrees_with_reference_hex_decoder() {
    let inputs = [
        "5c84a9e726eaa5dd351f2b0750c23697",
        "0xE4281BCF48C4D28EB05772CE6F98587A",
        "00000000000000000000000000000000",
        "5c84",
        "5c8",
        "5c84a9e726eaa5dd351f2b0750c2369g",
        "",
    ];
    for s in inputs {
        let reference = <[u8; 16]>::from_hex(s);
        match key_parser(s) {
            Ok(k) => assert_eq!(reference.unwrap(), k),
            Err(_) => assert!(reference.is_err()),
        }
    }
}

#[test]
fn preset_keys_come_from_the_table() {
    assert_eq!(Preset::OPT.key(), OPT_KEY);
    let pack_key = <[u8; 16]>::from_hex("e4281bcf48c4d28eb05772ce6f98587a").unwrap();
    assert_eq!(Preset::PACK.key(), pack_key);
    let sdhr_key = <[u8; 16]>::from_hex("1fb897cab97c8170a6ac0a21685c58d9").unwrap();
    assert_eq!(Preset::SDHR.key(), sdhr_key);
}

#[test]
fn custom_preset_carries_its_key() {
    let p = Preset::Custom {
        key: OPT_KEY,
        exfat: false,
    };
    assert_eq!(p.key(), OPT_KEY);
}

#[test]
fn headers_follow_filesystem_kind() {
    assert_eq!(Preset::OPT.header(), EXFAT_HEADER);
    assert_eq!(Preset::PACK.header(), NTFS_HEADER);
    assert_eq!(Preset::SDEZ.header(), NTFS_HEADER);
    let custom_exfat = Preset::Custom {
        key: OPT_KEY,
        exfat: true,
    };
    assert_eq!(custom_exfat.header(), EXFAT_HEADER);
    let custom_ntfs = Preset::Custom {
        key: OPT_KEY,
        exfat: false,
    };
    assert_eq!(custom_ntfs.header(), NTFS_HEADER);
}
