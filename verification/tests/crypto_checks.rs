//! The key scrambler, the digests and the CTR codec against known
//! answers.

use conv_lib::codec::ctr_crypt;
use conv_lib::hashes::sha256;
use conv_lib::keys::{derive_normal_key, rotate_left_128};
use conv_lib::util::{boot9_key_offset, calc_md5, check_boot9_key, to_hex};

const KEY_X: u128 = 0xB98E95CECA3E4D171F76A94DE934C053;
const KEY_Y: u128 = 0x6D6FAEFB2391CF40A87A46DAE4BD438F;
const NORMAL_KEY: u128 = 0xE4CEE05CA5D5A7F1B568B37F926BF33A;

#[test]
fn scramble_known_vector() {
    assert_eq!(derive_normal_key(KEY_X, KEY_Y), NORMAL_KEY);
}

#[test]
fn rotate_composes() {
    let v: u128 = 0x0123456789ABCDEF0011223344556677;
    assert_eq!(rotate_left_128(rotate_left_128(v, 5), 7), rotate_left_128(v, 12));
    assert_eq!(rotate_left_128(rotate_left_128(v, 100), 100), rotate_left_128(v, 72));
    assert_eq!(rotate_left_128(v, 130), rotate_left_128(v, 2));
    assert_eq!(rotate_left_128(v, 0), v);
    assert_eq!(rotate_left_128(v, 128), v);
}

#[test]
fn rotate_known_value() {
    assert_eq!(rotate_left_128(1, 1), 2);
    assert_eq!(rotate_left_128(1u128 << 127, 1), 1);
    assert_eq!(rotate_left_128(0x8000000000000000_0000000000000001, 4),
        0x0000000000000000_0000000000000018);
}

#[test]
fn boot9_fingerprint_matches_retail_key() {
    // the retail NCCH key-X hashes to the published fingerprint
    let key = KEY_X.to_be_bytes();
    assert_eq!(calc_md5(&key), "e35bf88330f4f1b2bb6fd5b870a679ca");
    assert!(check_boot9_key(&key));
}

#[test]
fn boot9_fingerprint_rejects_other_bytes() {
    let key = [0u8; 16];
    assert!(!check_boot9_key(&key));
}

#[test]
fn md5_empty_known_answer() {
    assert_eq!(calc_md5(&[]), "d41d8cd98f00b204e9800998ecf8427e");
}

#[test]
fn sha256_empty_known_answer() {
    let d = sha256(&Vec::new());
    assert_eq!(to_hex(&d), "e3b0c44298fc1c149afbf4c8996fb92427ae41e4649b934ca495991b7852b855");
}

#[test]
fn sha256_abc_known_answer() {
    let d = sha256(&vec![0x61, 0x62, 0x63]);
    assert_eq!(to_hex(&d), "ba7816bf8f01cfea414140de5dae2223b00361a396177a9cb410ff61f20015ad");
}

#[test]
fn ctr_round_trips_and_really_encrypts() {
    let key: u128 = 0x000102030405060708090A0B0C0D0E0F;
    let iv: u128 = 0x00112233445566778899AABBCCDDEEFF;
    let plain: Vec<u8> = (0u16..0x400).map(|i| (i % 251) as u8).collect();
    let once = ctr_crypt(key, iv, &plain);
    assert_ne!(once, plain);
    let twice = ctr_crypt(key, iv, &once);
    assert_eq!(twice, plain);
}

#[test]
fn ctr_aes128_known_answer() {
    // CTR-AES128 vector from NIST SP 800-38A, F.5.1
    let key: u128 = 0x2B7E151628AED2A6ABF7158809CF4F3C;
    let iv: u128 = 0xF0F1F2F3F4F5F6F7F8F9FAFBFCFDFEFF;
    let plain: Vec<u8> = vec![0x6B, 0xC1, 0xBE, 0xE2, 0x2E, 0x40, 0x9F, 0x96, 0xE9, 0x3D, 0x7E,
        0x11, 0x73, 0x93, 0x17, 0x2A];
    let cipher = ctr_crypt(key, iv, &plain);
    let expect: Vec<u8> = vec![0x87, 0x4D, 0x61, 0x91, 0xB6, 0x20, 0xE3, 0x26, 0x1B, 0xEF, 0x68,
        0x64, 0x99, 0x0D, 0xB6, 0xCE];
    assert_eq!(cipher, expect);
}

#[test]
fn boot9_key_offset_by_file_size() {
    assert_eq!(boot9_key_offset(0x10000), 0xD9D0);
    assert_eq!(boot9_key_offset(0x8000), 0x59D0);
    assert_eq!(boot9_key_offset(123), 0x59D0);
}
