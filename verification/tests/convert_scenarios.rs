//! End-to-end conversions over synthetic cartridge images.

use conv_lib::convert::convert_cci;
use conv_lib::ConvError;
use crypto::digest::Digest;

const KEY_X: u128 = 0xB98E95CECA3E4D171F76A94DE934C053;
const TITLE_ID: u64 = 0x000400000FF3FF00;
const CXI_OFF: usize = 0x4000;

fn sha256_ref(data: &[u8]) -> Vec<u8> {
    let mut h = crypto::sha2::Sha256::new();
    h.input(data);
    let mut out = vec![0u8; 32];
    h.result(&mut out);
    out
}

fn ctr_ref(key: u128, iv: u128, data: &[u8]) -> Vec<u8> {
    let mut c = crypto::aes::ctr(crypto::aes::KeySize::KeySize128, &key.to_be_bytes(),
        &iv.to_be_bytes());
    let mut out = vec![0u8; data.len()];
    c.process(data, &mut out);
    out
}

fn support_blobs() -> (Vec<u8>, Vec<u8>) {
    (vec![0xCCu8; 0xA00], vec![0xBBu8; 0x518])
}

fn put(buf: &mut Vec<u8>, off: usize, bytes: &[u8]) {
    buf[off..off + bytes.len()].copy_from_slice(bytes);
}

/// A CXI-only image, stored decrypted, with a plain ExtHeader and an
/// empty ExeFS header (so no icon record is found).
fn decrypted_cxi_only() -> Vec<u8> {
    let mut cci = vec![0u8; 0x5000];
    put(&mut cci, 0x100, b"NCSD");
    put(&mut cci, 0x108, &TITLE_ID.to_le_bytes());
    put(&mut cci, 0x120, &0x20u32.to_le_bytes());  // CXI at 0x4000
    put(&mut cci, 0x124, &0x08u32.to_le_bytes());  // CXI size 0x1000
    put(&mut cci, CXI_OFF + 0x100, b"NCCH");
    cci[CXI_OFF + 0x18F] = 0x04;  // decrypted
    put(&mut cci, CXI_OFF + 0x1A0, &0x03u32.to_le_bytes());  // ExeFS at 0x600
    // an ExtHeader with recognisable bytes
    let ext: Vec<u8> = (0u16..0x400).map(|i| (i % 241) as u8).collect();
    put(&mut cci, CXI_OFF + 0x200, &ext);
    let stored = sha256_ref(&ext);
    put(&mut cci, CXI_OFF + 0x160, &stored);
    cci
}

#[test]
fn s_ncsd_magic_missing() {
    let (cert, tt) = support_blobs();
    let cci = vec![0u8; 0x200];
    assert_eq!(convert_cci(&cci, KEY_X, &cert, &tt).unwrap_err(), ConvError::NotACci);
}

#[test]
fn s_ncch_magic_missing() {
    let (cert, tt) = support_blobs();
    let mut cci = vec![0u8; 0x8000];
    put(&mut cci, 0x100, b"NCSD");
    put(&mut cci, 0x120, &0x20u32.to_le_bytes());
    put(&mut cci, 0x124, &0x08u32.to_le_bytes());
    assert_eq!(convert_cci(&cci, KEY_X, &cert, &tt).unwrap_err(), ConvError::NotANcch);
}

#[test]
fn s_truncated_input() {
    let (cert, tt) = support_blobs();
    let cci = vec![0u8; 0x50];
    assert_eq!(convert_cci(&cci, KEY_X, &cert, &tt).unwrap_err(), ConvError::IoFailure);
}

#[test]
fn s_decrypted_cxi_only() {
    let (cert, tt) = support_blobs();
    let cci = decrypted_cxi_only();
    let out = convert_cci(&cci, KEY_X, &cert, &tt).unwrap();
    // one content: prefix is 0x3900 bytes, then the 0x1000-byte CXI, then
    // the 0x3AC0-byte meta region
    assert_eq!(out.len(), 0x3900 + 0x1000 + 0x3AC0);
    assert_eq!(out[0x2F9F], 1);  // content count
    assert_eq!(&out[0x10..0x14], &0xB34u32.to_le_bytes());  // TMD size field
    assert_eq!(out[0x20], 0b1000_0000);  // content index
    assert_eq!(&out[0x18..0x1C], &0x1000u32.to_le_bytes());  // content size
    // the SD-application bit is set in the emitted ExtHeader
    let ext_in = &cci[CXI_OFF + 0x200..CXI_OFF + 0x600];
    let ext_out = &out[0x3900 + 0x200..0x3900 + 0x600];
    assert_eq!(ext_out[0xD], ext_in[0xD] | 2);
    assert_eq!(&ext_out[0xE..], &ext_in[0xE..]);
    // the NCCH header carries the hash of the patched ExtHeader
    let mut patched = ext_in.to_vec();
    patched[0xD] |= 2;
    assert_eq!(&out[0x3900 + 0x160..0x3900 + 0x180], &sha256_ref(&patched)[..]);
    // the CXI content hash is stamped at its fixed offset
    let cxi_content = &out[0x3900..0x3900 + 0x1000];
    assert_eq!(&out[0x38D4..0x38F4], &sha256_ref(cxi_content)[..]);
    // the meta region ends with the (here all-zero) icon
    assert!(out[out.len() - 0x36C0..].iter().all(|&b| b == 0));
    // title ID is patched into ticket and TMD, big-endian
    assert_eq!(&out[0x2C1C..0x2C24], &TITLE_ID.to_be_bytes());
    assert_eq!(&out[0x2F4C..0x2F54], &TITLE_ID.to_be_bytes());
    // the save size comes from the patched ExtHeader
    assert_eq!(&out[0x2F5A..0x2F5E], &patched[0x1C0..0x1C4]);
    // the dependency list opens the meta region
    let meta = &out[0x3900 + 0x1000..];
    assert_eq!(&meta[0..0x180], &patched[0x40..0x1C0]);
    assert_eq!(&meta[0x300..0x304], &2u32.to_le_bytes());
}

#[test]
fn s_extheader_hash_mismatch() {
    let (cert, tt) = support_blobs();
    let mut cci = decrypted_cxi_only();
    cci[CXI_OFF + 0x18F] = 0x00;  // encrypted, keyed: stored hash no longer fits
    assert_eq!(convert_cci(&cci, KEY_X, &cert, &tt).unwrap_err(), ConvError::ExtHeaderCorrupt);
}

#[test]
fn s_zero_key_encryption() {
    let (cert, tt) = support_blobs();
    let mut cci = decrypted_cxi_only();
    cci[CXI_OFF + 0x18F] = 0x01;  // encrypted with the all-zero key
    let ext_plain: Vec<u8> = (0u16..0x400).map(|i| (i % 199) as u8).collect();
    let ext_iv = ((TITLE_ID as u128) << 64) | 0x0100000000000000;
    put(&mut cci, CXI_OFF + 0x200, &ctr_ref(0, ext_iv, &ext_plain));
    put(&mut cci, CXI_OFF + 0x160, &sha256_ref(&ext_plain));
    // the ExeFS header deciphers to all zeros: no icon record
    let exefs_iv = ((TITLE_ID as u128) << 64) | 0x0200000000000000;
    put(&mut cci, CXI_OFF + 0x600, &ctr_ref(0, exefs_iv, &[0u8; 0x40]));
    let out = convert_cci(&cci, KEY_X, &cert, &tt).unwrap();
    // conversion went through with the zero key, and the stored hash now
    // covers the patched plaintext
    let mut patched = ext_plain.clone();
    patched[0xD] |= 2;
    assert_eq!(&out[0x3900 + 0x160..0x3900 + 0x180], &sha256_ref(&patched)[..]);
    // the emitted ExtHeader is the patched plaintext re-encrypted with the
    // same zero key and IV
    assert_eq!(&out[0x3900 + 0x200..0x3900 + 0x600], &ctr_ref(0, ext_iv, &patched)[..]);
}

#[test]
fn s_three_content_cci() {
    let (cert, tt) = support_blobs();
    let mut cci = decrypted_cxi_only();
    cci.resize(0x5400, 0);
    put(&mut cci, 0x128, &0x28u32.to_le_bytes());  // Manual at 0x5000
    put(&mut cci, 0x12C, &0x01u32.to_le_bytes());  // Manual size 0x200
    put(&mut cci, 0x130, &0x29u32.to_le_bytes());  // DLP child at 0x5200
    put(&mut cci, 0x134, &0x01u32.to_le_bytes());  // DLP size 0x200
    for i in 0x5000..0x5400 {
        cci[i] = (i % 127) as u8;
    }
    let out = convert_cci(&cci, KEY_X, &cert, &tt).unwrap();
    // prefix: 0x38C4 fixed part + 0x90 of chunk records + 0x2C padding
    let prefix = 0x38C4 + 0x90 + 0x2C;
    assert_eq!(out.len(), prefix + 0x1400 + 0x3AC0);
    assert_eq!(out[0x2F9F], 3);  // content count
    assert_eq!(&out[0x10..0x14], &0xB94u32.to_le_bytes());  // TMD size field
    assert_eq!(out[0x20], 0b1110_0000);  // content index
    assert_eq!(&out[0x18..0x1C], &0x1400u32.to_le_bytes());  // content size
    // each content hash at its fixed offset
    let cxi_content = &out[prefix..prefix + 0x1000];
    assert_eq!(&out[0x38D4..0x38F4], &sha256_ref(cxi_content)[..]);
    assert_eq!(&out[0x3904..0x3924], &sha256_ref(&cci[0x5000..0x5200])[..]);
    assert_eq!(&out[0x3934..0x3954], &sha256_ref(&cci[0x5200..0x5400])[..]);
    // the Manual and DLP bodies are copied verbatim after the CXI
    assert_eq!(&out[prefix + 0x1000..prefix + 0x1200], &cci[0x5000..0x5200]);
    assert_eq!(&out[prefix + 0x1200..prefix + 0x1400], &cci[0x5200..0x5400]);
}

#[test]
fn s_keyed_encryption_round_trip() {
    // an image encrypted with the derived key converts, and the scrambled
    // key really is what deciphers it
    let (cert, tt) = support_blobs();
    let mut cci = decrypted_cxi_only();
    let key_y: u128 = 0x6D6FAEFB2391CF40A87A46DAE4BD438F;
    cci[CXI_OFF + 0x18F] = 0x00;  // encrypted, keyed
    put(&mut cci, CXI_OFF, &key_y.to_be_bytes());
    put(&mut cci, CXI_OFF + 0x100, b"NCCH");
    let key = conv_lib::keys::derive_normal_key(KEY_X, key_y);
    let ext_plain: Vec<u8> = (0u16..0x400).map(|i| (i % 233) as u8).collect();
    let ext_iv = ((TITLE_ID as u128) << 64) | 0x0100000000000000;
    put(&mut cci, CXI_OFF + 0x200, &ctr_ref(key, ext_iv, &ext_plain));
    put(&mut cci, CXI_OFF + 0x160, &sha256_ref(&ext_plain));
    let exefs_iv = ((TITLE_ID as u128) << 64) | 0x0200000000000000;
    put(&mut cci, CXI_OFF + 0x600, &ctr_ref(key, exefs_iv, &[0u8; 0x40]));
    let out = convert_cci(&cci, KEY_X, &cert, &tt).unwrap();
    let mut patched = ext_plain.clone();
    patched[0xD] |= 2;
    assert_eq!(&out[0x3900 + 0x160..0x3900 + 0x180], &sha256_ref(&patched)[..]);
    assert_eq!(&out[0x3900 + 0x200..0x3900 + 0x600], &ctr_ref(key, ext_iv, &patched)[..]);
}
