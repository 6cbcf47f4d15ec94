//! Parsers, layout pieces and the ExtHeader patch on concrete values.

use conv_lib::cia::{build_chunk_records, content_count, content_index, tmd_size};
use conv_lib::exefs::{decrypt_exefs_header, find_icon};
use conv_lib::extheader::process_extheader;
use conv_lib::media_units_to_bytes;
use conv_lib::ncsd::{parse_ncch, parse_ncsd};
use conv_lib::ConvError;
use crypto::digest::Digest;

fn sha256_ref(data: &[u8]) -> Vec<u8> {
    let mut h = crypto::sha2::Sha256::new();
    h.input(data);
    let mut out = vec![0u8; 32];
    h.result(&mut out);
    out
}

#[test]
fn media_units_scale() {
    assert_eq!(media_units_to_bytes(0), 0);
    assert_eq!(media_units_to_bytes(2), 0x400);
    assert_eq!(media_units_to_bytes(0xFFFFFFFF), 0xFFFFFFFFu64 * 0x200);
}

#[test]
fn ncsd_parses_fields() {
    let mut h = vec![0u8; 0x140];
    h[0x100..0x104].copy_from_slice(b"NCSD");
    h[0x108..0x110].copy_from_slice(&0x0004000000AA0000u64.to_le_bytes());
    h[0x120..0x124].copy_from_slice(&0x20u32.to_le_bytes());
    h[0x124..0x128].copy_from_slice(&0x100u32.to_le_bytes());
    h[0x128..0x12C].copy_from_slice(&0x200u32.to_le_bytes());
    h[0x12C..0x130].copy_from_slice(&0x10u32.to_le_bytes());
    let c = parse_ncsd(&h).unwrap();
    assert_eq!(c.title_id, 0x0004000000AA0000);
    assert_eq!(c.cxi_offset, 0x4000);
    assert_eq!(c.cxi_size, 0x20000);
    assert_eq!(c.manual_offset, 0x40000);
    assert_eq!(c.manual_size, 0x2000);
    assert_eq!(c.dlp_offset, 0);
    assert_eq!(c.dlp_size, 0);
}

#[test]
fn ncsd_rejects_missing_magic() {
    let h = vec![0u8; 0x140];
    assert_eq!(parse_ncsd(&h).unwrap_err(), ConvError::NotACci);
}

#[test]
fn ncch_parses_flags_and_key() {
    let mut n = vec![0u8; 0x200];
    n[0x100..0x104].copy_from_slice(b"NCCH");
    n[0..16].copy_from_slice(&0x6D6FAEFB2391CF40A87A46DAE4BD438Fu128.to_be_bytes());
    n[0x18F] = 0x01;
    n[0x1A0..0x1A4].copy_from_slice(&0x03u32.to_le_bytes());
    for i in 0x160..0x180 {
        n[i] = i as u8;
    }
    let i = parse_ncch(&n).unwrap();
    assert!(i.encrypted);
    assert!(i.zero_key);
    assert_eq!(i.key_y, 0x6D6FAEFB2391CF40A87A46DAE4BD438F);
    assert_eq!(i.exefs_offset, 0x600);
    assert_eq!(&i.stored_extheader_hash[..], &n[0x160..0x180]);
    let mut m = n.clone();
    m[0x18F] = 0x04;
    let j = parse_ncch(&m).unwrap();
    assert!(!j.encrypted);
    assert!(!j.zero_key);
}

#[test]
fn ncch_rejects_missing_magic() {
    let n = vec![0u8; 0x200];
    assert_eq!(parse_ncch(&n).unwrap_err(), ConvError::NotANcch);
}

#[test]
fn content_counts_and_sizes() {
    assert_eq!(content_count(false, false), 1);
    assert_eq!(content_count(true, false), 2);
    assert_eq!(content_count(false, true), 2);
    assert_eq!(content_count(true, true), 3);
    assert_eq!(tmd_size(false, false), 0xB34);
    assert_eq!(tmd_size(true, false), 0xB64);
    assert_eq!(tmd_size(true, true), 0xB94);
}

#[test]
fn content_index_bits() {
    assert_eq!(content_index(false, false), 0b1000_0000);
    assert_eq!(content_index(true, false), 0b1100_0000);
    assert_eq!(content_index(false, true), 0b1010_0000);
    assert_eq!(content_index(true, true), 0b1110_0000);
    for &(m, d) in &[(false, false), (true, false), (false, true), (true, true)] {
        let c = content_index(m, d);
        assert_eq!(c & 0x80 != 0, true);
        assert_eq!(c & 0x40 != 0, m);
        assert_eq!(c & 0x20 != 0, d);
        assert_eq!(c & 0x1F, 0);
    }
}

#[test]
fn chunk_records_layout() {
    let cr = build_chunk_records(0x20000, true, 0x2000, true, 0x1000);
    assert_eq!(cr.len(), 0x90);
    assert_eq!(&cr[0x0..0x4], &0u32.to_be_bytes());
    assert_eq!(&cr[0x4..0x8], &0u32.to_be_bytes());
    assert_eq!(&cr[0xC..0x10], &0x20000u32.to_be_bytes());
    assert_eq!(&cr[0x30..0x34], &1u32.to_be_bytes());
    assert_eq!(&cr[0x34..0x38], &0x10000u32.to_be_bytes());
    assert_eq!(&cr[0x3C..0x40], &0x2000u32.to_be_bytes());
    assert_eq!(&cr[0x60..0x64], &2u32.to_be_bytes());
    assert_eq!(&cr[0x64..0x68], &0x20000u32.to_be_bytes());
    assert_eq!(&cr[0x6C..0x70], &0x1000u32.to_be_bytes());
    assert!(cr[0x10..0x30].iter().all(|&b| b == 0));
    let single = build_chunk_records(0x800, false, 0, false, 0);
    assert_eq!(single.len(), 0x30);
}

#[test]
fn extheader_patch_is_idempotent() {
    // patching an already patched ExtHeader changes nothing
    let ext: Vec<u8> = (0u16..0x400).map(|i| (i % 239) as u8).collect();
    let stored = sha256_ref(&ext);
    let first = process_extheader(&ext, &stored, false, 0, 0).unwrap();
    let stored2 = sha256_ref(&first.output);
    let second = process_extheader(&first.output, &stored2, false, 0, 0).unwrap();
    assert_eq!(second.output, first.output);
    assert_eq!(second.dependency_list, first.dependency_list);
    assert_eq!(second.save_size, first.save_size);
    // and only bit 0x02 of byte 0xD moved
    assert_eq!(first.output[0xD], ext[0xD] | 2);
    assert_eq!(first.output[0xD] & 0xFD, ext[0xD] & 0xFD);
    assert_eq!(&first.output[..0xD], &ext[..0xD]);
    assert_eq!(&first.output[0xE..], &ext[0xE..]);
}

#[test]
fn extheader_rejects_wrong_hash() {
    let ext: Vec<u8> = vec![7u8; 0x400];
    let wrong = vec![0u8; 0x20];
    assert_eq!(process_extheader(&ext, &wrong, false, 0, 0).unwrap_err(),
        ConvError::ExtHeaderCorrupt);
}

#[test]
fn finds_icon_record() {
    let mut hdr = vec![0u8; 0x40];
    // record 0: named "code"
    hdr[0..4].copy_from_slice(b"code");
    hdr[8..12].copy_from_slice(&0x100u32.to_le_bytes());
    // record 1: named "icon", offset 0x2400
    hdr[0x10..0x14].copy_from_slice(b"icon");
    hdr[0x18..0x1C].copy_from_slice(&0x2400u32.to_le_bytes());
    assert_eq!(find_icon(&hdr), Some(0x2400));
    let empty = vec![0u8; 0x40];
    assert_eq!(find_icon(&empty), None);
    // zero bytes inside the name are dropped before comparing
    let mut gappy = vec![0u8; 0x40];
    gappy[0] = 0x69;
    gappy[2] = 0x63;
    gappy[4] = 0x6F;
    gappy[6] = 0x6E;
    gappy[8..12].copy_from_slice(&0x80u32.to_le_bytes());
    assert_eq!(find_icon(&gappy), Some(0x80));
}

#[test]
fn exefs_header_decrypt_is_identity_when_plain() {
    let hdr: Vec<u8> = (0u8..0x40).collect();
    assert_eq!(decrypt_exefs_header(&hdr, false, 0, 0), hdr);
}

#[test]
fn error_messages_name_the_cause() {
    assert!(ConvError::NotACci.message().contains("NCSD"));
    assert!(ConvError::NotANcch.message().contains("NCCH"));
    assert!(ConvError::ExtHeaderCorrupt.message().contains("ExtHeader"));
}
