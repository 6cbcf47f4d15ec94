//! The CIA layout: header, chunk records, TMD padding, meta region, and
//! the absolute offsets that are back-patched once the hashes are known.

use vstd::prelude::*;
use crate::bytes::{be32_bytes, le16_bytes, le32_bytes, zero_bytes, push_u16_le, push_u32_le,
    push_u32_be, push_zeros, append_bytes, zeros};

verus! {

/// Back-patch offset: the title ID inside the ticket.
pub const OFF_TICKET_TITLE_ID: usize = 0x2C1C;

/// Back-patch offset: the title ID inside the TMD.
pub const OFF_TMD_TITLE_ID: usize = 0x2F4C;

/// Back-patch offset: the save-data size inside the TMD.
pub const OFF_SAVE_SIZE: usize = 0x2F5A;

/// Back-patch offset: the content-count byte inside the TMD.
pub const OFF_CONTENT_COUNT: usize = 0x2F9F;

/// Back-patch offset: the info-records hash.
pub const OFF_INFO_RECORDS_HASH: usize = 0x2FA4;

/// Back-patch offset: content count and chunk-records hash of
/// info-record zero.
pub const OFF_CHUNK_RECORDS_HASH: usize = 0x2FC7;

/// Back-patch offset: the game CXI's content hash (the hash field of
/// chunk record zero in the file).
pub const OFF_CXI_HASH: usize = 0x38D4;

/// Back-patch offset: the second content's hash, a chunk record later.
pub const OFF_SECOND_CONTENT_HASH: usize = 0x3904;

/// The lengths the embedded support blobs must have for the fixed patch
/// offsets above to land where they belong.
pub const CERT_CHAIN_LEN: usize = 0xA00;

pub const TICKET_TMD_LEN: usize = 0x518;

/// How many contents the CIA carries.
pub open spec fn spec_content_count(manual: bool, dlp: bool) -> int {
    1 + (if manual {
        1int
    } else {
        0int
    }) + (if dlp {
        1int
    } else {
        0int
    })
}

/// The content-index byte: bit 7 for the CXI, bit 6 for the Manual, bit 5
/// for the Download-Play child.
pub open spec fn spec_content_index(manual: bool, dlp: bool) -> u8 {
    (0x80 + (if manual {
        0x40int
    } else {
        0int
    }) + (if dlp {
        0x20int
    } else {
        0int
    })) as u8
}

/// The TMD size field: 0xB34 plus 0x30 for each content past the first.
pub open spec fn spec_tmd_size(manual: bool, dlp: bool) -> int {
    0xB34 + 0x30 * (spec_content_count(manual, dlp) - 1)
}

/// The padding written after the chunk records: 0xC bytes, plus 0x10 for
/// each content past the first.
pub open spec fn spec_tmd_padding_len(manual: bool, dlp: bool) -> int {
    0xC + 0x10 * (spec_content_count(manual, dlp) - 1)
}

/// One 0x30-byte chunk record, big-endian: content id, content index,
/// type (zero), size in bytes, and 0x20 reserved zero bytes. The hash
/// field (offsets 0x10..0x30 of the record) starts out zero and is
/// stamped later.
pub open spec fn spec_chunk_record(id: u32, index: u32, size: u32) -> Seq<u8> {
    be32_bytes(id) + be32_bytes(index) + be32_bytes(0) + be32_bytes(size) + zero_bytes(0x20)
}

/// The chunk records as first written: one per present content, hashes
/// still zero.
pub open spec fn spec_chunk_records(
    cxi_size: u32,
    manual: bool,
    manual_size: u32,
    dlp: bool,
    dlp_size: u32,
) -> Seq<u8> {
    spec_chunk_record(0, 0, cxi_size) + (if manual {
        spec_chunk_record(1, 0x10000, manual_size)
    } else {
        Seq::empty()
    }) + (if dlp {
        spec_chunk_record(2, 0x20000, dlp_size)
    } else {
        Seq::empty()
    })
}

/// The 0x21-byte initial CIA header, little-endian: header size, type,
/// version, cert-chain size, ticket size, TMD size, meta size, content
/// size, the high content-index word, and the content-index byte.
pub open spec fn spec_cia_header(tmd_size: u32, content_size: u32, content_index: u8) -> Seq<u8> {
    le32_bytes(0x2020) + le16_bytes(0) + le16_bytes(0) + le32_bytes(0xA00) + le32_bytes(0x350)
        + le32_bytes(tmd_size) + le32_bytes(0x3AC0) + le32_bytes(content_size) + le32_bytes(0)
        + seq![content_index]
}

/// Everything the CIA holds before the content bodies: the header, padding
/// out to 0x2040, the certificate chain, the ticket+TMD template, padding,
/// the chunk records, and the TMD padding.
pub open spec fn spec_cia_prefix(
    cert: Seq<u8>,
    ticket_tmd: Seq<u8>,
    tmd_size: u32,
    content_size: u32,
    content_index: u8,
    chunk_records: Seq<u8>,
    tmd_padding_len: int,
) -> Seq<u8> {
    spec_cia_header(tmd_size, content_size, content_index) + zero_bytes(0x201F) + cert + ticket_tmd
        + zero_bytes(0x96C) + chunk_records + zero_bytes(tmd_padding_len)
}

/// The meta region: the dependency list, zero padding, the end mark,
/// more zero padding, then the SMDH icon.
pub open spec fn spec_meta_region(dependency_list: Seq<u8>, icon: Seq<u8>) -> Seq<u8> {
    dependency_list + zero_bytes(0x180) + le32_bytes(2) + zero_bytes(0xFC) + icon
}

/// The bytes the info-records hash is computed over: a zero-padded
/// content count, the chunk-records hash, and 0x8DC zero bytes.
pub open spec fn spec_info_records_input(content_count: u8, chunk_records_hash: Seq<u8>) -> Seq<
    u8,
> {
    seq![0u8, 0u8, 0u8, content_count] + chunk_records_hash + zero_bytes(0x8DC)
}

/// How many contents the CIA carries.
pub fn content_count(manual: bool, dlp: bool) -> (r: u8)
    ensures
        r == spec_content_count(manual, dlp),
{
    let mut c: u8 = 1;
    if manual {
        c += 1;
    }
    if dlp {
        c += 1;
    }
    c
}

/// The content-index byte.
pub fn content_index(manual: bool, dlp: bool) -> (r: u8)
    ensures
        r == spec_content_index(manual, dlp),
{
    let mut c: u8 = 0x80;
    if manual {
        c += 0x40;
    }
    if dlp {
        c += 0x20;
    }
    c
}

/// The TMD size field.
pub fn tmd_size(manual: bool, dlp: bool) -> (r: u32)
    ensures
        r == spec_tmd_size(manual, dlp),
{
    let mut s: u32 = 0xB34;
    if manual {
        s += 0x30;
    }
    if dlp {
        s += 0x30;
    }
    s
}

/// Exactly the bits for the present contents are set in the content-index
/// byte: bit 7 always, bit 6 exactly when the Manual is present, bit 5
/// exactly when the Download-Play child is, and no other bit ever.
pub proof fn lemma_content_index_bits(manual: bool, dlp: bool)
    ensures
        spec_content_index(manual, dlp) & 0x80u8 != 0,
        (spec_content_index(manual, dlp) & 0x40u8 != 0) == manual,
        (spec_content_index(manual, dlp) & 0x20u8 != 0) == dlp,
        spec_content_index(manual, dlp) & 0x1Fu8 == 0,
{
    let m: u8 = if manual {
        0x40
    } else {
        0
    };
    let d: u8 = if dlp {
        0x20
    } else {
        0
    };
    assert((m == 0x40 || m == 0) && (d == 0x20 || d == 0) ==> {
        let c = (0x80 + m + d) as u8;
        &&& c & 0x80u8 != 0
        &&& ((c & 0x40u8 != 0) == (m == 0x40))
        &&& ((c & 0x20u8 != 0) == (d == 0x20))
        &&& c & 0x1Fu8 == 0
    }) by (bit_vector);
}

/// Build the chunk records for the present contents, hash fields zero.
pub fn build_chunk_records(
    cxi_size: u32,
    manual: bool,
    manual_size: u32,
    dlp: bool,
    dlp_size: u32,
) -> (r: Vec<u8>)
    ensures
        r@ == spec_chunk_records(cxi_size, manual, manual_size, dlp, dlp_size),
{
    let mut out: Vec<u8> = Vec::new();
    push_chunk_record(&mut out, 0, 0, cxi_size);
    if manual {
        push_chunk_record(&mut out, 1, 0x10000, manual_size);
    }
    if dlp {
        push_chunk_record(&mut out, 2, 0x20000, dlp_size);
    }
    assert(out@ =~= spec_chunk_records(cxi_size, manual, manual_size, dlp, dlp_size));
    out
}

/// Append one chunk record.
fn push_chunk_record(out: &mut Vec<u8>, id: u32, index: u32, size: u32)
    ensures
        final(out)@ == old(out)@ + spec_chunk_record(id, index, size),
{
    push_u32_be(out, id);
    push_u32_be(out, index);
    push_u32_be(out, 0);
    push_u32_be(out, size);
    push_zeros(out, 0x20);
    assert(out@ =~= old(out)@ + spec_chunk_record(id, index, size));
}

/// Build the initial CIA header.
pub fn build_cia_header(tmd_size: u32, content_size: u32, content_index: u8) -> (r: Vec<u8>)
    ensures
        r@ == spec_cia_header(tmd_size, content_size, content_index),
{
    let mut out: Vec<u8> = Vec::new();
    push_u32_le(&mut out, 0x2020);
    push_u16_le(&mut out, 0);
    push_u16_le(&mut out, 0);
    push_u32_le(&mut out, 0xA00);
    push_u32_le(&mut out, 0x350);
    push_u32_le(&mut out, tmd_size);
    push_u32_le(&mut out, 0x3AC0);
    push_u32_le(&mut out, content_size);
    push_u32_le(&mut out, 0);
    out.push(content_index);
    assert(out@ =~= spec_cia_header(tmd_size, content_size, content_index));
    out
}

/// Build everything the CIA holds before the content bodies.
pub fn build_cia_prefix(
    cert: &Vec<u8>,
    ticket_tmd: &Vec<u8>,
    tmd_size: u32,
    content_size: u32,
    content_index: u8,
    chunk_records: &Vec<u8>,
    tmd_padding_len: usize,
) -> (r: Vec<u8>)
    ensures
        r@ == spec_cia_prefix(cert@, ticket_tmd@, tmd_size, content_size, content_index,
            chunk_records@, tmd_padding_len as int),
{
    let mut out = build_cia_header(tmd_size, content_size, content_index);
    push_zeros(&mut out, 0x201F);
    append_bytes(&mut out, cert);
    append_bytes(&mut out, ticket_tmd);
    push_zeros(&mut out, 0x96C);
    append_bytes(&mut out, chunk_records);
    push_zeros(&mut out, tmd_padding_len);
    assert(out@ =~= spec_cia_prefix(cert@, ticket_tmd@, tmd_size, content_size, content_index,
        chunk_records@, tmd_padding_len as int));
    out
}

/// Build the meta region.
pub fn build_meta_region(dependency_list: &Vec<u8>, icon: &Vec<u8>) -> (r: Vec<u8>)
    ensures
        r@ == spec_meta_region(dependency_list@, icon@),
{
    let mut out: Vec<u8> = Vec::new();
    append_bytes(&mut out, dependency_list);
    push_zeros(&mut out, 0x180);
    push_u32_le(&mut out, 2);
    push_zeros(&mut out, 0xFC);
    append_bytes(&mut out, icon);
    assert(out@ =~= spec_meta_region(dependency_list@, icon@));
    out
}

/// Build the bytes the info-records hash covers.
pub fn build_info_records_input(content_count: u8, chunk_records_hash: &Vec<u8>) -> (r: Vec<u8>)
    ensures
        r@ == spec_info_records_input(content_count, chunk_records_hash@),
{
    let mut out: Vec<u8> = Vec::new();
    out.push(0);
    out.push(0);
    out.push(0);
    out.push(content_count);
    append_bytes(&mut out, chunk_records_hash);
    push_zeros(&mut out, 0x8DC);
    assert(out@ =~= spec_info_records_input(content_count, chunk_records_hash@));
    out
}

} // verus!
