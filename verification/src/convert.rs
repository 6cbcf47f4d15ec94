//! The CCI-to-CIA transform over in-memory bytes: parse, derive the key,
//! rework the ExtHeader, pull the icon, lay the CIA out, hash everything,
//! and back-patch the hashes. `spec_convert` says byte for byte what comes
//! out of `convert_cci`, for every input.

use vstd::prelude::*;
use crate::ConvError;
use crate::bytes::{be128_val, be64_bytes, copy_range, le32_val, overwrite, u64_to_be_vec,
    write_at, zeros, zero_bytes, append_bytes};
use crate::cia::{build_chunk_records, build_cia_prefix, build_info_records_input,
    build_meta_region, content_count, content_index, spec_chunk_records, spec_cia_prefix,
    spec_content_count, spec_content_index, spec_info_records_input, spec_meta_region,
    spec_tmd_padding_len, spec_tmd_size, tmd_size, OFF_CHUNK_RECORDS_HASH, OFF_CONTENT_COUNT,
    OFF_CXI_HASH, OFF_INFO_RECORDS_HASH, OFF_SAVE_SIZE, OFF_SECOND_CONTENT_HASH,
    OFF_TICKET_TITLE_ID, OFF_TMD_TITLE_ID};
use crate::exefs::{decrypt_exefs_header, decrypt_icon, find_icon, spec_exefs_header_plain,
    spec_find_icon, spec_icon_plain};
use crate::extheader::{process_extheader, ExtHeaderData, spec_extheader_output,
    spec_extheader_plain, spec_patch_sd_flag};
use crate::hashes::{sha256, sha256_of};
use crate::keys::{select_normal_key, spec_normal_key};
use crate::ncsd::{has_ncch_magic_at, has_ncsd_magic, parse_ncch, parse_ncsd, CciHeader, NcchInfo,
    spec_cxi_offset, spec_cxi_size, spec_dlp_offset, spec_dlp_size, spec_encrypted,
    spec_manual_offset, spec_manual_size, spec_title_id, spec_zero_key};

verus! {

/// The parse stage gets as far as the game partition's NCCH header: the
/// image holds an NCSD header, and the partition it points at carries the
/// NCCH magic.
pub open spec fn conversion_reaches_body(cci: Seq<u8>) -> bool {
    &&& cci.len() >= 0x140
    &&& has_ncsd_magic(cci)
    &&& spec_cxi_offset(cci) + 0x104 <= cci.len()
    &&& has_ncch_magic_at(cci, spec_cxi_offset(cci))
}

/// The partition sizes a conversion can carry: a game partition with room
/// for its NCCH header and ExtHeader, and content sizes whose sum fits the
/// CIA header's 32-bit content-size field.
pub open spec fn spec_sizes_ok(cci: Seq<u8>) -> bool {
    &&& spec_cxi_size(cci) >= 0x600
    &&& spec_cxi_size(cci) + spec_manual_size(cci) + spec_dlp_size(cci) < 0x1_0000_0000
}

/// The normal key for an encrypted partition: all zero under zero-key
/// encryption, else the scramble of key-X and the partition's key-Y.
pub open spec fn spec_partition_key(ncch: Seq<u8>, key_x: u128) -> u128 {
    if spec_zero_key(ncch) {
        0u128
    } else {
        spec_normal_key(key_x, be128_val(ncch, 0) as u128)
    }
}

/// The abort, if any, of the header reads: too short for each read in
/// turn, or a missing magic.
pub open spec fn spec_early_abort(cci: Seq<u8>) -> Option<ConvError> {
    if cci.len() < 0x104 {
        Some(ConvError::IoFailure)
    } else if !has_ncsd_magic(cci) {
        Some(ConvError::NotACci)
    } else if cci.len() < 0x140 {
        Some(ConvError::IoFailure)
    } else if spec_cxi_offset(cci) + 0x104 > cci.len() {
        Some(ConvError::IoFailure)
    } else if !has_ncch_magic_at(cci, spec_cxi_offset(cci)) {
        Some(ConvError::NotANcch)
    } else if spec_cxi_offset(cci) + 0x600 > cci.len() {
        Some(ConvError::IoFailure)
    } else {
        None
    }
}

/// The abort, if any, after the headers parse: a wrong ExtHeader hash, or
/// a read past the end of the image (ExeFS header, icon, or a content
/// body).
pub open spec fn spec_late_abort(cci: Seq<u8>, key_x: u128) -> Option<ConvError> {
    let cxi_off = spec_cxi_offset(cci);
    let ncch = cci.subrange(cxi_off, cxi_off + 0x200);
    let encrypted = spec_encrypted(ncch);
    let key = spec_partition_key(ncch, key_x);
    let tid = spec_title_id(cci) as u64;
    let ext = cci.subrange(cxi_off + 0x200, cxi_off + 0x600);
    let plain = spec_extheader_plain(ext, encrypted, key, tid);
    if sha256_of(plain) != ncch.subrange(0x160, 0x180) {
        Some(ConvError::ExtHeaderCorrupt)
    } else {
        let exefs_pos = cxi_off + 0x200 * le32_val(ncch, 0x1A0);
        if exefs_pos + 0x40 > cci.len() {
            Some(ConvError::IoFailure)
        } else {
            let hdr = spec_exefs_header_plain(cci.subrange(exefs_pos, exefs_pos + 0x40),
                encrypted, key, tid);
            let icon_out_of_reach = match spec_find_icon(hdr) {
                Some(ioff) => exefs_pos + 0x200 + ioff + 0x36C0 > cci.len(),
                None => false,
            };
            if icon_out_of_reach {
                Some(ConvError::IoFailure)
            } else if cxi_off + spec_cxi_size(cci) > cci.len() || (spec_manual_offset(cci) != 0
                && spec_manual_offset(cci) + spec_manual_size(cci) > cci.len()) || (
            spec_dlp_offset(cci) != 0 && spec_dlp_offset(cci) + spec_dlp_size(cci) > cci.len()) {
                Some(ConvError::IoFailure)
            } else {
                None
            }
        }
    }
}

/// The SMDH icon the meta region carries: the (decrypted) blob the ExeFS
/// header's "icon" record points at, or 0x36C0 zero bytes when no such
/// record stands in the first four.
pub open spec fn spec_meta_icon(cci: Seq<u8>, key_x: u128) -> Seq<u8> {
    let cxi_off = spec_cxi_offset(cci);
    let ncch = cci.subrange(cxi_off, cxi_off + 0x200);
    let encrypted = spec_encrypted(ncch);
    let key = spec_partition_key(ncch, key_x);
    let tid = spec_title_id(cci) as u64;
    let exefs_pos = cxi_off + 0x200 * le32_val(ncch, 0x1A0);
    let hdr = spec_exefs_header_plain(cci.subrange(exefs_pos, exefs_pos + 0x40), encrypted, key,
        tid);
    match spec_find_icon(hdr) {
        Some(ioff) => {
            let ipos = exefs_pos + 0x200 + ioff;
            spec_icon_plain(cci.subrange(ipos, ipos + 0x36C0), encrypted, key, tid, ioff as u32)
        },
        None => zero_bytes(0x36C0),
    }
}

/// The patched ExtHeader plaintext of the game partition.
#[verifier::opaque]
pub open spec fn spec_patched_ext(cci: Seq<u8>, key_x: u128) -> Seq<u8> {
    let cxi_off = spec_cxi_offset(cci);
    let ncch = cci.subrange(cxi_off, cxi_off + 0x200);
    let ext = cci.subrange(cxi_off + 0x200, cxi_off + 0x600);
    spec_patch_sd_flag(spec_extheader_plain(ext, spec_encrypted(ncch), spec_partition_key(ncch,
        key_x), spec_title_id(cci) as u64))
}

/// The ExtHeader bytes the CIA stores for the game partition.
#[verifier::opaque]
pub open spec fn spec_ext_out(cci: Seq<u8>, key_x: u128) -> Seq<u8> {
    let cxi_off = spec_cxi_offset(cci);
    let ncch = cci.subrange(cxi_off, cxi_off + 0x200);
    let ext = cci.subrange(cxi_off + 0x200, cxi_off + 0x600);
    spec_extheader_output(ext, spec_encrypted(ncch), spec_partition_key(ncch, key_x),
        spec_title_id(cci) as u64)
}

/// The game content as written into the CIA: the NCCH header with the
/// fresh ExtHeader hash spliced in, the ExtHeader, and the rest of the
/// partition.
#[verifier::opaque]
pub open spec fn spec_cxi_content(cci: Seq<u8>, key_x: u128) -> Seq<u8> {
    let cxi_off = spec_cxi_offset(cci);
    let ncch = cci.subrange(cxi_off, cxi_off + 0x200);
    overwrite(ncch, 0x160, sha256_of(spec_patched_ext(cci, key_x))) + spec_ext_out(cci, key_x)
        + cci.subrange(cxi_off + 0x600, cxi_off + spec_cxi_size(cci))
}

/// The Manual content as written into the CIA: the partition verbatim, or
/// nothing.
#[verifier::opaque]
pub open spec fn spec_manual_bytes(cci: Seq<u8>) -> Seq<u8> {
    if spec_manual_offset(cci) != 0 {
        cci.subrange(spec_manual_offset(cci), spec_manual_offset(cci) + spec_manual_size(cci))
    } else {
        Seq::empty()
    }
}

/// The Download-Play child content as written into the CIA.
#[verifier::opaque]
pub open spec fn spec_dlp_bytes(cci: Seq<u8>) -> Seq<u8> {
    if spec_dlp_offset(cci) != 0 {
        cci.subrange(spec_dlp_offset(cci), spec_dlp_offset(cci) + spec_dlp_size(cci))
    } else {
        Seq::empty()
    }
}

/// The chunk records as first written, hash fields zero.
#[verifier::opaque]
pub open spec fn spec_initial_records(cci: Seq<u8>) -> Seq<u8> {
    spec_chunk_records(spec_cxi_size(cci) as u32, spec_manual_offset(cci) != 0, spec_manual_size(
        cci) as u32, spec_dlp_offset(cci) != 0, spec_dlp_size(cci) as u32)
}

/// The CIA prefix for this image: header, padding, support blobs, chunk
/// records, TMD padding.
#[verifier::opaque]
pub open spec fn spec_prefix(cci: Seq<u8>, cert: Seq<u8>, tt: Seq<u8>) -> Seq<u8> {
    let manual = spec_manual_offset(cci) != 0;
    let dlp = spec_dlp_offset(cci) != 0;
    spec_cia_prefix(cert, tt, spec_tmd_size(manual, dlp) as u32, (spec_cxi_size(cci)
        + spec_manual_size(cci) + spec_dlp_size(cci)) as u32, spec_content_index(manual, dlp),
        spec_initial_records(cci), spec_tmd_padding_len(manual, dlp))
}

/// The whole CIA before any back-patch: prefix, contents, meta region.
#[verifier::opaque]
pub open spec fn spec_base(cci: Seq<u8>, key_x: u128, cert: Seq<u8>, tt: Seq<u8>) -> Seq<u8> {
    spec_prefix(cci, cert, tt) + spec_cxi_content(cci, key_x) + spec_manual_bytes(cci)
        + spec_dlp_bytes(cci) + spec_meta_region(spec_patched_ext(cci, key_x).subrange(0x40,
        0x1C0), spec_meta_icon(cci, key_x))
}

/// The chunk records with each present content's hash stamped in.
#[verifier::opaque]
pub open spec fn spec_stamped_records(cci: Seq<u8>, key_x: u128) -> Seq<u8> {
    let manual = spec_manual_offset(cci) != 0;
    let dlp = spec_dlp_offset(cci) != 0;
    let cr1 = overwrite(spec_initial_records(cci), 0x10, sha256_of(spec_cxi_content(cci,
        key_x)));
    let cr2 = if manual {
        overwrite(cr1, 0x40, sha256_of(spec_manual_bytes(cci)))
    } else {
        cr1
    };
    if dlp {
        overwrite(cr2, if manual {
            0x70int
        } else {
            0x40int
        }, sha256_of(spec_dlp_bytes(cci)))
    } else {
        cr2
    }
}

/// The CIA that a successful conversion emits, byte for byte: the base,
/// with the content count, title ID, save size, content hashes,
/// chunk-records hash and info-records hash patched in at their fixed
/// offsets.
#[verifier::opaque]
pub open spec fn spec_cia_output(cci: Seq<u8>, key_x: u128, cert: Seq<u8>, tt: Seq<u8>) -> Seq<
    u8,
> {
    let manual = spec_manual_offset(cci) != 0;
    let dlp = spec_dlp_offset(cci) != 0;
    let cc = spec_content_count(manual, dlp) as u8;
    let tid = spec_title_id(cci) as u64;
    let chunk_hash = sha256_of(spec_stamped_records(cci, key_x));
    let info_hash = sha256_of(spec_info_records_input(cc, chunk_hash));
    let p1 = overwrite(spec_base(cci, key_x, cert, tt), 0x2F9F, seq![cc]);
    let p2 = overwrite(p1, 0x2C1C, be64_bytes(tid));
    let p3 = overwrite(p2, 0x2F4C, be64_bytes(tid));
    let p4 = overwrite(p3, 0x2F5A, spec_patched_ext(cci, key_x).subrange(0x1C0, 0x1C4));
    let p5 = overwrite(p4, 0x38D4, sha256_of(spec_cxi_content(cci, key_x)));
    let p6 = if manual {
        overwrite(p5, 0x3904, sha256_of(spec_manual_bytes(cci)))
    } else {
        p5
    };
    let p7 = if dlp {
        overwrite(p6, if manual {
            0x3934int
        } else {
            0x3904int
        }, sha256_of(spec_dlp_bytes(cci)))
    } else {
        p6
    };
    let p8 = overwrite(p7, 0x2FC7, seq![cc] + chunk_hash);
    overwrite(p8, 0x2FA4, info_hash)
}

/// What the conversion does on every input: each abort with its exact
/// cause, in the order the reads happen, and on success the CIA of
/// `spec_cia_output`.
pub open spec fn spec_convert(cci: Seq<u8>, key_x: u128, cert: Seq<u8>, tt: Seq<u8>) -> Result<
    Seq<u8>,
    ConvError,
> {
    match spec_early_abort(cci) {
        Some(e) => Err(e),
        None => match spec_late_abort(cci, key_x) {
            Some(e) => Err(e),
            None => Ok(spec_cia_output(cci, key_x, cert, tt)),
        },
    }
}

/// Read and check the NCSD and NCCH headers.
fn stage_parse(cci: &Vec<u8>) -> (r: Result<(CciHeader, NcchInfo), ConvError>)
    ensures
        match r {
            Ok(p) => {
                &&& spec_early_abort(cci@) == None::<ConvError>
                &&& p.0.parsed_from(cci@)
                &&& p.1.parsed_from(cci@.subrange(spec_cxi_offset(cci@), spec_cxi_offset(cci@)
                    + 0x200))
            },
            Err(e) => spec_early_abort(cci@) == Some(e),
        },
{
    let len = cci.len();
    if len < 0x104 {
        return Err(ConvError::IoFailure);
    }
    if !(cci[0x100] == 0x4E && cci[0x101] == 0x43 && cci[0x102] == 0x53 && cci[0x103] == 0x44) {
        return Err(ConvError::NotACci);
    }
    if len < 0x140 {
        return Err(ConvError::IoFailure);
    }
    let ch = match parse_ncsd(cci) {
        Ok(c) => c,
        Err(e) => {
            proof {
                assert(false);
            }
            return Err(e);
        },
    };
    let len64 = len as u64;
    let cxi_off = ch.cxi_offset;
    if cxi_off + 0x104 > len64 {
        return Err(ConvError::IoFailure);
    }
    let cb = cxi_off as usize;
    if !(cci[cb + 0x100] == 0x4E && cci[cb + 0x101] == 0x43 && cci[cb + 0x102] == 0x43 && cci[cb
        + 0x103] == 0x48) {
        return Err(ConvError::NotANcch);
    }
    if cxi_off + 0x600 > len64 {
        return Err(ConvError::IoFailure);
    }
    let ncch_raw = copy_range(cci, cb, 0x200);
    let info = match parse_ncch(&ncch_raw) {
        Ok(i) => i,
        Err(e) => {
            proof {
                assert(false);
            }
            return Err(e);
        },
    };
    Ok((ch, info))
}

/// Convert an in-memory CCI to an in-memory CIA.
pub fn convert_cci(cci: &Vec<u8>, key_x: u128, cert: &Vec<u8>, ticket_tmd: &Vec<u8>) -> (r:
    Result<Vec<u8>, ConvError>)
    requires
        cert@.len() == 0xA00,
        ticket_tmd@.len() == 0x518,
        conversion_reaches_body(cci@) ==> spec_sizes_ok(cci@),
    ensures
        match r {
            Ok(out) => spec_convert(cci@, key_x, cert@, ticket_tmd@) == Ok::<Seq<u8>, ConvError>(
                out@),
            Err(e) => spec_convert(cci@, key_x, cert@, ticket_tmd@) == Err::<Seq<u8>, ConvError>(
                e),
        },
{
    let (ch, info) = match stage_parse(cci) {
        Ok(p) => p,
        Err(e) => {
            return Err(e);
        },
    };
    let len64 = cci.len() as u64;
    let cxi_off = ch.cxi_offset;
    let cb = cxi_off as usize;
    let tid = ch.title_id;
    let key = match select_normal_key(info.encrypted, info.zero_key, key_x, info.key_y) {
        Some(k) => k,
        None => 0,
    };
    let ghost ncch = cci@.subrange(cxi_off as int, cxi_off + 0x200);
    let ghost skey = spec_partition_key(ncch, key_x);
    proof {
        assert(info.encrypted ==> key == skey);
    }
    let ext_raw = copy_range(cci, cb + 0x200, 0x400);
    let ext_data = match process_extheader(&ext_raw, &info.stored_extheader_hash, info.encrypted,
        key, tid) {
        Ok(d) => d,
        Err(e) => {
            proof {
                lemma_plain_key_irrelevant(ext_raw@, info.encrypted, key, skey, tid);
            }
            return Err(e);
        },
    };
    proof {
        lemma_plain_key_irrelevant(ext_raw@, info.encrypted, key, skey, tid);
    }
    // the ExeFS header, and the icon if a record names one
    let exefs_pos = cxi_off + info.exefs_offset;
    if exefs_pos + 0x40 > len64 {
        return Err(ConvError::IoFailure);
    }
    let exefs_raw = copy_range(cci, exefs_pos as usize, 0x40);
    let exefs_hdr = decrypt_exefs_header(&exefs_raw, info.encrypted, key, tid);
    proof {
        lemma_exefs_key_irrelevant(exefs_raw@, info.encrypted, key, skey, tid);
    }
    let icon: Vec<u8> = match find_icon(&exefs_hdr) {
        Some(ioff) => {
            let ipos = exefs_pos + 0x200 + (ioff as u64);
            if ipos + 0x36C0 > len64 {
                return Err(ConvError::IoFailure);
            }
            let icon_raw = copy_range(cci, ipos as usize, 0x36C0);
            let dec = decrypt_icon(&icon_raw, info.encrypted, key, tid, ioff);
            proof {
                lemma_icon_key_irrelevant(icon_raw@, info.encrypted, key, skey, tid, ioff);
            }
            dec
        },
        None => zeros(0x36C0),
    };
    proof {
        assert(icon@ == spec_meta_icon(cci@, key_x));
    }
    // content bodies must lie inside the image
    let manual = ch.manual_offset != 0;
    let dlp = ch.dlp_offset != 0;
    if cxi_off + ch.cxi_size > len64 || (manual && ch.manual_offset + ch.manual_size > len64) || (
    dlp && ch.dlp_offset + ch.dlp_size > len64) {
        return Err(ConvError::IoFailure);
    }
    proof {
        assert(spec_late_abort(cci@, key_x) == None::<ConvError>);
    }
    let out = assemble_cia(cci, cert, ticket_tmd, &ch, &ext_data, &icon, tid, Ghost(key_x));
    Ok(out)
}

/// Build the CIA base: prefix, the three contents, and the meta region,
/// before any back-patch. Hands back the contents too, for hashing.
#[verifier::rlimit(100)]
fn build_base(
    cci: &Vec<u8>,
    cert: &Vec<u8>,
    ticket_tmd: &Vec<u8>,
    ch: &CciHeader,
    ext_data: &ExtHeaderData,
    icon: &Vec<u8>,
    tid: u64,
    key_x: Ghost<u128>,
) -> (r: (Vec<u8>, Vec<u8>, Vec<u8>, Vec<u8>))
    requires
        cert@.len() == 0xA00,
        ticket_tmd@.len() == 0x518,
        conversion_reaches_body(cci@),
        spec_sizes_ok(cci@),
        ch.parsed_from(cci@),
        tid == spec_title_id(cci@),
        spec_cxi_offset(cci@) + spec_cxi_size(cci@) <= cci@.len(),
        spec_manual_offset(cci@) != 0 ==> spec_manual_offset(cci@) + spec_manual_size(cci@)
            <= cci@.len(),
        spec_dlp_offset(cci@) != 0 ==> spec_dlp_offset(cci@) + spec_dlp_size(cci@) <= cci@.len(),
        ext_data.derived_from(
            cci@.subrange(spec_cxi_offset(cci@) + 0x200, spec_cxi_offset(cci@) + 0x600),
            spec_encrypted(cci@.subrange(spec_cxi_offset(cci@), spec_cxi_offset(cci@) + 0x200)),
            spec_partition_key(cci@.subrange(spec_cxi_offset(cci@), spec_cxi_offset(cci@)
                + 0x200), key_x@),
            tid,
        ),
        icon@ == spec_meta_icon(cci@, key_x@),
    ensures
        r.0@ == spec_base(cci@, key_x@, cert@, ticket_tmd@),
        r.1@ == spec_cxi_content(cci@, key_x@),
        r.2@ == spec_manual_bytes(cci@),
        r.3@ == spec_dlp_bytes(cci@),
{
    let n = cci.len();
    proof {
        assert(ch.cxi_size >= 0x600);
        assert(ch.cxi_offset + ch.cxi_size <= n);
    }
    let cb = ch.cxi_offset as usize;
    let manual = ch.manual_offset != 0;
    let dlp = ch.dlp_offset != 0;
    let cidx = content_index(manual, dlp);
    let tsize = tmd_size(manual, dlp);
    let mut tmd_padding_len: usize = 0xC;
    if manual {
        tmd_padding_len += 0x10;
    }
    if dlp {
        tmd_padding_len += 0x10;
    }
    let content_size = (ch.cxi_size as u32) + (ch.manual_size as u32) + (ch.dlp_size as u32);
    let cr0 = build_chunk_records(ch.cxi_size as u32, manual, ch.manual_size as u32, dlp,
        ch.dlp_size as u32);
    let prefix = build_cia_prefix(cert, ticket_tmd, tsize, content_size, cidx, &cr0,
        tmd_padding_len);
    // the game content: patched NCCH header, ExtHeader, body
    let mut cxi_content = copy_range(cci, cb, 0x200);
    write_at(&mut cxi_content, 0x160, &ext_data.new_hash);
    append_bytes(&mut cxi_content, &ext_data.output);
    let body = copy_range(cci, cb + 0x600, (ch.cxi_size - 0x600) as usize);
    append_bytes(&mut cxi_content, &body);
    // the other contents
    let manual_bytes = if manual {
        copy_range(cci, ch.manual_offset as usize, ch.manual_size as usize)
    } else {
        Vec::new()
    };
    let dlp_bytes = if dlp {
        copy_range(cci, ch.dlp_offset as usize, ch.dlp_size as usize)
    } else {
        Vec::new()
    };
    let meta = build_meta_region(&ext_data.dependency_list, icon);
    proof {
        assert(cxi_content@ == spec_cxi_content(cci@, key_x@)) by {
            reveal(spec_cxi_content);
            reveal(spec_patched_ext);
            reveal(spec_ext_out);
        }
        assert(prefix@ == spec_prefix(cci@, cert@, ticket_tmd@)) by {
            reveal(spec_prefix);
            reveal(spec_initial_records);
        }
        assert(manual_bytes@ == spec_manual_bytes(cci@)) by {
            reveal(spec_manual_bytes);
        }
        assert(dlp_bytes@ == spec_dlp_bytes(cci@)) by {
            reveal(spec_dlp_bytes);
        }
        assert(meta@ == spec_meta_region(spec_patched_ext(cci@, key_x@).subrange(0x40, 0x1C0),
            spec_meta_icon(cci@, key_x@))) by {
            reveal(spec_patched_ext);
        }
    }
    let mut out = prefix;
    append_bytes(&mut out, &cxi_content);
    append_bytes(&mut out, &manual_bytes);
    append_bytes(&mut out, &dlp_bytes);
    append_bytes(&mut out, &meta);
    proof {
        assert(out@ == spec_base(cci@, key_x@, cert@, ticket_tmd@)) by {
            reveal(spec_base);
        }
    }
    (out, cxi_content, manual_bytes, dlp_bytes)
}

/// The base holds at least the whole fixed region that the back-patches
/// land in.
proof fn lemma_base_long_enough(cci: Seq<u8>, key_x: u128, cert: Seq<u8>, tt: Seq<u8>)
    requires
        cert.len() == 0xA00,
        tt.len() == 0x518,
    ensures
        spec_base(cci, key_x, cert, tt).len() >= 0x3900 + (if spec_manual_offset(cci) != 0 {
            0x40int
        } else {
            0int
        }) + (if spec_dlp_offset(cci) != 0 {
            0x40int
        } else {
            0int
        }),
{
    reveal(spec_base);
    reveal(spec_prefix);
    reveal(spec_initial_records);
}

/// Build the chunk records with the content hashes stamped into their
/// hash fields.
#[verifier::rlimit(100)]
fn build_stamped_records(
    ch: &CciHeader,
    cxi_hash: &Vec<u8>,
    manual_hash: &Vec<u8>,
    dlp_hash: &Vec<u8>,
    cci: Ghost<Seq<u8>>,
    key_x: Ghost<u128>,
) -> (r: Vec<u8>)
    requires
        ch.parsed_from(cci@),
        spec_sizes_ok(cci@),
        cxi_hash@ == sha256_of(spec_cxi_content(cci@, key_x@)),
        cxi_hash@.len() == 32,
        manual_hash@ == sha256_of(spec_manual_bytes(cci@)),
        manual_hash@.len() == 32,
        dlp_hash@ == sha256_of(spec_dlp_bytes(cci@)),
        dlp_hash@.len() == 32,
    ensures
        r@ == spec_stamped_records(cci@, key_x@),
{
    let manual = ch.manual_offset != 0;
    let dlp = ch.dlp_offset != 0;
    let mut cr = build_chunk_records(ch.cxi_size as u32, manual, ch.manual_size as u32, dlp,
        ch.dlp_size as u32);
    write_at(&mut cr, 0x10, cxi_hash);
    if manual {
        write_at(&mut cr, 0x40, manual_hash);
    }
    if dlp {
        write_at(&mut cr, if manual {
            0x70
        } else {
            0x40
        }, dlp_hash);
    }
    proof {
        assert(cr@ == spec_stamped_records(cci@, key_x@)) by {
            reveal(spec_stamped_records);
            reveal(spec_initial_records);
        }
    }
    cr
}

/// Apply the nine back-patches to the base, in the order the writer seeks
/// to them.
#[verifier::rlimit(100)]
fn apply_patches(
    out: &mut Vec<u8>,
    ch: &CciHeader,
    cc: u8,
    tid: u64,
    save_size: &Vec<u8>,
    cxi_hash: &Vec<u8>,
    manual_hash: &Vec<u8>,
    dlp_hash: &Vec<u8>,
    chunk_hash: &Vec<u8>,
    info_hash: &Vec<u8>,
    cert: Ghost<Seq<u8>>,
    tt: Ghost<Seq<u8>>,
    cci: Ghost<Seq<u8>>,
    key_x: Ghost<u128>,
)
    requires
        cert@.len() == 0xA00,
        tt@.len() == 0x518,
        ch.parsed_from(cci@),
        old(out)@ == spec_base(cci@, key_x@, cert@, tt@),
        cc == spec_content_count(spec_manual_offset(cci@) != 0, spec_dlp_offset(cci@) != 0),
        tid == spec_title_id(cci@),
        save_size@ == spec_patched_ext(cci@, key_x@).subrange(0x1C0, 0x1C4),
        save_size@.len() == 4,
        cxi_hash@ == sha256_of(spec_cxi_content(cci@, key_x@)),
        cxi_hash@.len() == 32,
        manual_hash@ == sha256_of(spec_manual_bytes(cci@)),
        manual_hash@.len() == 32,
        dlp_hash@ == sha256_of(spec_dlp_bytes(cci@)),
        dlp_hash@.len() == 32,
        chunk_hash@ == sha256_of(spec_stamped_records(cci@, key_x@)),
        chunk_hash@.len() == 32,
        info_hash@ == sha256_of(spec_info_records_input(cc, chunk_hash@)),
        info_hash@.len() == 32,
    ensures
        final(out)@ == spec_cia_output(cci@, key_x@, cert@, tt@),
{
    let manual = ch.manual_offset != 0;
    let dlp = ch.dlp_offset != 0;
    proof {
        lemma_base_long_enough(cci@, key_x@, cert@, tt@);
    }
    let mut cc_bytes: Vec<u8> = Vec::new();
    cc_bytes.push(cc);
    proof {
        assert(cc_bytes@ =~= seq![cc]);
    }
    write_at(out, OFF_CONTENT_COUNT, &cc_bytes);
    let tid_be = u64_to_be_vec(tid);
    write_at(out, OFF_TICKET_TITLE_ID, &tid_be);
    write_at(out, OFF_TMD_TITLE_ID, &tid_be);
    write_at(out, OFF_SAVE_SIZE, save_size);
    write_at(out, OFF_CXI_HASH, cxi_hash);
    if manual {
        write_at(out, OFF_SECOND_CONTENT_HASH, manual_hash);
    }
    if dlp {
        write_at(out, if manual {
            0x3934
        } else {
            OFF_SECOND_CONTENT_HASH
        }, dlp_hash);
    }
    let mut chunk_patch: Vec<u8> = Vec::new();
    chunk_patch.push(cc);
    append_bytes(&mut chunk_patch, chunk_hash);
    proof {
        assert(chunk_patch@ =~= seq![cc] + chunk_hash@);
    }
    write_at(out, OFF_CHUNK_RECORDS_HASH, &chunk_patch);
    write_at(out, OFF_INFO_RECORDS_HASH, info_hash);
    proof {
        assert(out@ == spec_cia_output(cci@, key_x@, cert@, tt@)) by {
            reveal(spec_cia_output);
        }
    }
}

/// Lay out the whole CIA for a conversion that aborts nowhere: the base,
/// then the back-patches.
fn assemble_cia(
    cci: &Vec<u8>,
    cert: &Vec<u8>,
    ticket_tmd: &Vec<u8>,
    ch: &CciHeader,
    ext_data: &ExtHeaderData,
    icon: &Vec<u8>,
    tid: u64,
    key_x: Ghost<u128>,
) -> (out: Vec<u8>)
    requires
        cert@.len() == 0xA00,
        ticket_tmd@.len() == 0x518,
        conversion_reaches_body(cci@),
        spec_sizes_ok(cci@),
        ch.parsed_from(cci@),
        tid == spec_title_id(cci@),
        spec_cxi_offset(cci@) + spec_cxi_size(cci@) <= cci@.len(),
        spec_manual_offset(cci@) != 0 ==> spec_manual_offset(cci@) + spec_manual_size(cci@)
            <= cci@.len(),
        spec_dlp_offset(cci@) != 0 ==> spec_dlp_offset(cci@) + spec_dlp_size(cci@) <= cci@.len(),
        ext_data.derived_from(
            cci@.subrange(spec_cxi_offset(cci@) + 0x200, spec_cxi_offset(cci@) + 0x600),
            spec_encrypted(cci@.subrange(spec_cxi_offset(cci@), spec_cxi_offset(cci@) + 0x200)),
            spec_partition_key(cci@.subrange(spec_cxi_offset(cci@), spec_cxi_offset(cci@)
                + 0x200), key_x@),
            tid,
        ),
        icon@ == spec_meta_icon(cci@, key_x@),
    ensures
        out@ == spec_cia_output(cci@, key_x@, cert@, ticket_tmd@),
{
    let manual = ch.manual_offset != 0;
    let dlp = ch.dlp_offset != 0;
    let cc = content_count(manual, dlp);
    let (base, cxi_content, manual_bytes, dlp_bytes) = build_base(cci, cert, ticket_tmd, ch,
        ext_data, icon, tid, key_x);
    let mut out = base;
    let cxi_hash = sha256(&cxi_content);
    let manual_hash = sha256(&manual_bytes);
    let dlp_hash = sha256(&dlp_bytes);
    let cr = build_stamped_records(ch, &cxi_hash, &manual_hash, &dlp_hash, Ghost(cci@), key_x);
    let chunk_hash = sha256(&cr);
    let info_input = build_info_records_input(cc, &chunk_hash);
    let info_hash = sha256(&info_input);
    proof {
        assert(ext_data.save_size@ == spec_patched_ext(cci@, key_x@).subrange(0x1C0, 0x1C4)) by {
            reveal(spec_patched_ext);
        }
    }
    apply_patches(&mut out, ch, cc, tid, &ext_data.save_size, &cxi_hash, &manual_hash, &dlp_hash,
        &chunk_hash, &info_hash, Ghost(cert@), Ghost(ticket_tmd@), Ghost(cci@), key_x);
    out
}

/// When the partition is not encrypted, the plaintext reading of the
/// ExtHeader does not look at the key.
proof fn lemma_plain_key_irrelevant(ext: Seq<u8>, encrypted: bool, k1: u128, k2: u128, tid: u64)
    requires
        encrypted ==> k1 == k2,
    ensures
        spec_extheader_plain(ext, encrypted, k1, tid) == spec_extheader_plain(ext, encrypted, k2,
            tid),
        spec_extheader_output(ext, encrypted, k1, tid) == spec_extheader_output(ext, encrypted,
            k2, tid),
        spec_patch_sd_flag(spec_extheader_plain(ext, encrypted, k1, tid)) == spec_patch_sd_flag(
            spec_extheader_plain(ext, encrypted, k2, tid)),
{
}

/// When the partition is not encrypted, the ExeFS header plaintext does
/// not look at the key.
proof fn lemma_exefs_key_irrelevant(h: Seq<u8>, encrypted: bool, k1: u128, k2: u128, tid: u64)
    requires
        encrypted ==> k1 == k2,
    ensures
        spec_exefs_header_plain(h, encrypted, k1, tid) == spec_exefs_header_plain(h, encrypted,
            k2, tid),
{
}

/// When the partition is not encrypted, the icon plaintext does not look
/// at the key.
proof fn lemma_icon_key_irrelevant(
    icon: Seq<u8>,
    encrypted: bool,
    k1: u128,
    k2: u128,
    tid: u64,
    ioff: u32,
)
    requires
        encrypted ==> k1 == k2,
    ensures
        spec_icon_plain(icon, encrypted, k1, tid, ioff) == spec_icon_plain(icon, encrypted, k2,
            tid, ioff),
{
}

} // verus!
