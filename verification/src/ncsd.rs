//! Parsers for the NCSD cartridge header and the per-partition NCCH
//! header.

use vstd::prelude::*;
use crate::ConvError;
use crate::bytes::{le32_val, le64_val, be128_val, read_u32_le, read_u64_le, read_u128_be,
    copy_range};

verus! {

/// "NCSD" stands at offset 0x100 of the cartridge image.
pub open spec fn has_ncsd_magic(s: Seq<u8>) -> bool {
    &&& s[0x100] == 0x4Eu8
    &&& s[0x101] == 0x43u8
    &&& s[0x102] == 0x53u8
    &&& s[0x103] == 0x44u8
}

/// "NCCH" stands at offset 0x100 of the partition that starts at `base`.
pub open spec fn has_ncch_magic_at(s: Seq<u8>, base: int) -> bool {
    &&& s[base + 0x100] == 0x4Eu8
    &&& s[base + 0x101] == 0x43u8
    &&& s[base + 0x102] == 0x43u8
    &&& s[base + 0x103] == 0x48u8
}

/// The partition table entries of the NCSD header, scaled to bytes.
pub open spec fn spec_cxi_offset(s: Seq<u8>) -> int {
    0x200 * le32_val(s, 0x120)
}

pub open spec fn spec_cxi_size(s: Seq<u8>) -> int {
    0x200 * le32_val(s, 0x124)
}

pub open spec fn spec_manual_offset(s: Seq<u8>) -> int {
    0x200 * le32_val(s, 0x128)
}

pub open spec fn spec_manual_size(s: Seq<u8>) -> int {
    0x200 * le32_val(s, 0x12C)
}

pub open spec fn spec_dlp_offset(s: Seq<u8>) -> int {
    0x200 * le32_val(s, 0x130)
}

pub open spec fn spec_dlp_size(s: Seq<u8>) -> int {
    0x200 * le32_val(s, 0x134)
}

/// The 64-bit title ID, stored little-endian at offset 0x108.
pub open spec fn spec_title_id(s: Seq<u8>) -> int {
    le64_val(s, 0x108)
}

/// The parsed NCSD header: title ID and the three partition locations
/// that matter, in bytes. An offset of zero means the partition is
/// absent.
#[derive(Debug)]
pub struct CciHeader {
    pub title_id: u64,
    pub cxi_offset: u64,
    pub cxi_size: u64,
    pub manual_offset: u64,
    pub manual_size: u64,
    pub dlp_offset: u64,
    pub dlp_size: u64,
}

impl CciHeader {
    /// The header fields are exactly the scaled table entries of `s`.
    pub open spec fn parsed_from(&self, s: Seq<u8>) -> bool {
        &&& self.title_id == spec_title_id(s)
        &&& self.cxi_offset == spec_cxi_offset(s)
        &&& self.cxi_size == spec_cxi_size(s)
        &&& self.manual_offset == spec_manual_offset(s)
        &&& self.manual_size == spec_manual_size(s)
        &&& self.dlp_offset == spec_dlp_offset(s)
        &&& self.dlp_size == spec_dlp_size(s)
    }
}

/// Parse the NCSD header out of the first 0x140 bytes of the image.
/// Succeeds exactly when the NCSD magic is present.
pub fn parse_ncsd(h: &Vec<u8>) -> (r: Result<CciHeader, ConvError>)
    requires
        h@.len() >= 0x140,
    ensures
        match r {
            Ok(c) => has_ncsd_magic(h@) && c.parsed_from(h@),
            Err(e) => e == ConvError::NotACci && !has_ncsd_magic(h@),
        },
{
    if !(h[0x100] == 0x4E && h[0x101] == 0x43 && h[0x102] == 0x53 && h[0x103] == 0x44) {
        return Err(ConvError::NotACci);
    }
    let title_id = read_u64_le(h, 0x108);
    let cxi_offset = (read_u32_le(h, 0x120) as u64) * 0x200;
    let cxi_size = (read_u32_le(h, 0x124) as u64) * 0x200;
    let manual_offset = (read_u32_le(h, 0x128) as u64) * 0x200;
    let manual_size = (read_u32_le(h, 0x12C) as u64) * 0x200;
    let dlp_offset = (read_u32_le(h, 0x130) as u64) * 0x200;
    let dlp_size = (read_u32_le(h, 0x134) as u64) * 0x200;
    Ok(CciHeader { title_id, cxi_offset, cxi_size, manual_offset, manual_size, dlp_offset,
        dlp_size })
}

/// The crypto-flags byte at offset 0x18F of the NCCH header.
pub open spec fn spec_crypto_flags(n: Seq<u8>) -> u8 {
    n[0x18F]
}

/// Bit 0x4 of the crypto-flags clear means the partition is encrypted.
pub open spec fn spec_encrypted(n: Seq<u8>) -> bool {
    spec_crypto_flags(n) & 0x04 == 0
}

/// Bit 0x1 of the crypto-flags set means the zero key is used.
pub open spec fn spec_zero_key(n: Seq<u8>) -> bool {
    spec_crypto_flags(n) & 0x01 != 0
}

/// The parsed NCCH header of the game partition.
#[derive(Debug)]
pub struct NcchInfo {
    /// The partition is stored encrypted (crypto-flags bit 0x4 clear).
    pub encrypted: bool,
    /// Zero-key encryption (crypto-flags bit 0x1 set).
    pub zero_key: bool,
    /// The 16-byte key-Y at the partition start, read big-endian.
    pub key_y: u128,
    /// The ExeFS offset within the partition, in bytes.
    pub exefs_offset: u64,
    /// The stored SHA-256 of the ExtHeader (offsets 0x160..0x180).
    pub stored_extheader_hash: Vec<u8>,
}

impl NcchInfo {
    /// The fields are exactly what the 0x200-byte NCCH header `n` holds.
    pub open spec fn parsed_from(&self, n: Seq<u8>) -> bool {
        &&& self.encrypted == spec_encrypted(n)
        &&& self.zero_key == spec_zero_key(n)
        &&& self.key_y == be128_val(n, 0)
        &&& self.exefs_offset == 0x200 * le32_val(n, 0x1A0)
        &&& self.stored_extheader_hash@ == n.subrange(0x160, 0x180)
    }
}

/// Parse a 0x200-byte NCCH header. Succeeds exactly when the NCCH magic
/// is present; a miss means the input is no cartridge image (a NAND dump,
/// say).
pub fn parse_ncch(n: &Vec<u8>) -> (r: Result<NcchInfo, ConvError>)
    requires
        n@.len() >= 0x200,
    ensures
        match r {
            Ok(i) => has_ncch_magic_at(n@, 0) && i.parsed_from(n@),
            Err(e) => e == ConvError::NotANcch && !has_ncch_magic_at(n@, 0),
        },
{
    if !(n[0x100] == 0x4E && n[0x101] == 0x43 && n[0x102] == 0x43 && n[0x103] == 0x48) {
        return Err(ConvError::NotANcch);
    }
    let flags = n[0x18F];
    let encrypted = flags & 0x04 == 0;
    let zero_key = flags & 0x01 != 0;
    let key_y = read_u128_be(n, 0);
    let exefs_offset = (read_u32_le(n, 0x1A0) as u64) * 0x200;
    let stored_extheader_hash = copy_range(n, 0x160, 0x20);
    Ok(NcchInfo { encrypted, zero_key, key_y, exefs_offset, stored_extheader_hash })
}

} // verus!
