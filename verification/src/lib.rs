//! Convert a Nintendo 3DS cartridge image (CCI) into an installable CIA.
//!
//! The crate holds the verified core of the converter: the NCSD/NCCH/ExeFS
//! parsers, the 128-bit key scrambler, the AES-128-CTR region codec, the
//! SHA-256 hash fan-out, and the fixed-offset CIA layout writer. File and
//! console I/O stay outside; callers hand in byte vectors and take byte
//! vectors back.

pub mod bytes;
pub mod cia;
pub mod codec;
pub mod convert;
pub mod exefs;
pub mod extheader;
pub mod hashes;
pub mod keys;
pub mod ncsd;
pub mod util;

use vstd::prelude::*;

verus! {

/// One media unit: all NCSD partition offsets and sizes are stored as
/// 32-bit counts of this many bytes.
pub const MEDIA_UNIT: u64 = 0x200;

/// Scale a 32-bit media-unit count to a byte count.
pub fn media_units_to_bytes(mu: u32) -> (r: u64)
    ensures
        r == mu * MEDIA_UNIT,
{
    (mu as u64) * MEDIA_UNIT
}

/// Everything that aborts a conversion job.
#[derive(Clone, Copy, Debug, PartialEq, Eq, Structural)]
pub enum ConvError {
    /// A support file (boot ROM, certificate chain, ticket+TMD template)
    /// was not found.
    SupportFileMissing,
    /// The boot ROM's key-X fingerprint did not match the retail value.
    SupportFileCorrupt,
    /// The input carries no NCSD magic: not a CCI.
    NotACci,
    /// The game partition carries no NCCH magic: not a cartridge NCCH.
    NotANcch,
    /// The stored ExtHeader hash disagrees with the recomputed one.
    ExtHeaderCorrupt,
    /// A read, seek or write failed (here: a read past the end of the
    /// input).
    IoFailure,
}

impl ConvError {
    /// A human-readable line for this error.
    pub fn message(&self) -> (r: &'static str)
        ensures
            r@ == match self {
                ConvError::SupportFileMissing => "support file missing"@,
                ConvError::SupportFileCorrupt => "corrupt file (invalid key)"@,
                ConvError::NotACci => "not a CCI file (missing NCSD magic)"@,
                ConvError::NotANcch => "not a CCI file (missing NCCH magic)"@,
                ConvError::ExtHeaderCorrupt => "this file may be corrupt (invalid ExtHeader hash)"@,
                ConvError::IoFailure => "read failed"@,
            },
    {
        match self {
            ConvError::SupportFileMissing => "support file missing",
            ConvError::SupportFileCorrupt => "corrupt file (invalid key)",
            ConvError::NotACci => "not a CCI file (missing NCSD magic)",
            ConvError::NotANcch => "not a CCI file (missing NCCH magic)",
            ConvError::ExtHeaderCorrupt => "this file may be corrupt (invalid ExtHeader hash)",
            ConvError::IoFailure => "read failed",
        }
    }
}

} // verus!
