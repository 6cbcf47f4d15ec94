//! ExtHeader handling: decrypt, verify against the stored hash, set the
//! SD-application bit, rehash, and re-encrypt.

use vstd::prelude::*;
use crate::ConvError;
use crate::bytes::be128_bytes;
use crate::codec::{ctr_xor, ctr_crypt, extheader_iv, spec_extheader_iv};
use crate::hashes::{sha256, sha256_of};

verus! {

/// The ExtHeader plaintext: what is stored, decrypted if need be.
pub open spec fn spec_extheader_plain(ext: Seq<u8>, encrypted: bool, key: u128, title_id: u64)
    -> Seq<u8> {
    if encrypted {
        ctr_xor(be128_bytes(key), be128_bytes(spec_extheader_iv(title_id)), ext)
    } else {
        ext
    }
}

/// The SD-application patch: byte 0xD gets bit 0x02 set, nothing else
/// moves.
pub open spec fn spec_patch_sd_flag(s: Seq<u8>) -> Seq<u8> {
    s.update(0xD, s[0xD] | 2u8)
}

/// What the CIA stores for the ExtHeader: the patched plaintext,
/// re-encrypted with the same key and IV when the input was encrypted.
pub open spec fn spec_extheader_output(ext: Seq<u8>, encrypted: bool, key: u128, title_id: u64)
    -> Seq<u8> {
    let patched = spec_patch_sd_flag(spec_extheader_plain(ext, encrypted, key, title_id));
    if encrypted {
        ctr_xor(be128_bytes(key), be128_bytes(spec_extheader_iv(title_id)), patched)
    } else {
        patched
    }
}

/// Everything the rest of the pipeline takes from the ExtHeader.
#[derive(Debug)]
pub struct ExtHeaderData {
    /// The 0x400 bytes the CIA stores (re-encrypted if the input was).
    pub output: Vec<u8>,
    /// SHA-256 of the patched plaintext, for the NCCH header.
    pub new_hash: Vec<u8>,
    /// Bytes 0x40..0x1C0 of the patched plaintext, for the meta region.
    pub dependency_list: Vec<u8>,
    /// Bytes 0x1C0..0x1C4 of the patched plaintext, for the TMD.
    pub save_size: Vec<u8>,
}

impl ExtHeaderData {
    /// The fields against the raw ExtHeader bytes and the codec inputs.
    pub open spec fn derived_from(&self, ext: Seq<u8>, encrypted: bool, key: u128, title_id: u64)
        -> bool {
        let patched = spec_patch_sd_flag(spec_extheader_plain(ext, encrypted, key, title_id));
        &&& self.output@ == spec_extheader_output(ext, encrypted, key, title_id)
        &&& self.output@.len() == ext.len()
        &&& self.new_hash@ == sha256_of(patched)
        &&& self.new_hash@.len() == 32
        &&& self.dependency_list@ == patched.subrange(0x40, 0x1C0)
        &&& self.dependency_list@.len() == 0x180
        &&& self.save_size@ == patched.subrange(0x1C0, 0x1C4)
        &&& self.save_size@.len() == 4
    }
}

/// Set the SD-application bit in an ExtHeader plaintext.
fn patch_sd_flag(ext: &mut Vec<u8>)
    requires
        old(ext)@.len() >= 0x400,
    ensures
        final(ext)@ == spec_patch_sd_flag(old(ext)@),
{
    let b = ext[0xD];
    ext.set(0xD, b | 2);
}

/// Decrypt (when applicable), verify, patch, rehash and re-encrypt an
/// ExtHeader. Fails exactly when the recomputed SHA-256 of the plaintext
/// disagrees with the hash stored in the NCCH header.
pub fn process_extheader(
    ext: &Vec<u8>,
    stored_hash: &Vec<u8>,
    encrypted: bool,
    key: u128,
    title_id: u64,
) -> (r: Result<ExtHeaderData, ConvError>)
    requires
        ext@.len() == 0x400,
        stored_hash@.len() == 0x20,
    ensures
        match r {
            Ok(d) => {
                &&& sha256_of(spec_extheader_plain(ext@, encrypted, key, title_id)) == stored_hash@
                &&& d.derived_from(ext@, encrypted, key, title_id)
            },
            Err(e) => {
                &&& e == ConvError::ExtHeaderCorrupt
                &&& sha256_of(spec_extheader_plain(ext@, encrypted, key, title_id))
                    != stored_hash@
            },
        },
{
    let mut plain = if encrypted {
        let iv = extheader_iv(title_id);
        ctr_crypt(key, iv, ext)
    } else {
        crate::bytes::copy_range(ext, 0, ext.len())
    };
    assert(plain@ == spec_extheader_plain(ext@, encrypted, key, title_id)) by {
        assert(ext@.subrange(0, ext@.len() as int) =~= ext@);
    }
    let verify_hash = sha256(&plain);
    if !bytes_equal(&verify_hash, stored_hash) {
        return Err(ConvError::ExtHeaderCorrupt);
    }
    patch_sd_flag(&mut plain);
    let new_hash = sha256(&plain);
    let dependency_list = crate::bytes::copy_range(&plain, 0x40, 0x180);
    let save_size = crate::bytes::copy_range(&plain, 0x1C0, 0x4);
    let output = if encrypted {
        let iv = extheader_iv(title_id);
        ctr_crypt(key, iv, &plain)
    } else {
        plain
    };
    Ok(ExtHeaderData { output, new_hash, dependency_list, save_size })
}

/// Byte-for-byte equality of two vectors.
pub fn bytes_equal(a: &Vec<u8>, b: &Vec<u8>) -> (r: bool)
    ensures
        r == (a@ == b@),
{
    if a.len() != b.len() {
        assert(a@ != b@);
        return false;
    }
    let n = a.len();
    let mut i: usize = 0;
    while i < n
        invariant
            n == a@.len() == b@.len(),
            i <= n,
            forall|k: int| 0 <= k < i ==> a@[k] == b@[k],
        decreases n - i,
    {
        if a[i] != b[i] {
            return false;
        }
        i = i + 1;
    }
    assert(a@ =~= b@);
    true
}

/// The SD patch is idempotent, and touches nothing but bit 0x02 of byte
/// 0xD: setting a bit that is already set changes nothing, and every
/// other bit of every byte keeps its value.
pub proof fn lemma_patch_sd_flag_idempotent(s: Seq<u8>)
    requires
        s.len() > 0xD,
    ensures
        spec_patch_sd_flag(spec_patch_sd_flag(s)) == spec_patch_sd_flag(s),
        spec_patch_sd_flag(s)[0xD] == (s[0xD] | 2u8),
        spec_patch_sd_flag(s)[0xD] & 0xFDu8 == s[0xD] & 0xFDu8,
        forall|i: int| 0 <= i < s.len() && i != 0xD ==> spec_patch_sd_flag(s)[i] == s[i],
{
    let b = s[0xD];
    assert(((b | 2u8) | 2u8) == (b | 2u8)) by (bit_vector);
    assert((b | 2u8) & 0xFDu8 == b & 0xFDu8) by (bit_vector);
    assert(spec_patch_sd_flag(spec_patch_sd_flag(s)) =~= spec_patch_sd_flag(s));
}

} // verus!
