//! The AES-128-CTR region codec and its per-region IVs. The cipher's
//! keystream is taken on trust from the `crypto` crate under the name
//! `aes128_ctr_keystream`; everything else — that CTR mode XORs the
//! message with that keystream, the IV construction, and the
//! decrypt-equals-encrypt round trip — is stated and proved here.

use vstd::prelude::*;
use crate::bytes::{be128_bytes, u128_to_be_vec};

verus! {

/// IV suffix for the ExtHeader region.
pub const EXTHEADER_IV_SUFFIX: u64 = 0x0100000000000000;

/// IV suffix for the ExeFS region (header and icon).
pub const EXEFS_IV_SUFFIX: u64 = 0x0200000000000000;

/// Byte `i` of the AES-128-CTR keystream for a 16-byte key and IV, as
/// crypto::aes::ctr generates it.
pub uninterp spec fn aes128_ctr_keystream(key: Seq<u8>, iv: Seq<u8>, i: int) -> u8;

/// What AES-128-CTR does to a message: XOR with the keystream, byte by
/// byte. The same function both encrypts and decrypts.
pub open spec fn ctr_xor(key: Seq<u8>, iv: Seq<u8>, data: Seq<u8>) -> Seq<u8> {
    Seq::new(data.len(), |i: int| data[i] ^ aes128_ctr_keystream(key, iv, i))
}

/// Relies on crypto::aes::ctr and the SynchronousStreamCipher::process of
/// the cipher it returns: CTR mode XORs the input with a keystream drawn
/// from the key and IV alone, and writes an output of the input's length.
#[verifier::external_body]
fn aes_ctr_process(key: &Vec<u8>, iv: &Vec<u8>, data: &Vec<u8>) -> (r: Vec<u8>)
    requires
        key@.len() == 16,
        iv@.len() == 16,
    ensures
        r@.len() == data@.len(),
        forall|i: int|
            0 <= i < data@.len() ==> r@[i] == (data@[i] ^ aes128_ctr_keystream(key@, iv@, i)),
{
    let mut cipher = crypto::aes::ctr(crypto::aes::KeySize::KeySize128, key.as_slice(),
        iv.as_slice());
    let mut out = vec![0u8; data.len()];
    cipher.process(data.as_slice(), &mut out);
    out
}

/// Run the AES-128-CTR codec over `data` with a 128-bit key and IV, both
/// big-endian on the wire.
pub fn ctr_crypt(key: u128, iv: u128, data: &Vec<u8>) -> (r: Vec<u8>)
    ensures
        r@ == ctr_xor(be128_bytes(key), be128_bytes(iv), data@),
{
    let kb = u128_to_be_vec(key);
    let ivb = u128_to_be_vec(iv);
    let r = aes_ctr_process(&kb, &ivb, data);
    assert(r@ =~= ctr_xor(be128_bytes(key), be128_bytes(iv), data@));
    r
}

/// A region IV: the 64-bit title ID in the high half, a region suffix in
/// the low half (the hex rendering of the title ID followed by the
/// 16-hex-digit suffix, read as one big-endian 128-bit value).
pub open spec fn spec_region_iv(title_id: u64, suffix: u64) -> u128 {
    (title_id * 0x1_0000_0000_0000_0000 + suffix) as u128
}

/// The IV the ExtHeader region is ciphered with.
pub open spec fn spec_extheader_iv(title_id: u64) -> u128 {
    spec_region_iv(title_id, EXTHEADER_IV_SUFFIX)
}

/// The IV the ExeFS header is ciphered with.
pub open spec fn spec_exefs_iv(title_id: u64) -> u128 {
    spec_region_iv(title_id, EXEFS_IV_SUFFIX)
}

/// The IV the SMDH icon is ciphered with: the ExeFS IV advanced past the
/// 0x200-byte header region (0x20 CTR blocks) and to the icon's own block
/// offset (16 bytes per block).
pub open spec fn spec_icon_iv(title_id: u64, icon_offset: u32) -> u128 {
    (spec_exefs_iv(title_id) + icon_offset / 16 + 0x20) as u128
}

/// Build a region IV from the title ID and a region suffix.
pub fn region_iv(title_id: u64, suffix: u64) -> (r: u128)
    ensures
        r == spec_region_iv(title_id, suffix),
{
    (title_id as u128) * 0x1_0000_0000_0000_0000 + (suffix as u128)
}

/// The IV the ExtHeader region is ciphered with.
pub fn extheader_iv(title_id: u64) -> (r: u128)
    ensures
        r == spec_extheader_iv(title_id),
{
    region_iv(title_id, EXTHEADER_IV_SUFFIX)
}

/// The IV the ExeFS header is ciphered with.
pub fn exefs_iv(title_id: u64) -> (r: u128)
    ensures
        r == spec_exefs_iv(title_id),
{
    region_iv(title_id, EXEFS_IV_SUFFIX)
}

/// The IV the SMDH icon is ciphered with.
pub fn icon_iv(title_id: u64, icon_offset: u32) -> (r: u128)
    ensures
        r == spec_icon_iv(title_id, icon_offset),
{
    region_iv(title_id, EXEFS_IV_SUFFIX) + (icon_offset / 16) as u128 + 0x20
}

/// Running the codec twice with one key and IV gives the message back:
/// each byte is XORed twice with the same keystream byte.
pub proof fn lemma_ctr_round_trip(key: Seq<u8>, iv: Seq<u8>, data: Seq<u8>)
    ensures
        ctr_xor(key, iv, ctr_xor(key, iv, data)) == data,
{
    let once = ctr_xor(key, iv, data);
    let twice = ctr_xor(key, iv, once);
    assert forall|i: int| 0 <= i < data.len() implies twice[i] == data[i] by {
        let d = data[i];
        let k = aes128_ctr_keystream(key, iv, i);
        assert(((d ^ k) ^ k) == d) by (bit_vector);
    }
    assert(twice =~= data);
}

} // verus!
