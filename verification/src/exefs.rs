//! The ExeFS header and the SMDH icon inside it: decrypt the 0x40-byte
//! header, find the file record named "icon", and decrypt the icon blob.

use vstd::prelude::*;
use crate::bytes::{be128_bytes, le32_val};
use crate::codec::{ctr_xor, ctr_crypt, exefs_iv, icon_iv, spec_exefs_iv, spec_icon_iv};

verus! {

/// A record name with its zero bytes dropped (every zero byte, wherever
/// it stands).
pub open spec fn drop_zeros(s: Seq<u8>) -> Seq<u8>
    decreases s.len(),
{
    if s.len() == 0 {
        Seq::empty()
    } else {
        (if s[0] != 0 {
            seq![s[0]]
        } else {
            Seq::empty()
        }) + drop_zeros(s.drop_first())
    }
}

/// The bytes of the name "icon".
pub open spec fn icon_name() -> Seq<u8> {
    seq![0x69u8, 0x63u8, 0x6Fu8, 0x6Eu8]
}

/// Whether file record `rec` of the ExeFS header is named "icon".
pub open spec fn record_is_icon(h: Seq<u8>, rec: int) -> bool {
    drop_zeros(h.subrange(rec * 0x10, rec * 0x10 + 8)) == icon_name()
}

/// The icon's offset within the ExeFS body, from the first of the first
/// four file records named "icon"; nothing if none is.
pub open spec fn spec_find_icon(h: Seq<u8>) -> Option<int> {
    if record_is_icon(h, 0) {
        Some(le32_val(h, 0x08))
    } else if record_is_icon(h, 1) {
        Some(le32_val(h, 0x18))
    } else if record_is_icon(h, 2) {
        Some(le32_val(h, 0x28))
    } else if record_is_icon(h, 3) {
        Some(le32_val(h, 0x38))
    } else {
        None
    }
}

/// The ExeFS header plaintext: what is stored, decrypted if need be.
pub open spec fn spec_exefs_header_plain(h: Seq<u8>, encrypted: bool, key: u128, title_id: u64)
    -> Seq<u8> {
    if encrypted {
        ctr_xor(be128_bytes(key), be128_bytes(spec_exefs_iv(title_id)), h)
    } else {
        h
    }
}

/// The icon plaintext: what is stored, decrypted with the icon IV if need
/// be.
pub open spec fn spec_icon_plain(
    icon: Seq<u8>,
    encrypted: bool,
    key: u128,
    title_id: u64,
    icon_offset: u32,
) -> Seq<u8> {
    if encrypted {
        ctr_xor(be128_bytes(key), be128_bytes(spec_icon_iv(title_id, icon_offset)), icon)
    } else {
        icon
    }
}

/// Decrypt the 0x40-byte ExeFS header when the partition is encrypted.
pub fn decrypt_exefs_header(h: &Vec<u8>, encrypted: bool, key: u128, title_id: u64) -> (r: Vec<
    u8,
>)
    ensures
        r@ == spec_exefs_header_plain(h@, encrypted, key, title_id),
{
    if encrypted {
        let iv = exefs_iv(title_id);
        ctr_crypt(key, iv, h)
    } else {
        let r = crate::bytes::copy_range(h, 0, h.len());
        assert(h@.subrange(0, h@.len() as int) =~= h@);
        r
    }
}

/// Decrypt the 0x36C0-byte SMDH icon when the partition is encrypted.
pub fn decrypt_icon(icon: &Vec<u8>, encrypted: bool, key: u128, title_id: u64, icon_offset: u32)
    -> (r: Vec<u8>)
    ensures
        r@ == spec_icon_plain(icon@, encrypted, key, title_id, icon_offset),
{
    if encrypted {
        let iv = icon_iv(title_id, icon_offset);
        ctr_crypt(key, iv, icon)
    } else {
        let r = crate::bytes::copy_range(icon, 0, icon.len());
        assert(icon@.subrange(0, icon@.len() as int) =~= icon@);
        r
    }
}

/// The name of record `rec`, zero bytes dropped.
fn record_name(h: &Vec<u8>, rec: usize) -> (r: Vec<u8>)
    requires
        h@.len() >= 0x40,
        rec < 4,
    ensures
        r@ == drop_zeros(h@.subrange(rec * 0x10, rec * 0x10 + 8)),
{
    let base = rec * 0x10;
    let ghost name = h@.subrange(rec * 0x10, rec * 0x10 + 8);
    let mut out: Vec<u8> = Vec::new();
    proof {
        assert(name.skip(0) == name);
        assert(out@ + drop_zeros(name) =~= drop_zeros(name));
    }
    let mut i: usize = 0;
    while i < 8
        invariant
            h@.len() >= 0x40,
            rec < 4,
            base == rec * 0x10,
            name == h@.subrange(rec * 0x10, rec * 0x10 + 8),
            i <= 8,
            drop_zeros(name) == out@ + drop_zeros(name.skip(i as int)),
        decreases 8 - i,
    {
        let ghost prev = out@;
        let ghost rest = name.skip(i as int);
        let b = h[base + i];
        proof {
            assert(b == name[i as int]);
            assert(rest.len() == 8 - i);
            assert(rest[0] == name[i as int]);
            assert(rest.drop_first() =~= name.skip(i + 1));
        }
        if b != 0 {
            out.push(b);
            proof {
                assert(drop_zeros(rest) == seq![b] + drop_zeros(name.skip(i + 1)));
                assert(prev + (seq![b] + drop_zeros(name.skip(i + 1))) =~= out@ + drop_zeros(
                    name.skip(i + 1)));
            }
        } else {
            proof {
                assert(drop_zeros(rest) == Seq::empty() + drop_zeros(name.skip(i + 1)));
                assert(Seq::empty() + drop_zeros(name.skip(i + 1)) =~= drop_zeros(name.skip(i
                    + 1)));
            }
        }
        i = i + 1;
    }
    assert(name.skip(8) =~= Seq::<u8>::empty());
    assert(out@ + Seq::<u8>::empty() =~= out@);
    out
}

/// Look for the record named "icon" among the first four file records of
/// the decrypted ExeFS header, and hand back the icon's offset within the
/// ExeFS body.
pub fn find_icon(h: &Vec<u8>) -> (r: Option<u32>)
    requires
        h@.len() >= 0x40,
    ensures
        match r {
            Some(off) => spec_find_icon(h@) == Some(off as int),
            None => spec_find_icon(h@) == None::<int>,
        },
{
    let mut icon: Vec<u8> = Vec::new();
    icon.push(0x69);
    icon.push(0x63);
    icon.push(0x6F);
    icon.push(0x6E);
    assert(icon@ =~= icon_name());
    let mut rec: usize = 0;
    while rec < 4
        invariant
            h@.len() >= 0x40,
            icon@ == icon_name(),
            rec <= 4,
            forall|k: int| 0 <= k < rec ==> !record_is_icon(h@, k),
        decreases 4 - rec,
    {
        let name = record_name(h, rec);
        if crate::extheader::bytes_equal(&name, &icon) {
            return Some(crate::bytes::read_u32_le(h, rec * 0x10 + 8));
        }
        rec = rec + 1;
    }
    None
}

} // verus!
