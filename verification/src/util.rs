//! The boot-ROM key fingerprint: MD5 of the 16 key bytes, rendered as
//! lowercase hex and held against the known retail value.

use vstd::prelude::*;
use crate::hashes::{md5_digest, md5_of};

verus! {

/// The lowercase hex digit for a nibble.
pub open spec fn hex_char(n: u8) -> char {
    if n == 0 {
        '0'
    } else if n == 1 {
        '1'
    } else if n == 2 {
        '2'
    } else if n == 3 {
        '3'
    } else if n == 4 {
        '4'
    } else if n == 5 {
        '5'
    } else if n == 6 {
        '6'
    } else if n == 7 {
        '7'
    } else if n == 8 {
        '8'
    } else if n == 9 {
        '9'
    } else if n == 10 {
        'a'
    } else if n == 11 {
        'b'
    } else if n == 12 {
        'c'
    } else if n == 13 {
        'd'
    } else if n == 14 {
        'e'
    } else {
        'f'
    }
}

/// The lowercase hex rendering of a byte sequence, two digits a byte.
pub open spec fn hex_str(s: Seq<u8>) -> Seq<char>
    decreases s.len(),
{
    if s.len() == 0 {
        Seq::empty()
    } else {
        seq![hex_char(s[0] / 16), hex_char(s[0] % 16)] + hex_str(s.drop_first())
    }
}

/// The MD5 fingerprint of the retail NCCH key-X bytes.
pub open spec fn retail_key_fingerprint() -> Seq<char> {
    "e35bf88330f4f1b2bb6fd5b870a679ca"@
}

/// Relies on String::push: appends one character.
#[verifier::external_body]
fn string_push(s: &mut String, c: char)
    ensures
        final(s)@ == old(s)@.push(c),
{
    s.push(c);
}

/// The lowercase hex digit for a nibble.
fn hex_char_of(n: u8) -> (r: char)
    requires
        n < 16,
    ensures
        r == hex_char(n),
{
    match n {
        0 => '0',
        1 => '1',
        2 => '2',
        3 => '3',
        4 => '4',
        5 => '5',
        6 => '6',
        7 => '7',
        8 => '8',
        9 => '9',
        10 => 'a',
        11 => 'b',
        12 => 'c',
        13 => 'd',
        14 => 'e',
        _ => 'f',
    }
}

/// Render bytes as lowercase hex.
pub fn to_hex(data: &Vec<u8>) -> (r: String)
    ensures
        r@ == hex_str(data@),
{
    let mut out = String::new();
    let ghost whole = data@;
    proof {
        assert(whole.skip(0) == whole);
        assert(out@ + hex_str(whole) =~= hex_str(whole));
    }
    let n = data.len();
    let mut i: usize = 0;
    while i < n
        invariant
            n == data@.len(),
            whole == data@,
            i <= n,
            hex_str(whole) == out@ + hex_str(whole.skip(i as int)),
        decreases n - i,
    {
        let ghost rest = whole.skip(i as int);
        let b = data[i];
        proof {
            assert(rest[0] == whole[i as int]);
            assert(rest.drop_first() =~= whole.skip(i + 1));
        }
        let ghost prev = out@;
        string_push(&mut out, hex_char_of(b / 16));
        string_push(&mut out, hex_char_of(b % 16));
        proof {
            assert(hex_str(rest) == seq![hex_char(b / 16), hex_char(b % 16)] + hex_str(whole.skip(
                i + 1)));
            assert(prev + (seq![hex_char(b / 16), hex_char(b % 16)] + hex_str(whole.skip(i + 1)))
                =~= out@ + hex_str(whole.skip(i + 1)));
        }
        i = i + 1;
    }
    proof {
        assert(whole.skip(n as int) =~= Seq::<u8>::empty());
        assert(out@ + Seq::<char>::empty() =~= out@);
    }
    out
}

/// The MD5 digest of `key`, rendered as 32 lowercase hex digits.
pub fn calc_md5(key: &[u8]) -> (r: String)
    ensures
        r@ == hex_str(md5_of(key@)),
{
    let digest = md5_digest(key);
    to_hex(&digest)
}

/// Whether the 16 key bytes read out of a boot ROM carry the retail
/// NCCH key-X fingerprint. Any other value means the ROM is corrupt.
pub fn check_boot9_key(key: &[u8]) -> (r: bool)
    ensures
        r == (hex_str(md5_of(key@)) == retail_key_fingerprint()),
{
    let fp = calc_md5(key);
    strings_equal(&fp, "e35bf88330f4f1b2bb6fd5b870a679ca")
}

/// Relies on str::eq (PartialEq for str): character-for-character
/// equality of the two strings' contents.
#[verifier::external_body]
fn strings_equal(a: &String, b: &str) -> (r: bool)
    ensures
        r == (a@ == b@),
{
    a.as_str() == b
}

/// Where the 16 key bytes sit in a boot ROM image: a full 0x10000-byte
/// boot9 carries them 0x8000 further in than a protected-half dump.
pub fn boot9_key_offset(file_len: u64) -> (r: u64)
    ensures
        r == if file_len == 0x10000 {
            0xD9D0int
        } else {
            0x59D0int
        },
{
    if file_len == 0x10000 {
        0xD9D0
    } else {
        0x59D0
    }
}

} // verus!
