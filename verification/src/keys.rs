//! The NCCH key ladder: a 128-bit rotate, XOR, modular add and rotate that
//! turns the console key-X and the per-title key-Y into the AES normal key.

use vstd::prelude::*;

verus! {

/// The constant added (mod 2^128) between the two rotations of the scramble.
pub const SCRAMBLE_ADDEND: u128 = 0x1FF9E9AAC5FE0408024591DC5D52768A;

/// Rotate a 128-bit value left by `s` bit positions, `s < 128`.
pub open spec fn rotl128_amt(v: u128, s: u128) -> u128 {
    (v << s) | (v >> (((128 - s) % 128) as u128))
}

/// Rotate a 128-bit value left by `n` bit positions; `n` is reduced mod 128.
pub open spec fn rotl128(v: u128, n: int) -> u128 {
    rotl128_amt(v, (n % 128) as u128)
}

/// Addition modulo 2^128.
pub open spec fn add_mod128(a: u128, b: u128) -> u128 {
    if a + b > u128::MAX {
        (a + b - 0x1_0000_0000_0000_0000_0000_0000_0000_0000) as u128
    } else {
        (a + b) as u128
    }
}

/// The key scramble: `rotl(rotl(key_x, 2) ^ key_y + addend, 87)`, with the
/// addition taken mod 2^128.
pub open spec fn spec_normal_key(key_x: u128, key_y: u128) -> u128 {
    rotl128(add_mod128(rotl128(key_x, 2) ^ key_y, SCRAMBLE_ADDEND), 87)
}

/// Rotate a 128-bit value left by `n % 128` bit positions.
pub fn rotate_left_128(v: u128, n: usize) -> (r: u128)
    ensures
        r == rotl128(v, n as int),
{
    let s: u128 = (n as u128) % 128;
    let t: u128 = (128 - s) % 128;
    (v << s) | (v >> t)
}

/// Derive the AES normal key from key-X and key-Y.
pub fn derive_normal_key(key_x: u128, key_y: u128) -> (r: u128)
    ensures
        r == spec_normal_key(key_x, key_y),
{
    let p1 = rotate_left_128(key_x, 2);
    let p2 = p1 ^ key_y;
    let p3 = p2.wrapping_add(SCRAMBLE_ADDEND);
    rotate_left_128(p3, 87)
}

/// The normal key the codec runs with, by encryption mode: none when the
/// partition is stored decrypted, all-zero under zero-key encryption, and
/// the scrambled key otherwise. The scramble is consulted only in the last
/// case.
pub fn select_normal_key(encrypted: bool, zero_key: bool, key_x: u128, key_y: u128) -> (r: Option<
    u128,
>)
    ensures
        r == if !encrypted {
            None::<u128>
        } else if zero_key {
            Some(0u128)
        } else {
            Some(spec_normal_key(key_x, key_y))
        },
{
    if !encrypted {
        None
    } else if zero_key {
        Some(0)
    } else {
        Some(derive_normal_key(key_x, key_y))
    }
}

/// Composing two left rotations rotates by the sum: rotating by `a` and
/// then by `b` is rotating by `a + b` (each reduced mod 128).
#[verifier::rlimit(100)]
pub proof fn lemma_rotl128_compose(v: u128, a: int, b: int)
    requires
        0 <= a,
        0 <= b,
    ensures
        rotl128(rotl128(v, a), b) == rotl128(v, a + b),
{
    let au = (a % 128) as u128;
    let bu = (b % 128) as u128;
    lemma_rotl128_amt_compose(v, au, bu);
    assert((a % 128 + b % 128) % 128 == (a + b) % 128) by {
        vstd::arithmetic::div_mod::lemma_add_mod_noop(a, b, 128);
    }
}

/// Rotating by zero is the identity.
#[verifier::rlimit(100)]
proof fn bv_rot0(v: u128)
    ensures
        rotl128_amt(v, 0) == v,
{
    assert(rotl128_amt(v, 0) == v) by (bit_vector);
}

/// One more single-bit rotation advances the rotation amount by one.
#[verifier::rlimit(100)]
proof fn bv_rot_step(v: u128, s: u128)
    requires
        s < 127,
    ensures
        rotl128_amt(rotl128_amt(v, s), 1) == rotl128_amt(v, (s + 1) as u128),
{
    assert(rotl128_amt(rotl128_amt(v, s), 1) == rotl128_amt(v, (s + 1) as u128)) by (bit_vector)
        requires
            s < 127,
    ;
}

/// A single-bit rotation after a rotation by all but one position comes
/// back to the start.
#[verifier::rlimit(100)]
proof fn bv_rot_wrap(v: u128)
    ensures
        rotl128_amt(rotl128_amt(v, 127), 1) == v,
{
    assert(rotl128_amt(rotl128_amt(v, 127), 1) == v) by (bit_vector);
}

/// Composition of two reduced rotations, by induction on the second
/// amount, one bit position at a time.
proof fn lemma_rotl128_amt_compose(v: u128, au: u128, bu: u128)
    requires
        au < 128,
        bu < 128,
    ensures
        rotl128_amt(rotl128_amt(v, au), bu) == rotl128_amt(v, ((au + bu) % 128) as u128),
    decreases bu,
{
    let w = rotl128_amt(v, au);
    if bu == 0 {
        bv_rot0(w);
    } else {
        lemma_rotl128_amt_compose(v, au, (bu - 1) as u128);
        bv_rot_step(w, (bu - 1) as u128);
        let s = ((au + bu - 1) % 128) as u128;
        if s == 127 {
            bv_rot_wrap(v);
            bv_rot0(v);
            assert((au + bu) % 128 == 0);
        } else {
            bv_rot_step(v, s);
            assert((au + bu) % 128 == s + 1);
        }
    }
}

} // verus!
