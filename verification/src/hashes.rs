//! SHA-256 and MD5 digests, taken on trust from the `crypto` crate. The
//! digests themselves are named, not restated: `sha256_of` and `md5_of`
//! stand for whatever the crate computes, and everything the library
//! proves about hashes goes through those names.

use vstd::prelude::*;

verus! {

/// The SHA-256 digest (32 bytes) of a byte sequence, as crypto::sha2
/// computes it.
pub uninterp spec fn sha256_of(data: Seq<u8>) -> Seq<u8>;

/// The MD5 digest (16 bytes) of a byte sequence, as crypto::md5 computes
/// it.
pub uninterp spec fn md5_of(data: Seq<u8>) -> Seq<u8>;

/// The SHA-256 state type of the crypto crate, declared so that it can
/// stand in fields and signatures; Verus sees nothing inside it.
#[verifier::external_type_specification]
#[verifier::external_body]
pub struct ExSha256(crypto::sha2::Sha256);

/// Relies on crypto::sha2::Sha256::new: a fresh digest state over no
/// bytes. What the state means is stated on `Sha256Stream::finish`.
#[verifier::external_body]
fn sha256_new() -> crypto::sha2::Sha256 {
    crypto::sha2::Sha256::new()
}

/// Relies on crypto::digest::Digest::input for Sha256: appends message
/// bytes to the digest state. What the state means is stated on
/// `Sha256Stream::finish`.
#[verifier::external_body]
fn sha256_input(h: &mut crypto::sha2::Sha256, data: &[u8]) {
    crypto::digest::Digest::input(h, data);
}

/// A running SHA-256 digest over the bytes fed so far. The `fed` ledger
/// is kept in step with the inner state: every byte handed to the state
/// is recorded in the ledger, and only this type touches either.
pub(crate) struct Sha256Stream {
    inner: crypto::sha2::Sha256,
    fed: Ghost<Seq<u8>>,
}

impl Sha256Stream {
    /// The bytes fed to the digest so far.
    pub(crate) closed spec fn bytes_fed(&self) -> Seq<u8> {
        self.fed@
    }

    /// A fresh digest over no bytes.
    pub(crate) fn new() -> (r: Sha256Stream)
        ensures
            r.bytes_fed() == Seq::<u8>::empty(),
    {
        Sha256Stream { inner: sha256_new(), fed: Ghost(Seq::empty()) }
    }

    /// Feed further message bytes into the digest.
    pub(crate) fn update(&mut self, data: &[u8])
        ensures
            final(self).bytes_fed() == old(self).bytes_fed() + data@,
    {
        sha256_input(&mut self.inner, data);
        self.fed = Ghost(self.fed@ + data@);
    }

    /// Relies on crypto::digest::Digest::result for Sha256: the 256-bit
    /// digest of every byte fed into the state — that is, of the ledger
    /// this type keeps beside it.
    #[verifier::external_body]
    pub(crate) fn finish(self) -> (r: Vec<u8>)
        ensures
            r@ == sha256_of(self.bytes_fed()),
            r@.len() == 32,
    {
        let mut inner = self.inner;
        let mut out = vec![0u8; 32];
        crypto::digest::Digest::result(&mut inner, &mut out);
        out
    }
}

/// The SHA-256 digest of a whole byte vector.
pub fn sha256(data: &Vec<u8>) -> (r: Vec<u8>)
    ensures
        r@ == sha256_of(data@),
        r@.len() == 32,
{
    let mut h = Sha256Stream::new();
    h.update(data.as_slice());
    assert(Seq::<u8>::empty() + data@ =~= data@);
    h.finish()
}

/// Relies on crypto::md5::Md5 through the Digest trait (new, input,
/// result): the 128-bit MD5 digest of the input bytes, in one shot.
#[verifier::external_body]
pub(crate) fn md5_digest(data: &[u8]) -> (r: Vec<u8>)
    ensures
        r@ == md5_of(data@),
        r@.len() == 16,
{
    let mut h = crypto::md5::Md5::new();
    crypto::digest::Digest::input(&mut h, data);
    let mut out = vec![0u8; 16];
    crypto::digest::Digest::result(&mut h, &mut out);
    out
}

} // verus!
