//! SHA-256 over a stream of chunks, through the `sha2` crate.

use vstd::prelude::*;
use sha2::Digest;
use sha2::Sha256;

verus! {

/// A running `sha2::Sha256` hasher, held opaquely. `Sha256` is a type alias
/// over nested generic wrappers of `digest` and `typenum`, bounded by their
/// traits; this struct stands for it, and what the hasher has absorbed is
/// tracked by [`absorbed`].
#[verifier::external_body]
pub struct Sha256Hasher {
    inner: Sha256,
}

/// All bytes fed to the hasher since it was created, in order.
pub uninterp spec fn absorbed(h: Sha256Hasher) -> Seq<u8>;

/// The SHA-256 digest of a byte sequence.
pub uninterp spec fn sha256_of(data: Seq<u8>) -> Seq<u8>;

/// `<Sha256 as Digest>::new`: a hasher that has absorbed nothing.
#[verifier::external_body]
pub(crate) fn sha256_new() -> (h: Sha256Hasher)
    ensures
        absorbed(h) == Seq::<u8>::empty(),
{
    Sha256Hasher { inner: Sha256::new() }
}

/// `Digest::update`: feeds `data` to the hasher after what it absorbed before.
#[verifier::external_body]
pub(crate) fn sha256_update(h: &mut Sha256Hasher, data: &[u8])
    ensures
        absorbed(*final(h)) == absorbed(*old(h)) + data@,
{
    h.inner.update(data);
}

/// `Digest::finalize`: the SHA-256 digest (32 bytes, `GenericArray<u8, U32>`)
/// of everything the hasher absorbed.
#[verifier::external_body]
pub(crate) fn sha256_finalize(h: Sha256Hasher) -> (digest: Vec<u8>)
    ensures
        digest@ == sha256_of(absorbed(h)),
        digest@.len() == 32,
{
    h.inner.finalize().to_vec()
}

} // verus!
