//! SHA-1 digests, computed by the `sha1` crate.

use sha1::{Digest, Sha1};
use vstd::prelude::*;

verus! {

/// Size in bytes of one digest.
pub const DIGEST_SIZE: usize = 20;

/// The SHA-1 digest of `data`. The hash function is not modelled here: this
/// names what the `sha1` crate returns for the same bytes.
pub uninterp spec fn sha1_digest(data: Seq<u8>) -> Seq<u8>;

/// Calls `sha1::Sha1::digest` (the `Digest` trait's one-shot function) on
/// `data`. Trusted: the result is the SHA-1 digest of exactly these bytes, and
/// equal inputs give equal digests.
#[verifier::external_body]
pub(crate) fn sha1_of(data: &[u8]) -> (out: [u8; 20])
    ensures
        out@ == sha1_digest(data@),
{
    Sha1::digest(data).into()
}

} // verus!
