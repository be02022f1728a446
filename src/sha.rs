//! Incremental SHA-1 hashing, backed by the `sha1` crate.
use vstd::prelude::*;
use sha1::Digest;

verus! {

/// A SHA-1 hashing context that can be fed data in pieces and duplicated
/// mid-stream, so that a long common prefix is hashed only once.
#[verifier::external_body]
pub struct Sha1State {
    inner: sha1::Sha1,
}

/// The bytes fed to a hashing context since it was created.
pub uninterp spec fn sha1_fed(h: Sha1State) -> Seq<u8>;

/// The SHA-1 digest of a byte sequence.
pub uninterp spec fn sha1_digest(data: Seq<u8>) -> Seq<u8>;

/// Relies on `<sha1::Sha1 as Default>::default`: a fresh context has been fed nothing.
#[verifier::external_body]
pub fn sha1_new() -> (r: Sha1State)
    ensures
        sha1_fed(r) == Seq::<u8>::empty(),
{
    Sha1State { inner: sha1::Sha1::default() }
}

/// Relies on `sha1::Sha1::update`: the data is appended to what the context has been fed.
#[verifier::external_body]
pub fn sha1_update(h: &mut Sha1State, data: &[u8])
    ensures
        sha1_fed(*final(h)) == sha1_fed(*old(h)) + data@,
{
    h.inner.update(data);
}

/// Relies on `<sha1::Sha1 as Clone>::clone`: the copy has been fed the same bytes.
#[verifier::external_body]
pub fn sha1_clone(h: &Sha1State) -> (r: Sha1State)
    ensures
        sha1_fed(r) == sha1_fed(*h),
{
    Sha1State { inner: h.inner.clone() }
}

/// Relies on `sha1::Sha1::finalize`: the 20-byte SHA-1 digest of everything fed.
#[verifier::external_body]
pub fn sha1_finalize(h: Sha1State) -> (r: Vec<u8>)
    ensures
        r@ == sha1_digest(sha1_fed(h)),
        r@.len() == 20,
{
    h.inner.finalize().to_vec()
}

} // verus!
