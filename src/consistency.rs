//! Holding a found identifier against the one git computes for the same body.
use vstd::prelude::*;
use crate::commit::{commit_body, commit_header, CommitFields};
use crate::search::object_id;
use crate::sha::sha1_digest;

verus! {

#[verifier::external_type_specification]
#[verifier::external_body]
pub struct ExGitError(git2::Error);

/// The identifier that git gives a commit object with the given body: the
/// SHA-1 of the header `commit <len>` and a NUL, then the body.
pub open spec fn git_object_id(body: Seq<u8>) -> Seq<u8> {
    sha1_digest(commit_header(body.len()) + body)
}

/// Whether git refuses to hash a commit with the given body. Its SHA-1 refuses
/// input that looks like a collision attack, which depends on the bytes alone.
pub uninterp spec fn git_hash_refused(body: Seq<u8>) -> bool;

/// Relies on `git2::Oid::hash_object` with `ObjectType::Commit`: it hashes the
/// header `commit <len>` and a NUL, then the body, with SHA-1 and stores
/// nothing; the identifier is 20 raw bytes. It fails only where its SHA-1
/// flags a collision attack.
#[verifier::external_body]
fn git_hash_commit(body: &[u8]) -> (r: Result<Vec<u8>, git2::Error>)
    ensures
        r is Err <==> git_hash_refused(body@),
        r matches Ok(id) ==> id@ == git_object_id(body@) && id@.len() == 20,
{
    match git2::Oid::hash_object(git2::ObjectType::Commit, body) {
        Ok(oid) => Ok(oid.as_bytes().to_vec()),
        Err(e) => Err(e),
    }
}

/// The identifier that git computes from the serialised body of a commit is
/// the identifier that the serialiser's own bytes give, for any fields and
/// any message.
pub proof fn lemma_round_trip(f: CommitFields, message: Seq<u8>)
    ensures
        git_object_id(commit_body(f, message)) == object_id(f, message),
{
}

/// Why a found commit could not be confirmed.
#[derive(Debug, Clone, Copy, PartialEq, Eq, Structural)]
pub enum ConsistencyError {
    /// git computed another identifier for the body than the search did.
    HashMismatch,
    /// git could not hash the body.
    Backend,
}

/// Compares the identifier the search found with the one git computed.
pub fn check_ids(found: &[u8], computed: &[u8]) -> (r: Result<(), ConsistencyError>)
    ensures
        r is Ok <==> found@ == computed@,
        r matches Err(e) ==> e == ConsistencyError::HashMismatch,
{
    if found.len() != computed.len() {
        return Err(ConsistencyError::HashMismatch);
    }
    let mut i: usize = 0;
    while i < found.len()
        invariant
            i <= found@.len(),
            found@.len() == computed@.len(),
            forall|k: int| 0 <= k < i ==> found@[k] == computed@[k],
        decreases found@.len() - i,
    {
        if found[i] != computed[i] {
            return Err(ConsistencyError::HashMismatch);
        }
        i = i + 1;
    }
    assert(found@ =~= computed@);
    Ok(())
}

/// Confirms that `body`, the commit as the repository serialises it, has the
/// identifier `found` that the search computed from its own serialisation.
/// `Err(Backend)` only when git could not hash the body; otherwise the result
/// is what `check_ids` gives for git's identifier.
pub fn confirm_commit(found: &[u8], body: &[u8]) -> (r: Result<(), ConsistencyError>)
    ensures
        (r matches Err(ConsistencyError::Backend)) <==> git_hash_refused(body@),
        !git_hash_refused(body@) ==> (r is Ok <==> git_object_id(body@) == found@),
        r matches Err(ConsistencyError::HashMismatch) ==> git_object_id(body@) != found@,
{
    match git_hash_commit(body) {
        Ok(computed) => check_ids(found, computed.as_slice()),
        Err(_) => Err(ConsistencyError::Backend),
    }
}

} // verus!
