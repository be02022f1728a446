//! One worker's search: hash the fixed part of the commit once, then try
//! nonces along a walk that each rejected digest chooses.
use vstd::prelude::*;
use crate::commit::{
    append_commit_header, commit_body, commit_body_bytes, commit_header, commit_object,
    commit_object_bytes, lemma_body_extends, CommitFields,
};
use crate::nonce::{
    advance, initial_nonce, is_glyph_nonce, lemma_glyph_nonce_is_utf8, lemma_nonces_are_glyphs,
    new_nonce, nonce_for, NONCE_LEN,
};
use vstd::utf8::{valid_utf8, valid_utf8_concat};
use crate::prefix::{nibbles_match, HashPrefixChecker};
use crate::sha::{sha1_clone, sha1_digest, sha1_fed, sha1_finalize, sha1_new, sha1_update, Sha1State};
use crate::text::{append_bytes, append_decimal, decimal};

verus! {

/// Attempts between two progress reports of a worker.
pub const PROGRESS_BATCH: u64 = 10000;

/// The identifier of the commit object for `f` with `message` in place of its own.
pub open spec fn object_id(f: CommitFields, message: Seq<u8>) -> Seq<u8> {
    sha1_digest(commit_object(f, message))
}

/// The identifier tried with `nonce` appended to the base message.
pub open spec fn candidate_id(f: CommitFields, nonce: Seq<u8>) -> Seq<u8> {
    object_id(f, f.message@ + nonce)
}

/// Whether trying `nonce` gives an identifier that starts with `nibbles`.
pub open spec fn accepts(nibbles: Seq<u8>, f: CommitFields, nonce: Seq<u8>) -> bool {
    nibbles_match(nibbles, candidate_id(f, nonce))
}

/// The nonce tried after `nonce` is rejected.
pub open spec fn next_nonce(f: CommitFields, nonce: Seq<u8>) -> Seq<u8> {
    nonce_for(candidate_id(f, nonce))
}

/// The nonce tried `k` attempts after `start`, when all of those were rejected.
pub open spec fn walk(f: CommitFields, start: Seq<u8>, k: nat) -> Seq<u8>
    decreases k,
{
    if k == 0 {
        start
    } else {
        next_nonce(f, walk(f, start, (k - 1) as nat))
    }
}

/// The first nonce that worker `worker_id` tries: chosen by the digest of the
/// commit object with the starting nonce, followed by the worker's number in
/// decimal. That digest is never compared with the prefix.
pub open spec fn seed_nonce(f: CommitFields, worker_id: u64) -> Seq<u8> {
    nonce_for(sha1_digest(commit_object(f, f.message@ + initial_nonce()) + decimal(worker_id as nat)))
}

/// The bytes hashed once per worker: the header for a body that will end in a
/// nonce, then the body up to and including the base message.
pub open spec fn fixed_part(f: CommitFields) -> Seq<u8> {
    commit_header((commit_body(f, f.message@).len() + NONCE_LEN) as nat) + commit_body(f, f.message@)
}

/// The fixed part followed by a nonce is the commit object with that nonce.
proof fn lemma_fixed_part_then_nonce(f: CommitFields, nonce: Seq<u8>)
    requires
        nonce.len() == NONCE_LEN,
    ensures
        fixed_part(f) + nonce == commit_object(f, f.message@ + nonce),
{
    lemma_body_extends(f, f.message@, nonce);
    assert(fixed_part(f) + nonce =~= commit_object(f, f.message@ + nonce));
}

/// A nonce whose identifier starts with the prefix.
#[derive(Debug, Clone, PartialEq, Eq)]
pub struct Candidate {
    /// Attempts checked since the worker's last progress report, this one included.
    pub attempts: u64,
    /// The 20-byte identifier of the commit object.
    pub id: Vec<u8>,
    /// The base message with the nonce appended.
    pub message: Vec<u8>,
}

/// What a batch of attempts ended with.
#[derive(Debug, Clone, PartialEq, Eq)]
pub enum SearchStep {
    /// This many attempts were rejected.
    Progress(u64),
    /// An attempt was accepted.
    Found(Candidate),
}

/// The state of one worker.
pub struct Worker {
    fields: CommitFields,
    checker: HashPrefixChecker,
    context: Sha1State,
    nonce: Vec<u8>,
    finished: bool,
}

impl Worker {
    /// The commit being searched over.
    pub closed spec fn fields(&self) -> CommitFields {
        self.fields
    }

    /// The nibbles that an identifier must start with.
    pub closed spec fn nibbles(&self) -> Seq<u8> {
        self.checker@
    }

    /// The nonce to try next.
    pub closed spec fn nonce(&self) -> Seq<u8> {
        self.nonce@
    }

    /// Whether a batch has already found a candidate; the worker then runs no more batches.
    pub closed spec fn finished(&self) -> bool {
        self.finished
    }

    /// Whether a batch has already found a candidate.
    pub fn is_finished(&self) -> (r: bool)
        ensures
            r == self.finished(),
    {
        self.finished
    }

    /// The hashing context holds the fixed part, and the nonce is twenty glyphs.
    pub closed spec fn wf(&self) -> bool {
        &&& self.checker.wf()
        &&& is_glyph_nonce(self.nonce@)
        &&& sha1_fed(self.context) == fixed_part(self.fields)
    }

    /// The nonce to try next is always 60 bytes of glyphs, and so valid UTF-8.
    pub proof fn lemma_nonce_is_glyphs(&self)
        requires
            self.wf(),
        ensures
            is_glyph_nonce(self.nonce()),
            valid_utf8(self.nonce()),
    {
        lemma_glyph_nonce_is_utf8(self.nonce@);
    }

    /// The nonce to try next.
    pub fn current_nonce(&self) -> (r: &Vec<u8>)
        ensures
            r@ == self.nonce(),
    {
        &self.nonce
    }

    /// Sets up worker `worker_id`: hashes the fixed part once and takes the
    /// seeding step. `None` when the commit is too long for its length to be
    /// written as a 64-bit number.
    pub fn new(fields: CommitFields, checker: HashPrefixChecker, worker_id: u64) -> (r: Option<Worker>)
        requires
            checker.wf(),
        ensures
            r is None <==> commit_body(fields, fields.message@).len() + NONCE_LEN > u64::MAX,
            r matches Some(w) ==> {
                &&& w.wf()
                &&& w.fields() == fields
                &&& w.nibbles() == checker@
                &&& w.nonce() == seed_nonce(fields, worker_id)
                &&& is_glyph_nonce(w.nonce())
                &&& !w.finished()
            },
    {
        let body = commit_body_bytes(&fields, fields.message.as_slice());
        if body.len() as u64 > u64::MAX - NONCE_LEN as u64 {
            return None;
        }
        let mut fixed: Vec<u8> = Vec::new();
        append_commit_header(&mut fixed, body.len() as u64 + NONCE_LEN as u64);
        append_bytes(&mut fixed, body.as_slice());
        assert(fixed@ =~= fixed_part(fields));
        let mut context = sha1_new();
        sha1_update(&mut context, fixed.as_slice());
        assert(sha1_fed(context) =~= fixed_part(fields));

        let mut nonce = new_nonce();
        let mut seed = sha1_clone(&context);
        sha1_update(&mut seed, nonce.as_slice());
        let mut number: Vec<u8> = Vec::new();
        append_decimal(&mut number, worker_id);
        sha1_update(&mut seed, number.as_slice());
        proof {
            lemma_fixed_part_then_nonce(fields, initial_nonce());
            assert(sha1_fed(seed) =~= commit_object(fields, fields.message@ + initial_nonce())
                + decimal(worker_id as nat));
        }
        let digest = sha1_finalize(seed);
        advance(&mut nonce, digest.as_slice());
        proof {
            lemma_nonces_are_glyphs(digest@);
        }
        Some(Worker { fields, checker, context, nonce, finished: false })
    }

    /// Tries the current nonce. On acceptance returns the identifier and keeps
    /// the nonce; otherwise moves on to the nonce that the digest chooses.
    pub fn attempt(&mut self) -> (r: Option<Vec<u8>>)
        requires
            old(self).wf(),
        ensures
            final(self).wf(),
            final(self).fields() == old(self).fields(),
            final(self).nibbles() == old(self).nibbles(),
            final(self).finished() == old(self).finished(),
            is_glyph_nonce(final(self).nonce()),
            r is Some <==> accepts(old(self).nibbles(), old(self).fields(), old(self).nonce()),
            r matches Some(id) ==> id@ == candidate_id(old(self).fields(), old(self).nonce())
                && final(self).nonce() == old(self).nonce(),
            r is None ==> final(self).nonce() == next_nonce(old(self).fields(), old(self).nonce()),
    {
        let mut trial = sha1_clone(&self.context);
        sha1_update(&mut trial, self.nonce.as_slice());
        proof {
            lemma_fixed_part_then_nonce(self.fields, self.nonce@);
        }
        let digest = sha1_finalize(trial);
        proof {
            self.checker.lemma_view_len();
        }
        if self.checker.check_prefix(digest.as_slice()) {
            Some(digest)
        } else {
            advance(&mut self.nonce, digest.as_slice());
            proof {
                lemma_nonces_are_glyphs(digest@);
            }
            None
        }
    }

    /// Runs attempts until one is accepted or a full batch is rejected. Once a
    /// batch has found a candidate the worker is finished, so each worker
    /// reports at most one.
    pub fn run_batch(&mut self) -> (r: SearchStep)
        requires
            old(self).wf(),
            !old(self).finished(),
        ensures
            final(self).finished() == r is Found,
            final(self).wf(),
            final(self).fields() == old(self).fields(),
            final(self).nibbles() == old(self).nibbles(),
            is_glyph_nonce(final(self).nonce()),
            match r {
                SearchStep::Progress(n) => {
                    &&& n == PROGRESS_BATCH
                    &&& final(self).nonce() == walk(old(self).fields(), old(self).nonce(), n as nat)
                    &&& forall|k: nat| k < n ==> !accepts(old(self).nibbles(), old(self).fields(),
                        #[trigger] walk(old(self).fields(), old(self).nonce(), k))
                },
                SearchStep::Found(c) => {
                    &&& 1 <= c.attempts <= PROGRESS_BATCH
                    &&& final(self).nonce() == walk(old(self).fields(), old(self).nonce(),
                        (c.attempts - 1) as nat)
                    &&& forall|k: nat| k < c.attempts - 1 ==> !accepts(old(self).nibbles(),
                        old(self).fields(), #[trigger] walk(old(self).fields(), old(self).nonce(), k))
                    &&& accepts(old(self).nibbles(), old(self).fields(), final(self).nonce())
                    &&& c.id@ == candidate_id(old(self).fields(), final(self).nonce())
                    &&& c.message@ == old(self).fields().message@ + final(self).nonce()
                    &&& valid_utf8(old(self).fields().message@) ==> valid_utf8(c.message@)
                },
            },
    {
        let ghost start = self.nonce@;
        let mut done: u64 = 0;
        while done < PROGRESS_BATCH
            invariant
                self.wf(),
                self.fields == old(self).fields,
                self.checker@ == old(self).checker@,
                !self.finished,
                start == old(self).nonce@,
                done <= PROGRESS_BATCH,
                self.nonce@ == walk(self.fields, start, done as nat),
                forall|k: nat| k < done ==> !accepts(self.checker@, self.fields,
                    #[trigger] walk(self.fields, start, k)),
            decreases PROGRESS_BATCH - done,
        {
            match self.attempt() {
                Some(id) => {
                    let mut message: Vec<u8> = Vec::new();
                    append_bytes(&mut message, self.fields.message.as_slice());
                    append_bytes(&mut message, self.nonce.as_slice());
                    assert(message@ =~= self.fields.message@ + self.nonce@);
                    proof {
                        lemma_glyph_nonce_is_utf8(self.nonce@);
                        if valid_utf8(self.fields.message@) {
                            valid_utf8_concat(self.fields.message@, self.nonce@);
                        }
                    }
                    self.finished = true;
                    return SearchStep::Found(Candidate { attempts: done + 1, id, message });
                },
                None => {
                    done = done + 1;
                },
            }
        }
        SearchStep::Progress(done)
    }
}

/// The identifier of the commit object for `fields` with `message` in place of its own.
pub fn commit_id(fields: &CommitFields, message: &[u8]) -> (r: Vec<u8>)
    ensures
        r@ == object_id(*fields, message@),
        r@.len() == 20,
{
    let object = commit_object_bytes(fields, message);
    let mut context = sha1_new();
    sha1_update(&mut context, object.as_slice());
    assert(sha1_fed(context) =~= object@);
    sha1_finalize(context)
}

} // verus!
