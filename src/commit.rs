//! The canonical byte form of a commit object, as the object store hashes it.
use vstd::prelude::*;
use crate::hex_codec::{hex_encode, lower_hex};
use crate::text::{
    append_bytes, append_decimal, append_signed_decimal, append_two_digits, decimal,
    signed_decimal, two_digits,
};

verus! {

/// Who made a commit, and when.
#[derive(Debug, Clone, PartialEq, Eq)]
pub struct Identity {
    /// The name, when there is one.
    pub name: Option<Vec<u8>>,
    /// The e-mail address, when there is one.
    pub email: Option<Vec<u8>>,
    /// Seconds since the Unix epoch.
    pub seconds: i64,
    /// Offset from UTC, in minutes.
    pub offset_minutes: i32,
}

/// The parts of a commit that the search never changes.
#[derive(Debug, Clone, PartialEq, Eq)]
pub struct CommitFields {
    /// Raw identifier of the tree.
    pub tree: Vec<u8>,
    /// Raw identifiers of the parents, in order; empty for a root commit.
    pub parents: Vec<Vec<u8>>,
    pub author: Identity,
    pub committer: Identity,
    /// The message that the search appends its nonce to.
    pub message: Vec<u8>,
}

/// `tree ` in ASCII.
pub open spec fn tree_label() -> Seq<u8> {
    seq![116u8, 114, 101, 101, 32]
}

/// `parent ` in ASCII.
pub open spec fn parent_label() -> Seq<u8> {
    seq![112u8, 97, 114, 101, 110, 116, 32]
}

/// `author` in ASCII.
pub open spec fn author_label() -> Seq<u8> {
    seq![97u8, 117, 116, 104, 111, 114]
}

/// `committer` in ASCII.
pub open spec fn committer_label() -> Seq<u8> {
    seq![99u8, 111, 109, 109, 105, 116, 116, 101, 114]
}

/// `commit ` in ASCII.
pub open spec fn commit_label() -> Seq<u8> {
    seq![99u8, 111, 109, 109, 105, 116, 32]
}

/// A line feed.
pub open spec fn newline() -> Seq<u8> {
    seq![10u8]
}

/// A UTC offset as `+HHMM` or `-HHMM`, the hours and minutes of its magnitude.
pub open spec fn offset_text(minutes: int) -> Seq<u8> {
    let magnitude: nat = if minutes < 0 { (-minutes) as nat } else { minutes as nat };
    let sign: u8 = if minutes < 0 { 45u8 } else { 43u8 };
    seq![sign] + two_digits(magnitude / 60) + two_digits(magnitude % 60)
}

/// An identity as it follows `author` or `committer`:
/// ` name`, ` <email>`, ` seconds`, ` ±HHMM`, the first two only when present.
pub open spec fn identity_text(id: Identity) -> Seq<u8> {
    let name: Seq<u8> = match id.name {
        Some(n) => seq![32u8] + n@,
        None => Seq::empty(),
    };
    let email: Seq<u8> = match id.email {
        Some(e) => seq![32u8, 60u8] + e@ + seq![62u8],
        None => Seq::empty(),
    };
    name + email + seq![32u8] + signed_decimal(id.seconds as int) + seq![32u8] + offset_text(
        id.offset_minutes as int,
    )
}

/// One `parent <hex>` line per parent, in order.
pub open spec fn parent_lines(parents: Seq<Seq<u8>>) -> Seq<u8>
    decreases parents.len(),
{
    if parents.len() == 0 {
        Seq::empty()
    } else {
        parent_lines(parents.drop_last()) + parent_label() + lower_hex(parents.last()) + newline()
    }
}

/// The raw parent identifiers.
pub open spec fn parent_ids(f: CommitFields) -> Seq<Seq<u8>> {
    f.parents@.map_values(|p: Vec<u8>| p@)
}

/// The body of a commit object with the given message: tree line, parent
/// lines, author and committer lines, a blank line, then the message verbatim.
pub open spec fn commit_body(f: CommitFields, message: Seq<u8>) -> Seq<u8> {
    tree_label() + lower_hex(f.tree@) + newline() + parent_lines(parent_ids(f)) + author_label()
        + identity_text(f.author) + newline() + committer_label() + identity_text(f.committer)
        + newline() + newline() + message
}

/// The header of an object whose body has `body_len` bytes: `commit <len>` and a NUL.
pub open spec fn commit_header(body_len: nat) -> Seq<u8> {
    commit_label() + decimal(body_len) + seq![0u8]
}

/// A whole commit object: header, then body.
pub open spec fn commit_object(f: CommitFields, message: Seq<u8>) -> Seq<u8> {
    commit_header(commit_body(f, message).len()) + commit_body(f, message)
}

/// A commit without parents has no parent line: its author line follows the tree line.
pub proof fn lemma_root_commit_body(f: CommitFields, message: Seq<u8>)
    requires
        f.parents@.len() == 0,
    ensures
        commit_body(f, message) == tree_label() + lower_hex(f.tree@) + newline() + author_label()
            + identity_text(f.author) + newline() + committer_label() + identity_text(f.committer)
            + newline() + newline() + message,
{
    assert(parent_ids(f).len() == 0);
    assert(parent_lines(parent_ids(f)) =~= Seq::<u8>::empty());
    assert(commit_body(f, message) =~= tree_label() + lower_hex(f.tree@) + newline()
        + author_label() + identity_text(f.author) + newline() + committer_label()
        + identity_text(f.committer) + newline() + newline() + message);
}

/// Appending text to the message appends it to the body.
pub proof fn lemma_body_extends(f: CommitFields, message: Seq<u8>, suffix: Seq<u8>)
    ensures
        commit_body(f, message + suffix) == commit_body(f, message) + suffix,
        commit_body(f, message + suffix).len() == commit_body(f, message).len() + suffix.len(),
{
    assert(commit_body(f, message + suffix) =~= commit_body(f, message) + suffix);
}

fn append_offset(out: &mut Vec<u8>, minutes: i32)
    ensures
        final(out)@ == old(out)@ + offset_text(minutes as int),
{
    let magnitude: u64 = if minutes < 0 {
        out.push(45u8);
        (0i64 - minutes as i64) as u64
    } else {
        out.push(43u8);
        minutes as u64
    };
    append_two_digits(out, magnitude / 60);
    append_two_digits(out, magnitude % 60);
    assert(out@ =~= old(out)@ + offset_text(minutes as int));
}

fn append_identity(out: &mut Vec<u8>, id: &Identity)
    ensures
        final(out)@ == old(out)@ + identity_text(*id),
{
    match &id.name {
        Some(n) => {
            out.push(32u8);
            append_bytes(out, n.as_slice());
        },
        None => {},
    }
    match &id.email {
        Some(e) => {
            out.push(32u8);
            out.push(60u8);
            append_bytes(out, e.as_slice());
            out.push(62u8);
        },
        None => {},
    }
    out.push(32u8);
    append_signed_decimal(out, id.seconds);
    out.push(32u8);
    append_offset(out, id.offset_minutes);
    assert(out@ =~= old(out)@ + identity_text(*id));
}

/// The text that follows `author` or `committer` for an identity.
pub fn format_signature_data(id: &Identity) -> (r: Vec<u8>)
    ensures
        r@ == identity_text(*id),
{
    let mut r: Vec<u8> = Vec::new();
    append_identity(&mut r, id);
    assert(r@ =~= identity_text(*id));
    r
}

fn append_parent_lines(out: &mut Vec<u8>, parents: &Vec<Vec<u8>>)
    ensures
        final(out)@ == old(out)@ + parent_lines(parents@.map_values(|p: Vec<u8>| p@)),
{
    let ghost ids = parents@.map_values(|p: Vec<u8>| p@);
    let label: [u8; 7] = [112, 97, 114, 101, 110, 116, 32];
    let mut i: usize = 0;
    assert(ids.subrange(0, 0) =~= Seq::<Seq<u8>>::empty());
    while i < parents.len()
        invariant
            i <= parents@.len(),
            ids == parents@.map_values(|p: Vec<u8>| p@),
            label@ == parent_label(),
            out@ == old(out)@ + parent_lines(ids.subrange(0, i as int)),
        decreases parents@.len() - i,
    {
        append_bytes(out, &label);
        let hex = hex_encode(parents[i].as_slice());
        append_bytes(out, hex.as_slice());
        out.push(10u8);
        proof {
            let next = ids.subrange(0, i + 1);
            assert(next.drop_last() =~= ids.subrange(0, i as int));
            assert(next.last() == parents@[i as int]@);
        }
        i = i + 1;
        assert(out@ =~= old(out)@ + parent_lines(ids.subrange(0, i as int)));
    }
    assert(ids.subrange(0, parents@.len() as int) =~= ids);
}

/// The body of the commit object for `fields` with `message` in place of its own.
pub fn commit_body_bytes(fields: &CommitFields, message: &[u8]) -> (r: Vec<u8>)
    ensures
        r@ == commit_body(*fields, message@),
{
    let mut out: Vec<u8> = Vec::new();
    let tree: [u8; 5] = [116, 114, 101, 101, 32];
    let author: [u8; 6] = [97, 117, 116, 104, 111, 114];
    let committer: [u8; 9] = [99, 111, 109, 109, 105, 116, 116, 101, 114];
    append_bytes(&mut out, &tree);
    let hex = hex_encode(fields.tree.as_slice());
    append_bytes(&mut out, hex.as_slice());
    out.push(10u8);
    append_parent_lines(&mut out, &fields.parents);
    append_bytes(&mut out, &author);
    append_identity(&mut out, &fields.author);
    out.push(10u8);
    append_bytes(&mut out, &committer);
    append_identity(&mut out, &fields.committer);
    out.push(10u8);
    out.push(10u8);
    append_bytes(&mut out, message);
    assert(out@ =~= commit_body(*fields, message@));
    out
}

/// Appends the header of an object whose body has `body_len` bytes.
pub fn append_commit_header(out: &mut Vec<u8>, body_len: u64)
    ensures
        final(out)@ == old(out)@ + commit_header(body_len as nat),
{
    let label: [u8; 7] = [99, 111, 109, 109, 105, 116, 32];
    append_bytes(out, &label);
    append_decimal(out, body_len);
    out.push(0u8);
    assert(out@ =~= old(out)@ + commit_header(body_len as nat));
}

/// The whole commit object for `fields` with `message` in place of its own.
pub fn commit_object_bytes(fields: &CommitFields, message: &[u8]) -> (r: Vec<u8>)
    ensures
        r@ == commit_object(*fields, message@),
{
    let body = commit_body_bytes(fields, message);
    let mut out: Vec<u8> = Vec::new();
    append_commit_header(&mut out, body.len() as u64);
    append_bytes(&mut out, body.as_slice());
    assert(out@ =~= commit_object(*fields, message@));
    out
}

} // verus!
