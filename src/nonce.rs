//! The nonce: blank-looking text whose glyphs are chosen by the previous digest.
use vstd::prelude::*;
use vstd::utf8::{valid_first_scalar, valid_utf8, valid_utf8_concat};

verus! {

/// Number of glyphs in a nonce, one per digest byte.
pub const NONCE_GLYPHS: usize = 20;

/// Bytes in a nonce: three per glyph.
pub const NONCE_LEN: usize = 60;

/// The sixteen three-byte glyphs, back to back: U+0020 three times, U+00A0
/// then U+0020, U+2000 to U+200B, U+202F and U+205F.
pub open spec fn glyph_table() -> Seq<u8> {
    seq![
        0x20u8, 0x20, 0x20,
        0xc2, 0xa0, 0x20,
        0xe2, 0x80, 0x80,
        0xe2, 0x80, 0x81,
        0xe2, 0x80, 0x82,
        0xe2, 0x80, 0x83,
        0xe2, 0x80, 0x84,
        0xe2, 0x80, 0x85,
        0xe2, 0x80, 0x86,
        0xe2, 0x80, 0x87,
        0xe2, 0x80, 0x88,
        0xe2, 0x80, 0x89,
        0xe2, 0x80, 0x8a,
        0xe2, 0x80, 0x8b,
        0xe2, 0x80, 0xaf,
        0xe2, 0x81, 0x9f,
    ]
}

/// The three bytes of glyph `index` (below 16).
pub open spec fn glyph(index: int) -> Seq<u8> {
    glyph_table().subrange(3 * index, 3 * index + 3)
}

/// The `k`-th three-byte group of a nonce.
pub open spec fn nonce_group(nonce: Seq<u8>, k: int) -> Seq<u8> {
    nonce.subrange(3 * k, 3 * k + 3)
}

/// Whether three bytes are one of the sixteen glyphs.
pub open spec fn is_glyph(g: Seq<u8>) -> bool {
    exists|j: int| 0 <= j < 16 && #[trigger] glyph(j) == g
}

/// A nonce of full length whose twenty groups are all glyphs.
pub open spec fn is_glyph_nonce(n: Seq<u8>) -> bool {
    &&& n.len() == NONCE_LEN
    &&& forall|k: int| 0 <= k < NONCE_GLYPHS ==> is_glyph(#[trigger] nonce_group(n, k))
}

/// The starting nonce: twenty ordinary spaces, three bytes each.
pub open spec fn initial_nonce() -> Seq<u8> {
    Seq::new(NONCE_LEN as nat, |i: int| 0x20u8)
}

/// The nonce that a digest selects: group `k` is the glyph indexed by the low
/// nibble of digest byte `k`.
pub open spec fn nonce_for(digest: Seq<u8>) -> Seq<u8> {
    Seq::new(NONCE_LEN as nat, |i: int| glyph((digest[i / 3] % 16) as int)[i % 3])
}

/// The sixteen glyphs differ from one another, and the first is plain spaces.
pub proof fn lemma_glyphs_distinct()
    ensures
        forall|i: int, j: int| 0 <= i < j < 16 ==> #[trigger] glyph(i) != #[trigger] glyph(j),
        initial_nonce() == nonce_for(Seq::new(NONCE_GLYPHS as nat, |k: int| 0u8)),
{
    assert forall|i: int, j: int| 0 <= i < j < 16 implies #[trigger] glyph(i) != #[trigger] glyph(j) by {
        if i == 0 {
            assert(glyph(i)[0] != glyph(j)[0]);
        } else if glyph(i)[1] == glyph(j)[1] {
            assert(glyph(i)[2] != glyph(j)[2]);
        }
    }
    assert(initial_nonce() =~= nonce_for(Seq::new(NONCE_GLYPHS as nat, |k: int| 0u8)));
}

/// Whatever the digest, the nonce it selects is 60 bytes long and each of its
/// twenty groups is one of the sixteen glyphs: the one named by the low nibble
/// of the matching digest byte.
pub proof fn lemma_nonce_groups_are_glyphs(digest: Seq<u8>)
    requires
        digest.len() == NONCE_GLYPHS,
    ensures
        nonce_for(digest).len() == NONCE_LEN,
        forall|k: int| 0 <= k < NONCE_GLYPHS ==> (#[trigger] nonce_group(nonce_for(digest), k)
            == glyph((digest[k] % 16) as int)),
{
    assert forall|k: int| 0 <= k < NONCE_GLYPHS implies (#[trigger] nonce_group(nonce_for(digest), k)
        == glyph((digest[k] % 16) as int)) by {
        assert(nonce_group(nonce_for(digest), k) =~= glyph((digest[k] % 16) as int));
    }
}

/// The starting nonce, and every nonce that a digest selects, is made of glyphs.
pub proof fn lemma_nonces_are_glyphs(digest: Seq<u8>)
    ensures
        is_glyph_nonce(initial_nonce()),
        is_glyph_nonce(nonce_for(digest)),
{
    assert forall|k: int| 0 <= k < NONCE_GLYPHS implies is_glyph(#[trigger] nonce_group(initial_nonce(), k)) by {
        assert(nonce_group(initial_nonce(), k) =~= glyph(0));
    }
    assert forall|k: int| 0 <= k < NONCE_GLYPHS implies is_glyph(#[trigger] nonce_group(nonce_for(digest), k)) by {
        let j = (digest[k] % 16) as int;
        assert(nonce_group(nonce_for(digest), k) =~= glyph(j));
    }
}

proof fn lemma_scalar_bits(b1: u8, b2: u8, b3: u8)
    ensures
        b1 <= 0x7f ==> ((b1 & 0x7f) as u32) < 0xd800,
        (b1 == 0xc2 && 0x80 <= b2 <= 0xbf) ==> 0x80 <= ((((b1 & 0x1f) as u32) << 6) | ((b2
            & 0x3f) as u32)) < 0xd800,
        (b1 == 0xe2 && 0x80 <= b2 <= 0x81 && 0x80 <= b3 <= 0xbf) ==> 0x800 <= ((((b1 & 0x0f) as u32)
            << 12) | (((b2 & 0x3f) as u32) << 6) | ((b3 & 0x3f) as u32)) < 0xd800,
{
    assert(b1 <= 0x7f ==> ((b1 & 0x7f) as u32) < 0xd800) by (bit_vector);
    assert((b1 == 0xc2 && 0x80 <= b2 <= 0xbf) ==> 0x80 <= ((((b1 & 0x1f) as u32) << 6) | ((b2
        & 0x3f) as u32)) < 0xd800) by (bit_vector);
    assert((b1 == 0xe2 && 0x80 <= b2 <= 0x81 && 0x80 <= b3 <= 0xbf) ==> 0x800 <= ((((b1 & 0x0f)
        as u32) << 12) | (((b2 & 0x3f) as u32) << 6) | ((b3 & 0x3f) as u32)) < 0xd800)
        by (bit_vector);
}

/// Each glyph is valid UTF-8.
proof fn lemma_glyph_utf8(j: int)
    requires
        0 <= j < 16,
    ensures
        valid_utf8(glyph(j)),
{
    reveal_with_fuel(valid_utf8, 4);
    let g = glyph(j);
    assert(g.len() == 3);
    lemma_scalar_bits(g[0], g[1], g[2]);
    lemma_scalar_bits(g[1], g[2], g[2]);
    lemma_scalar_bits(g[2], g[2], g[2]);
    if j == 0 {
        assert(valid_first_scalar(g));
        assert(valid_first_scalar(g.subrange(1, 3)));
        assert(valid_first_scalar(g.subrange(1, 3).subrange(1, 2)));
        assert(g.subrange(1, 3).subrange(1, 2).subrange(1, 1).len() == 0);
    } else if j == 1 {
        assert(valid_first_scalar(g));
        assert(valid_first_scalar(g.subrange(2, 3)));
        assert(g.subrange(2, 3).subrange(1, 1).len() == 0);
    } else {
        assert(valid_first_scalar(g));
        assert(g.subrange(3, 3).len() == 0);
    }
}

/// The first `k` groups of a nonce made of glyphs are valid UTF-8.
proof fn lemma_glyph_groups_utf8(n: Seq<u8>, k: int)
    requires
        is_glyph_nonce(n),
        0 <= k <= NONCE_GLYPHS,
    ensures
        valid_utf8(n.subrange(0, 3 * k)),
    decreases k,
{
    if k == 0 {
        reveal_with_fuel(valid_utf8, 1);
    } else {
        lemma_glyph_groups_utf8(n, k - 1);
        assert(is_glyph(nonce_group(n, k - 1)));
        let j = choose|j: int| 0 <= j < 16 && #[trigger] glyph(j) == nonce_group(n, k - 1);
        lemma_glyph_utf8(j);
        valid_utf8_concat(n.subrange(0, 3 * (k - 1)), nonce_group(n, k - 1));
        assert(n.subrange(0, 3 * (k - 1)) + nonce_group(n, k - 1) =~= n.subrange(0, 3 * k));
    }
}

/// A nonce made of glyphs is valid UTF-8 text.
pub proof fn lemma_glyph_nonce_is_utf8(n: Seq<u8>)
    requires
        is_glyph_nonce(n),
    ensures
        valid_utf8(n),
{
    lemma_glyph_groups_utf8(n, NONCE_GLYPHS as int);
    assert(n.subrange(0, 3 * NONCE_GLYPHS) =~= n);
}

/// The starting nonce.
pub fn new_nonce() -> (r: Vec<u8>)
    ensures
        r@ == initial_nonce(),
{
    let mut r: Vec<u8> = Vec::new();
    while r.len() < NONCE_LEN
        invariant
            r@.len() <= NONCE_LEN,
            forall|i: int| 0 <= i < r@.len() ==> r@[i] == 0x20u8,
        decreases NONCE_LEN - r@.len(),
    {
        r.push(0x20u8);
    }
    assert(r@ =~= initial_nonce());
    r
}

/// Overwrites every group of the nonce with the glyph that the matching
/// digest byte selects.
pub fn advance(nonce: &mut Vec<u8>, digest: &[u8])
    requires
        old(nonce)@.len() == NONCE_LEN,
        digest@.len() >= NONCE_GLYPHS,
    ensures
        final(nonce)@ == nonce_for(digest@),
{
    let table: [u8; 48] = [
        0x20, 0x20, 0x20,
        0xc2, 0xa0, 0x20,
        0xe2, 0x80, 0x80,
        0xe2, 0x80, 0x81,
        0xe2, 0x80, 0x82,
        0xe2, 0x80, 0x83,
        0xe2, 0x80, 0x84,
        0xe2, 0x80, 0x85,
        0xe2, 0x80, 0x86,
        0xe2, 0x80, 0x87,
        0xe2, 0x80, 0x88,
        0xe2, 0x80, 0x89,
        0xe2, 0x80, 0x8a,
        0xe2, 0x80, 0x8b,
        0xe2, 0x80, 0xaf,
        0xe2, 0x81, 0x9f,
    ];
    assert(table@ == glyph_table());
    let mut k: usize = 0;
    while k < NONCE_GLYPHS
        invariant
            k <= NONCE_GLYPHS,
            digest@.len() >= NONCE_GLYPHS,
            table@ == glyph_table(),
            nonce@.len() == NONCE_LEN,
            forall|i: int| 0 <= i < 3 * k ==> nonce@[i] == #[trigger] nonce_for(digest@)[i],
        decreases NONCE_GLYPHS - k,
    {
        let b = digest[k];
        let j: usize = (b & 0x0f) as usize;
        assert((b & 0x0f) == b % 16) by (bit_vector);
        nonce.set(3 * k, table[3 * j]);
        nonce.set(3 * k + 1, table[3 * j + 1]);
        nonce.set(3 * k + 2, table[3 * j + 2]);
        proof {
            assert forall|i: int| 3 * k <= i < 3 * k + 3 implies nonce@[i] == #[trigger] nonce_for(digest@)[i] by {
                assert(i / 3 == k as int);
            }
        }
        k = k + 1;
    }
    assert(nonce@ =~= nonce_for(digest@));
}

} // verus!
