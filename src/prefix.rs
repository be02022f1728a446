//! Matching digests against a requested hexadecimal prefix of any length.
use vstd::prelude::*;
use crate::config::ConfigError;
use crate::hex_codec::{hex_decode, is_hex_byte, hex_byte_value, lower_hex, lower_hex_digit};

verus! {

broadcast use vstd::string::is_ascii_spec_bytes;

/// The most hex digits a prefix may have: all of a 20-byte digest.
pub const MAX_PREFIX_DIGITS: usize = 40;

/// Whether a character is a hex digit, either case.
pub open spec fn is_hex_char(c: char) -> bool {
    ('0' <= c && c <= '9') || ('a' <= c && c <= 'f') || ('A' <= c && c <= 'F')
}

/// The value of a hex digit.
pub open spec fn hex_char_value(c: char) -> u8 {
    hex_byte_value(c as u8)
}

/// A prefix that can be searched for: 1 to 40 hex digits.
pub open spec fn is_valid_prefix(p: Seq<char>) -> bool {
    &&& 1 <= p.len() <= MAX_PREFIX_DIGITS
    &&& forall|i: int| 0 <= i < p.len() ==> is_hex_char(#[trigger] p[i])
}

/// The nibble values that a prefix asks for, one per digit.
pub open spec fn prefix_nibbles(p: Seq<char>) -> Seq<u8> {
    Seq::new(p.len(), |i: int| hex_char_value(p[i]))
}

/// The `i`-th nibble of a byte sequence, the high nibble of each byte first.
pub open spec fn nibble_at(d: Seq<u8>, i: int) -> u8 {
    if i % 2 == 0 {
        d[i / 2] / 16
    } else {
        d[i / 2] % 16
    }
}

/// Whether the leading nibbles of `d` are exactly `nibbles`.
pub open spec fn nibbles_match(nibbles: Seq<u8>, d: Seq<u8>) -> bool {
    &&& 2 * d.len() >= nibbles.len()
    &&& forall|i: int| 0 <= i < nibbles.len() ==> nibble_at(d, i) == #[trigger] nibbles[i]
}

/// A character as an ASCII byte, upper-case letters made lower-case.
pub open spec fn ascii_lower_byte(c: char) -> u8 {
    if 'A' <= c && c <= 'Z' {
        ((c as u8) + 32) as u8
    } else {
        c as u8
    }
}

/// A text as ASCII bytes, upper-case letters made lower-case.
pub open spec fn ascii_lower(p: Seq<char>) -> Seq<u8> {
    Seq::new(p.len(), |i: int| ascii_lower_byte(p[i]))
}

/// A digest matches the nibbles of a valid prefix exactly when the digest's
/// lower-case hex spelling begins with the prefix, read without regard to case.
pub proof fn lemma_match_is_hex_prefix(p: Seq<char>, d: Seq<u8>)
    requires
        is_valid_prefix(p),
        2 * d.len() >= p.len(),
    ensures
        nibbles_match(prefix_nibbles(p), d) <==> lower_hex(d).subrange(0, p.len() as int)
            == ascii_lower(p),
{
    assert forall|i: int| 0 <= i < p.len() implies
        #[trigger] ascii_lower(p)[i] == lower_hex_digit(prefix_nibbles(p)[i])
            && prefix_nibbles(p)[i] < 16 by {
        assert(is_hex_char(p[i]));
    }
    assert forall|i: int| 0 <= i < p.len() implies
        #[trigger] lower_hex(d)[i] == lower_hex_digit(nibble_at(d, i)) && nibble_at(d, i) < 16 by {
    }
    if nibbles_match(prefix_nibbles(p), d) {
        assert(lower_hex(d).subrange(0, p.len() as int) =~= ascii_lower(p));
    }
    if lower_hex(d).subrange(0, p.len() as int) == ascii_lower(p) {
        assert forall|i: int| 0 <= i < p.len() implies
            nibble_at(d, i) == #[trigger] prefix_nibbles(p)[i] by {
            assert(lower_hex(d).subrange(0, p.len() as int)[i] == ascii_lower(p)[i]);
        }
    }
}

/// A parsed prefix: the full bytes to match, the last of which holds only a
/// high nibble (low nibble zero) when the prefix has an odd number of digits.
#[derive(Debug, Clone, PartialEq, Eq)]
pub struct HashPrefixChecker {
    bytes: Vec<u8>,
    is_odd_length: bool,
}

impl View for HashPrefixChecker {
    /// The nibbles that a digest must start with.
    type V = Seq<u8>;

    closed spec fn view(&self) -> Seq<u8> {
        let n: int = if self.is_odd_length {
            2 * self.bytes@.len() - 1
        } else {
            2 * self.bytes@.len() as int
        };
        Seq::new(n as nat, |i: int| nibble_at(self.bytes@, i))
    }
}

proof fn lemma_byte_nibbles(x: u8, y: u8)
    ensures
        (x == y) <==> (x / 16 == y / 16 && x % 16 == y % 16),
        (x % 16 == 0) ==> ((x == (y & 0xf0)) <==> (x / 16 == y / 16)),
{
    assert((x == y) <==> (x / 16 == y / 16 && x % 16 == y % 16)) by (bit_vector);
    assert((x % 16 == 0) ==> ((x == (y & 0xf0)) <==> (x / 16 == y / 16))) by (bit_vector);
}

impl HashPrefixChecker {
    /// Well-formed: 1 to 20 bytes, and a zero low nibble in the last one
    /// when the digit count is odd.
    pub closed spec fn wf(&self) -> bool {
        &&& 1 <= self.bytes@.len() <= 20
        &&& self.is_odd_length ==> self.bytes@.last() % 16 == 0
    }

    /// A well-formed prefix asks for 1 to 40 nibbles.
    pub proof fn lemma_view_len(&self)
        requires
            self.wf(),
        ensures
            1 <= self@.len() <= MAX_PREFIX_DIGITS,
    {
    }

    /// Parses a prefix of 1 to 40 hex digits of either case.
    pub fn new(prefix: &str) -> (r: Result<HashPrefixChecker, ConfigError>)
        ensures
            r is Ok <==> is_valid_prefix(prefix@),
            r matches Ok(c) ==> c.wf() && c@ == prefix_nibbles(prefix@),
            r matches Err(e) ==> e == ConfigError::InvalidPrefix,
    {
        if !prefix.is_ascii() {
            proof {
                let k = choose|k: int| 0 <= k < prefix@.len() && !('\0' <= #[trigger] prefix@[k] <= '\u{7f}');
                assert(!is_hex_char(prefix@[k]));
            }
            return Err(ConfigError::InvalidPrefix);
        }
        let digits = prefix.as_bytes();
        let n = digits.len();
        assert(digits@.len() == prefix@.len());
        if n == 0 || n > MAX_PREFIX_DIGITS {
            return Err(ConfigError::InvalidPrefix);
        }
        let is_odd_length = n % 2 == 1;
        let mut padded: Vec<u8> = Vec::new();
        let mut i: usize = 0;
        while i < n
            invariant
                i <= n,
                n == digits@.len(),
                padded@ == digits@.subrange(0, i as int),
            decreases n - i,
        {
            padded.push(digits[i]);
            i = i + 1;
        }
        if is_odd_length {
            padded.push(48u8);
        }
        assert(forall|j: int| 0 <= j < n ==> padded@[j] == digits@[j]);
        assert forall|j: int| 0 <= j < n implies
            is_hex_byte(#[trigger] digits@[j]) == is_hex_char(prefix@[j]) by {
            assert(digits@[j] == prefix@[j] as u8);
        }
        match hex_decode(padded.as_slice()) {
            Ok(bytes) => {
                let c = HashPrefixChecker { bytes, is_odd_length };
                proof {
                    assert forall|j: int| 0 <= j < n implies is_hex_char(#[trigger] prefix@[j]) by {
                        assert(is_hex_byte(padded@[j]));
                    }
                    assert forall|j: int| 0 <= j < n implies
                        nibble_at(c.bytes@, j) == #[trigger] hex_char_value(prefix@[j]) by {
                        let k = j / 2;
                        let hi = hex_byte_value(padded@[2 * k]);
                        let lo = hex_byte_value(padded@[2 * k + 1]);
                        assert(hi < 16 && lo < 16);
                        assert(c.bytes@[k] == (hi * 16 + lo) as u8);
                        assert((hi * 16 + lo) / 16 == hi && (hi * 16 + lo) % 16 == lo)
                            by (nonlinear_arith) requires hi < 16, lo < 16;
                        assert(digits@[j] == prefix@[j] as u8);
                    }
                    if is_odd_length {
                        let k = (n / 2) as int;
                        let hi = hex_byte_value(padded@[2 * k]);
                        assert(padded@[2 * k + 1] == 48);
                        assert((hi * 16 + 0) % 16 == 0) by (nonlinear_arith) requires hi < 16;
                    }
                    assert(c@ =~= prefix_nibbles(prefix@));
                }
                Ok(c)
            }
            Err(_) => {
                proof {
                    if is_valid_prefix(prefix@) {
                        assert forall|j: int| 0 <= j < padded@.len() implies is_hex_byte(#[trigger] padded@[j]) by {
                            if j < n {
                                assert(is_hex_char(prefix@[j]));
                            }
                        }
                    }
                }
                Err(ConfigError::InvalidPrefix)
            }
        }
    }

    /// Whether `digest` begins with the requested nibbles.
    pub fn check_prefix(&self, digest: &[u8]) -> (r: bool)
        requires
            self.wf(),
            2 * digest@.len() >= self@.len(),
        ensures
            r == nibbles_match(self@, digest@),
    {
        let last = self.bytes.len() - 1;
        assert(digest@.len() >= self.bytes@.len());
        let mut i: usize = 0;
        while i < last
            invariant
                self.wf(),
                last == self.bytes@.len() - 1,
                digest@.len() >= self.bytes@.len(),
                i <= last,
                forall|k: int| 0 <= k < i ==> self.bytes@[k] == digest@[k],
            decreases last - i,
        {
            if self.bytes[i] != digest[i] {
                proof {
                    lemma_byte_nibbles(self.bytes@[i as int], digest@[i as int]);
                    let j: int = if self.bytes@[i as int] / 16 != digest@[i as int] / 16 { 2 * i } else { 2 * i + 1 };
                    assert(self@[j] == nibble_at(self.bytes@, j));
                }
                return false;
            }
            i = i + 1;
        }
        let expected = self.bytes[last];
        let actual = digest[last];
        proof {
            lemma_byte_nibbles(expected, actual);
            assert forall|k: int| 0 <= k < 2 * last implies
                nibble_at(digest@, k) == #[trigger] self@[k] by {
                lemma_byte_nibbles(self.bytes@[k / 2], digest@[k / 2]);
            }
        }
        if self.is_odd_length {
            let r = expected == (actual & 0xf0);
            proof {
                if !r {
                    assert(self@[2 * last] == nibble_at(self.bytes@, 2 * last));
                }
            }
            r
        } else {
            let r = expected == actual;
            proof {
                if !r {
                    let j: int = if expected / 16 != actual / 16 { 2 * last } else { 2 * last + 1 };
                    assert(self@[j] == nibble_at(self.bytes@, j));
                }
            }
            r
        }
    }
}

} // verus!
