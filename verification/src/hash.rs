//! The SHA-1 content hash: an asset's identity, kept as its 20 digest
//! bytes, rendered as 40 lowercase hex characters.

use vstd::prelude::*;

use crate::text::{hex_digit, hex_digit_char, string_push};

verus! {

/// The SHA-1 digest of a byte sequence, as computed by `sha1_smol`.
pub uninterp spec fn sha1_of(bytes: Seq<u8>) -> Seq<u8>;

/// The lowercase hex rendering of a byte sequence: two characters per byte.
pub open spec fn hex_of(bytes: Seq<u8>) -> Seq<char> {
    Seq::new(
        bytes.len() * 2,
        |i: int|
            if i % 2 == 0 {
                hex_digit_char(bytes[i / 2] as int / 16)
            } else {
                hex_digit_char(bytes[i / 2] as int % 16)
            },
    )
}

/// The value of a hex digit character, either case, and -1 for any other
/// character.
pub open spec fn hex_val_of(c: char) -> int {
    if c == '0' {
        0
    } else if c == '1' {
        1
    } else if c == '2' {
        2
    } else if c == '3' {
        3
    } else if c == '4' {
        4
    } else if c == '5' {
        5
    } else if c == '6' {
        6
    } else if c == '7' {
        7
    } else if c == '8' {
        8
    } else if c == '9' {
        9
    } else if c == 'a' || c == 'A' {
        10
    } else if c == 'b' || c == 'B' {
        11
    } else if c == 'c' || c == 'C' {
        12
    } else if c == 'd' || c == 'D' {
        13
    } else if c == 'e' || c == 'E' {
        14
    } else if c == 'f' || c == 'F' {
        15
    } else {
        -1
    }
}

pub open spec fn is_hex_digit(c: char) -> bool {
    hex_val_of(c) >= 0
}

/// A canonical content hash string: exactly 40 hex digit characters.
pub open spec fn valid_hex40(s: Seq<char>) -> bool {
    s.len() == 40 && forall|i: int| 0 <= i < 40 ==> is_hex_digit(#[trigger] s[i])
}

/// The bytes a hex string denotes, one byte per character pair.
pub open spec fn bytes_of_hex(s: Seq<char>) -> Seq<u8> {
    Seq::new(s.len() / 2, |i: int| (hex_val_of(s[2 * i]) * 16 + hex_val_of(s[2 * i + 1])) as u8)
}

/// A 160-bit SHA-1 content hash: both the unique identifier of an asset
/// and its integrity proof.
#[derive(Debug)]
pub struct Sha1Hash {
    bytes: Vec<u8>,
}

impl View for Sha1Hash {
    type V = Seq<u8>;

    closed spec fn view(&self) -> Seq<u8> {
        self.bytes@
    }
}

impl Sha1Hash {
    #[verifier::type_invariant]
    pub(crate) open spec fn type_wf(self) -> bool {
        self@.len() == 20
    }

    /// Parses a 40-character hex string; any other input yields `None`.
    pub fn parse_hex(s: &str) -> (r: Option<Sha1Hash>)
        ensures
            r is Some <==> valid_hex40(s@),
            r matches Some(h) ==> h@ == bytes_of_hex(s@),
    {
        let n = s.unicode_len();
        if n != 40 {
            return None;
        }
        let mut bytes: Vec<u8> = Vec::new();
        let mut i: usize = 0;
        while i < 20
            invariant
                s@.len() == 40,
                i <= 20,
                bytes@.len() == i,
                forall|j: int| 0 <= j < 2 * i ==> is_hex_digit(#[trigger] s@[j]),
                forall|j: int| 0 <= j < i ==> bytes@[j] == bytes_of_hex(s@)[j],
            decreases 20 - i,
        {
            let c_hi = s.get_char(2 * i);
            let c_lo = s.get_char(2 * i + 1);
            let hi = match hex_val(c_hi) {
                Some(v) => v,
                None => {
                    return None;
                },
            };
            let lo = match hex_val(c_lo) {
                Some(v) => v,
                None => {
                    return None;
                },
            };
            bytes.push(hi * 16 + lo);
            proof {
                assert(bytes@[i as int] == bytes_of_hex(s@)[i as int]);
            }
            i += 1;
        }
        proof {
            assert(bytes@ =~= bytes_of_hex(s@));
        }
        Some(Sha1Hash { bytes })
    }

    /// The 40-character lowercase hex rendering of the hash.
    pub fn human_readable(&self) -> (r: String)
        ensures
            r@ == hex_of(self@),
            r@.len() == 40,
    {
        proof {
            use_type_invariant(self);
        }
        let mut r = String::new();
        let mut i: usize = 0;
        while i < 20
            invariant
                self.bytes@.len() == 20,
                i <= 20,
                r@ == hex_of(self@).subrange(0, 2 * i as int),
            decreases 20 - i,
        {
            let b = self.bytes[i];
            string_push(&mut r, hex_digit(b / 16));
            string_push(&mut r, hex_digit(b % 16));
            proof {
                assert(r@ =~= hex_of(self@).subrange(0, 2 * (i + 1) as int));
            }
            i += 1;
        }
        proof {
            assert(hex_of(self@).subrange(0, 40) =~= hex_of(self@));
        }
        r
    }

    /// The first two hex characters of the hash: the name of the prefix
    /// directory the asset is stored under.
    pub fn hex_prefix(&self) -> (r: String)
        ensures
            r@ == hex_of(self@).subrange(0, 2),
    {
        proof {
            use_type_invariant(self);
        }
        let b = self.bytes[0];
        let mut r = String::new();
        string_push(&mut r, hex_digit(b / 16));
        string_push(&mut r, hex_digit(b % 16));
        proof {
            assert(r@ =~= hex_of(self@).subrange(0, 2));
        }
        r
    }
}

impl Clone for Sha1Hash {
    fn clone(&self) -> (r: Self)
        ensures
            r@ == self@,
    {
        proof {
            use_type_invariant(self);
        }
        let mut v: Vec<u8> = Vec::new();
        let mut i: usize = 0;
        while i < self.bytes.len()
            invariant
                self.bytes@.len() == 20,
                i <= 20,
                v@ == self.bytes@.subrange(0, i as int),
            decreases 20 - i,
        {
            v.push(self.bytes[i]);
            proof {
                assert(v@ =~= self.bytes@.subrange(0, i + 1));
            }
            i += 1;
        }
        proof {
            assert(v@ =~= self.bytes@);
        }
        Sha1Hash { bytes: v }
    }
}

impl PartialEq for Sha1Hash {
    fn eq(&self, other: &Self) -> (r: bool)
        ensures
            r == (self@ == other@),
    {
        let r = self.bytes == other.bytes;
        proof {
            if r {
                assert(self@ =~= other@);
            }
        }
        r
    }
}

impl vstd::std_specs::cmp::PartialEqSpecImpl for Sha1Hash {
    open spec fn obeys_eq_spec() -> bool {
        true
    }

    open spec fn eq_spec(&self, other: &Self) -> bool {
        self@ == other@
    }
}

fn hex_val(c: char) -> (r: Option<u8>)
    ensures
        r is Some <==> is_hex_digit(c),
        r matches Some(v) ==> v as int == hex_val_of(c) && v < 16,
{
    if c == '0' {
        Some(0)
    } else if c == '1' {
        Some(1)
    } else if c == '2' {
        Some(2)
    } else if c == '3' {
        Some(3)
    } else if c == '4' {
        Some(4)
    } else if c == '5' {
        Some(5)
    } else if c == '6' {
        Some(6)
    } else if c == '7' {
        Some(7)
    } else if c == '8' {
        Some(8)
    } else if c == '9' {
        Some(9)
    } else if c == 'a' || c == 'A' {
        Some(10)
    } else if c == 'b' || c == 'B' {
        Some(11)
    } else if c == 'c' || c == 'C' {
        Some(12)
    } else if c == 'd' || c == 'D' {
        Some(13)
    } else if c == 'e' || c == 'E' {
        Some(14)
    } else if c == 'f' || c == 'F' {
        Some(15)
    } else {
        None
    }
}

/// The hex rendering of a hash is canonical: it is a valid 40-character
/// hash string, and parsing it back yields exactly the original bytes.
pub proof fn lemma_hex_round_trip(h: Seq<u8>)
    requires
        h.len() == 20,
    ensures
        valid_hex40(hex_of(h)),
        bytes_of_hex(hex_of(h)) == h,
{
    assert forall|i: int| 0 <= i < 40 implies is_hex_digit(#[trigger] hex_of(h)[i]) by {
        let b = h[i / 2] as int;
        assert(0 <= b / 16 < 16 && 0 <= b % 16 < 16);
    }
    assert forall|i: int| 0 <= i < 20 implies bytes_of_hex(hex_of(h))[i] == h[i] by {
        let b = h[i] as int;
        assert(hex_of(h)[2 * i] == hex_digit_char(b / 16));
        assert(hex_of(h)[2 * i + 1] == hex_digit_char(b % 16));
        assert(hex_val_of(hex_digit_char(b / 16)) == b / 16);
        assert(hex_val_of(hex_digit_char(b % 16)) == b % 16);
        assert((b / 16) * 16 + b % 16 == b);
    }
    assert(bytes_of_hex(hex_of(h)) =~= h);
}

/// Relies on `sha1_smol::Sha1`: the SHA-1 digest of the input, 20 bytes.
#[verifier::external_body]
fn sha1_digest(bytes: &Vec<u8>) -> (r: Vec<u8>)
    ensures
        r@ == sha1_of(bytes@),
        r@.len() == 20,
{
    sha1_smol::Sha1::from(bytes.as_slice()).digest().bytes().to_vec()
}

/// The SHA-1 content hash of a byte buffer.
pub fn sha1_hash(bytes: &Vec<u8>) -> (r: Sha1Hash)
    ensures
        r@ == sha1_of(bytes@),
{
    Sha1Hash { bytes: sha1_digest(bytes) }
}

} // verus!
