//! Session identity: a 128-bit random identifier, its canonical
//! hyphenated-hexadecimal serialization, and the lossy nine-digit decimal
//! code shown for human entry.
//!
//! The full 128-bit value is the canonical identity. The canonical text form
//! is the 36-character lowercase hyphenated rendering (8-4-4-4-12 hexadecimal
//! digits); the nine-digit code is only a presentation form, obtained by
//! reducing the value modulo one billion.

use vstd::prelude::*;

verus! {

use crate::digits::code9;
use crate::digits::digits_of;
use crate::digits::glyph;
use crate::digits::glyph_of_char;
use crate::digits::glyph_str;
use crate::digits::is_code9;
use crate::digits::is_hex_char;
use crate::digits::lemma_glyph_roundtrip;
use crate::digits::lemma_place_val_digits;
use crate::digits::lemma_pow_mono;
use crate::digits::lemma_pow_pos;
use crate::digits::parse_code9;
use crate::digits::place_val;
use crate::digits::pow;
use crate::digits::format_code9;
use vstd::string::StrSliceExecFns;
use vstd::string::StringExecFns;

/// A session identifier: a 128-bit random value. Identity and equality go by
/// the full value.
#[derive(Debug, Clone, Copy, PartialEq, Eq, Hash, Structural)]
pub struct SessionId {
    pub value: u128,
}

/// Rejection of text that is not a well-formed session identifier.
#[derive(Debug, Clone, Copy, PartialEq, Eq)]
pub struct ParseError;

/// True of the positions that hold a hyphen in the canonical serialization.
pub open spec fn hyphen_pos(i: int) -> bool {
    i == 8 || i == 13 || i == 18 || i == 23
}

/// The position in the canonical serialization of the `j`-th hexadecimal
/// digit.
pub open spec fn hex_pos(j: int) -> int {
    if j < 8 {
        j
    } else if j < 12 {
        j + 1
    } else if j < 16 {
        j + 2
    } else if j < 20 {
        j + 3
    } else {
        j + 4
    }
}

/// The index of the hexadecimal digit standing at a non-hyphen position `i`
/// of the canonical serialization.
pub open spec fn inv_pos(i: int) -> int {
    if i < 8 {
        i
    } else if i < 13 {
        i - 1
    } else if i < 18 {
        i - 2
    } else if i < 23 {
        i - 3
    } else {
        i - 4
    }
}

/// A well-formed canonical serialization: 36 characters, hyphens at the four
/// fixed positions, lowercase hexadecimal digits everywhere else.
pub open spec fn is_canonical(s: Seq<char>) -> bool {
    &&& s.len() == 36
    &&& s[8] == '-'
    &&& s[13] == '-'
    &&& s[18] == '-'
    &&& s[23] == '-'
    &&& forall|i: int| 0 <= i < 36 && !hyphen_pos(i) ==> is_hex_char(#[trigger] s[i])
}

/// The 32 hexadecimal digits of a canonical serialization, in order.
pub open spec fn hex_digits(s: Seq<char>) -> Seq<char> {
    Seq::new(32, |j: int| s[hex_pos(j)])
}

/// The 128-bit value a canonical serialization denotes.
pub open spec fn canonical_val(s: Seq<char>) -> int {
    place_val(16, hex_digits(s))
}

/// The canonical serialization of a 128-bit value.
pub open spec fn canonical36(v: int) -> Seq<char> {
    Seq::new(
        36,
        |i: int|
            if hyphen_pos(i) {
                '-'
            } else {
                glyph((v / pow(16, 31 - inv_pos(i))) % 16)
            },
    )
}

/// The value denoted by either accepted text form of a session identifier:
/// the canonical serialization, or the nine-digit human-entry code. Any other
/// text denotes nothing.
pub open spec fn session_text_val(s: Seq<char>) -> Option<int> {
    if is_canonical(s) {
        Some(canonical_val(s))
    } else if is_code9(s) {
        Some(place_val(10, s))
    } else {
        None
    }
}

/// Parsing the canonical serialization of any value recovers exactly that
/// value: `from_string` accepts exactly what `to_canonical_string` produces.
pub proof fn lemma_canonical_roundtrip(v: u128)
    ensures
        is_canonical(canonical36(v as int)),
        canonical_val(canonical36(v as int)) == v as int,
{
    let s = canonical36(v as int);
    assert forall|i: int| 0 <= i < 36 && !hyphen_pos(i) implies is_hex_char(#[trigger] s[i]) by {
        lemma_pow_pos(16, 31 - inv_pos(i));
        lemma_glyph_roundtrip((v as int / pow(16, 31 - inv_pos(i))) % 16);
    }
    assert(hex_digits(s) =~= digits_of(16, v as int, 32)) by {
        assert forall|j: int| 0 <= j < 32 implies hex_digits(s)[j] == digits_of(
            16,
            v as int,
            32,
        )[j] by {
            assert(!hyphen_pos(hex_pos(j)));
            assert(inv_pos(hex_pos(j)) == j);
        }
    }
    lemma_place_val_digits(16, v as int, 32);
    assert(pow(16, 32) == 0x1_0000_0000_0000_0000_0000_0000_0000_0000) by {
        reveal_with_fuel(pow, 33);
    }
    assert(v as int % pow(16, 32) == v as int);
}

impl SessionId {
    /// Generate a fresh random session identifier.
    ///
    /// Relies on `uuid::Uuid::new_v4`: a version-4 UUID drawn from a
    /// cryptographically strong random source; its 128-bit value is the
    /// session's identity.
    #[verifier::external_body]
    pub fn new() -> (r: SessionId)
    {
        SessionId { value: uuid::Uuid::new_v4().as_u128() }
    }

    /// Parse the canonical serialization; reject every other string.
    pub fn from_string(s: &str) -> (r: Result<SessionId, ParseError>)
        ensures
            (r is Ok) == is_canonical(s@),
            r matches Ok(id) ==> id.value as int == canonical_val(s@),
    {
        if s.unicode_len() != 36 {
            return Err(ParseError);
        }
        if s.get_char(8) != '-' || s.get_char(13) != '-' || s.get_char(18) != '-' || s.get_char(23)
            != '-' {
            return Err(ParseError);
        }
        let mut v: u128 = 0;
        let mut j: usize = 0;
        while j < 32
            invariant
                s@.len() == 36,
                j <= 32,
                v as int == place_val(16, hex_digits(s@).subrange(0, j as int)),
                (v as int) < pow(16, j as int),
                forall|k: int| 0 <= k < j ==> is_hex_char(#[trigger] s@[hex_pos(k)]),
            decreases 32 - j,
        {
            let p: usize = if j < 8 {
                j
            } else if j < 12 {
                j + 1
            } else if j < 16 {
                j + 2
            } else if j < 20 {
                j + 3
            } else {
                j + 4
            };
            assert(p as int == hex_pos(j as int));
            let c = s.get_char(p);
            let d = match glyph_of_char(c) {
                Some(d) => d,
                None => {
                    assert(!is_hex_char(s@[hex_pos(j as int)]));
                    assert(!hyphen_pos(hex_pos(j as int)));
                    return Err(ParseError);
                },
            };
            proof {
                lemma_pow_mono(16, j as int, 31);
                assert(pow(16, 31) * 16 == pow(16, 32)) by {
                    assert(pow(16, 32) == 16 * pow(16, 31));
                }
                assert(pow(16, 32) == 0x1_0000_0000_0000_0000_0000_0000_0000_0000) by {
                    reveal_with_fuel(pow, 33);
                }
                assert(hex_digits(s@).subrange(0, j as int + 1).drop_last() =~= hex_digits(
                    s@,
                ).subrange(0, j as int));
                assert(hex_digits(s@).subrange(0, j as int + 1).last() == s@[hex_pos(j as int)]);
            }
            v = v * 16 + d as u128;
            j = j + 1;
        }
        proof {
            assert(hex_digits(s@).subrange(0, 32) =~= hex_digits(s@));
            assert forall|i: int| 0 <= i < 36 && !hyphen_pos(i) implies is_hex_char(
                #[trigger] s@[i],
            ) by {
                assert(hex_pos(inv_pos(i)) == i);
                assert(0 <= inv_pos(i) < 32);
            }
        }
        Ok(SessionId { value: v })
    }

    /// Render the canonical serialization of this identifier.
    pub fn to_canonical_string(&self) -> (r: String)
        ensures
            r@ == canonical36(self.value as int),
            is_canonical(r@),
    {
        let ds = nibbles_rev(self.value);
        let mut out = String::new();
        let mut i: usize = 0;
        while i < 36
            invariant
                ds@.len() == 32,
                forall|l: int| 0 <= l < 32 ==> ds@[l] as int == (self.value as int / pow(16, l)) % 16,
                i <= 36,
                out@ =~= canonical36(self.value as int).subrange(0, i as int),
            decreases 36 - i,
        {
            if i == 8 || i == 13 || i == 18 || i == 23 {
                proof {
                    reveal_strlit("-");
                }
                out.append("-");
            } else {
                let q: usize = if i < 8 {
                    i
                } else if i < 13 {
                    i - 1
                } else if i < 18 {
                    i - 2
                } else if i < 23 {
                    i - 3
                } else {
                    i - 4
                };
                assert(q as int == inv_pos(i as int));
                let d = ds[31 - q];
                assert(d < 16);
                out.append(glyph_str(d));
            }
            proof {
                assert(out@ =~= canonical36(self.value as int).subrange(0, i as int + 1));
            }
            i = i + 1;
        }
        proof {
            assert(out@ =~= canonical36(self.value as int));
            lemma_canonical_roundtrip(self.value);
        }
        out
    }

    /// Render the nine-digit decimal code: the value reduced modulo one
    /// billion, left-padded with zeros. A presentation form only; two
    /// distinct identifiers may share it.
    pub fn display_code(&self) -> (r: String)
        ensures
            r@ == code9((self.value % 1_000_000_000) as int),
            is_code9(r@),
    {
        format_code9((self.value % 1_000_000_000) as u32)
    }
}

impl Default for SessionId {
    /// A fresh random identifier.
    fn default() -> Self {
        Self::new()
    }
}

/// Parse either accepted text form of a session identifier: the canonical
/// serialization (yielding the full value) or the nine-digit code (yielding
/// the code's value). The two forms are the ones this module itself renders.
pub fn parse_session_text(s: &str) -> (r: Option<SessionId>)
    ensures
        r matches Some(id) ==> session_text_val(s@) == Some(id.value as int),
        r is None ==> session_text_val(s@) is None,
{
    match SessionId::from_string(s) {
        Ok(id) => Some(id),
        Err(_) => match parse_code9(s) {
            Some(v) => Some(SessionId { value: v as u128 }),
            None => None,
        },
    }
}

/// The 32 hexadecimal digits of a 128-bit value, least significant first.
fn nibbles_rev(n: u128) -> (r: Vec<u8>)
    ensures
        r@.len() == 32,
        forall|l: int| 0 <= l < 32 ==> r@[l] as int == (n as int / pow(16, l)) % 16,
{
    let mut ds: Vec<u8> = Vec::new();
    let mut m: u128 = n;
    let mut j: usize = 0;
    while j < 32
        invariant
            j == ds@.len(),
            j <= 32,
            m as int == n as int / pow(16, j as int),
            forall|l: int| 0 <= l < j ==> ds@[l] as int == (n as int / pow(16, l)) % 16,
        decreases 32 - j,
    {
        let d: u8 = (m % 16) as u8;
        ds.push(d);
        proof {
            lemma_pow_pos(16, j as int);
            vstd::arithmetic::div_mod::lemma_div_denominator(n as int, pow(16, j as int), 16);
            assert(pow(16, j as int + 1) == 16 * pow(16, j as int));
        }
        m = m / 16;
        j = j + 1;
    }
    ds
}

} // verus!
