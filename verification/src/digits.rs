//! Positional digit arithmetic and its text forms: the decimal and
//! hexadecimal glyphs used by session-identity serialization, with proofs
//! that rendering digits and reading them back are inverse operations.

use vstd::prelude::*;

verus! {

use vstd::arithmetic::div_mod::lemma_div_denominator;
use vstd::arithmetic::div_mod::lemma_fundamental_div_mod;
use vstd::arithmetic::mul::lemma_mul_is_distributive_add;
use vstd::arithmetic::mul::lemma_mul_is_associative;

/// `base` raised to the `k`-th power (1 for non-positive `k`).
pub open spec fn pow(base: int, k: int) -> int
    decreases k,
{
    if k <= 0 {
        1
    } else {
        base * pow(base, k - 1)
    }
}

/// The glyph that renders one digit value, `0` through `f`.
pub open spec fn glyph(d: int) -> char {
    if d == 0 {
        '0'
    } else if d == 1 {
        '1'
    } else if d == 2 {
        '2'
    } else if d == 3 {
        '3'
    } else if d == 4 {
        '4'
    } else if d == 5 {
        '5'
    } else if d == 6 {
        '6'
    } else if d == 7 {
        '7'
    } else if d == 8 {
        '8'
    } else if d == 9 {
        '9'
    } else if d == 10 {
        'a'
    } else if d == 11 {
        'b'
    } else if d == 12 {
        'c'
    } else if d == 13 {
        'd'
    } else if d == 14 {
        'e'
    } else {
        'f'
    }
}

/// The digit value of a glyph, or -1 for a character that is no digit.
pub open spec fn glyph_val(c: char) -> int {
    if c == '0' {
        0
    } else if c == '1' {
        1
    } else if c == '2' {
        2
    } else if c == '3' {
        3
    } else if c == '4' {
        4
    } else if c == '5' {
        5
    } else if c == '6' {
        6
    } else if c == '7' {
        7
    } else if c == '8' {
        8
    } else if c == '9' {
        9
    } else if c == 'a' {
        10
    } else if c == 'b' {
        11
    } else if c == 'c' {
        12
    } else if c == 'd' {
        13
    } else if c == 'e' {
        14
    } else if c == 'f' {
        15
    } else {
        -1
    }
}

pub open spec fn is_digit_char(c: char) -> bool {
    0 <= glyph_val(c) < 10
}

pub open spec fn is_hex_char(c: char) -> bool {
    0 <= glyph_val(c) < 16
}

/// The `k` digits of `n` in the given base, most significant first.
pub open spec fn digits_of(base: int, n: int, k: int) -> Seq<char> {
    Seq::new(k as nat, |i: int| glyph((n / pow(base, k - 1 - i)) % base))
}

/// The value of a digit string read in the given base, most significant
/// digit first.
pub open spec fn place_val(base: int, s: Seq<char>) -> int
    decreases s.len(),
{
    if s.len() == 0 {
        0
    } else {
        place_val(base, s.drop_last()) * base + glyph_val(s.last())
    }
}

/// The nine-digit decimal code of a value below one billion.
pub open spec fn code9(n: int) -> Seq<char> {
    digits_of(10, n, 9)
}

/// A string of exactly nine decimal digits.
pub open spec fn is_code9(s: Seq<char>) -> bool {
    s.len() == 9 && forall|i: int| 0 <= i < 9 ==> is_digit_char(#[trigger] s[i])
}

pub proof fn lemma_pow_pos(base: int, k: int)
    requires
        base >= 1,
    ensures
        pow(base, k) >= 1,
    decreases (if k > 0 { k } else { 0 }),
{
    if k > 0 {
        lemma_pow_pos(base, k - 1);
        assert(base * pow(base, k - 1) >= 1) by (nonlinear_arith)
            requires
                base >= 1,
                pow(base, k - 1) >= 1,
        ;
    }
}

pub proof fn lemma_pow_mono(base: int, j: int, k: int)
    requires
        base >= 1,
        j <= k,
    ensures
        pow(base, j) <= pow(base, k),
    decreases (if k > 0 { k } else { 0 }),
{
    if k > 0 && j < k {
        lemma_pow_mono(base, j, k - 1);
        lemma_pow_pos(base, k - 1);
        assert(pow(base, k - 1) <= base * pow(base, k - 1)) by (nonlinear_arith)
            requires
                base >= 1,
                pow(base, k - 1) >= 1,
        ;
    }
}

/// Rendering the digits of a glyph and reading the glyph back are inverse.
pub proof fn lemma_glyph_roundtrip(d: int)
    requires
        0 <= d < 16,
    ensures
        glyph_val(glyph(d)) == d,
{
}

/// Reading back the rendered digits of `n` recovers `n` modulo the rendered
/// width: rendering and reading are inverse on values that fit.
pub proof fn lemma_place_val_digits(base: int, n: int, k: int)
    requires
        2 <= base <= 16,
        0 <= n,
        0 <= k,
    ensures
        place_val(base, digits_of(base, n, k)) == n % pow(base, k),
    decreases k,
{
    let s = digits_of(base, n, k);
    if k == 0 {
        assert(s.len() == 0);
        assert(n % pow(base, 0) == 0) by {
            assert(pow(base, 0) == 1);
        }
    } else {
        let q = n / base;
        let r = n % base;
        lemma_fundamental_div_mod(n, base);
        lemma_pow_pos(base, k - 1);
        assert(s.last() == glyph(n % base)) by {
            assert(pow(base, 0) == 1);
        }
        assert(s.drop_last() =~= digits_of(base, q, k - 1)) by {
            assert forall|i: int| 0 <= i < k - 1 implies s.drop_last()[i] == digits_of(
                base,
                q,
                k - 1,
            )[i] by {
                lemma_pow_pos(base, k - 2 - i);
                lemma_div_denominator(n, base, pow(base, k - 2 - i));
            }
        }
        lemma_place_val_digits(base, q, k - 1);
        lemma_glyph_roundtrip(n % base);
        // place_val(s) == (q % pow(base, k - 1)) * base + r; show it equals n % pow(base, k).
        let p1 = pow(base, k - 1);
        let hi = q / p1;
        lemma_div_denominator(n, base, p1);
        assert(n / pow(base, k) == hi);
        lemma_fundamental_div_mod(n, pow(base, k));
        lemma_fundamental_div_mod(q, p1);
        assert(n % pow(base, k) == n - (base * p1) * hi);
        assert((base * p1) * hi == base * (p1 * hi)) by {
            lemma_mul_is_associative(base, p1, hi);
        }
        assert(q * base == (p1 * hi + q % p1) * base);
        assert((p1 * hi + q % p1) * base == (p1 * hi) * base + (q % p1) * base) by {
            lemma_mul_is_distributive_add(base, p1 * hi, q % p1);
        }
        assert((p1 * hi) * base == base * (p1 * hi)) by {
            lemma_mul_is_associative(p1, hi, base);
            lemma_mul_is_associative(base, p1, hi);
        }
        assert(n % pow(base, k) == (q % p1) * base + r);
    }
}

/// Reading back a rendered nine-digit code recovers exactly the value it
/// was rendered from: the human-entry code form is parsed exactly as it is
/// produced.
pub proof fn lemma_code9_roundtrip(n: int)
    requires
        0 <= n < 1_000_000_000,
    ensures
        is_code9(code9(n)),
        place_val(10, code9(n)) == n,
{
    lemma_place_val_digits(10, n, 9);
    assert(pow(10, 9) == 1_000_000_000) by {
        reveal_with_fuel(pow, 10);
    }
    assert(n % pow(10, 9) == n);
    assert forall|i: int| 0 <= i < 9 implies is_digit_char(#[trigger] code9(n)[i]) by {
        lemma_pow_pos(10, 8 - i);
        lemma_glyph_roundtrip((n / pow(10, 8 - i)) % 10);
    }
}

/// The rendered glyph of one digit value, as a one-character string.
pub fn glyph_str(d: u8) -> (r: &'static str)
    requires
        d < 16,
    ensures
        r@ =~= seq![glyph(d as int)],
{
    proof {
        reveal_strlit("0");
        reveal_strlit("1");
        reveal_strlit("2");
        reveal_strlit("3");
        reveal_strlit("4");
        reveal_strlit("5");
        reveal_strlit("6");
        reveal_strlit("7");
        reveal_strlit("8");
        reveal_strlit("9");
        reveal_strlit("a");
        reveal_strlit("b");
        reveal_strlit("c");
        reveal_strlit("d");
        reveal_strlit("e");
        reveal_strlit("f");
    }
    if d == 0 {
        "0"
    } else if d == 1 {
        "1"
    } else if d == 2 {
        "2"
    } else if d == 3 {
        "3"
    } else if d == 4 {
        "4"
    } else if d == 5 {
        "5"
    } else if d == 6 {
        "6"
    } else if d == 7 {
        "7"
    } else if d == 8 {
        "8"
    } else if d == 9 {
        "9"
    } else if d == 10 {
        "a"
    } else if d == 11 {
        "b"
    } else if d == 12 {
        "c"
    } else if d == 13 {
        "d"
    } else if d == 14 {
        "e"
    } else {
        "f"
    }
}

/// The digit value of a character, if it is a lowercase hexadecimal glyph.
pub fn glyph_of_char(c: char) -> (r: Option<u8>)
    ensures
        r matches Some(d) ==> d < 16 && glyph_val(c) == d as int,
        r is None ==> glyph_val(c) == -1,
{
    match c {
        '0' => Some(0),
        '1' => Some(1),
        '2' => Some(2),
        '3' => Some(3),
        '4' => Some(4),
        '5' => Some(5),
        '6' => Some(6),
        '7' => Some(7),
        '8' => Some(8),
        '9' => Some(9),
        'a' => Some(10),
        'b' => Some(11),
        'c' => Some(12),
        'd' => Some(13),
        'e' => Some(14),
        'f' => Some(15),
        _ => None,
    }
}

/// The digits of `n` in the given base, least significant first, `k` of them.
fn digits_rev(base: u32, n: u32, k: usize) -> (r: Vec<u8>)
    requires
        2 <= base <= 16,
    ensures
        r@.len() == k,
        forall|j: int|
            0 <= j < k ==> r@[j] as int == (n as int / pow(base as int, j)) % (base as int),
{
    let mut ds: Vec<u8> = Vec::new();
    let mut m: u32 = n;
    let mut j: usize = 0;
    while j < k
        invariant
            2 <= base <= 16,
            j == ds@.len(),
            j <= k,
            m as int == n as int / pow(base as int, j as int),
            forall|l: int|
                0 <= l < j ==> ds@[l] as int == (n as int / pow(base as int, l)) % (base as int),
        decreases k - j,
    {
        let d: u8 = (m % base) as u8;
        ds.push(d);
        proof {
            lemma_pow_pos(base as int, j as int);
            lemma_div_denominator(n as int, pow(base as int, j as int), base as int);
            assert(pow(base as int, j as int + 1) == base as int * pow(base as int, j as int));
        }
        m = m / base;
        j = j + 1;
    }
    ds
}

/// Renders a value below one billion as exactly nine decimal digits,
/// left-padded with zeros.
pub fn format_code9(n: u32) -> (r: String)
    requires
        n < 1_000_000_000,
    ensures
        r@ == code9(n as int),
        is_code9(r@),
{
    let ds = digits_rev(10, n, 9);
    let mut out = String::new();
    let mut i: usize = 0;
    while i < 9
        invariant
            ds@.len() == 9,
            forall|j: int| 0 <= j < 9 ==> ds@[j] as int == (n as int / pow(10, j)) % 10,
            i <= 9,
            out@ =~= code9(n as int).subrange(0, i as int),
        decreases 9 - i,
    {
        let d = ds[8 - i];
        assert(d < 16);
        out.append(glyph_str(d));
        proof {
            assert(out@ =~= code9(n as int).subrange(0, i as int + 1));
        }
        i = i + 1;
    }
    proof {
        assert(out@ =~= code9(n as int));
        assert forall|i: int| 0 <= i < 9 implies is_digit_char(#[trigger] code9(n as int)[i]) by {
            lemma_glyph_roundtrip((n as int / pow(10, 8 - i)) % 10);
        }
    }
    out
}

/// Reads a nine-digit decimal code; rejects any other string.
pub fn parse_code9(s: &str) -> (r: Option<u32>)
    ensures
        r matches Some(v) ==> is_code9(s@) && v as int == place_val(10, s@),
        r is None ==> !is_code9(s@),
{
    if s.unicode_len() != 9 {
        return None;
    }
    let mut v: u32 = 0;
    let mut i: usize = 0;
    while i < 9
        invariant
            s@.len() == 9,
            i <= 9,
            v as int == place_val(10, s@.subrange(0, i as int)),
            (v as int) < pow(10, i as int),
            forall|k: int| 0 <= k < i ==> is_digit_char(#[trigger] s@[k]),
        decreases 9 - i,
    {
        let c = s.get_char(i);
        let d = match glyph_of_char(c) {
            Some(d) => d,
            None => {
                return None;
            },
        };
        if d >= 10 {
            return None;
        }
        proof {
            lemma_pow_mono(10, i as int, 8);
            assert(pow(10, 8) == 100_000_000) by {
                reveal_with_fuel(pow, 9);
            }
            assert(s@.subrange(0, i as int + 1).drop_last() =~= s@.subrange(0, i as int));
            assert(s@.subrange(0, i as int + 1).last() == s@[i as int]);
        }
        v = v * 10 + d as u32;
        i = i + 1;
    }
    proof {
        assert(s@.subrange(0, 9) =~= s@);
    }
    Some(v)
}

} // verus!
