//! Character-level string utilities: code-point lexicographic order, ASCII
//! case mapping, hexadecimal parsing and printing, and the shape check for
//! wrapped denominations of the form `factory/<contract>/<subdenom>`.
use vstd::prelude::*;

verus! {

/// Strict lexicographic order on character sequences, by Unicode code point.
/// For the strings this crate stores (ASCII denominations) this coincides
/// with byte order, the order the host's range scans use.
pub open spec fn lex_lt(a: Seq<char>, b: Seq<char>) -> bool
    decreases a.len(),
{
    if b.len() == 0 {
        false
    } else if a.len() == 0 {
        true
    } else if (a[0] as u32) < (b[0] as u32) {
        true
    } else if a[0] == b[0] {
        lex_lt(a.skip(1), b.skip(1))
    } else {
        false
    }
}

pub proof fn lemma_lex_lt_irreflexive(a: Seq<char>)
    ensures
        !lex_lt(a, a),
    decreases a.len(),
{
    if a.len() > 0 {
        lemma_lex_lt_irreflexive(a.skip(1));
    }
}

/// At least one of `a < b`, `b < a`, `a == b` holds, and `a < b` excludes
/// the other two.
pub proof fn lemma_lex_lt_total(a: Seq<char>, b: Seq<char>)
    ensures
        lex_lt(a, b) || lex_lt(b, a) || a == b,
        lex_lt(a, b) ==> !lex_lt(b, a) && a != b,
    decreases a.len(),
{
    lemma_lex_lt_irreflexive(a);
    lemma_lex_lt_irreflexive(b);
    if a.len() == 0 && b.len() == 0 {
        assert(a =~= b);
    } else if a.len() > 0 && b.len() > 0 {
        let au = a[0] as u32;
        let bu = b[0] as u32;
        vstd::utf8::char_u32_cast(a[0], au);
        vstd::utf8::char_u32_cast(b[0], bu);
        assert(au == bu ==> a[0] == b[0]);
        lemma_lex_lt_total(a.skip(1), b.skip(1));
        if a[0] == b[0] && a.skip(1) =~= b.skip(1) {
            assert forall|i: int| 0 <= i < a.len() implies a[i] == b[i] by {
                if i > 0 {
                    assert(a[i] == a.skip(1)[i - 1]);
                    assert(b[i] == b.skip(1)[i - 1]);
                }
            }
            assert(a =~= b);
        }
    }
}

pub proof fn lemma_lex_lt_transitive(a: Seq<char>, b: Seq<char>, c: Seq<char>)
    requires
        lex_lt(a, b),
        lex_lt(b, c),
    ensures
        lex_lt(a, c),
    decreases a.len(),
{
    if a.len() > 0 && b.len() > 0 && c.len() > 0 {
        vstd::utf8::char_u32_cast(a[0], a[0] as u32);
        vstd::utf8::char_u32_cast(b[0], b[0] as u32);
        vstd::utf8::char_u32_cast(c[0], c[0] as u32);
        if a[0] == b[0] && b[0] == c[0] {
            lemma_lex_lt_transitive(a.skip(1), b.skip(1), c.skip(1));
        }
    }
}

proof fn lemma_lex_lt_skip(a: Seq<char>, b: Seq<char>, i: int)
    requires
        0 <= i <= a.len(),
        0 <= i <= b.len(),
        forall|j: int| 0 <= j < i ==> a[j] == b[j],
    ensures
        lex_lt(a, b) == lex_lt(a.skip(i), b.skip(i)),
    decreases i,
{
    if i > 0 {
        assert(a.skip(1).skip(i - 1) =~= a.skip(i));
        assert(b.skip(1).skip(i - 1) =~= b.skip(i));
        assert(forall|j: int| 0 <= j < i - 1 ==> a.skip(1)[j] == b.skip(1)[j]);
        lemma_lex_lt_skip(a.skip(1), b.skip(1), i - 1);
    } else {
        assert(a.skip(0) =~= a);
        assert(b.skip(0) =~= b);
    }
}

/// Compares two strings in code-point lexicographic order.
pub fn str_lex_lt(a: &str, b: &str) -> (r: bool)
    ensures
        r == lex_lt(a@, b@),
{
    let alen = a.unicode_len();
    let blen = b.unicode_len();
    let mut i: usize = 0;
    while i < alen && i < blen
        invariant
            0 <= i <= alen,
            i <= blen,
            alen == a@.len(),
            blen == b@.len(),
            forall|j: int| 0 <= j < i ==> a@[j] == b@[j],
        decreases alen - i,
    {
        let ca = a.get_char(i);
        let cb = b.get_char(i);
        if (ca as u32) < (cb as u32) {
            proof {
                lemma_lex_lt_skip(a@, b@, i as int);
            }
            return true;
        }
        if (ca as u32) > (cb as u32) {
            proof {
                lemma_lex_lt_skip(a@, b@, i as int);
                vstd::utf8::char_u32_cast(ca, ca as u32);
                vstd::utf8::char_u32_cast(cb, cb as u32);
            }
            return false;
        }
        proof {
            vstd::utf8::char_u32_cast(ca, ca as u32);
            vstd::utf8::char_u32_cast(cb, cb as u32);
        }
        i = i + 1;
    }
    proof {
        lemma_lex_lt_skip(a@, b@, i as int);
    }
    alen < blen
}

/// String equality on the character level.
pub fn str_eq(a: &str, b: &str) -> (r: bool)
    ensures
        r == (a@ == b@),
{
    let alen = a.unicode_len();
    let blen = b.unicode_len();
    if alen != blen {
        return false;
    }
    let mut i: usize = 0;
    while i < alen
        invariant
            0 <= i <= alen,
            alen == a@.len() && alen == b@.len(),
            forall|j: int| 0 <= j < i ==> a@[j] == b@[j],
        decreases alen - i,
    {
        if a.get_char(i) != b.get_char(i) {
            return false;
        }
        i = i + 1;
    }
    proof {
        assert(a@ =~= b@);
    }
    true
}

/// Relies on `String::push`: appends a single character to the string.
#[verifier::external_body]
pub fn push_char(s: &mut String, c: char)
    ensures
        final(s)@ == old(s)@.push(c),
{
    s.push(c);
}

/// ASCII upper-case on one character: `a`..`z` map to `A`..`Z`, everything
/// else is unchanged. The hexadecimal addresses this is applied to are ASCII.
pub open spec fn upper_char(c: char) -> char {
    if 97 <= c as u32 && c as u32 <= 122 {
        ((c as u32 - 32) as u8) as char
    } else {
        c
    }
}

pub open spec fn upper_chars(s: Seq<char>) -> Seq<char> {
    s.map_values(|c: char| upper_char(c))
}

/// ASCII upper-case of a whole string.
pub fn upper_ascii(s: &str) -> (r: String)
    ensures
        r@ == upper_chars(s@),
{
    let len = s.unicode_len();
    let mut r = String::new();
    let mut i: usize = 0;
    while i < len
        invariant
            0 <= i <= len,
            len == s@.len(),
            r@ == upper_chars(s@.take(i as int)),
        decreases len - i,
    {
        let c = s.get_char(i);
        let u = c as u32;
        let up: char = if 97 <= u && u <= 122 {
            ((u - 32) as u8) as char
        } else {
            c
        };
        push_char(&mut r, up);
        proof {
            assert(upper_chars(s@.take(i + 1)) =~= upper_chars(s@.take(i as int)).push(
                upper_char(s@[i as int]),
            ));
        }
        i = i + 1;
    }
    proof {
        assert(s@.take(len as int) =~= s@);
    }
    r
}

/// Whether the string contains a given character.
pub fn str_contains_char(s: &str, c: char) -> (r: bool)
    ensures
        r == s@.contains(c),
{
    let len = s.unicode_len();
    let mut i: usize = 0;
    while i < len
        invariant
            0 <= i <= len,
            len == s@.len(),
            forall|j: int| 0 <= j < i ==> s@[j] != c,
        decreases len - i,
    {
        if s.get_char(i) == c {
            return true;
        }
        i = i + 1;
    }
    false
}

pub open spec fn is_hex_digit(c: char) -> bool {
    (48 <= c as u32 && c as u32 <= 57) || (97 <= c as u32 && c as u32 <= 102) || (65 <= c as u32
        && c as u32 <= 70)
}

/// Value of a hexadecimal digit; meaningful only when `is_hex_digit` holds.
pub open spec fn hex_digit_val(c: char) -> u8 {
    if 48 <= c as u32 && c as u32 <= 57 {
        (c as u32 - 48) as u8
    } else if 97 <= c as u32 && c as u32 <= 102 {
        (c as u32 - 87) as u8
    } else {
        (c as u32 - 55) as u8
    }
}

/// A textual EVM address: `0x` followed by exactly 40 hexadecimal digits.
pub open spec fn is_evm_hex_address(s: Seq<char>) -> bool {
    &&& s.len() == 42
    &&& s[0] == '0'
    &&& s[1] == 'x'
    &&& forall|i: int| 2 <= i < 42 ==> is_hex_digit(#[trigger] s[i])
}

/// The 20 bytes denoted by the 40 hexadecimal digits after the `0x` prefix.
pub open spec fn evm_address_bytes(s: Seq<char>) -> Seq<u8> {
    Seq::new(20, |i: int| (hex_digit_val(s[2 + 2 * i]) * 16 + hex_digit_val(s[3 + 2 * i])) as u8)
}

/// Value of one hexadecimal digit, or `None` for any other character.
pub fn hex_val(c: char) -> (r: Option<u8>)
    ensures
        match r {
            Some(x) => is_hex_digit(c) && x == hex_digit_val(c) && x < 16,
            None => !is_hex_digit(c),
        },
{
    let u = c as u32;
    if 48 <= u && u <= 57 {
        Some((u - 48) as u8)
    } else if 97 <= u && u <= 102 {
        Some((u - 87) as u8)
    } else if 65 <= u && u <= 70 {
        Some((u - 55) as u8)
    } else {
        None
    }
}

/// Parses a textual EVM address into its 20 bytes; `None` exactly when the
/// text is not `0x` + 40 hex digits.
pub fn parse_evm_address(s: &str) -> (r: Option<Vec<u8>>)
    ensures
        match r {
            Some(v) => is_evm_hex_address(s@) && v@ == evm_address_bytes(s@) && v@.len() == 20,
            None => !is_evm_hex_address(s@),
        },
{
    let len = s.unicode_len();
    if len != 42 {
        return None;
    }
    if s.get_char(0) != '0' || s.get_char(1) != 'x' {
        return None;
    }
    let mut v: Vec<u8> = Vec::new();
    let mut i: usize = 0;
    while i < 20
        invariant
            0 <= i <= 20,
            s@.len() == 42,
            s@[0] == '0' && s@[1] == 'x',
            v@.len() == i,
            forall|j: int| 2 <= j < 2 + 2 * i ==> is_hex_digit(#[trigger] s@[j]),
            forall|j: int|
                0 <= j < i ==> v@[j] == (hex_digit_val(s@[2 + 2 * j]) * 16 + hex_digit_val(
                    s@[3 + 2 * j],
                )) as u8,
        decreases 20 - i,
    {
        let hi = s.get_char(2 * i + 2);
        let lo = s.get_char(2 * i + 3);
        let hv = match hex_val(hi) {
            Some(x) => x,
            None => {
                return None;
            },
        };
        let lv = match hex_val(lo) {
            Some(x) => x,
            None => {
                return None;
            },
        };
        v.push(hv * 16 + lv);
        i = i + 1;
    }
    proof {
        assert(v@ =~= evm_address_bytes(s@));
    }
    Some(v)
}

/// Lower-case hexadecimal character for a value below 16.
pub open spec fn hex_char_of(n: u8) -> char {
    if n < 10 {
        ((48 + n) as u8) as char
    } else {
        ((87 + n) as u8) as char
    }
}

/// Lower-case hexadecimal rendering of a byte sequence, two digits per byte.
pub open spec fn hex_lower_of(b: Seq<u8>) -> Seq<char> {
    Seq::new(
        b.len() * 2,
        |i: int|
            if i % 2 == 0 {
                hex_char_of(b[i / 2] / 16)
            } else {
                hex_char_of(b[i / 2] % 16)
            },
    )
}

/// Renders bytes as lower-case hexadecimal.
pub fn hex_lower(b: &Vec<u8>) -> (r: String)
    ensures
        r@ == hex_lower_of(b@),
{
    let mut r = String::new();
    let mut i: usize = 0;
    let len = b.len();
    while i < len
        invariant
            0 <= i <= len,
            len == b@.len(),
            r@ == hex_lower_of(b@.take(i as int)),
        decreases len - i,
    {
        let byte = b[i];
        let hi: u8 = byte / 16;
        let lo: u8 = byte % 16;
        let hc: char = if hi < 10 {
            (48 + hi) as char
        } else {
            (87 + hi) as char
        };
        let lc: char = if lo < 10 {
            (48 + lo) as char
        } else {
            (87 + lo) as char
        };
        push_char(&mut r, hc);
        push_char(&mut r, lc);
        proof {
            assert(hex_lower_of(b@.take(i + 1)) =~= hex_lower_of(b@.take(i as int)).push(
                hex_char_of(b@[i as int] / 16),
            ).push(hex_char_of(b@[i as int] % 16)));
        }
        i = i + 1;
    }
    proof {
        assert(b@.take(len as int) =~= b@);
    }
    r
}

} // verus!
