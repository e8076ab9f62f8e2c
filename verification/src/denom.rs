//! Derivation of wrapped denominations. A wrapped denomination is
//! `factory/<contract>/<subdenom>`: for an EVM origin the subdenom is the
//! literal `crwn` followed by the upper-cased hexadecimal address without its
//! `0x` prefix; for a CW origin it is the base-32 encoding (lower-case
//! RFC 4648 alphabet, no padding) of the address bytes, cut to 44
//! characters. The derivation is a pure function of the origin identity.
use vstd::prelude::*;

use crate::msg::TokenType;
use crate::text::{upper_ascii, upper_chars};

verus! {

/// What `base32::encode` returns for the lower-case RFC 4648 alphabet with
/// no padding: a fixed function of the input bytes.
pub uninterp spec fn base32_lower_nopad(bytes: Seq<u8>) -> Seq<char>;

/// The characters base-32 output is drawn from: `a`..`z` and `2`..`7`.
pub open spec fn base32_alphabet_char(c: char) -> bool {
    (97 <= c as u32 && c as u32 <= 122) || (50 <= c as u32 && c as u32 <= 55)
}

/// Relies on `base32::encode` with `Alphabet::Rfc4648Lower { padding: false }`:
/// the result depends on the bytes alone, has `ceil(8n/5)` characters, and
/// draws them from the lower-case RFC 4648 alphabet.
#[verifier::external_body]
fn base32_encode_lower(bytes: &[u8]) -> (r: String)
    ensures
        r@ == base32_lower_nopad(bytes@),
        r@.len() == (bytes@.len() * 8 + 4) / 5,
        forall|i: int| 0 <= i < r@.len() ==> base32_alphabet_char(#[trigger] r@[i]),
{
    base32::encode(base32::Alphabet::Rfc4648Lower { padding: false }, bytes)
}

/// The address with an optional leading `0x` removed.
pub open spec fn strip_0x(s: Seq<char>) -> Seq<char> {
    if s.len() >= 2 && s[0] == '0' && s[1] == 'x' {
        s.skip(2)
    } else {
        s
    }
}

/// The subdenom derived for an origin token, as a function of its kind and
/// address alone.
pub open spec fn spec_subdenom(token_type: TokenType, addr: Seq<char>) -> Seq<char> {
    match token_type {
        TokenType::ERC20 => "crwn"@ + upper_chars(strip_0x(addr)),
        TokenType::CW20 => {
            let encoded = base32_lower_nopad(vstd::utf8::encode_utf8(addr));
            encoded.take(
                if encoded.len() < 44 {
                    encoded.len() as int
                } else {
                    44
                },
            )
        },
    }
}

/// Derives the subdenom for an origin token. Deterministic and independent
/// of any registry state: the result equals `spec_subdenom` of the inputs.
pub fn token_addr_to_subdenom(token_type: &TokenType, token_addr: &str) -> (r: String)
    ensures
        r@ == spec_subdenom(*token_type, token_addr@),
{
    match token_type {
        TokenType::ERC20 => {
            let len = token_addr.unicode_len();
            let has_prefix = len >= 2 && token_addr.get_char(0) == '0' && token_addr.get_char(1)
                == 'x';
            let stripped: &str = if has_prefix {
                token_addr.substring_char(2, len)
            } else {
                token_addr
            };
            proof {
                if has_prefix {
                    assert(stripped@ =~= strip_0x(token_addr@));
                }
            }
            let up = upper_ascii(stripped);
            let mut r = String::from_str("crwn");
            r.append(up.as_str());
            r
        },
        TokenType::CW20 => {
            let encoded = base32_encode_lower(token_addr.as_bytes());
            let elen = encoded.as_str().unicode_len();
            let cut: usize = if elen < 44 {
                elen
            } else {
                44
            };
            let short = encoded.as_str().substring_char(0, cut);
            proof {
                assert(short@ =~= spec_subdenom(TokenType::CW20, token_addr@));
            }
            short.to_owned()
        },
    }
}

/// The full wrapped denomination text for a contract and a subdenom.
pub open spec fn denom_text(contract: Seq<char>, subdenom: Seq<char>) -> Seq<char> {
    "factory/"@ + contract + "/"@ + subdenom
}

/// The wrapped denomination this system assigns to an origin token.
pub open spec fn spec_denom(contract: Seq<char>, token_type: TokenType, addr: Seq<char>) -> Seq<
    char,
> {
    denom_text(contract, spec_subdenom(token_type, addr))
}

/// Builds `factory/<contract>/<subdenom>`.
pub fn make_denom(contract: &str, subdenom: &str) -> (r: String)
    ensures
        r@ == denom_text(contract@, subdenom@),
{
    let mut r = String::from_str("factory/");
    r.append(contract);
    r.append("/");
    r.append(subdenom);
    proof {
        assert(r@ =~= denom_text(contract@, subdenom@));
    }
    r
}

/// Whether `d` has the shape `factory/<contract>/<subdenom>`: exactly the
/// denominations whose second segment is this contract and whose third
/// segment is free of further separators.
pub open spec fn is_wrapped_denom(d: Seq<char>, contract: Seq<char>) -> bool {
    &&& !contract.contains('/')
    &&& d.len() >= 9 + contract.len()
    &&& d.take(8) == "factory/"@
    &&& d.subrange(8, 8 + contract.len() as int) == contract
    &&& d[8 + contract.len() as int] == '/'
    &&& forall|i: int| 9 + contract.len() <= i < d.len() ==> d[i] != '/'
}

/// Checks the wrapped-denomination shape against this contract's address.
pub fn denom_belongs(d: &str, contract: &str) -> (r: bool)
    ensures
        r == is_wrapped_denom(d@, contract@),
{
    proof {
        reveal_strlit("factory/");
    }
    let dlen = d.unicode_len();
    let clen = contract.unicode_len();
    if crate::text::str_contains_char(contract, '/') {
        return false;
    }
    if dlen < 9 {
        return false;
    }
    if clen > dlen - 9 {
        return false;
    }
    let prefix = "factory/";
    let mut i: usize = 0;
    while i < 8
        invariant
            0 <= i <= 8,
            dlen == d@.len(),
            dlen >= 9 + clen,
            clen == contract@.len(),
            prefix@ == "factory/"@,
            prefix@.len() == 8,
            forall|j: int| 0 <= j < i ==> d@[j] == "factory/"@[j],
        decreases 8 - i,
    {
        if d.get_char(i) != prefix.get_char(i) {
            proof {
                assert(d@.take(8) != "factory/"@);
            }
            return false;
        }
        i = i + 1;
    }
    proof {
        assert(d@.take(8) =~= "factory/"@);
    }
    let mut k: usize = 0;
    while k < clen
        invariant
            0 <= k <= clen,
            dlen == d@.len(),
            dlen >= 9 + clen,
            clen == contract@.len(),
            forall|j: int| 0 <= j < k ==> d@[8 + j] == contract@[j],
        decreases clen - k,
    {
        if d.get_char(8 + k) != contract.get_char(k) {
            proof {
                assert(d@.subrange(8, 8 + clen as int)[k as int] == d@[8 + k]);
            }
            return false;
        }
        k = k + 1;
    }
    proof {
        assert(d@.subrange(8, 8 + clen as int) =~= contract@);
    }
    if d.get_char(8 + clen) != '/' {
        return false;
    }
    let mut t: usize = 9 + clen;
    while t < dlen
        invariant
            9 + clen <= t <= dlen,
            dlen == d@.len(),
            clen == contract@.len(),
            forall|j: int| 9 + clen <= j < t ==> d@[j] != '/',
        decreases dlen - t,
    {
        if d.get_char(t) == '/' {
            return false;
        }
        t = t + 1;
    }
    true
}

/// A denomination built for this contract from a separator-free subdenom has
/// the wrapped shape.
pub proof fn lemma_denom_text_wrapped(contract: Seq<char>, subdenom: Seq<char>)
    requires
        !contract.contains('/'),
        !subdenom.contains('/'),
    ensures
        is_wrapped_denom(denom_text(contract, subdenom), contract),
{
    reveal_strlit("factory/");
    reveal_strlit("/");
    let d = denom_text(contract, subdenom);
    assert(d.take(8) =~= "factory/"@);
    assert(d.subrange(8, 8 + contract.len() as int) =~= contract);
    assert(d[8 + contract.len() as int] == '/');
    assert forall|i: int| 9 + contract.len() <= i < d.len() implies d[i] != '/' by {
        assert(d[i] == subdenom[i - 9 - contract.len()]);
        if subdenom[i - 9 - contract.len()] == '/' {
            assert(subdenom.contains('/'));
        }
    }
}

/// Deriving a subdenom is deterministic and idempotent: it is a function of
/// the origin kind and address alone, so two derivations for the same origin
/// token agree, whatever registry state exists around them.
pub proof fn lemma_subdenom_deterministic(
    token_type: TokenType,
    addr: Seq<char>,
    r1: Seq<char>,
    r2: Seq<char>,
)
    requires
        r1 == spec_subdenom(token_type, addr),
        r2 == spec_subdenom(token_type, addr),
    ensures
        r1 == r2,
{
}

} // verus!
