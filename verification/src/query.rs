//! The query surface: point lookup of a registry record, the denomination an
//! origin token has or would be assigned, and paginated enumeration of the
//! registry in ascending denomination order.
use vstd::prelude::*;

use crate::denom::{make_denom, spec_denom, token_addr_to_subdenom};
use crate::error::{ErrV, TokenWrapperError};
use crate::msg::{opt_str_view, res_str_view, TokenInfo, TokenInfoV, TokenType};
use crate::state::{
    sorted_by_denom, spec_lookup_denom, spec_lookup_origin, TokenRegistryV, WrapperState,
};
use crate::text::{lemma_lex_lt_irreflexive, lemma_lex_lt_total, lex_lt, str_lex_lt, upper_ascii};

verus! {

/// The answer record for a registry entry.
pub open spec fn info_of(e: TokenRegistryV) -> TokenInfoV {
    TokenInfoV {
        token_type: e.token_type,
        address: e.token_address,
        wrapped_denom: e.wrapped_denom,
    }
}

/// Looks a wrapped denomination up in the registry.
pub fn token_info(state: &WrapperState, denom: &str) -> (r: Result<TokenInfo, TokenWrapperError>)
    ensures
        match r {
            Ok(info) => spec_lookup_denom(state@.tokens, denom@) == Some(
                TokenRegistryV {
                    token_type: info@.token_type,
                    token_address: info@.address,
                    wrapped_denom: info@.wrapped_denom,
                },
            ),
            Err(e) => spec_lookup_denom(state@.tokens, denom@) is None && e@ == ErrV::Std(
                "Token not found"@,
            ),
        },
{
    match state.lookup_by_denom(denom) {
        Some(entry) => Ok(
            TokenInfo {
                token_type: entry.token_type,
                address: entry.token_address.clone(),
                wrapped_denom: entry.wrapped_denom.clone(),
            },
        ),
        None => Err(TokenWrapperError::Std(String::from_str("Token not found"))),
    }
}

/// The denomination registered for an origin token, or, if it is not
/// registered, the denomination that would be assigned to it (computed, not
/// persisted). For a CW origin the lookup key is the host-validated address,
/// whose outcome the caller hands in; a validation failure is an error.
pub open spec fn spec_wrapped_denom(
    tokens: Seq<TokenRegistryV>,
    contract: Seq<char>,
    token_type: TokenType,
    token_address: Seq<char>,
    validated: Result<Seq<char>, Seq<char>>,
) -> Result<Seq<char>, ErrV> {
    match token_type {
        TokenType::ERC20 => match spec_lookup_origin(
            tokens,
            TokenType::ERC20,
            crate::execute::norm_evm_address(token_address),
        ) {
            Some(d) => Ok(d),
            None => Ok(spec_denom(contract, TokenType::ERC20, token_address)),
        },
        TokenType::CW20 => match validated {
            Err(m) => Err(ErrV::Std(m)),
            Ok(addr) => match spec_lookup_origin(tokens, TokenType::CW20, addr) {
                Some(d) => Ok(d),
                None => Ok(spec_denom(contract, TokenType::CW20, token_address)),
            },
        },
    }
}

/// Answers the wrapped-denomination query.
pub fn wrapped_denom(
    state: &WrapperState,
    contract_address: &String,
    token_type: TokenType,
    token_address: String,
    validated: Result<String, String>,
) -> (r: Result<String, TokenWrapperError>)
    ensures
        match r {
            Ok(d) => spec_wrapped_denom(
                state@.tokens,
                contract_address@,
                token_type,
                token_address@,
                res_str_view(validated),
            ) == Ok::<Seq<char>, ErrV>(d@),
            Err(e) => spec_wrapped_denom(
                state@.tokens,
                contract_address@,
                token_type,
                token_address@,
                res_str_view(validated),
            ) == Err::<Seq<char>, ErrV>(e@),
        },
{
    match token_type {
        TokenType::ERC20 => {
            let len = token_address.as_str().unicode_len();
            let has_prefix = len >= 2 && token_address.as_str().get_char(0) == '0'
                && token_address.as_str().get_char(1) == 'x';
            let stripped: &str = if has_prefix {
                token_address.as_str().substring_char(2, len)
            } else {
                token_address.as_str()
            };
            proof {
                if has_prefix {
                    assert(stripped@ =~= crate::denom::strip_0x(token_address@));
                }
            }
            let up = upper_ascii(stripped);
            let mut norm = String::from_str("0x");
            norm.append(up.as_str());
            match state.lookup_by_origin(TokenType::ERC20, norm.as_str()) {
                Some(d) => Ok(d.clone()),
                None => {
                    let sub = token_addr_to_subdenom(&TokenType::ERC20, token_address.as_str());
                    Ok(make_denom(contract_address.as_str(), sub.as_str()))
                },
            }
        },
        TokenType::CW20 => {
            let addr = match validated {
                Err(m) => {
                    return Err(TokenWrapperError::Std(m));
                },
                Ok(a) => a,
            };
            match state.lookup_by_origin(TokenType::CW20, addr.as_str()) {
                Some(d) => Ok(d.clone()),
                None => {
                    let sub = token_addr_to_subdenom(&TokenType::CW20, token_address.as_str());
                    Ok(make_denom(contract_address.as_str(), sub.as_str()))
                },
            }
        },
    }
}

/// Whether an entry lies strictly after the pagination cursor.
pub open spec fn entry_after(e: TokenRegistryV, start: Option<Seq<char>>) -> bool {
    match start {
        None => true,
        Some(k) => lex_lt(k, e.wrapped_denom),
    }
}

/// Index of the first entry strictly after the cursor (the sequence's length
/// if there is none).
pub open spec fn spec_start_idx(s: Seq<TokenRegistryV>, start: Option<Seq<char>>) -> int
    decreases s.len(),
{
    if s.len() == 0 {
        0
    } else if entry_after(s[0], start) {
        0
    } else {
        1 + spec_start_idx(s.skip(1), start)
    }
}

/// The page size: the requested limit, 10 when unspecified, and never more
/// than 30.
pub open spec fn spec_limit(limit: Option<u32>) -> int {
    let l: int = match limit {
        Some(l) => l as int,
        None => 10,
    };
    if l < 30 {
        l
    } else {
        30
    }
}

/// The page: entries from the first one after the cursor, at most the page
/// size.
pub open spec fn spec_list(
    s: Seq<TokenRegistryV>,
    start: Option<Seq<char>>,
    limit: Option<u32>,
) -> Seq<TokenRegistryV> {
    let b = spec_start_idx(s, start);
    let cnt = if spec_limit(limit) < s.len() - b {
        spec_limit(limit)
    } else {
        s.len() - b
    };
    s.subrange(b, b + cnt)
}

proof fn lemma_start_idx_skip(s: Seq<TokenRegistryV>, start: Option<Seq<char>>, i: int)
    requires
        0 <= i <= s.len(),
        forall|j: int| 0 <= j < i ==> !entry_after(#[trigger] s[j], start),
    ensures
        spec_start_idx(s, start) == i + spec_start_idx(s.skip(i), start),
    decreases i,
{
    if i > 0 {
        assert(s.skip(1).skip(i - 1) =~= s.skip(i));
        lemma_start_idx_skip(s.skip(1), start, i - 1);
    } else {
        assert(s.skip(0) =~= s);
    }
}

proof fn lemma_start_idx_bounds(s: Seq<TokenRegistryV>, start: Option<Seq<char>>)
    ensures
        0 <= spec_start_idx(s, start) <= s.len(),
    decreases s.len(),
{
    if s.len() > 0 && !entry_after(s[0], start) {
        lemma_start_idx_bounds(s.skip(1), start);
    }
}

/// The first index at which the cursor predicate holds is the start index.
proof fn lemma_start_idx_at(s: Seq<TokenRegistryV>, start: Option<Seq<char>>, m: int)
    requires
        0 <= m <= s.len(),
        forall|j: int| 0 <= j < m ==> !entry_after(#[trigger] s[j], start),
        m < s.len() ==> entry_after(s[m], start),
    ensures
        spec_start_idx(s, start) == m,
{
    lemma_start_idx_skip(s, start, m);
    if m < s.len() {
        assert(s.skip(m)[0] == s[m]);
    }
}

/// Enumerates the registry in ascending denomination order, starting
/// strictly after `start_after`, returning at most 30 records (10 when no
/// limit is given).
pub fn list_wrapped_tokens(
    state: &WrapperState,
    start_after: Option<String>,
    limit: Option<u32>,
) -> (r: Vec<TokenInfo>)
    requires
        state.wf(),
    ensures
        ({
            let page = spec_list(state@.tokens, opt_str_view(start_after), limit);
            &&& r@.len() == page.len()
            &&& forall|k: int| 0 <= k < page.len() ==> (#[trigger] r@[k])@ == info_of(page[k])
            &&& r@.len() <= 30
            &&& forall|k1: int, k2: int|
                0 <= k1 < k2 < r@.len() ==> lex_lt(
                    (#[trigger] r@[k1])@.wrapped_denom,
                    (#[trigger] r@[k2])@.wrapped_denom,
                )
        }),
{
    let ghost tokens = state@.tokens;
    let ghost start = opt_str_view(start_after);
    let n = state.tokens.len();
    let mut b: usize = n;
    let mut j: usize = 0;
    while j < n
        invariant
            0 <= j <= n,
            n == state.tokens.len(),
            tokens == state@.tokens,
            start == opt_str_view(start_after),
            b == n || (b < j && entry_after(tokens[b as int], start)),
            forall|k: int|
                0 <= k < j && k < b ==> !entry_after(#[trigger] tokens[k], start),
        decreases n - j,
    {
        if b == n {
            let after: bool = match &start_after {
                None => true,
                Some(k) => str_lex_lt(k.as_str(), state.tokens[j].wrapped_denom.as_str()),
            };
            if after {
                b = j;
            }
        }
        j = j + 1;
    }
    proof {
        lemma_start_idx_at(tokens, start, b as int);
    }
    let max: u32 = match limit {
        Some(l) => {
            if l < 30 {
                l
            } else {
                30
            }
        },
        None => 10,
    };
    let mut out: Vec<TokenInfo> = Vec::new();
    let mut i: usize = b;
    while i < n && out.len() < max as usize
        invariant
            b <= i <= n,
            n == state.tokens.len(),
            tokens == state@.tokens,
            max as int == spec_limit(limit),
            out@.len() == i - b,
            out@.len() <= max as int,
            forall|k: int| 0 <= k < out@.len() ==> (#[trigger] out@[k])@ == info_of(tokens[b + k]),
        decreases n - i,
    {
        let entry = &state.tokens[i];
        out.push(
            TokenInfo {
                token_type: entry.token_type,
                address: entry.token_address.clone(),
                wrapped_denom: entry.wrapped_denom.clone(),
            },
        );
        i = i + 1;
    }
    proof {
        let page = spec_list(tokens, start, limit);
        assert(out@.len() == page.len());
        assert forall|k: int| 0 <= k < page.len() implies (#[trigger] out@[k])@ == info_of(
            page[k],
        ) by {
            assert(page[k] == tokens[b + k]);
        }
        assert forall|k1: int, k2: int| 0 <= k1 < k2 < out@.len() implies lex_lt(
            (#[trigger] out@[k1])@.wrapped_denom,
            (#[trigger] out@[k2])@.wrapped_denom,
        ) by {
            assert(out@[k1]@ == info_of(tokens[b + k1]));
            assert(out@[k2]@ == info_of(tokens[b + k2]));
            assert(lex_lt(tokens[b + k1].wrapped_denom, tokens[b + k2].wrapped_denom));
        }
    }
    out
}

/// Pagination resumes exactly where the previous page ended: with
/// `start_after` set to the last returned denomination, the next page starts
/// at the entry right after it, so no entry is ever repeated or skipped.
pub proof fn lemma_list_pagination(
    s: Seq<TokenRegistryV>,
    start: Option<Seq<char>>,
    limit: Option<u32>,
)
    requires
        sorted_by_denom(s),
    ensures
        ({
            let page = spec_list(s, start, limit);
            page.len() > 0 ==> spec_start_idx(s, Some(page.last().wrapped_denom))
                == spec_start_idx(s, start) + page.len()
        }),
{
    let page = spec_list(s, start, limit);
    lemma_start_idx_bounds(s, start);
    if page.len() > 0 {
        let b = spec_start_idx(s, start);
        let m = b + page.len();
        let last = page.last().wrapped_denom;
        assert(page.last() == s[m - 1]);
        assert forall|j: int| 0 <= j < m implies !entry_after(
            #[trigger] s[j],
            Some(last),
        ) by {
            if j < m - 1 {
                lemma_lex_lt_total(s[j].wrapped_denom, last);
            } else {
                lemma_lex_lt_irreflexive(last);
            }
        }
        lemma_start_idx_at(s, Some(last), m);
    }
}

} // verus!
