//! The persistent model of the wrapping engine: the configuration record,
//! the token registry (kept sorted by wrapped denomination, with the
//! origin-token relation a bijection), and the deterministic derivation of
//! wrapped denominations from origin-token identities.
use vstd::prelude::*;

use crate::error::{ErrV, TokenWrapperError};
use crate::msg::TokenType;
use crate::text::{lemma_lex_lt_total, lemma_lex_lt_transitive, lex_lt, str_eq, str_lex_lt};

verus! {

/// Continuation id under which a wrap's cross-environment call reports back.
pub const WRAP_EVM_CALL_ID: u64 = 2571182633660066190;

/// Continuation id under which an unwrap's cross-environment call reports back.
pub const UNWRAP_EVM_CALL_ID: u64 = 13078395618759265986;

/// One registry record: the wrapped denomination and the origin token it
/// stands for.
#[derive(Clone, Debug, PartialEq, Eq)]
pub struct TokenRegistry {
    pub token_type: TokenType,
    pub token_address: String,
    pub wrapped_denom: String,
}

/// Ghost image of [`TokenRegistry`].
#[verifier::ext_equal]
pub struct TokenRegistryV {
    pub token_type: TokenType,
    pub token_address: Seq<char>,
    pub wrapped_denom: Seq<char>,
}

impl View for TokenRegistry {
    type V = TokenRegistryV;

    open spec fn view(&self) -> TokenRegistryV {
        TokenRegistryV {
            token_type: self.token_type,
            token_address: self.token_address@,
            wrapped_denom: self.wrapped_denom@,
        }
    }
}

/// The administrative configuration, set once at initialization.
#[derive(Clone, Debug, PartialEq, Eq)]
pub struct Config {
    pub owner: Option<String>,
}

/// Ghost image of [`Config`].
#[verifier::ext_equal]
pub struct ConfigV {
    pub owner: Option<Seq<char>>,
}

impl View for Config {
    type V = ConfigV;

    open spec fn view(&self) -> ConfigV {
        ConfigV {
            owner: match self.owner {
                Some(ref o) => Some(o@),
                None => None,
            },
        }
    }
}

/// The whole persisted state: configuration plus the token registry. The
/// registry is the primary map from wrapped denomination to record; the
/// reverse lookup from origin token to denomination is derived from it,
/// which the bijection invariant keeps well-defined.
pub struct WrapperState {
    pub config: Config,
    pub tokens: Vec<TokenRegistry>,
}

/// Ghost image of [`WrapperState`].
#[verifier::ext_equal]
pub struct WrapperStateV {
    pub config: ConfigV,
    pub tokens: Seq<TokenRegistryV>,
}

impl View for WrapperState {
    type V = WrapperStateV;

    open spec fn view(&self) -> WrapperStateV {
        WrapperStateV {
            config: self.config@,
            tokens: self.tokens@.map_values(|e: TokenRegistry| e@),
        }
    }
}

/// Registry entries are strictly sorted by wrapped denomination, so keys are
/// unique and range scans ascend.
pub open spec fn sorted_by_denom(s: Seq<TokenRegistryV>) -> bool {
    forall|i: int, j: int|
        0 <= i < j < s.len() ==> lex_lt(#[trigger] s[i].wrapped_denom, #[trigger] s[j].wrapped_denom)
}

/// No two entries stand for the same origin token: together with key
/// uniqueness this makes the origin <-> denomination relation a bijection.
pub open spec fn distinct_origins(s: Seq<TokenRegistryV>) -> bool {
    forall|i: int, j: int|
        0 <= i < j < s.len() ==> !(#[trigger] s[i].token_type == #[trigger] s[j].token_type
            && s[i].token_address == s[j].token_address)
}

impl WrapperState {
    /// Well-formedness: the bijection invariant of the registry.
    pub open spec fn wf(self) -> bool {
        sorted_by_denom(self@.tokens) && distinct_origins(self@.tokens)
    }
}

/// The registry record stored under `denom`, if any (first match).
pub open spec fn spec_lookup_denom(s: Seq<TokenRegistryV>, d: Seq<char>) -> Option<TokenRegistryV>
    decreases s.len(),
{
    if s.len() == 0 {
        None
    } else if s[0].wrapped_denom == d {
        Some(s[0])
    } else {
        spec_lookup_denom(s.skip(1), d)
    }
}

/// The wrapped denomination registered for an origin token, if any.
pub open spec fn spec_lookup_origin(s: Seq<TokenRegistryV>, t: TokenType, a: Seq<char>) -> Option<
    Seq<char>,
>
    decreases s.len(),
{
    if s.len() == 0 {
        None
    } else if s[0].token_type == t && s[0].token_address == a {
        Some(s[0].wrapped_denom)
    } else {
        spec_lookup_origin(s.skip(1), t, a)
    }
}

pub proof fn lemma_lookup_denom_skip(s: Seq<TokenRegistryV>, d: Seq<char>, i: int)
    requires
        0 <= i <= s.len(),
        forall|j: int| 0 <= j < i ==> s[j].wrapped_denom != d,
    ensures
        spec_lookup_denom(s, d) == spec_lookup_denom(s.skip(i), d),
    decreases i,
{
    if i > 0 {
        assert(s.skip(1).skip(i - 1) =~= s.skip(i));
        lemma_lookup_denom_skip(s.skip(1), d, i - 1);
    } else {
        assert(s.skip(0) =~= s);
    }
}

pub proof fn lemma_lookup_origin_skip(s: Seq<TokenRegistryV>, t: TokenType, a: Seq<char>, i: int)
    requires
        0 <= i <= s.len(),
        forall|j: int| 0 <= j < i ==> !(s[j].token_type == t && s[j].token_address == a),
    ensures
        spec_lookup_origin(s, t, a) == spec_lookup_origin(s.skip(i), t, a),
    decreases i,
{
    if i > 0 {
        assert(s.skip(1).skip(i - 1) =~= s.skip(i));
        lemma_lookup_origin_skip(s.skip(1), t, a, i - 1);
    } else {
        assert(s.skip(0) =~= s);
    }
}

/// Insertion into a denomination-sorted sequence, before the first strictly
/// larger key.
pub open spec fn spec_insert(s: Seq<TokenRegistryV>, e: TokenRegistryV) -> Seq<TokenRegistryV>
    decreases s.len(),
{
    if s.len() == 0 {
        seq![e]
    } else if lex_lt(e.wrapped_denom, s[0].wrapped_denom) {
        seq![e] + s
    } else {
        seq![s[0]] + spec_insert(s.skip(1), e)
    }
}

pub proof fn lemma_insert_shape(s: Seq<TokenRegistryV>, e: TokenRegistryV, pos: int)
    requires
        0 <= pos <= s.len(),
        forall|j: int| 0 <= j < pos ==> !lex_lt(e.wrapped_denom, #[trigger] s[j].wrapped_denom),
        pos < s.len() ==> lex_lt(e.wrapped_denom, s[pos].wrapped_denom),
    ensures
        spec_insert(s, e) == s.take(pos) + seq![e] + s.skip(pos),
    decreases s.len(),
{
    if s.len() == 0 {
        assert(spec_insert(s, e) =~= s.take(pos) + seq![e] + s.skip(pos));
    } else if lex_lt(e.wrapped_denom, s[0].wrapped_denom) {
        assert(pos == 0);
        assert(seq![e] + s =~= s.take(0) + seq![e] + s.skip(0));
    } else {
        assert(pos >= 1);
        assert(forall|j: int|
            0 <= j < pos - 1 ==> !lex_lt(e.wrapped_denom, #[trigger] s.skip(1)[j].wrapped_denom));
        lemma_insert_shape(s.skip(1), e, pos - 1);
        assert(seq![s[0]] + (s.skip(1).take(pos - 1) + seq![e] + s.skip(1).skip(pos - 1)) =~= s.take(
            pos,
        ) + seq![e] + s.skip(pos));
    }
}

/// Inserting a fresh entry keeps the registry sorted and the origin relation
/// a bijection.
pub proof fn lemma_insert_wf(s: Seq<TokenRegistryV>, e: TokenRegistryV, pos: int)
    requires
        sorted_by_denom(s),
        distinct_origins(s),
        0 <= pos <= s.len(),
        forall|j: int| 0 <= j < pos ==> lex_lt(#[trigger] s[j].wrapped_denom, e.wrapped_denom),
        pos < s.len() ==> lex_lt(e.wrapped_denom, s[pos].wrapped_denom),
        forall|j: int|
            0 <= j < s.len() ==> !(#[trigger] s[j].token_type == e.token_type && s[j].token_address
                == e.token_address),
    ensures
        sorted_by_denom(s.take(pos) + seq![e] + s.skip(pos)),
        distinct_origins(s.take(pos) + seq![e] + s.skip(pos)),
{
    let t = s.take(pos) + seq![e] + s.skip(pos);
    assert forall|i: int, j: int| 0 <= i < j < t.len() implies lex_lt(
        #[trigger] t[i].wrapped_denom,
        #[trigger] t[j].wrapped_denom,
    ) by {
        if i < pos && j < pos {
        } else if i < pos && j == pos {
        } else if i == pos && j > pos {
            if j > pos + 1 {
                lemma_lex_lt_transitive(
                    e.wrapped_denom,
                    s[pos].wrapped_denom,
                    s[j - 1].wrapped_denom,
                );
            }
        } else if i < pos && j > pos {
            assert(t[j] == s[j - 1]);
        } else {
            assert(t[i] == s[i - 1] && t[j] == s[j - 1]);
        }
    }
    assert forall|i: int, j: int| 0 <= i < j < t.len() implies !(#[trigger] t[i].token_type
        == #[trigger] t[j].token_type && t[i].token_address == t[j].token_address) by {
        if i != pos && j != pos {
            let i0: int = if i < pos {
                i
            } else {
                i - 1
            };
            let j0: int = if j < pos {
                j
            } else {
                j - 1
            };
            assert(t[i] == s[i0] && t[j] == s[j0]);
        }
    }
}

/// Looking an entry up by its own denomination finds it after insertion.
pub proof fn lemma_lookup_denom_insert(s: Seq<TokenRegistryV>, e: TokenRegistryV)
    requires
        forall|j: int| 0 <= j < s.len() ==> (#[trigger] s[j].wrapped_denom) != e.wrapped_denom,
    ensures
        spec_lookup_denom(spec_insert(s, e), e.wrapped_denom) == Some(e),
    decreases s.len(),
{
    if s.len() == 0 {
        assert(spec_insert(s, e)[0] == e);
    } else if lex_lt(e.wrapped_denom, s[0].wrapped_denom) {
        assert((seq![e] + s)[0] == e);
    } else {
        let t = seq![s[0]] + spec_insert(s.skip(1), e);
        assert(t[0] == s[0]);
        assert(forall|j: int|
            0 <= j < s.skip(1).len() ==> (#[trigger] s.skip(1)[j].wrapped_denom)
                != e.wrapped_denom);
        lemma_lookup_denom_insert(s.skip(1), e);
        assert(t.skip(1) =~= spec_insert(s.skip(1), e));
    }
}

/// Looking an entry up by its origin token finds its denomination after
/// insertion.
pub proof fn lemma_lookup_origin_insert(s: Seq<TokenRegistryV>, e: TokenRegistryV)
    requires
        forall|j: int|
            0 <= j < s.len() ==> !(#[trigger] s[j].token_type == e.token_type && s[j].token_address
                == e.token_address),
    ensures
        spec_lookup_origin(spec_insert(s, e), e.token_type, e.token_address) == Some(
            e.wrapped_denom,
        ),
    decreases s.len(),
{
    if s.len() == 0 {
        assert(spec_insert(s, e)[0] == e);
    } else if lex_lt(e.wrapped_denom, s[0].wrapped_denom) {
        assert((seq![e] + s)[0] == e);
    } else {
        let t = seq![s[0]] + spec_insert(s.skip(1), e);
        assert(t[0] == s[0]);
        assert(forall|j: int|
            0 <= j < s.skip(1).len() ==> !(#[trigger] s.skip(1)[j].token_type == e.token_type
                && s.skip(1)[j].token_address == e.token_address));
        lemma_lookup_origin_insert(s.skip(1), e);
        assert(t.skip(1) =~= spec_insert(s.skip(1), e));
    }
}

/// Registration as the wrap handlers use it: a no-op for an already
/// registered origin token, a defensive failure when the derived
/// denomination is taken by a different origin, and a fresh insertion
/// otherwise. The boolean says whether a denomination was created.
pub open spec fn spec_register(s: Seq<TokenRegistryV>, e: TokenRegistryV) -> Result<
    (Seq<TokenRegistryV>, bool),
    ErrV,
> {
    if spec_lookup_origin(s, e.token_type, e.token_address) is Some {
        Ok((s, false))
    } else if spec_lookup_denom(s, e.wrapped_denom) is Some {
        Err(ErrV::Std("wrapped denomination already registered"@))
    } else {
        Ok((spec_insert(s, e), true))
    }
}

/// Registering the same origin token twice never creates a second
/// denomination: after a successful registration, registering the same
/// origin again changes nothing and creates nothing.
pub proof fn lemma_register_idempotent(s: Seq<TokenRegistryV>, e: TokenRegistryV)
    requires
        spec_register(s, e) is Ok,
    ensures
        ({
            let (s1, _created) = spec_register(s, e)->Ok_0;
            spec_register(s1, e) == Ok::<_, ErrV>((s1, false))
        }),
{
    let (s1, created) = spec_register(s, e)->Ok_0;
    if spec_lookup_origin(s, e.token_type, e.token_address) is Some {
        assert(s1 == s);
    } else {
        assert forall|j: int| 0 <= j < s.len() implies !(#[trigger] s[j].token_type == e.token_type
            && s[j].token_address == e.token_address) by {
            if s[j].token_type == e.token_type && s[j].token_address == e.token_address {
                lemma_lookup_origin_at_index(s, e.token_type, e.token_address, j);
            }
        }
        lemma_lookup_origin_insert(s, e);
    }
}

impl WrapperState {
    /// Point lookup by wrapped denomination.
    pub fn lookup_by_denom(&self, denom: &str) -> (r: Option<&TokenRegistry>)
        ensures
            match r {
                Some(e) => spec_lookup_denom(self@.tokens, denom@) == Some(e@),
                None => spec_lookup_denom(self@.tokens, denom@) is None,
            },
    {
        let n = self.tokens.len();
        let mut i: usize = 0;
        while i < n
            invariant
                0 <= i <= n,
                n == self.tokens.len(),
                forall|j: int| 0 <= j < i ==> self@.tokens[j].wrapped_denom != denom@,
            decreases n - i,
        {
            if str_eq(self.tokens[i].wrapped_denom.as_str(), denom) {
                proof {
                    lemma_lookup_denom_skip(self@.tokens, denom@, i as int);
                    assert(self@.tokens.skip(i as int)[0] == self@.tokens[i as int]);
                }
                return Some(&self.tokens[i]);
            }
            i = i + 1;
        }
        proof {
            lemma_lookup_denom_skip(self@.tokens, denom@, i as int);
        }
        None
    }

    /// Reverse lookup: the wrapped denomination registered for an origin
    /// token, derived from the primary registry.
    pub fn lookup_by_origin(&self, token_type: TokenType, address: &str) -> (r: Option<&String>)
        ensures
            match r {
                Some(d) => spec_lookup_origin(self@.tokens, token_type, address@) == Some(d@),
                None => spec_lookup_origin(self@.tokens, token_type, address@) is None,
            },
    {
        let n = self.tokens.len();
        let mut i: usize = 0;
        while i < n
            invariant
                0 <= i <= n,
                n == self.tokens.len(),
                forall|j: int|
                    0 <= j < i ==> !(self@.tokens[j].token_type == token_type
                        && self@.tokens[j].token_address == address@),
            decreases n - i,
        {
            if self.tokens[i].token_type == token_type && str_eq(
                self.tokens[i].token_address.as_str(),
                address,
            ) {
                proof {
                    lemma_lookup_origin_skip(self@.tokens, token_type, address@, i as int);
                    assert(self@.tokens.skip(i as int)[0] == self@.tokens[i as int]);
                }
                return Some(&self.tokens[i].wrapped_denom);
            }
            i = i + 1;
        }
        proof {
            lemma_lookup_origin_skip(self@.tokens, token_type, address@, i as int);
        }
        None
    }

    /// Inserts a fresh registry record. Callers have already checked that the
    /// origin token is unregistered; the denomination key is re-checked
    /// defensively and never overwritten.
    pub fn register(
        &mut self,
        token_type: TokenType,
        token_address: String,
        wrapped_denom: String,
    ) -> (r: Result<(), TokenWrapperError>)
        requires
            old(self).wf(),
            spec_lookup_origin(old(self)@.tokens, token_type, token_address@) is None,
        ensures
            final(self).wf(),
            final(self)@.config == old(self)@.config,
            match r {
                Ok(()) => spec_lookup_denom(old(self)@.tokens, wrapped_denom@) is None
                    && final(self)@.tokens == spec_insert(
                    old(self)@.tokens,
                    TokenRegistryV {
                        token_type,
                        token_address: token_address@,
                        wrapped_denom: wrapped_denom@,
                    },
                ),
                Err(e) => spec_lookup_denom(old(self)@.tokens, wrapped_denom@) is Some && e@
                    == ErrV::Std("wrapped denomination already registered"@)
                    && final(self)@ == old(self)@,
            },
    {
        let ghost s = self@.tokens;
        let ghost ev = TokenRegistryV {
            token_type,
            token_address: token_address@,
            wrapped_denom: wrapped_denom@,
        };
        if self.lookup_by_denom(wrapped_denom.as_str()).is_some() {
            return Err(
                TokenWrapperError::Std(String::from_str("wrapped denomination already registered")),
            );
        }
        proof {
            assert forall|j: int| 0 <= j < s.len() implies (#[trigger] s[j].wrapped_denom)
                != wrapped_denom@ by {
                if s[j].wrapped_denom == wrapped_denom@ {
                    lemma_lookup_denom_at_index(s, wrapped_denom@, j);
                }
            }
            assert forall|j: int| 0 <= j < s.len() implies !(#[trigger] s[j].token_type
                == token_type && s[j].token_address == token_address@) by {
                if s[j].token_type == token_type && s[j].token_address == token_address@ {
                    lemma_lookup_origin_at_index(s, token_type, token_address@, j);
                }
            }
        }
        let n = self.tokens.len();
        let mut pos: usize = 0;
        let mut i: usize = 0;
        while i < n
            invariant
                0 <= pos <= i <= n,
                n == self.tokens.len(),
                forall|j: int|
                    0 <= j < pos ==> lex_lt(
                        #[trigger] self@.tokens[j].wrapped_denom,
                        wrapped_denom@,
                    ),
                pos < i ==> !lex_lt(self@.tokens[pos as int].wrapped_denom, wrapped_denom@),
            decreases n - i,
        {
            if pos == i {
                if str_lex_lt(self.tokens[i].wrapped_denom.as_str(), wrapped_denom.as_str()) {
                    pos = i + 1;
                }
            }
            i = i + 1;
        }
        proof {
            if pos < n {
                lemma_lex_lt_total(self@.tokens[pos as int].wrapped_denom, wrapped_denom@);
            }
            assert forall|j: int| 0 <= j < pos implies !lex_lt(
                ev.wrapped_denom,
                #[trigger] s[j].wrapped_denom,
            ) by {
                lemma_lex_lt_total(s[j].wrapped_denom, ev.wrapped_denom);
            }
            lemma_insert_shape(s, ev, pos as int);
            lemma_insert_wf(s, ev, pos as int);
        }
        let entry = TokenRegistry { token_type, token_address, wrapped_denom };
        self.tokens.insert(pos, entry);
        proof {
            assert(self@.tokens =~= s.take(pos as int) + seq![ev] + s.skip(pos as int));
        }
        Ok(())
    }
}

/// If some entry carries the denomination, the lookup does not answer `None`.
pub proof fn lemma_lookup_denom_at_index(s: Seq<TokenRegistryV>, d: Seq<char>, j: int)
    requires
        0 <= j < s.len(),
        s[j].wrapped_denom == d,
    ensures
        spec_lookup_denom(s, d) is Some,
    decreases j,
{
    if s[0].wrapped_denom != d {
        lemma_lookup_denom_at_index(s.skip(1), d, j - 1);
    }
}

/// If some entry carries the origin token, the lookup does not answer `None`.
pub proof fn lemma_lookup_origin_at_index(s: Seq<TokenRegistryV>, t: TokenType, a: Seq<char>, j: int)
    requires
        0 <= j < s.len(),
        s[j].token_type == t,
        s[j].token_address == a,
    ensures
        spec_lookup_origin(s, t, a) is Some,
    decreases j,
{
    if !(s[0].token_type == t && s[0].token_address == a) {
        lemma_lookup_origin_at_index(s.skip(1), t, a, j - 1);
    }
}

} // verus!
