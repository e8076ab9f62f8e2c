//! The wrap and unwrap handlers. Each is a pure function of the registry
//! state, the request values, and the host observations it depends on
//! (address validation and metadata-query outcomes); it returns the ordered
//! effect list for the host to execute, or the error that aborts the
//! transaction. The ghost transition functions `spec_cw20_receive`,
//! `spec_wrap_erc20` and `spec_handle_unwrap` pin each handler down exactly.
use vstd::prelude::*;

use crate::abi::{
    base64_of, encode_transfer_from_payload, encode_transfer_payload, transfer_call_data,
    transfer_from_call_data,
};
use crate::denom::{denom_text, make_denom, spec_subdenom, strip_0x, token_addr_to_subdenom,
    is_wrapped_denom, denom_belongs};
use crate::error::{ErrV, TokenWrapperError};
use crate::msg::{
    coins_view, effects_view, opt_bytes_view, opt_str_view, res_str_view, res_unit_view, Coin,
    CoinV, EffectV, TokenType, WrapperEffect,
};
use crate::state::{
    spec_insert, spec_lookup_denom, spec_lookup_origin, spec_register, TokenRegistryV,
    WrapperState, UNWRAP_EVM_CALL_ID, WRAP_EVM_CALL_ID,
};
use crate::text::{hex_lower, hex_lower_of, is_evm_hex_address, upper_ascii, upper_chars};

verus! {

/// What a wrap of a CW-origin token does: reject an empty amount, resolve
/// the recipient (payload address if the host validated one, else the
/// validated sender), derive the denomination, register the origin token if
/// it is new (after the defensive metadata check), and emit mint and send.
pub open spec fn spec_cw20_receive(
    tokens: Seq<TokenRegistryV>,
    contract: Seq<char>,
    token_contract: Seq<char>,
    amount: u128,
    payload_recipient: Option<Seq<char>>,
    sender_recipient: Result<Seq<char>, Seq<char>>,
    metadata_check: Result<(), Seq<char>>,
) -> Result<(Seq<TokenRegistryV>, Seq<EffectV>), ErrV> {
    if amount == 0 {
        Err(ErrV::UnfundedCall)
    } else {
        let rcpt_r = match payload_recipient {
            Some(p) => Ok(p),
            None => sender_recipient,
        };
        match rcpt_r {
            Err(m) => Err(ErrV::Std(m)),
            Ok(rcpt) => {
                let sub = spec_subdenom(TokenType::CW20, token_contract);
                let denom = denom_text(contract, sub);
                let registered = spec_lookup_origin(
                    tokens,
                    TokenType::CW20,
                    token_contract,
                ) is Some;
                if !registered && metadata_check is Err {
                    Err(ErrV::Std(metadata_check->Err_0))
                } else {
                    let entry = TokenRegistryV {
                        token_type: TokenType::CW20,
                        token_address: token_contract,
                        wrapped_denom: denom,
                    };
                    match spec_register(tokens, entry) {
                        Err(e) => Err(e),
                        Ok((tokens2, created)) => {
                            let fx: Seq<EffectV> = if created {
                                seq![EffectV::CreateDenom { subdenom: sub }]
                            } else {
                                Seq::empty()
                            };
                            Ok(
                                (
                                    tokens2,
                                    fx + seq![
                                        EffectV::MintTokens { denom, amount },
                                        EffectV::SendTokens { to_address: rcpt, denom, amount },
                                    ],
                                ),
                            )
                        },
                    }
                }
            },
        }
    }
}

/// Handles an inbound CW-token transfer notification.
///
/// `payload_recipient` is the notification's byte payload read as UTF-8 and
/// validated as a ledger address by the host, if both succeeded;
/// `sender_recipient` is the host's validation of the notification's sender;
/// `metadata_check` is the outcome of the token-metadata query against the
/// sending contract, consulted only when the token is not yet registered.
pub fn handle_cw20_receive(
    state: &mut WrapperState,
    contract_address: &String,
    token_contract: String,
    amount: u128,
    payload_recipient: Option<String>,
    sender_recipient: Result<String, String>,
    metadata_check: Result<(), String>,
) -> (r: Result<Vec<WrapperEffect>, TokenWrapperError>)
    requires
        old(state).wf(),
    ensures
        final(state).wf(),
        final(state)@.config == old(state)@.config,
        ({
            let t = spec_cw20_receive(
                old(state)@.tokens,
                contract_address@,
                token_contract@,
                amount,
                opt_str_view(payload_recipient),
                res_str_view(sender_recipient),
                res_unit_view(metadata_check),
            );
            match r {
                Ok(effects) => t is Ok && final(state)@.tokens == t->Ok_0.0 && effects_view(
                    effects@,
                ) == t->Ok_0.1,
                Err(e) => t is Err && e@ == t->Err_0 && final(state)@ == old(state)@,
            }
        }),
{
    if amount == 0 {
        return Err(TokenWrapperError::UnfundedCall);
    }
    let recipient: String = match payload_recipient {
        Some(p) => p,
        None => match sender_recipient {
            Ok(s) => s,
            Err(m) => {
                return Err(TokenWrapperError::Std(m));
            },
        },
    };
    let subdenom = token_addr_to_subdenom(&TokenType::CW20, token_contract.as_str());
    let denom = make_denom(contract_address.as_str(), subdenom.as_str());
    let registered = state.lookup_by_origin(TokenType::CW20, token_contract.as_str()).is_some();
    if !registered {
        match metadata_check {
            Err(m) => {
                return Err(TokenWrapperError::Std(m));
            },
            Ok(_) => {},
        }
        match state.register(TokenType::CW20, token_contract, denom.clone()) {
            Err(e) => {
                return Err(e);
            },
            Ok(_) => {},
        }
    }
    let mut effects: Vec<WrapperEffect> = Vec::new();
    if !registered {
        effects.push(WrapperEffect::CreateDenom { subdenom });
    }
    effects.push(WrapperEffect::MintTokens { denom: denom.clone(), amount });
    effects.push(WrapperEffect::SendTokens { to_address: recipient, denom, amount });
    proof {
        let t = spec_cw20_receive(
            old(state)@.tokens,
            contract_address@,
            token_contract@,
            amount,
            opt_str_view(payload_recipient),
            res_str_view(sender_recipient),
            res_unit_view(metadata_check),
        );
        assert(effects_view(effects@) =~~= t->Ok_0.1);
    }
    Ok(effects)
}

/// The upper-cased canonical form of a textual EVM address, used as the
/// origin key so that differently-cased spellings of one address register
/// only once.
pub open spec fn norm_evm_address(s: Seq<char>) -> Seq<char> {
    "0x"@ + upper_chars(strip_0x(s))
}

/// What a wrap of an EVM-origin token does: reject attached native funds,
/// reject a malformed address, require the metadata query to have answered,
/// require 20-byte contract and owner addresses, register the (normalized)
/// origin token if new, and emit the `transferFrom` cross-environment call
/// followed by mint and send.
pub open spec fn spec_wrap_erc20(
    tokens: Seq<TokenRegistryV>,
    contract: Seq<char>,
    sender: Seq<char>,
    funds: Seq<CoinV>,
    evm_sender: Seq<u8>,
    token_addr: Seq<char>,
    amount: u128,
    recipient: Option<Seq<char>>,
    erc20_check: Result<(), Seq<char>>,
) -> Result<(Seq<TokenRegistryV>, Seq<EffectV>), ErrV> {
    if funds.len() > 0 {
        Err(ErrV::PaymentError)
    } else if !is_evm_hex_address(token_addr) {
        Err(ErrV::InvalidEvmAddress(token_addr))
    } else if erc20_check is Err {
        Err(ErrV::InvalidERC20Contract(erc20_check->Err_0))
    } else if vstd::utf8::encode_utf8(contract).len() != 20 {
        Err(ErrV::InvalidRecipient)
    } else if evm_sender.len() != 20 {
        Err(ErrV::InvalidEvmAddress("0x"@ + hex_lower_of(evm_sender)))
    } else {
        let sub = spec_subdenom(TokenType::ERC20, token_addr);
        let denom = denom_text(contract, sub);
        let entry = TokenRegistryV {
            token_type: TokenType::ERC20,
            token_address: norm_evm_address(token_addr),
            wrapped_denom: denom,
        };
        match spec_register(tokens, entry) {
            Err(e) => Err(e),
            Ok((tokens2, created)) => {
                let payload = base64_of(
                    transfer_from_call_data(evm_sender, vstd::utf8::encode_utf8(contract), amount),
                );
                let rcpt = match recipient {
                    Some(rc) => rc,
                    None => sender,
                };
                let fx: Seq<EffectV> = if created {
                    seq![EffectV::CreateDenom { subdenom: sub }]
                } else {
                    Seq::empty()
                };
                Ok(
                    (
                        tokens2,
                        fx + seq![
                            EffectV::CallEvm {
                                call_id: WRAP_EVM_CALL_ID,
                                to: token_addr,
                                data: payload,
                            },
                            EffectV::MintTokens { denom, amount },
                            EffectV::SendTokens { to_address: rcpt, denom, amount },
                        ],
                    ),
                )
            },
        }
    }
}

/// Handles an explicit wrap request for an EVM-origin token.
///
/// `sender` is the requester's address and the default recipient; `funds`
/// are the native funds attached to the call (none are accepted);
/// `erc20_check` is the outcome of the EVM metadata query for `token_addr`.
pub fn handle_wrap_erc20(
    state: &mut WrapperState,
    contract_address: &String,
    sender: String,
    funds: &Vec<Coin>,
    evm_sender: Vec<u8>,
    token_addr: String,
    amount: u128,
    recipient: Option<String>,
    erc20_check: Result<(), String>,
) -> (r: Result<Vec<WrapperEffect>, TokenWrapperError>)
    requires
        old(state).wf(),
    ensures
        final(state).wf(),
        final(state)@.config == old(state)@.config,
        ({
            let t = spec_wrap_erc20(
                old(state)@.tokens,
                contract_address@,
                sender@,
                coins_view(funds@),
                evm_sender@,
                token_addr@,
                amount,
                opt_str_view(recipient),
                res_unit_view(erc20_check),
            );
            match r {
                Ok(effects) => t is Ok && final(state)@.tokens == t->Ok_0.0 && effects_view(
                    effects@,
                ) == t->Ok_0.1,
                Err(e) => t is Err && e@ == t->Err_0 && final(state)@ == old(state)@,
            }
        }),
{
    if funds.len() > 0 {
        return Err(TokenWrapperError::PaymentError);
    }
    let valid = crate::text::parse_evm_address(token_addr.as_str());
    if valid.is_none() {
        return Err(TokenWrapperError::InvalidEvmAddress(token_addr));
    }
    match erc20_check {
        Err(m) => {
            return Err(TokenWrapperError::InvalidERC20Contract(m));
        },
        Ok(_) => {},
    }
    let contract_bytes = contract_address.as_str().as_bytes_vec();
    if contract_bytes.len() != 20 {
        return Err(TokenWrapperError::InvalidRecipient);
    }
    if evm_sender.len() != 20 {
        let h = hex_lower(&evm_sender);
        let mut m = String::from_str("0x");
        m.append(h.as_str());
        return Err(TokenWrapperError::InvalidEvmAddress(m));
    }
    let subdenom = token_addr_to_subdenom(&TokenType::ERC20, token_addr.as_str());
    let denom = make_denom(contract_address.as_str(), subdenom.as_str());
    let alen = token_addr.as_str().unicode_len();
    let hexpart = token_addr.as_str().substring_char(2, alen);
    let up = upper_ascii(hexpart);
    let mut norm = String::from_str("0x");
    norm.append(up.as_str());
    proof {
        assert(hexpart@ =~= strip_0x(token_addr@));
        assert(norm@ == norm_evm_address(token_addr@));
    }
    let registered = state.lookup_by_origin(TokenType::ERC20, norm.as_str()).is_some();
    if !registered {
        match state.register(TokenType::ERC20, norm, denom.clone()) {
            Err(e) => {
                return Err(e);
            },
            Ok(_) => {},
        }
    }
    let payload = match encode_transfer_from_payload(&evm_sender, &contract_bytes, amount) {
        Ok(p) => p,
        Err(e) => {
            return Err(e);
        },
    };
    let recipient_addr: String = match recipient {
        Some(rc) => rc,
        None => sender,
    };
    let mut effects: Vec<WrapperEffect> = Vec::new();
    if !registered {
        effects.push(WrapperEffect::CreateDenom { subdenom });
    }
    effects.push(
        WrapperEffect::CallEvm { call_id: WRAP_EVM_CALL_ID, to: token_addr, data: payload },
    );
    effects.push(WrapperEffect::MintTokens { denom: denom.clone(), amount });
    effects.push(WrapperEffect::SendTokens { to_address: recipient_addr, denom, amount });
    proof {
        let t = spec_wrap_erc20(
            old(state)@.tokens,
            contract_address@,
            sender@,
            coins_view(funds@),
            evm_sender@,
            token_addr@,
            amount,
            opt_str_view(recipient),
            res_unit_view(erc20_check),
        );
        assert(effects_view(effects@) =~~= t->Ok_0.1);
    }
    Ok(effects)
}

/// What unwrapping one attached fund does: the denomination must have this
/// contract's wrapped shape and be registered with the requested origin
/// kind; an EVM unwrap needs a 20-byte recipient and emits the `transfer`
/// cross-environment call plus a burn, a CW unwrap needs a ledger recipient
/// and emits a direct origin-contract transfer plus a burn.
pub open spec fn spec_unwrap_fund(
    tokens: Seq<TokenRegistryV>,
    contract: Seq<char>,
    f: CoinV,
    token_type: TokenType,
    evm_recipient: Option<Seq<u8>>,
    cosmos_recipient: Option<Seq<char>>,
) -> Result<Seq<EffectV>, ErrV> {
    if !is_wrapped_denom(f.denom, contract) {
        Err(ErrV::TokenDoesntBelongToContract)
    } else {
        match spec_lookup_denom(tokens, f.denom) {
            None => Err(ErrV::TokenDoesntBelongToContract),
            Some(e) => {
                if e.token_type != token_type {
                    Err(ErrV::InvalidTokenType)
                } else {
                    match token_type {
                        TokenType::ERC20 => match evm_recipient {
                            None => Err(ErrV::MissingRecipient),
                            Some(a) => {
                                if a.len() != 20 {
                                    Err(ErrV::InvalidRecipient)
                                } else {
                                    Ok(
                                        seq![
                                            EffectV::CallEvm {
                                                call_id: UNWRAP_EVM_CALL_ID,
                                                to: e.token_address,
                                                data: base64_of(transfer_call_data(a, f.amount)),
                                            },
                                            EffectV::BurnTokens { denom: f.denom, amount: f.amount },
                                        ],
                                    )
                                }
                            },
                        },
                        TokenType::CW20 => match cosmos_recipient {
                            None => Err(ErrV::MissingRecipient),
                            Some(rc) => Ok(
                                seq![
                                    EffectV::Cw20Transfer {
                                        contract_addr: e.token_address,
                                        recipient: rc,
                                        amount: f.amount,
                                    },
                                    EffectV::BurnTokens { denom: f.denom, amount: f.amount },
                                ],
                            ),
                        },
                    }
                }
            },
        }
    }
}

/// Unwrapping of a fund list, in order, stopping at the first failure.
pub open spec fn spec_unwrap_funds(
    tokens: Seq<TokenRegistryV>,
    contract: Seq<char>,
    funds: Seq<CoinV>,
    token_type: TokenType,
    evm_recipient: Option<Seq<u8>>,
    cosmos_recipient: Option<Seq<char>>,
) -> Result<Seq<EffectV>, ErrV>
    decreases funds.len(),
{
    if funds.len() == 0 {
        Ok(Seq::empty())
    } else {
        match spec_unwrap_fund(tokens, contract, funds[0], token_type, evm_recipient,
            cosmos_recipient) {
            Err(e) => Err(e),
            Ok(fx) => match spec_unwrap_funds(
                tokens,
                contract,
                funds.skip(1),
                token_type,
                evm_recipient,
                cosmos_recipient,
            ) {
                Err(e) => Err(e),
                Ok(rest) => Ok(fx + rest),
            },
        }
    }
}

/// What an unwrap request does: it needs at least one attached fund, and
/// processes every fund independently, in order.
pub open spec fn spec_handle_unwrap(
    tokens: Seq<TokenRegistryV>,
    contract: Seq<char>,
    funds: Seq<CoinV>,
    token_type: TokenType,
    evm_recipient: Option<Seq<u8>>,
    cosmos_recipient: Option<Seq<char>>,
) -> Result<Seq<EffectV>, ErrV> {
    if funds.len() == 0 {
        Err(ErrV::UnfundedCall)
    } else {
        spec_unwrap_funds(tokens, contract, funds, token_type, evm_recipient, cosmos_recipient)
    }
}

proof fn lemma_unwrap_funds_step(
    tokens: Seq<TokenRegistryV>,
    contract: Seq<char>,
    funds: Seq<CoinV>,
    token_type: TokenType,
    evm_recipient: Option<Seq<u8>>,
    cosmos_recipient: Option<Seq<char>>,
    i: int,
    acc: Seq<EffectV>,
)
    requires
        0 <= i < funds.len(),
        spec_unwrap_funds(tokens, contract, funds, token_type, evm_recipient, cosmos_recipient)
            == match spec_unwrap_funds(tokens, contract, funds.skip(i), token_type, evm_recipient,
            cosmos_recipient) {
            Ok(rest) => Ok::<Seq<EffectV>, ErrV>(acc + rest),
            Err(e) => Err::<Seq<EffectV>, ErrV>(e),
        },
    ensures
        ({
            let step = spec_unwrap_fund(tokens, contract, funds[i], token_type, evm_recipient,
                cosmos_recipient);
            match step {
                Err(e) => spec_unwrap_funds(tokens, contract, funds, token_type, evm_recipient,
                    cosmos_recipient) == Err::<Seq<EffectV>, ErrV>(e),
                Ok(fx) => spec_unwrap_funds(tokens, contract, funds, token_type, evm_recipient,
                    cosmos_recipient) == match spec_unwrap_funds(tokens, contract, funds.skip(i + 1),
                    token_type, evm_recipient, cosmos_recipient) {
                    Ok(rest) => Ok::<Seq<EffectV>, ErrV>((acc + fx) + rest),
                    Err(e) => Err::<Seq<EffectV>, ErrV>(e),
                },
            }
        }),
{
    let tail = funds.skip(i);
    assert(tail[0] == funds[i]);
    assert(tail.skip(1) =~= funds.skip(i + 1));
    let step = spec_unwrap_fund(tokens, contract, funds[i], token_type, evm_recipient,
        cosmos_recipient);
    match step {
        Err(_e) => {},
        Ok(fx) => {
            match spec_unwrap_funds(tokens, contract, funds.skip(i + 1), token_type, evm_recipient,
                cosmos_recipient) {
                Err(_e) => {},
                Ok(rest) => {
                    assert(acc + (fx + rest) =~= (acc + fx) + rest);
                },
            }
        },
    }
}

/// Handles an unwrap request. `funds` are the wrapped tokens attached to the
/// call; the state is only read.
pub fn handle_unwrap(
    state: &WrapperState,
    contract_address: &String,
    funds: &Vec<Coin>,
    token_type: TokenType,
    evm_recipient: Option<Vec<u8>>,
    cosmos_recipient: Option<String>,
) -> (r: Result<Vec<WrapperEffect>, TokenWrapperError>)
    ensures
        ({
            let t = spec_handle_unwrap(
                state@.tokens,
                contract_address@,
                coins_view(funds@),
                token_type,
                opt_bytes_view(evm_recipient),
                opt_str_view(cosmos_recipient),
            );
            match r {
                Ok(effects) => t is Ok && effects_view(effects@) == t->Ok_0,
                Err(e) => t is Err && e@ == t->Err_0,
            }
        }),
{
    let ghost fv = coins_view(funds@);
    let ghost ev = opt_bytes_view(evm_recipient);
    let ghost cv = opt_str_view(cosmos_recipient);
    let n = funds.len();
    if n == 0 {
        return Err(TokenWrapperError::UnfundedCall);
    }
    let mut effects: Vec<WrapperEffect> = Vec::new();
    proof {
        assert(fv.skip(0) =~= fv);
        assert(effects_view(effects@) =~= Seq::<EffectV>::empty());
        match spec_unwrap_funds(state@.tokens, contract_address@, fv, token_type, ev, cv) {
            Ok(rest) => {
                assert(effects_view(effects@) + rest =~= rest);
            },
            Err(_e) => {},
        }
    }
    let mut i: usize = 0;
    while i < n
        invariant
            0 <= i <= n,
            n == funds@.len(),
            n > 0,
            fv == coins_view(funds@),
            ev == opt_bytes_view(evm_recipient),
            cv == opt_str_view(cosmos_recipient),
            fv.len() == n,
            spec_unwrap_funds(state@.tokens, contract_address@, fv, token_type, ev, cv) == match
                spec_unwrap_funds(
                state@.tokens,
                contract_address@,
                fv.skip(i as int),
                token_type,
                ev,
                cv,
            ) {
                Ok(rest) => Ok::<Seq<EffectV>, ErrV>(effects_view(effects@) + rest),
                Err(e) => Err::<Seq<EffectV>, ErrV>(e),
            },
        decreases n - i,
    {
        proof {
            lemma_unwrap_funds_step(
                state@.tokens,
                contract_address@,
                fv,
                token_type,
                ev,
                cv,
                i as int,
                effects_view(effects@),
            );
            assert(fv[i as int] == funds@[i as int]@);
        }
        let ghost step = spec_unwrap_fund(
            state@.tokens,
            contract_address@,
            fv[i as int],
            token_type,
            ev,
            cv,
        );
        let fund = &funds[i];
        if !denom_belongs(fund.denom.as_str(), contract_address.as_str()) {
            return Err(TokenWrapperError::TokenDoesntBelongToContract);
        }
        let entry = match state.lookup_by_denom(fund.denom.as_str()) {
            None => {
                return Err(TokenWrapperError::TokenDoesntBelongToContract);
            },
            Some(e) => e,
        };
        if entry.token_type != token_type {
            return Err(TokenWrapperError::InvalidTokenType);
        }
        let ghost effects_before = effects_view(effects@);
        match token_type {
            TokenType::ERC20 => {
                match &evm_recipient {
                    None => {
                        return Err(TokenWrapperError::MissingRecipient);
                    },
                    Some(addr) => {
                        if addr.len() != 20 {
                            return Err(TokenWrapperError::InvalidRecipient);
                        }
                        let data = encode_transfer_payload(addr, fund.amount);
                        effects.push(
                            WrapperEffect::CallEvm {
                                call_id: UNWRAP_EVM_CALL_ID,
                                to: entry.token_address.clone(),
                                data,
                            },
                        );
                        effects.push(
                            WrapperEffect::BurnTokens {
                                denom: fund.denom.clone(),
                                amount: fund.amount,
                            },
                        );
                    },
                }
            },
            TokenType::CW20 => {
                match &cosmos_recipient {
                    None => {
                        return Err(TokenWrapperError::MissingRecipient);
                    },
                    Some(rc) => {
                        effects.push(
                            WrapperEffect::Cw20Transfer {
                                contract_addr: entry.token_address.clone(),
                                recipient: rc.clone(),
                                amount: fund.amount,
                            },
                        );
                        effects.push(
                            WrapperEffect::BurnTokens {
                                denom: fund.denom.clone(),
                                amount: fund.amount,
                            },
                        );
                    },
                }
            },
        }
        proof {
            assert(effects_view(effects@) =~~= effects_before + step->Ok_0);
        }
        i = i + 1;
    }
    proof {
        assert(fv.skip(n as int) =~= Seq::<CoinV>::empty());
        assert(effects_view(effects@) + Seq::<EffectV>::empty() =~= effects_view(effects@));
    }
    Ok(effects)
}

/// Wrapping the same CW-origin token a second time reuses the existing
/// mapping: the registry does not change again and no denomination-creation
/// effect is issued.
pub proof fn lemma_second_wrap_creates_nothing(
    tokens: Seq<TokenRegistryV>,
    contract: Seq<char>,
    token_contract: Seq<char>,
    a1: u128,
    p1: Option<Seq<char>>,
    s1: Result<Seq<char>, Seq<char>>,
    m1: Result<(), Seq<char>>,
    a2: u128,
    p2: Option<Seq<char>>,
    s2: Result<Seq<char>, Seq<char>>,
    m2: Result<(), Seq<char>>,
)
    requires
        spec_cw20_receive(tokens, contract, token_contract, a1, p1, s1, m1) is Ok,
    ensures
        ({
            let (t1, _fx1) = spec_cw20_receive(
                tokens,
                contract,
                token_contract,
                a1,
                p1,
                s1,
                m1,
            )->Ok_0;
            let r2 = spec_cw20_receive(t1, contract, token_contract, a2, p2, s2, m2);
            r2 is Ok ==> {
                let (t2, fx2) = r2->Ok_0;
                t2 == t1 && forall|k: int|
                    0 <= k < fx2.len() ==> !(#[trigger] fx2[k] is CreateDenom)
            }
        }),
{
    let entry = TokenRegistryV {
        token_type: TokenType::CW20,
        token_address: token_contract,
        wrapped_denom: denom_text(contract, spec_subdenom(TokenType::CW20, token_contract)),
    };
    let (t1, _fx1) = spec_cw20_receive(tokens, contract, token_contract, a1, p1, s1, m1)->Ok_0;
    crate::state::lemma_register_idempotent(tokens, entry);
    let r2 = spec_cw20_receive(t1, contract, token_contract, a2, p2, s2, m2);
    if r2 is Ok {
        assert(spec_register(t1, entry) == Ok::<_, ErrV>((t1, false)));
    }
}

/// Wrapping the same EVM-origin token a second time reuses the existing
/// mapping: the registry does not change again and no denomination-creation
/// effect is issued.
pub proof fn lemma_second_erc20_wrap_creates_nothing(
    tokens: Seq<TokenRegistryV>,
    contract: Seq<char>,
    token_addr: Seq<char>,
    sender1: Seq<char>,
    funds1: Seq<CoinV>,
    evm_sender1: Seq<u8>,
    a1: u128,
    r1: Option<Seq<char>>,
    c1: Result<(), Seq<char>>,
    sender2: Seq<char>,
    funds2: Seq<CoinV>,
    evm_sender2: Seq<u8>,
    a2: u128,
    r2: Option<Seq<char>>,
    c2: Result<(), Seq<char>>,
)
    requires
        spec_wrap_erc20(tokens, contract, sender1, funds1, evm_sender1, token_addr, a1, r1, c1)
            is Ok,
    ensures
        ({
            let (t1, _fx1) = spec_wrap_erc20(
                tokens,
                contract,
                sender1,
                funds1,
                evm_sender1,
                token_addr,
                a1,
                r1,
                c1,
            )->Ok_0;
            let second = spec_wrap_erc20(
                t1,
                contract,
                sender2,
                funds2,
                evm_sender2,
                token_addr,
                a2,
                r2,
                c2,
            );
            second is Ok ==> {
                let (t2, fx2) = second->Ok_0;
                t2 == t1 && forall|k: int|
                    0 <= k < fx2.len() ==> !(#[trigger] fx2[k] is CreateDenom)
            }
        }),
{
    let entry = TokenRegistryV {
        token_type: TokenType::ERC20,
        token_address: norm_evm_address(token_addr),
        wrapped_denom: denom_text(contract, spec_subdenom(TokenType::ERC20, token_addr)),
    };
    let (t1, _fx1) = spec_wrap_erc20(
        tokens,
        contract,
        sender1,
        funds1,
        evm_sender1,
        token_addr,
        a1,
        r1,
        c1,
    )->Ok_0;
    crate::state::lemma_register_idempotent(tokens, entry);
    let second = spec_wrap_erc20(t1, contract, sender2, funds2, evm_sender2, token_addr, a2, r2, c2);
    if second is Ok {
        assert(spec_register(t1, entry) == Ok::<_, ErrV>((t1, false)));
    }
}

/// Round trip: wrapping an amount of a CW-origin token and then unwrapping
/// that amount of the resulting wrapped denomination emits a transfer of
/// exactly that amount back from the origin contract, and a burn of exactly
/// that amount. The hypotheses on `/` hold of every address and subdenom
/// this system handles (base-32 output stays inside its alphabet), and the
/// lookup hypothesis says any pre-existing registration of this origin is
/// the one this system would create.
pub proof fn lemma_cw20_round_trip(
    tokens: Seq<TokenRegistryV>,
    contract: Seq<char>,
    token_contract: Seq<char>,
    amount: u128,
    p1: Option<Seq<char>>,
    s1: Result<Seq<char>, Seq<char>>,
    m1: Result<(), Seq<char>>,
    unwrap_recipient: Seq<char>,
)
    requires
        !contract.contains('/'),
        !spec_subdenom(TokenType::CW20, token_contract).contains('/'),
        spec_cw20_receive(tokens, contract, token_contract, amount, p1, s1, m1) is Ok,
        spec_lookup_origin(tokens, TokenType::CW20, token_contract) is Some
            ==> spec_lookup_denom(
            tokens,
            denom_text(contract, spec_subdenom(TokenType::CW20, token_contract)),
        ) == Some(
            TokenRegistryV {
                token_type: TokenType::CW20,
                token_address: token_contract,
                wrapped_denom: denom_text(
                    contract,
                    spec_subdenom(TokenType::CW20, token_contract),
                ),
            },
        ),
    ensures
        ({
            let (t1, _fx1) = spec_cw20_receive(
                tokens,
                contract,
                token_contract,
                amount,
                p1,
                s1,
                m1,
            )->Ok_0;
            let denom = denom_text(contract, spec_subdenom(TokenType::CW20, token_contract));
            spec_handle_unwrap(
                t1,
                contract,
                seq![CoinV { denom, amount }],
                TokenType::CW20,
                None,
                Some(unwrap_recipient),
            ) == Ok::<_, ErrV>(
                seq![
                    EffectV::Cw20Transfer {
                        contract_addr: token_contract,
                        recipient: unwrap_recipient,
                        amount,
                    },
                    EffectV::BurnTokens { denom, amount },
                ],
            )
        }),
{
    let sub = spec_subdenom(TokenType::CW20, token_contract);
    let denom = denom_text(contract, sub);
    let entry = TokenRegistryV {
        token_type: TokenType::CW20,
        token_address: token_contract,
        wrapped_denom: denom,
    };
    let (t1, _fx1) = spec_cw20_receive(tokens, contract, token_contract, amount, p1, s1, m1)->Ok_0;
    crate::denom::lemma_denom_text_wrapped(contract, sub);
    if spec_lookup_origin(tokens, TokenType::CW20, token_contract) is Some {
        assert(t1 == tokens);
    } else {
        assert(t1 == spec_insert(tokens, entry));
        assert forall|j: int| 0 <= j < tokens.len() implies (#[trigger] tokens[j].wrapped_denom)
            != denom by {
            if tokens[j].wrapped_denom == denom {
                crate::state::lemma_lookup_denom_at_index(tokens, denom, j);
            }
        }
        crate::state::lemma_lookup_denom_insert(tokens, entry);
    }
    assert(spec_lookup_denom(t1, denom) == Some(entry));
    let funds = seq![CoinV { denom, amount }];
    assert(funds[0] == CoinV { denom, amount });
    let fx = spec_unwrap_fund(t1, contract, funds[0], TokenType::CW20, None, Some(unwrap_recipient));
    assert(fx == Ok::<_, ErrV>(
        seq![
            EffectV::Cw20Transfer {
                contract_addr: token_contract,
                recipient: unwrap_recipient,
                amount,
            },
            EffectV::BurnTokens { denom, amount },
        ],
    ));
    assert(funds.skip(1) =~= Seq::<CoinV>::empty());
    assert(spec_unwrap_funds(
        t1,
        contract,
        Seq::<CoinV>::empty(),
        TokenType::CW20,
        None,
        Some(unwrap_recipient),
    ) == Ok::<_, ErrV>(Seq::<EffectV>::empty()));
    assert(fx->Ok_0 + Seq::<EffectV>::empty() =~= fx->Ok_0);
    assert(spec_unwrap_funds(t1, contract, funds, TokenType::CW20, None, Some(unwrap_recipient))
        == Ok::<_, ErrV>(fx->Ok_0));
}

/// Unwrapping a denomination that does not have the shape
/// `factory/<this-contract>/<subdenom>` fails with
/// `TokenDoesntBelongToContract`, whatever amount is attached.
pub proof fn lemma_unwrap_foreign_denom_fails(
    tokens: Seq<TokenRegistryV>,
    contract: Seq<char>,
    denom: Seq<char>,
    amount: u128,
    token_type: TokenType,
    evm_recipient: Option<Seq<u8>>,
    cosmos_recipient: Option<Seq<char>>,
)
    requires
        !is_wrapped_denom(denom, contract),
    ensures
        spec_handle_unwrap(
            tokens,
            contract,
            seq![CoinV { denom, amount }],
            token_type,
            evm_recipient,
            cosmos_recipient,
        ) == Err::<Seq<EffectV>, ErrV>(ErrV::TokenDoesntBelongToContract),
{
}

} // verus!
