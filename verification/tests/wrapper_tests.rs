use token_wrapper::abi::{
    encode_transfer_from_payload, encode_transfer_payload, transfer_call_bytes,
    transfer_from_call_bytes,
};
use token_wrapper::denom::{denom_belongs, make_denom, token_addr_to_subdenom};
use token_wrapper::error::TokenWrapperError;
use token_wrapper::execute::{handle_cw20_receive, handle_unwrap, handle_wrap_erc20};
use token_wrapper::instantiate;
use token_wrapper::msg::{Coin, TokenType, WrapperEffect};
use token_wrapper::query::{list_wrapped_tokens, token_info, wrapped_denom};
use token_wrapper::reply;
use token_wrapper::state::{WrapperState, UNWRAP_EVM_CALL_ID, WRAP_EVM_CALL_ID};

const CONTRACT: &str = "contractaddr12345678"; // exactly 20 bytes, as the EVM path needs

fn new_state() -> WrapperState {
    instantiate(String::from("owner"))
}

fn wrap_cw20(state: &mut WrapperState, token: &str, amount: u128) -> Vec<WrapperEffect> {
    handle_cw20_receive(
        state,
        &String::from(CONTRACT),
        String::from(token),
        amount,
        None,
        Ok(String::from("alice")),
        Ok(()),
    )
    .expect("wrap should succeed")
}

#[test]
fn subdenom_erc20_uppercases_and_strips_prefix() {
    let s = token_addr_to_subdenom(&TokenType::ERC20, "0xdeadBEEF");
    assert_eq!(s, "crwnDEADBEEF");
    let t = token_addr_to_subdenom(&TokenType::ERC20, "deadBEEF");
    assert_eq!(t, "crwnDEADBEEF");
}

#[test]
fn subdenom_cw20_is_truncated_base32() {
    let addr = "sei1verylongcontractaddressthatneedshashing12345";
    let mut expected =
        base32::encode(base32::Alphabet::Rfc4648Lower { padding: false }, addr.as_bytes());
    expected.truncate(44);
    let s = token_addr_to_subdenom(&TokenType::CW20, addr);
    assert_eq!(s, expected);
    assert_eq!(s.len(), 44);

    let short = "sei1";
    let expected_short =
        base32::encode(base32::Alphabet::Rfc4648Lower { padding: false }, short.as_bytes());
    assert_eq!(token_addr_to_subdenom(&TokenType::CW20, short), expected_short);
}

#[test]
fn subdenom_is_deterministic() {
    for addr in ["0xAABB01", "sei1somecontract", ""] {
        for tt in [TokenType::ERC20, TokenType::CW20] {
            let a = token_addr_to_subdenom(&tt, addr);
            let b = token_addr_to_subdenom(&tt, addr);
            assert_eq!(a, b);
        }
    }
}

#[test]
fn wrap_cw20_registers_and_mints() {
    let mut state = new_state();
    let effects = wrap_cw20(&mut state, "sei1token", 500);
    let subdenom = token_addr_to_subdenom(&TokenType::CW20, "sei1token");
    let denom = make_denom(CONTRACT, &subdenom);
    assert_eq!(
        effects,
        vec![
            WrapperEffect::CreateDenom { subdenom },
            WrapperEffect::MintTokens { denom: denom.clone(), amount: 500 },
            WrapperEffect::SendTokens {
                to_address: String::from("alice"),
                denom: denom.clone(),
                amount: 500
            },
        ]
    );
    let info = token_info(&state, &denom).expect("registered");
    assert_eq!(info.token_type, TokenType::CW20);
    assert_eq!(info.address, "sei1token");
    assert_eq!(info.wrapped_denom, denom);
}

#[test]
fn wrap_cw20_zero_amount_is_unfunded() {
    let mut state = new_state();
    let r = handle_cw20_receive(
        &mut state,
        &String::from(CONTRACT),
        String::from("sei1token"),
        0,
        None,
        Ok(String::from("alice")),
        Ok(()),
    );
    assert!(matches!(r, Err(TokenWrapperError::UnfundedCall)));
    assert_eq!(state.tokens.len(), 0);
}

#[test]
fn wrap_cw20_payload_recipient_wins() {
    let mut state = new_state();
    let effects = handle_cw20_receive(
        &mut state,
        &String::from(CONTRACT),
        String::from("sei1token"),
        7,
        Some(String::from("bob")),
        Ok(String::from("alice")),
        Ok(()),
    )
    .unwrap();
    match &effects[2] {
        WrapperEffect::SendTokens { to_address, amount, .. } => {
            assert_eq!(to_address, "bob");
            assert_eq!(*amount, 7);
        },
        other => panic!("unexpected effect {:?}", other),
    }
}

#[test]
fn wrap_cw20_metadata_failure_propagates() {
    let mut state = new_state();
    let r = handle_cw20_receive(
        &mut state,
        &String::from(CONTRACT),
        String::from("sei1token"),
        5,
        None,
        Ok(String::from("alice")),
        Err(String::from("not a token")),
    );
    assert!(matches!(r, Err(TokenWrapperError::Std(m)) if m == "not a token"));
    assert_eq!(state.tokens.len(), 0);
}

#[test]
fn second_wrap_creates_no_denom() {
    let mut state = new_state();
    let first = wrap_cw20(&mut state, "sei1token", 500);
    assert!(matches!(first[0], WrapperEffect::CreateDenom { .. }));
    assert_eq!(state.tokens.len(), 1);
    // The metadata query is not even consulted the second time.
    let second = handle_cw20_receive(
        &mut state,
        &String::from(CONTRACT),
        String::from("sei1token"),
        300,
        None,
        Ok(String::from("alice")),
        Err(String::from("ignored")),
    )
    .unwrap();
    assert_eq!(state.tokens.len(), 1);
    assert_eq!(second.len(), 2);
    assert!(second.iter().all(|e| !matches!(e, WrapperEffect::CreateDenom { .. })));
}

#[test]
fn cw20_round_trip_returns_same_amount() {
    let mut state = new_state();
    let amount: u128 = 123456;
    wrap_cw20(&mut state, "sei1origin", amount);
    let subdenom = token_addr_to_subdenom(&TokenType::CW20, "sei1origin");
    let denom = make_denom(CONTRACT, &subdenom);
    let funds = vec![Coin { denom: denom.clone(), amount }];
    let effects = handle_unwrap(
        &state,
        &String::from(CONTRACT),
        &funds,
        TokenType::CW20,
        None,
        Some(String::from("alice")),
    )
    .expect("unwrap should succeed");
    assert_eq!(
        effects,
        vec![
            WrapperEffect::Cw20Transfer {
                contract_addr: String::from("sei1origin"),
                recipient: String::from("alice"),
                amount
            },
            WrapperEffect::BurnTokens { denom, amount },
        ]
    );
}

#[test]
fn unwrap_foreign_denom_fails() {
    let mut state = new_state();
    wrap_cw20(&mut state, "sei1origin", 10);
    for (denom, amount) in [
        ("uatom", 1u128),
        ("factory/othercontract000000/crwnAA", 10),
        ("factory/contractaddr12345678", 100),
        ("factory/contractaddr12345678/a/b", 1000),
    ] {
        let funds = vec![Coin { denom: String::from(denom), amount }];
        let r = handle_unwrap(
            &state,
            &String::from(CONTRACT),
            &funds,
            TokenType::CW20,
            None,
            Some(String::from("alice")),
        );
        assert!(
            matches!(r, Err(TokenWrapperError::TokenDoesntBelongToContract)),
            "denom {} should not belong",
            denom
        );
    }
}

#[test]
fn unwrap_unregistered_own_shape_fails() {
    let state = new_state();
    let denom = format!("factory/{}/crwnAABB", CONTRACT);
    let funds = vec![Coin { denom, amount: 5 }];
    let r = handle_unwrap(
        &state,
        &String::from(CONTRACT),
        &funds,
        TokenType::ERC20,
        Some(vec![0x11; 20]),
        None,
    );
    assert!(matches!(r, Err(TokenWrapperError::TokenDoesntBelongToContract)));
}

#[test]
fn unwrap_without_funds_fails() {
    let state = new_state();
    let r = handle_unwrap(
        &state,
        &String::from(CONTRACT),
        &Vec::new(),
        TokenType::CW20,
        None,
        Some(String::from("alice")),
    );
    assert!(matches!(r, Err(TokenWrapperError::UnfundedCall)));
}

#[test]
fn unwrap_type_mismatch_fails() {
    let mut state = new_state();
    wrap_cw20(&mut state, "sei1origin", 10);
    let subdenom = token_addr_to_subdenom(&TokenType::CW20, "sei1origin");
    let denom = make_denom(CONTRACT, &subdenom);
    let funds = vec![Coin { denom, amount: 10 }];
    let r = handle_unwrap(
        &state,
        &String::from(CONTRACT),
        &funds,
        TokenType::ERC20,
        Some(vec![0x11; 20]),
        None,
    );
    assert!(matches!(r, Err(TokenWrapperError::InvalidTokenType)));
}

#[test]
fn unwrap_missing_or_bad_recipient_fails() {
    let mut state = new_state();
    wrap_cw20(&mut state, "sei1origin", 10);
    let subdenom = token_addr_to_subdenom(&TokenType::CW20, "sei1origin");
    let denom = make_denom(CONTRACT, &subdenom);
    let funds = vec![Coin { denom, amount: 10 }];
    let r = handle_unwrap(&state, &String::from(CONTRACT), &funds, TokenType::CW20, None, None);
    assert!(matches!(r, Err(TokenWrapperError::MissingRecipient)));
}

#[test]
fn wrap_erc20_without_prefix_fails_before_state_changes() {
    let mut state = new_state();
    let r = handle_wrap_erc20(
        &mut state,
        &String::from(CONTRACT),
        String::from("alice"),
        &Vec::new(),
        vec![0x22; 20],
        String::from("deadbeef"),
        1000,
        None,
        Ok(()),
    );
    assert!(matches!(r, Err(TokenWrapperError::InvalidEvmAddress(a)) if a == "deadbeef"));
    assert_eq!(state.tokens.len(), 0);
}

#[test]
fn wrap_erc20_bad_hex_or_length_fails() {
    let mut state = new_state();
    for addr in ["0xdeadbeef", "0xZZdde305243d3314b22d3c3bf6a7bf238926b2dAA0", "0x123"] {
        let r = handle_wrap_erc20(
            &mut state,
            &String::from(CONTRACT),
            String::from("alice"),
            &Vec::new(),
            vec![0x22; 20],
            String::from(addr),
            1000,
            None,
            Ok(()),
        );
        assert!(matches!(r, Err(TokenWrapperError::InvalidEvmAddress(_))), "addr {}", addr);
        assert_eq!(state.tokens.len(), 0);
    }
}

#[test]
fn wrap_erc20_rejects_attached_funds() {
    let mut state = new_state();
    let funds = vec![Coin { denom: String::from("usei"), amount: 1 }];
    let r = handle_wrap_erc20(
        &mut state,
        &String::from(CONTRACT),
        String::from("alice"),
        &funds,
        vec![0x22; 20],
        String::from("0xdde305243d3314b22d3c3bf6a7bf238926b2da00"),
        1000,
        None,
        Ok(()),
    );
    assert!(matches!(r, Err(TokenWrapperError::PaymentError)));
}

#[test]
fn wrap_erc20_failed_metadata_query_fails() {
    let mut state = new_state();
    let r = handle_wrap_erc20(
        &mut state,
        &String::from(CONTRACT),
        String::from("alice"),
        &Vec::new(),
        vec![0x22; 20],
        String::from("0xdde305243d3314b22d3c3bf6a7bf238926b2da00"),
        1000,
        None,
        Err(String::from("no such contract")),
    );
    assert!(matches!(r, Err(TokenWrapperError::InvalidERC20Contract(m)) if m == "no such contract"));
}

#[test]
fn wrap_erc20_emits_call_mint_send() {
    let mut state = new_state();
    let token = "0xdde305243d3314b22d3c3bf6a7bf238926b2da00";
    let owner: Vec<u8> = vec![0x22; 20];
    let effects = handle_wrap_erc20(
        &mut state,
        &String::from(CONTRACT),
        String::from("alice"),
        &Vec::new(),
        owner.clone(),
        String::from(token),
        1000,
        Some(String::from("bob")),
        Ok(()),
    )
    .expect("wrap should succeed");
    let subdenom = token_addr_to_subdenom(&TokenType::ERC20, token);
    let denom = make_denom(CONTRACT, &subdenom);
    let contract_bytes: Vec<u8> = CONTRACT.as_bytes().to_vec();
    let payload = encode_transfer_from_payload(&owner, &contract_bytes, 1000).unwrap();
    assert_eq!(
        effects,
        vec![
            WrapperEffect::CreateDenom { subdenom },
            WrapperEffect::CallEvm {
                call_id: WRAP_EVM_CALL_ID,
                to: String::from(token),
                data: payload
            },
            WrapperEffect::MintTokens { denom: denom.clone(), amount: 1000 },
            WrapperEffect::SendTokens { to_address: String::from("bob"), denom, amount: 1000 },
        ]
    );
    assert_eq!(state.tokens.len(), 1);
    // The registry stores the case-normalized origin address.
    assert_eq!(state.tokens[0].token_address, "0xDDE305243D3314B22D3C3BF6A7BF238926B2DA00");
}

#[test]
fn wrap_erc20_same_token_different_case_registers_once() {
    let mut state = new_state();
    let lower = "0xdde305243d3314b22d3c3bf6a7bf238926b2da00";
    let upper = "0xDDE305243D3314B22D3C3BF6A7BF238926B2DA00";
    for (i, token) in [lower, upper].iter().enumerate() {
        let effects = handle_wrap_erc20(
            &mut state,
            &String::from(CONTRACT),
            String::from("alice"),
            &Vec::new(),
            vec![0x22; 20],
            String::from(*token),
            10,
            None,
            Ok(()),
        )
        .unwrap();
        let creates = effects
            .iter()
            .filter(|e| matches!(e, WrapperEffect::CreateDenom { .. }))
            .count();
        assert_eq!(creates, if i == 0 { 1 } else { 0 });
    }
    assert_eq!(state.tokens.len(), 1);
}

#[test]
fn erc20_unwrap_emits_transfer_call_and_burn() {
    let mut state = new_state();
    let token = "0xdde305243d3314b22d3c3bf6a7bf238926b2da00";
    handle_wrap_erc20(
        &mut state,
        &String::from(CONTRACT),
        String::from("alice"),
        &Vec::new(),
        vec![0x22; 20],
        String::from(token),
        1000,
        None,
        Ok(()),
    )
    .unwrap();
    let subdenom = token_addr_to_subdenom(&TokenType::ERC20, token);
    let denom = make_denom(CONTRACT, &subdenom);
    let recipient: Vec<u8> = vec![0x33; 20];
    let funds = vec![Coin { denom: denom.clone(), amount: 400 }];
    let effects = handle_unwrap(
        &state,
        &String::from(CONTRACT),
        &funds,
        TokenType::ERC20,
        Some(recipient.clone()),
        None,
    )
    .unwrap();
    assert_eq!(
        effects,
        vec![
            WrapperEffect::CallEvm {
                call_id: UNWRAP_EVM_CALL_ID,
                to: String::from("0xDDE305243D3314B22D3C3BF6A7BF238926B2DA00"),
                data: encode_transfer_payload(&recipient, 400),
            },
            WrapperEffect::BurnTokens { denom, amount: 400 },
        ]
    );

    // A 19-byte recipient is rejected.
    let r = handle_unwrap(
        &state,
        &String::from(CONTRACT),
        &funds,
        TokenType::ERC20,
        Some(vec![0x33; 19]),
        None,
    );
    assert!(matches!(r, Err(TokenWrapperError::InvalidRecipient)));
    // A missing recipient is rejected.
    let r = handle_unwrap(&state, &String::from(CONTRACT), &funds, TokenType::ERC20, None, None);
    assert!(matches!(r, Err(TokenWrapperError::MissingRecipient)));
}

#[test]
fn transfer_payload_layout_is_exact() {
    let recipient: Vec<u8> = vec![0x11; 20];
    let raw = transfer_call_bytes(&recipient, 1000);
    let mut expected: Vec<u8> = vec![0xa9, 0x05, 0x9c, 0xbb];
    expected.extend_from_slice(&[0u8; 12]);
    expected.extend_from_slice(&[0x11; 20]);
    expected.extend_from_slice(&[0u8; 16]);
    expected.extend_from_slice(&1000u128.to_be_bytes());
    assert_eq!(raw.len(), 68);
    assert_eq!(raw, expected);
    // The transported form is the standard base64 of those bytes.
    let encoded = encode_transfer_payload(&recipient, 1000);
    assert_eq!(encoded, cosmwasm_std::Binary::from(expected).to_base64());
}

#[test]
fn transfer_from_payload_layout_is_exact() {
    let owner: Vec<u8> = vec![0x22; 20];
    let recipient: Vec<u8> = vec![0x11; 20];
    let raw = transfer_from_call_bytes(&owner, &recipient, 77);
    let mut expected: Vec<u8> = vec![0x23, 0xb8, 0x72, 0xdd];
    expected.extend_from_slice(&[0u8; 12]);
    expected.extend_from_slice(&[0x22; 20]);
    expected.extend_from_slice(&[0u8; 12]);
    expected.extend_from_slice(&[0x11; 20]);
    expected.extend_from_slice(&[0u8; 16]);
    expected.extend_from_slice(&77u128.to_be_bytes());
    assert_eq!(raw.len(), 100);
    assert_eq!(raw, expected);
    let encoded = encode_transfer_from_payload(&owner, &recipient, 77).unwrap();
    assert_eq!(encoded, cosmwasm_std::Binary::from(expected).to_base64());
}

#[test]
fn transfer_from_rejects_non_20_byte_owner() {
    let recipient: Vec<u8> = vec![0x11; 20];
    let r = encode_transfer_from_payload(&vec![0xab, 0xcd], &recipient, 1);
    assert!(matches!(r, Err(TokenWrapperError::InvalidEvmAddress(a)) if a == "0xabcd"));
}

#[test]
fn reply_accepts_only_exact_true_payload() {
    let mut good = vec![0u8; 31];
    good.push(1);
    assert!(reply(WRAP_EVM_CALL_ID, Ok(Some(good.clone()))).is_ok());
    assert!(reply(UNWRAP_EVM_CALL_ID, Ok(Some(good))).is_ok());

    // Any other 32-byte payload is rejected.
    let mut two = vec![0u8; 31];
    two.push(2);
    let r = reply(WRAP_EVM_CALL_ID, Ok(Some(two.clone())));
    assert!(matches!(r, Err(TokenWrapperError::UnexpectedEvmReply(d)) if d == two));
    let zeros = vec![0u8; 32];
    let r = reply(WRAP_EVM_CALL_ID, Ok(Some(zeros.clone())));
    assert!(matches!(r, Err(TokenWrapperError::UnexpectedEvmReply(d)) if d == zeros));
    let mut leading = vec![1u8];
    leading.extend_from_slice(&[0u8; 31]);
    let r = reply(WRAP_EVM_CALL_ID, Ok(Some(leading.clone())));
    assert!(matches!(r, Err(TokenWrapperError::UnexpectedEvmReply(d)) if d == leading));
}

#[test]
fn reply_rejects_failures_and_unknown_ids() {
    let r = reply(WRAP_EVM_CALL_ID, Err(String::from("call reverted")));
    assert!(matches!(r, Err(TokenWrapperError::FailedReply(m)) if m == "call reverted"));
    let r = reply(UNWRAP_EVM_CALL_ID, Ok(None));
    assert!(matches!(r, Err(TokenWrapperError::FailedReply(m)) if m == "no return data"));
    let mut good = vec![0u8; 31];
    good.push(1);
    let r = reply(42, Ok(Some(good)));
    assert!(matches!(r, Err(TokenWrapperError::InvalidReplyId(42))));
}

#[test]
fn list_wrapped_tokens_clamps_orders_and_paginates() {
    let mut state = new_state();
    for i in 0..35u32 {
        let token = format!("sei1token{:02}", i);
        wrap_cw20(&mut state, &token, 1);
    }
    assert_eq!(state.tokens.len(), 35);

    let page = list_wrapped_tokens(&state, None, Some(100));
    assert_eq!(page.len(), 30);
    for w in page.windows(2) {
        assert!(w[0].wrapped_denom < w[1].wrapped_denom);
    }

    // Resuming after the last entry returns the remaining five, none repeated.
    let last = page.last().unwrap().wrapped_denom.clone();
    let rest = list_wrapped_tokens(&state, Some(last), Some(100));
    assert_eq!(rest.len(), 5);
    let mut seen: Vec<String> = page.iter().map(|t| t.wrapped_denom.clone()).collect();
    seen.extend(rest.iter().map(|t| t.wrapped_denom.clone()));
    let total = seen.len();
    seen.sort();
    seen.dedup();
    assert_eq!(seen.len(), total);

    // Default page size is 10; an explicit zero yields nothing.
    assert_eq!(list_wrapped_tokens(&state, None, None).len(), 10);
    assert_eq!(list_wrapped_tokens(&state, None, Some(0)).len(), 0);
    assert_eq!(list_wrapped_tokens(&state, None, Some(3)).len(), 3);
}

#[test]
fn token_info_unknown_denom_fails() {
    let state = new_state();
    let r = token_info(&state, "factory/contractaddr12345678/crwnAA");
    assert!(matches!(r, Err(TokenWrapperError::Std(m)) if m == "Token not found"));
}

#[test]
fn wrapped_denom_query_computes_or_looks_up() {
    let mut state = new_state();
    let token = "0xdde305243d3314b22d3c3bf6a7bf238926b2da00";
    let subdenom = token_addr_to_subdenom(&TokenType::ERC20, token);
    let expected = make_denom(CONTRACT, &subdenom);

    // Unregistered: the denomination is computed, not persisted.
    let computed = wrapped_denom(
        &state,
        &String::from(CONTRACT),
        TokenType::ERC20,
        String::from(token),
        Ok(String::from("unused")),
    )
    .unwrap();
    assert_eq!(computed, expected);
    assert_eq!(state.tokens.len(), 0);

    // Registered: the stored mapping answers, in any spelling of the address.
    handle_wrap_erc20(
        &mut state,
        &String::from(CONTRACT),
        String::from("alice"),
        &Vec::new(),
        vec![0x22; 20],
        String::from(token),
        1,
        None,
        Ok(()),
    )
    .unwrap();
    let looked_up = wrapped_denom(
        &state,
        &String::from(CONTRACT),
        TokenType::ERC20,
        String::from("0xDDE305243D3314B22D3C3BF6A7BF238926B2DA00"),
        Ok(String::from("unused")),
    )
    .unwrap();
    assert_eq!(looked_up, expected);

    // CW path: a failed address validation propagates.
    let r = wrapped_denom(
        &state,
        &String::from(CONTRACT),
        TokenType::CW20,
        String::from("not-an-address"),
        Err(String::from("invalid address")),
    );
    assert!(matches!(r, Err(TokenWrapperError::Std(m)) if m == "invalid address"));
}

#[test]
fn denom_belongs_checks_shape() {
    assert!(denom_belongs("factory/contractaddr12345678/crwnAA", CONTRACT));
    assert!(!denom_belongs("factory/contractaddr12345678/crwn/AA", CONTRACT));
    assert!(!denom_belongs("factory/other/crwnAA", CONTRACT));
    assert!(!denom_belongs("factoryXcontractaddr12345678/crwnAA", CONTRACT));
    assert!(!denom_belongs("uatom", CONTRACT));
    assert!(denom_belongs("factory/contractaddr12345678/", CONTRACT));
}

#[test]
fn register_refuses_denom_collision() {
    let mut state = new_state();
    state
        .register(
            TokenType::CW20,
            String::from("sei1one"),
            String::from("factory/c/dup"),
        )
        .unwrap();
    let r = state.register(
        TokenType::CW20,
        String::from("sei1two"),
        String::from("factory/c/dup"),
    );
    assert!(matches!(r, Err(TokenWrapperError::Std(_))));
    assert_eq!(state.tokens.len(), 1);
}
