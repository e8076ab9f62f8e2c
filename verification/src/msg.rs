//! The data model of the wrapping engine: origin-token kinds, registry
//! records, the request and query shapes the execution entry point accepts,
//! and the effects the handlers emit for the host to execute.
use vstd::prelude::*;

verus! {

/// Kind of the origin token a wrapped denomination stands for.
#[derive(Clone, Copy, Debug, PartialEq, Eq, Structural)]
pub enum TokenType {
    ERC20,
    CW20,
}

/// Answer shape of the token-info and list queries.
#[derive(Clone, Debug, PartialEq, Eq)]
pub struct TokenInfo {
    pub token_type: TokenType,
    pub address: String,
    pub wrapped_denom: String,
}

/// Ghost image of [`TokenInfo`].
#[verifier::ext_equal]
pub struct TokenInfoV {
    pub token_type: TokenType,
    pub address: Seq<char>,
    pub wrapped_denom: Seq<char>,
}

impl View for TokenInfo {
    type V = TokenInfoV;

    open spec fn view(&self) -> TokenInfoV {
        TokenInfoV {
            token_type: self.token_type,
            address: self.address@,
            wrapped_denom: self.wrapped_denom@,
        }
    }
}

/// An inbound CW-token transfer notification: the sending contract has moved
/// `amount` of its token to this system on behalf of `sender`; `msg` is an
/// arbitrary byte payload that may name a recipient.
#[derive(Clone, Debug, PartialEq, Eq)]
pub struct Cw20ReceiveMsg {
    pub sender: String,
    pub amount: u128,
    pub msg: Vec<u8>,
}

/// Request shapes accepted by the execution entry point.
#[derive(Clone, Debug, PartialEq, Eq)]
pub enum TokenWrapperExecMsg {
    Receive(Cw20ReceiveMsg),
    WrapERC20 { evm_sender: Vec<u8>, recipient: Option<String>, token_addr: String, amount: u128 },
    Unwrap {
        token_type: TokenType,
        evm_recipient: Option<Vec<u8>>,
        cosmos_recipient: Option<String>,
    },
}

/// Query shapes.
#[derive(Clone, Debug, PartialEq, Eq)]
pub enum TokenWrapperQueryMsg {
    TokenInfo { denom: String },
    WrappedDenom { token_type: TokenType, token_address: String },
    ListWrappedTokens { start_after: Option<String>, limit: Option<u32> },
}

/// Instantiation request (no parameters).
#[derive(Clone, Debug, PartialEq, Eq)]
pub struct InstantiateMsg {}

/// Migration request (no parameters).
#[derive(Clone, Debug, PartialEq, Eq)]
pub struct MigrateMsg {}

/// One attached amount of a denomination.
#[derive(Clone, Debug, PartialEq, Eq)]
pub struct Coin {
    pub denom: String,
    pub amount: u128,
}

/// Ghost image of [`Coin`].
#[verifier::ext_equal]
pub struct CoinV {
    pub denom: Seq<char>,
    pub amount: u128,
}

impl View for Coin {
    type V = CoinV;

    open spec fn view(&self) -> CoinV {
        CoinV { denom: self.denom@, amount: self.amount }
    }
}

/// One instruction handed back to the host for execution, in order. A
/// `CallEvm` effect is a cross-environment call; the host must report its
/// completion back through the continuation validator under `call_id`.
#[derive(Clone, Debug, PartialEq, Eq)]
pub enum WrapperEffect {
    /// Ask the host to create the factory denomination `factory/<contract>/<subdenom>`.
    CreateDenom { subdenom: String },
    /// Mint `amount` of the wrapped denomination to this system.
    MintTokens { denom: String, amount: u128 },
    /// Send `amount` of the wrapped denomination to `to_address`.
    SendTokens { to_address: String, denom: String, amount: u128 },
    /// Burn `amount` of the wrapped denomination.
    BurnTokens { denom: String, amount: u128 },
    /// Invoke the EVM contract `to` with the base64-encoded call data `data`;
    /// the completion is reported back under `call_id`.
    CallEvm { call_id: u64, to: String, data: String },
    /// Ask the origin CW contract to transfer `amount` of its token to `recipient`.
    Cw20Transfer { contract_addr: String, recipient: String, amount: u128 },
}

/// Ghost image of [`WrapperEffect`].
#[verifier::ext_equal]
pub enum EffectV {
    CreateDenom { subdenom: Seq<char> },
    MintTokens { denom: Seq<char>, amount: u128 },
    SendTokens { to_address: Seq<char>, denom: Seq<char>, amount: u128 },
    BurnTokens { denom: Seq<char>, amount: u128 },
    CallEvm { call_id: u64, to: Seq<char>, data: Seq<char> },
    Cw20Transfer { contract_addr: Seq<char>, recipient: Seq<char>, amount: u128 },
}

impl View for WrapperEffect {
    type V = EffectV;

    open spec fn view(&self) -> EffectV {
        match self {
            WrapperEffect::CreateDenom { subdenom } => EffectV::CreateDenom { subdenom: subdenom@ },
            WrapperEffect::MintTokens { denom, amount } => EffectV::MintTokens {
                denom: denom@,
                amount: *amount,
            },
            WrapperEffect::SendTokens { to_address, denom, amount } => EffectV::SendTokens {
                to_address: to_address@,
                denom: denom@,
                amount: *amount,
            },
            WrapperEffect::BurnTokens { denom, amount } => EffectV::BurnTokens {
                denom: denom@,
                amount: *amount,
            },
            WrapperEffect::CallEvm { call_id, to, data } => EffectV::CallEvm {
                call_id: *call_id,
                to: to@,
                data: data@,
            },
            WrapperEffect::Cw20Transfer { contract_addr, recipient, amount } => {
                EffectV::Cw20Transfer {
                    contract_addr: contract_addr@,
                    recipient: recipient@,
                    amount: *amount,
                }
            },
        }
    }
}

/// Ghost view of an effect list.
pub open spec fn effects_view(v: Seq<WrapperEffect>) -> Seq<EffectV> {
    v.map_values(|e: WrapperEffect| e@)
}

/// Ghost view of a fund list.
pub open spec fn coins_view(v: Seq<Coin>) -> Seq<CoinV> {
    v.map_values(|c: Coin| c@)
}

/// Ghost view of an optional string.
pub open spec fn opt_str_view(o: Option<String>) -> Option<Seq<char>> {
    match o {
        Some(s) => Some(s@),
        None => None,
    }
}

/// Ghost view of an optional byte string.
pub open spec fn opt_bytes_view(o: Option<Vec<u8>>) -> Option<Seq<u8>> {
    match o {
        Some(b) => Some(b@),
        None => None,
    }
}

/// Ghost view of a host outcome carrying a string.
pub open spec fn res_str_view(r: Result<String, String>) -> Result<Seq<char>, Seq<char>> {
    match r {
        Ok(s) => Ok(s@),
        Err(m) => Err(m@),
    }
}

/// Ghost view of a reported call completion: either the raw return payload
/// (absent when the call returned no data) or the failure message.
pub open spec fn reply_view(r: Result<Option<Vec<u8>>, String>) -> Result<
    Option<Seq<u8>>,
    Seq<char>,
> {
    match r {
        Ok(d) => Ok(opt_bytes_view(d)),
        Err(m) => Err(m@),
    }
}

/// Ghost view of a host outcome carrying nothing.
pub open spec fn res_unit_view(r: Result<(), String>) -> Result<(), Seq<char>> {
    match r {
        Ok(u) => Ok(u),
        Err(m) => Err(m@),
    }
}

} // verus!
