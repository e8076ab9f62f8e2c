//! The closed error taxonomy of the wrapping engine. Every error is fatal to
//! the enclosing transaction; lower-level failures reported by the host
//! (address validation, metadata queries, failed cross-environment calls)
//! are carried as their message text.
use vstd::prelude::*;

verus! {

#[derive(Clone, Debug, PartialEq, Eq)]
pub enum TokenWrapperError {
    /// A host-level failure, carried with its message.
    Std(String),
    /// Native funds were attached to a call that accepts none.
    PaymentError,
    /// The host reported a failed cross-environment call, or one without
    /// return data; the message describes which.
    FailedReply(String),
    /// The named EVM address is not `0x` + 40 hexadecimal digits.
    InvalidEvmAddress(String),
    /// The tokens received were not created by this system.
    TokenDoesntBelongToContract,
    /// No tokens were sent with a call that needs funds.
    UnfundedCall,
    /// The named contract did not answer the ERC20 metadata query.
    InvalidERC20Contract(String),
    /// The recipient address does not have the required 20-byte length.
    InvalidRecipient,
    /// A continuation arrived under an id this system never issued.
    InvalidReplyId(u64),
    /// A cross-environment call returned something other than the 32-byte
    /// encoding of boolean true.
    UnexpectedEvmReply(Vec<u8>),
    /// The wrapped token's origin kind does not match the requested one.
    InvalidTokenType,
    /// No recipient address was supplied for an unwrap operation.
    MissingRecipient,
    /// The token is not registered in this system.
    TokenNotRegistered,
}

/// Ghost image of [`TokenWrapperError`].
#[verifier::ext_equal]
pub enum ErrV {
    Std(Seq<char>),
    PaymentError,
    FailedReply(Seq<char>),
    InvalidEvmAddress(Seq<char>),
    TokenDoesntBelongToContract,
    UnfundedCall,
    InvalidERC20Contract(Seq<char>),
    InvalidRecipient,
    InvalidReplyId(u64),
    UnexpectedEvmReply(Seq<u8>),
    InvalidTokenType,
    MissingRecipient,
    TokenNotRegistered,
}

impl View for TokenWrapperError {
    type V = ErrV;

    open spec fn view(&self) -> ErrV {
        match self {
            TokenWrapperError::Std(m) => ErrV::Std(m@),
            TokenWrapperError::PaymentError => ErrV::PaymentError,
            TokenWrapperError::FailedReply(m) => ErrV::FailedReply(m@),
            TokenWrapperError::InvalidEvmAddress(a) => ErrV::InvalidEvmAddress(a@),
            TokenWrapperError::TokenDoesntBelongToContract => ErrV::TokenDoesntBelongToContract,
            TokenWrapperError::UnfundedCall => ErrV::UnfundedCall,
            TokenWrapperError::InvalidERC20Contract(m) => ErrV::InvalidERC20Contract(m@),
            TokenWrapperError::InvalidRecipient => ErrV::InvalidRecipient,
            TokenWrapperError::InvalidReplyId(id) => ErrV::InvalidReplyId(*id),
            TokenWrapperError::UnexpectedEvmReply(d) => ErrV::UnexpectedEvmReply(d@),
            TokenWrapperError::InvalidTokenType => ErrV::InvalidTokenType,
            TokenWrapperError::MissingRecipient => ErrV::MissingRecipient,
            TokenWrapperError::TokenNotRegistered => ErrV::TokenNotRegistered,
        }
    }
}

impl TokenWrapperError {
    /// A short description of the error, for callers that need to render it.
    pub fn describe(&self) -> (r: &'static str)
    {
        match self {
            TokenWrapperError::Std(_) => "host error",
            TokenWrapperError::PaymentError => "this message accepts no funds",
            TokenWrapperError::FailedReply(_) => "failed reply",
            TokenWrapperError::InvalidEvmAddress(_) => "the EVM address is not valid",
            TokenWrapperError::TokenDoesntBelongToContract => "the tokens received were not created by this contract",
            TokenWrapperError::UnfundedCall => "no tokens were sent to this contract",
            TokenWrapperError::InvalidERC20Contract(_) => "failed to verify contract was an ERC20 token",
            TokenWrapperError::InvalidRecipient => "the recipient address must be 20 bytes long",
            TokenWrapperError::InvalidReplyId(_) => "the reply id is invalid",
            TokenWrapperError::UnexpectedEvmReply(_) => "unexpected reply from EVM contract",
            TokenWrapperError::InvalidTokenType => "invalid token type for this operation",
            TokenWrapperError::MissingRecipient => "missing recipient address for unwrap operation",
            TokenWrapperError::TokenNotRegistered => "token not registered in this contract",
        }
    }
}

} // verus!
