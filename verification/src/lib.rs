//! A verified core for a token-wrapping engine on a transactional host
//! ledger: it derives canonical wrapped denominations for origin tokens
//! (CW-style contract tokens and EVM-style ERC20 tokens), keeps the
//! origin-token <-> denomination registry, builds the exact EVM call payloads
//! needed to move value, and validates the asynchronous completion callbacks
//! of cross-environment calls. All host interaction (storage, queries,
//! message dispatch) happens outside this crate; the functions here take
//! plain values and return explicit effect lists.
use vstd::prelude::*;

pub mod abi;
pub mod denom;
pub mod error;
pub mod execute;
pub mod msg;
pub mod query;
pub mod state;
pub mod text;

use crate::abi::evm_true_bytes;
use crate::error::{ErrV, TokenWrapperError};
use crate::msg::reply_view;
use crate::state::{Config, TokenRegistryV, WrapperState, UNWRAP_EVM_CALL_ID, WRAP_EVM_CALL_ID};

verus! {

/// Initializes the state: the configuration records the instantiating
/// sender as the owner and the registry starts empty.
pub fn instantiate(sender: String) -> (r: WrapperState)
    ensures
        r.wf(),
        r@.config.owner == Some(sender@),
        r@.tokens == Seq::<TokenRegistryV>::empty(),
{
    let state = WrapperState { config: Config { owner: Some(sender) }, tokens: Vec::new() };
    proof {
        assert(state@.tokens =~= Seq::<TokenRegistryV>::empty());
    }
    state
}

/// What the continuation validator decides for a reported call completion:
/// only the two ids this system issues are accepted; the call must have
/// succeeded, must have returned data, and the data must be exactly the
/// 32-byte encoding of boolean true. On acceptance there is no further
/// effect; everything else aborts the transaction.
pub open spec fn spec_reply(id: u64, result: Result<Option<Seq<u8>>, Seq<char>>) -> Result<
    (),
    ErrV,
> {
    if id == WRAP_EVM_CALL_ID || id == UNWRAP_EVM_CALL_ID {
        match result {
            Err(m) => Err(ErrV::FailedReply(m)),
            Ok(None) => Err(ErrV::FailedReply("no return data"@)),
            Ok(Some(data)) => {
                if data == evm_true_bytes() {
                    Ok(())
                } else {
                    Err(ErrV::UnexpectedEvmReply(data))
                }
            },
        }
    } else {
        Err(ErrV::InvalidReplyId(id))
    }
}

/// The continuation validator: invoked by the host when a previously issued
/// cross-environment call completes, with the call's continuation id and
/// either its raw return payload or its failure message.
pub fn reply(id: u64, result: Result<Option<Vec<u8>>, String>) -> (r: Result<
    (),
    TokenWrapperError,
>)
    ensures
        match r {
            Ok(u) => spec_reply(id, reply_view(result)) == Ok::<(), ErrV>(u),
            Err(e) => spec_reply(id, reply_view(result)) == Err::<(), ErrV>(e@),
        },
{
    if id == WRAP_EVM_CALL_ID || id == UNWRAP_EVM_CALL_ID {
        match result {
            Err(m) => Err(TokenWrapperError::FailedReply(m)),
            Ok(None) => Err(TokenWrapperError::FailedReply(String::from_str("no return data"))),
            Ok(Some(data)) => {
                if crate::abi::is_evm_true(&data) {
                    Ok(())
                } else {
                    Err(TokenWrapperError::UnexpectedEvmReply(data))
                }
            },
        }
    } else {
        Err(TokenWrapperError::InvalidReplyId(id))
    }
}

/// A continuation receiving any payload other than the exact 32-byte
/// encoding of boolean true fails with `UnexpectedEvmReply`; it is never
/// silently accepted.
pub proof fn lemma_reply_rejects_unexpected_payload(id: u64, data: Seq<u8>)
    requires
        id == WRAP_EVM_CALL_ID || id == UNWRAP_EVM_CALL_ID,
        data != evm_true_bytes(),
    ensures
        spec_reply(id, Ok(Some(data))) == Err::<(), ErrV>(ErrV::UnexpectedEvmReply(data)),
{
}

} // verus!
