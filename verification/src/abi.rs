//! Byte-exact construction of the two EVM call payloads this system issues:
//! `transfer(address,uint256)` and `transferFrom(address,address,uint256)`,
//! in the standard call-data layout (4-byte selector, arguments right-aligned
//! in 32-byte slots), base64-encoded for the host's dispatch interface.
use vstd::prelude::*;

use crate::error::{ErrV, TokenWrapperError};
use crate::text::{hex_lower, hex_lower_of};

verus! {

/// Selector of `transfer(address,uint256)`.
pub open spec fn transfer_selector() -> Seq<u8> {
    seq![0xa9u8, 0x05u8, 0x9cu8, 0xbbu8]
}

/// Selector of `transferFrom(address,address,uint256)`.
pub open spec fn transfer_from_selector() -> Seq<u8> {
    seq![0x23u8, 0xb8u8, 0x72u8, 0xddu8]
}

pub open spec fn zero_bytes(n: int) -> Seq<u8> {
    Seq::new(n as nat, |i: int| 0u8)
}

/// Byte `i` (big-endian, most significant first) of a 128-bit amount.
pub open spec fn u128_byte(a: u128, i: int) -> u8 {
    (a >> (((15 - i) * 8) as u128)) as u8
}

/// The 16-byte big-endian encoding of a 128-bit amount.
pub open spec fn u128_be_bytes(a: u128) -> Seq<u8> {
    Seq::new(16, |i: int| u128_byte(a, i))
}

/// The raw 68-byte call data of `transfer(recipient, amount)`: selector,
/// 12 zero bytes + 20 recipient bytes, 16 zero bytes + 16 amount bytes.
pub open spec fn transfer_call_data(recipient: Seq<u8>, amount: u128) -> Seq<u8> {
    transfer_selector() + zero_bytes(12) + recipient + zero_bytes(16) + u128_be_bytes(amount)
}

/// The raw 100-byte call data of `transferFrom(owner, recipient, amount)`.
pub open spec fn transfer_from_call_data(owner: Seq<u8>, recipient: Seq<u8>, amount: u128) -> Seq<
    u8,
> {
    transfer_from_selector() + zero_bytes(12) + owner + zero_bytes(12) + recipient + zero_bytes(16)
        + u128_be_bytes(amount)
}

/// Appends `n` zero bytes.
fn push_zero_bytes(v: &mut Vec<u8>, n: usize)
    ensures
        final(v)@ == old(v)@ + zero_bytes(n as int),
{
    let ghost base = v@;
    let mut i: usize = 0;
    while i < n
        invariant
            0 <= i <= n,
            v@ == base + zero_bytes(i as int),
        decreases n - i,
    {
        v.push(0u8);
        proof {
            assert(base + zero_bytes(i + 1) =~= (base + zero_bytes(i as int)).push(0u8));
        }
        i = i + 1;
    }
}

/// Appends the 16-byte big-endian encoding of the amount.
fn push_be_u128(v: &mut Vec<u8>, amount: u128)
    ensures
        final(v)@ == old(v)@ + u128_be_bytes(amount),
{
    let ghost base = v@;
    let mut i: usize = 0;
    while i < 16
        invariant
            0 <= i <= 16,
            v@ == base + u128_be_bytes(amount).take(i as int),
        decreases 16 - i,
    {
        let sh: u128 = ((15 - i) * 8) as u128;
        let b: u8 = (amount >> sh) as u8;
        v.push(b);
        proof {
            assert(b == u128_byte(amount, i as int));
            assert(base + u128_be_bytes(amount).take(i + 1) =~= (base + u128_be_bytes(
                amount,
            ).take(i as int)).push(b));
        }
        i = i + 1;
    }
    proof {
        assert(u128_be_bytes(amount).take(16) =~= u128_be_bytes(amount));
    }
}

/// Appends all bytes of `b`.
fn push_all(v: &mut Vec<u8>, b: &Vec<u8>)
    ensures
        final(v)@ == old(v)@ + b@,
{
    let ghost base = v@;
    let n = b.len();
    let mut i: usize = 0;
    while i < n
        invariant
            0 <= i <= n,
            n == b@.len(),
            v@ == base + b@.take(i as int),
        decreases n - i,
    {
        v.push(b[i]);
        proof {
            assert(base + b@.take(i + 1) =~= (base + b@.take(i as int)).push(b@[i as int]));
        }
        i = i + 1;
    }
    proof {
        assert(b@.take(n as int) =~= b@);
    }
}

/// The raw call data of `transfer(recipient, amount)`: exactly 68 bytes.
pub fn transfer_call_bytes(recipient: &Vec<u8>, amount: u128) -> (r: Vec<u8>)
    requires
        recipient@.len() == 20,
    ensures
        r@ == transfer_call_data(recipient@, amount),
        r@.len() == 68,
{
    let mut v: Vec<u8> = Vec::new();
    v.push(0xa9u8);
    v.push(0x05u8);
    v.push(0x9cu8);
    v.push(0xbbu8);
    proof {
        assert(v@ =~= transfer_selector());
    }
    push_zero_bytes(&mut v, 12);
    push_all(&mut v, recipient);
    push_zero_bytes(&mut v, 16);
    push_be_u128(&mut v, amount);
    proof {
        assert(v@ =~= transfer_call_data(recipient@, amount));
    }
    v
}

/// The raw call data of `transferFrom(owner, recipient, amount)`: exactly
/// 100 bytes.
pub fn transfer_from_call_bytes(owner: &Vec<u8>, recipient: &Vec<u8>, amount: u128) -> (r: Vec<u8>)
    requires
        owner@.len() == 20,
        recipient@.len() == 20,
    ensures
        r@ == transfer_from_call_data(owner@, recipient@, amount),
        r@.len() == 100,
{
    let mut v: Vec<u8> = Vec::new();
    v.push(0x23u8);
    v.push(0xb8u8);
    v.push(0x72u8);
    v.push(0xddu8);
    proof {
        assert(v@ =~= transfer_from_selector());
    }
    push_zero_bytes(&mut v, 12);
    push_all(&mut v, owner);
    push_zero_bytes(&mut v, 12);
    push_all(&mut v, recipient);
    push_zero_bytes(&mut v, 16);
    push_be_u128(&mut v, amount);
    proof {
        assert(v@ =~= transfer_from_call_data(owner@, recipient@, amount));
    }
    v
}

/// What `cosmwasm_std::Binary::to_base64` returns: standard base64 with
/// padding, a function of the bytes alone.
pub uninterp spec fn base64_of(bytes: Seq<u8>) -> Seq<char>;

/// Relies on `cosmwasm_std::Binary::to_base64`: standard base64 with padding,
/// four characters for every started triple of bytes.
#[verifier::external_body]
fn to_base64(bytes: &Vec<u8>) -> (r: String)
    ensures
        r@ == base64_of(bytes@),
        r@.len() == 4 * ((bytes@.len() + 2) / 3),
{
    cosmwasm_std::Binary::from(bytes.clone()).to_base64()
}

/// Builds the base64-encoded `transfer` payload for a 20-byte recipient.
pub fn encode_transfer_payload(recipient: &Vec<u8>, amount: u128) -> (r: String)
    requires
        recipient@.len() == 20,
    ensures
        r@ == base64_of(transfer_call_data(recipient@, amount)),
{
    let raw = transfer_call_bytes(recipient, amount);
    to_base64(&raw)
}

/// Builds the base64-encoded `transferFrom` payload; the owner handed in by
/// the caller must be exactly 20 bytes, anything else is rejected.
pub fn encode_transfer_from_payload(owner: &Vec<u8>, recipient: &Vec<u8>, amount: u128) -> (r:
    Result<String, TokenWrapperError>)
    requires
        recipient@.len() == 20,
    ensures
        match r {
            Ok(s) => owner@.len() == 20 && s@ == base64_of(
                transfer_from_call_data(owner@, recipient@, amount),
            ),
            Err(e) => owner@.len() != 20 && e@ == ErrV::InvalidEvmAddress(
                "0x"@ + hex_lower_of(owner@),
            ),
        },
{
    if owner.len() != 20 {
        let h = hex_lower(owner);
        let mut m = String::from_str("0x");
        m.append(h.as_str());
        return Err(TokenWrapperError::InvalidEvmAddress(m));
    }
    let raw = transfer_from_call_bytes(owner, recipient, amount);
    Ok(to_base64(&raw))
}

/// The 32-byte big-endian encoding of EVM boolean true: 31 zero bytes and a
/// final 1.
pub open spec fn evm_true_bytes() -> Seq<u8> {
    Seq::new(
        32,
        |i: int|
            if i == 31 {
                1u8
            } else {
                0u8
            },
    )
}

/// Whether the payload is exactly the EVM encoding of boolean true.
pub fn is_evm_true(data: &Vec<u8>) -> (r: bool)
    ensures
        r == (data@ == evm_true_bytes()),
{
    if data.len() != 32 {
        return false;
    }
    let mut i: usize = 0;
    while i < 32
        invariant
            0 <= i <= 32,
            data@.len() == 32,
            forall|j: int| 0 <= j < i ==> data@[j] == evm_true_bytes()[j],
        decreases 32 - i,
    {
        let expected: u8 = if i == 31 {
            1u8
        } else {
            0u8
        };
        if data[i] != expected {
            return false;
        }
        i = i + 1;
    }
    proof {
        assert(data@ =~= evm_true_bytes());
    }
    true
}

} // verus!
