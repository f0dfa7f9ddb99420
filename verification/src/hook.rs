//! The message that a cw20 token forwards to the JunoSwap staking contract
//! when liquidity tokens are sent to it for staking.
use vstd::prelude::*;

use cosmwasm_std::StdError;

verus! {

#[verifier::external_type_specification]
#[verifier::external_body]
pub struct ExStdError(StdError);

/// What can go wrong while a suite prepares a request.
#[derive(Debug)]
pub enum SuiteError {
    /// A message could not be serialized.
    Std(StdError),
}

/// The JSON text `{"stake":{}}`.
pub open spec fn stake_hook_json() -> Seq<u8> {
    seq![123u8, 34u8, 115u8, 116u8, 97u8, 107u8, 101u8, 34u8, 58u8, 123u8, 125u8, 125u8]
}

/// `cosmwasm_std::to_binary` of the staking contract's receive message
/// `stake_cw20::msg::ReceiveMsg::Stake {}`. Serde writes this externally
/// tagged, snake-cased variant without fields through
/// `serialize_struct_variant` and `end`, and serde-json-wasm's serializer
/// writes `{`, the quoted name `stake`, `:`, `{`, `}`, `}` on every path
/// without an error: the contract claims that this fixed message always
/// serializes, to `{"stake":{}}`.
#[verifier::external_body]
#[allow(deprecated)]
fn stake_receive_msg() -> (r: Result<Vec<u8>, StdError>)
    ensures
        r is Ok,
        r matches Ok(bytes) ==> bytes@ == stake_hook_json(),
{
    match cosmwasm_std::to_binary(&stake_cw20::msg::ReceiveMsg::Stake {}) {
        Ok(binary) => Ok(binary.0),
        Err(e) => Err(e),
    }
}

/// The hook that makes the staking contract stake what it receives: the
/// bytes `{"stake":{}}`, which always serialize.
pub fn stake_hook() -> (r: Result<Vec<u8>, SuiteError>)
    ensures
        r matches Ok(bytes) && bytes@ == stake_hook_json(),
{
    match stake_receive_msg() {
        Ok(bytes) => Ok(bytes),
        Err(e) => Err(SuiteError::Std(e)),
    }
}

} // verus!
