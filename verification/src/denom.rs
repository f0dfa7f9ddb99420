use vstd::prelude::*;

use crate::msgs::{Instantiate, InstantiateMsg, MinterResponse, TokenInstantiateMsg};

verus! {

/// How a test names one side of the JunoSwap pool before the suite is built.
#[derive(Debug, PartialEq, Eq)]
pub enum PoolDenom {
    /// A native bank denomination.
    Native(String),
    /// The symbol (and name) of a cw20 token that the suite will create.
    Cw20(String),
}

impl Clone for PoolDenom {
    fn clone(&self) -> (r: PoolDenom)
        ensures
            r == *self,
    {
        match self {
            PoolDenom::Native(d) => PoolDenom::Native(d.clone()),
            PoolDenom::Cw20(s) => PoolDenom::Cw20(s.clone()),
        }
    }
}

/// One side of a JunoSwap pool: a native denomination or a cw20 token address.
#[derive(Debug, PartialEq, Eq)]
pub enum Denom {
    Native(String),
    Cw20(String),
}

impl Clone for Denom {
    fn clone(&self) -> (r: Denom)
        ensures
            r == *self,
    {
        match self {
            Denom::Native(d) => Denom::Native(d.clone()),
            Denom::Cw20(a) => Denom::Cw20(a.clone()),
        }
    }
}

/// One side of a Palomadex pair: a native denomination or a cw20 token address.
#[derive(Debug, Clone, PartialEq, Eq)]
pub enum AssetInfo {
    Native(String),
    Token(String),
}

/// The asset that stands for a pool denomination on the Palomadex side.
pub open spec fn spec_asset_info(d: Denom) -> AssetInfo {
    match d {
        Denom::Native(s) => AssetInfo::Native(s),
        Denom::Cw20(a) => AssetInfo::Token(a),
    }
}

impl Denom {
    /// The Palomadex asset for this pool denomination: a native denomination
    /// stays native, a cw20 token becomes a token of the same address.
    pub fn to_asset_info(self) -> (r: AssetInfo)
        ensures
            r == spec_asset_info(self),
    {
        match self {
            Denom::Native(s) => AssetInfo::Native(s),
            Denom::Cw20(a) => AssetInfo::Token(a),
        }
    }
}

/// Two pool denominations name the same Palomadex asset only when they are equal.
pub proof fn lemma_asset_info_injective(a: Denom, b: Denom)
    ensures
        spec_asset_info(a) == spec_asset_info(b) ==> a == b,
{
}

/// The decimals of every cw20 token that the suite creates.
pub const TOKEN_DECIMALS: u8 = 6;

/// The request that creates a cw20 token named and labelled `symbol`, with
/// six decimals, no initial balances, and `owner` as its sender and its
/// uncapped minter.
pub open spec fn spec_token_instantiate(code_id: u64, owner: String, symbol: String) -> Instantiate {
    Instantiate {
        code_id,
        sender: owner,
        msg: InstantiateMsg::Token(
            TokenInstantiateMsg {
                name: symbol,
                symbol,
                decimals: TOKEN_DECIMALS,
                mint: Some(MinterResponse { minter: owner, cap: None }),
            },
        ),
        label: symbol,
        admin: None,
    }
}

/// The request that creates the cw20 token `symbol` minted by `owner`.
pub fn token_instantiate(code_id: u64, owner: String, symbol: String) -> (r: Instantiate)
    ensures
        r == spec_token_instantiate(code_id, owner, symbol),
{
    Instantiate {
        code_id,
        sender: owner.clone(),
        msg: InstantiateMsg::Token(
            TokenInstantiateMsg {
                name: symbol.clone(),
                symbol: symbol.clone(),
                decimals: TOKEN_DECIMALS,
                mint: Some(MinterResponse { minter: owner, cap: None }),
            },
        ),
        label: symbol,
        admin: None,
    }
}

/// What it takes to turn a pool denomination into a side of the pool.
#[derive(Debug, Clone, PartialEq, Eq)]
pub enum DenomSetup {
    /// The side is known already.
    Ready(Denom),
    /// This cw20 token must be instantiated; the side is the token at the
    /// address that the chain gives it.
    CreateToken(Instantiate),
}

impl PoolDenom {
    /// A native denomination is a side of the pool as it stands; a cw20
    /// symbol first needs its token, created by `owner` from `cw20_code_id`.
    pub fn into_denom(self, owner: String, cw20_code_id: u64) -> (r: DenomSetup)
        ensures
            match self {
                PoolDenom::Native(d) => r == DenomSetup::Ready(Denom::Native(d)),
                PoolDenom::Cw20(symbol) => r == DenomSetup::CreateToken(
                    spec_token_instantiate(cw20_code_id, owner, symbol),
                ),
            },
    {
        match self {
            PoolDenom::Native(denom) => DenomSetup::Ready(Denom::Native(denom)),
            PoolDenom::Cw20(symbol) => DenomSetup::CreateToken(
                token_instantiate(cw20_code_id, owner, symbol),
            ),
        }
    }
}

} // verus!
