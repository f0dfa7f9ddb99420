//! The requests that the suite hands to the chain, held as plain values.
//! Each variant stands for one message of a contract that the suite drives;
//! the fields are the ones the suite fills in, the rest are fixed by the
//! variant and named in its doc comment.
use vstd::prelude::*;

use crate::amounts::{Coin, Decimal};
use crate::denom::{AssetInfo, Denom};

verus! {

/// A span of time or of blocks, as cw-utils counts it.
#[derive(Debug, Clone, Copy, PartialEq, Eq)]
pub enum Duration {
    Height(u64),
    Time(u64),
}

/// The minting rights given to a new cw20 token.
#[derive(Debug, Clone, PartialEq, Eq)]
pub struct MinterResponse {
    pub minter: String,
    pub cap: Option<u128>,
}

/// The instantiate message of a cw20 token, with no initial balances and
/// no marketing information.
#[derive(Debug, Clone, PartialEq, Eq)]
pub struct TokenInstantiateMsg {
    pub name: String,
    pub symbol: String,
    pub decimals: u8,
    pub mint: Option<MinterResponse>,
}

/// The instantiate message of a JunoSwap (wasmswap) pool.
#[derive(Debug, Clone, PartialEq, Eq)]
pub struct PoolInstantiateMsg {
    pub token1_denom: Denom,
    pub token2_denom: Denom,
    pub lp_token_code_id: u64,
    pub owner: Option<String>,
    pub lp_fee_percent: Decimal,
    pub protocol_fee_percent: Decimal,
    pub protocol_fee_recipient: String,
}

/// The instantiate message of the JunoSwap (stake-cw20) staking contract.
#[derive(Debug, Clone, PartialEq, Eq)]
pub struct StakingInstantiateMsg {
    pub owner: Option<String>,
    pub manager: Option<String>,
    pub token_address: String,
    pub unstaking_duration: Option<Duration>,
}

/// The kinds of Palomadex pairs; the suite only uses the constant-product one.
#[derive(Debug, Clone, Copy, PartialEq, Eq)]
pub enum PairType {
    Xyk,
}

/// Fees of a Palomadex pair, in basis points.
#[derive(Debug, Clone, Copy, PartialEq, Eq)]
pub struct FeeConfig {
    pub total_fee_bps: u16,
    pub protocol_fee_bps: u16,
}

/// How the Palomadex factory creates pairs of one type.
#[derive(Debug, Clone, Copy, PartialEq, Eq)]
pub struct PairConfig {
    pub pair_type: PairType,
    pub code_id: u64,
    pub fee_config: FeeConfig,
    pub is_disabled: bool,
}

/// The staking configuration that the Palomadex factory gives to new pairs;
/// it has no converter.
#[derive(Debug, Clone, PartialEq, Eq)]
pub struct DefaultStakeConfig {
    pub staking_code_id: u64,
    pub tokens_per_power: u128,
    pub min_bond: u128,
    pub unbonding_periods: Vec<u64>,
    pub max_distributions: u32,
}

/// The instantiate message of the Palomadex factory; trading starts at once.
#[derive(Debug, Clone, PartialEq, Eq)]
pub struct FactoryInstantiateMsg {
    pub pair_configs: Vec<PairConfig>,
    pub token_code_id: u64,
    pub fee_address: Option<String>,
    pub owner: String,
    pub max_referral_commission: Decimal,
    pub default_stake_config: DefaultStakeConfig,
}

/// An instantiate message of one of the contracts the suite creates.
#[derive(Debug, Clone, PartialEq, Eq)]
pub enum InstantiateMsg {
    Token(TokenInstantiateMsg),
    Pool(PoolInstantiateMsg),
    Staking(StakingInstantiateMsg),
    Factory(FactoryInstantiateMsg),
}

/// A request to instantiate a contract from stored code.
#[derive(Debug, Clone, PartialEq, Eq)]
pub struct Instantiate {
    pub code_id: u64,
    pub sender: String,
    pub msg: InstantiateMsg,
    pub label: String,
    pub admin: Option<String>,
}

/// The settings that the migration contract takes on its first migration.
#[derive(Debug, Clone, PartialEq, Eq)]
pub struct MigrationInit {
    pub migrator: String,
    pub unbonding_period: u64,
    pub junoswap_pool: String,
    pub factory: String,
    pub palomadex_pool: Option<String>,
    pub raw_to_grain_exchange_rate: Decimal,
    pub raw_address: String,
    pub grain_address: String,
}

/// The migrate message of the migration contract; `None` re-migrates to
/// itself and keeps its settings.
#[derive(Debug, Clone, PartialEq, Eq)]
pub struct MigrateMsg {
    pub init: Option<MigrationInit>,
}

/// An execute message of one of the contracts the suite drives.
#[derive(Debug, Clone, PartialEq, Eq)]
pub enum ExecuteMsg {
    /// Migration contract: move the pool's tokens into the Palomadex pool.
    MigrateTokens { palomadex_pool: String },
    /// Migration contract: move the next `limit` stakers.
    MigrateStakers { limit: u32 },
    /// cw20: mint `amount` to `recipient`.
    Mint { recipient: String, amount: u128 },
    /// cw20: raise the allowance of `spender` by `amount`, with no expiry.
    IncreaseAllowance { spender: String, amount: u128 },
    /// cw20: send `amount` to `contract`, which receives `msg`.
    Send { contract: String, amount: u128, msg: Vec<u8> },
    /// JunoSwap pool: add liquidity, with no expiration.
    AddLiquidity { token1_amount: u128, min_liquidity: u128, max_token2: u128 },
    /// JunoSwap staking: unstake `amount`.
    Unstake { amount: u128 },
    /// Palomadex factory: create a constant-product pair of `asset_infos`,
    /// with the factory's default fees and staking configuration.
    CreatePair { asset_infos: Vec<AssetInfo> },
}

/// A request that changes the chain.
#[derive(Debug, Clone, PartialEq, Eq)]
pub enum Action {
    /// Execute `msg` on `contract` as `sender`, with no funds.
    Execute { sender: String, contract: String, msg: ExecuteMsg },
    /// Execute `msg` on `contract` as `sender`, sending `funds` along.
    ExecuteWithFunds { sender: String, contract: String, msg: ExecuteMsg, funds: Vec<Coin> },
    /// Migrate `contract` to `code_id` as `sender`.
    Migrate { sender: String, contract: String, msg: MigrateMsg, code_id: u64 },
    /// Mint `coin` to `to_address` through the bank's sudo interface.
    BankMint { to_address: String, coin: Coin },
}

/// A smart query of one of the contracts the suite reads.
#[derive(Debug, Clone, PartialEq, Eq)]
pub enum QueryMsg {
    /// Migration contract: has every staker been migrated?
    MigrationFinished,
    /// cw20: the balance of `address`.
    Balance { address: String },
    /// cw20: name, symbol, decimals and total supply.
    TokenInfo,
    /// cw20: every account that holds a balance, with no paging.
    AllAccounts,
    /// JunoSwap staking: the pending claims of `address`.
    Claims { address: String },
    /// JunoSwap pool: its denominations and its liquidity token.
    Info,
    /// Palomadex pair: its reserves.
    Pool,
    /// Palomadex pair: its description.
    Pair,
    /// Palomadex factory: the pair of `asset_infos`.
    FactoryPair { asset_infos: Vec<AssetInfo> },
    /// Palomadex staking: what `address` has bonded for `unbonding_period`.
    Staked { address: String, unbonding_period: u64 },
}

/// A smart query `msg` sent to `contract`.
#[derive(Debug, Clone, PartialEq, Eq)]
pub struct QueryRequest {
    pub contract: String,
    pub msg: QueryMsg,
}

/// The value of `o`, or `d` when there is none.
pub open spec fn or_default<T>(o: Option<T>, d: T) -> T {
    match o {
        Some(v) => v,
        None => d,
    }
}

/// The value of `o`, or `d` when there is none.
pub fn unwrap_or_string(o: Option<String>, d: String) -> (r: String)
    ensures
        r == or_default(o, d),
{
    match o {
        Some(v) => v,
        None => d,
    }
}

} // verus!
