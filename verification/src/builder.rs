//! Building a suite: the configuration a test chooses, the request of each
//! deployment step, and the suite assembled from what the chain answered.
use vstd::prelude::*;

use crate::amounts::{Coin, Decimal, DECIMAL_FRACTIONAL};
use crate::denom::{
    spec_asset_info, spec_token_instantiate, token_instantiate, AssetInfo, Denom, DenomSetup,
    PoolDenom,
};
use crate::msgs::{
    Action, DefaultStakeConfig, Duration, ExecuteMsg, FactoryInstantiateMsg, FeeConfig,
    Instantiate, InstantiateMsg, PairConfig, PairType, PoolInstantiateMsg, QueryMsg,
    QueryRequest, StakingInstantiateMsg,
};
use crate::suite::Suite;

verus! {

/// Seconds in a day.
pub const ONE_DAY: u64 = 86_400;

/// The unbonding periods that every suite configures, in seconds.
pub open spec fn default_unbonding_periods() -> Seq<u64> {
    seq![100u64, 200u64, 300u64]
}

/// A copy of `v`.
pub fn copy_u64s(v: &Vec<u64>) -> (r: Vec<u64>)
    ensures
        r@ == v@,
{
    let mut r: Vec<u64> = Vec::new();
    let mut i: usize = 0;
    while i < v.len()
        invariant
            i <= v.len(),
            r@ == v@.subrange(0, i as int),
        decreases v.len() - i,
    {
        r.push(v[i]);
        i = i + 1;
        assert(r@ =~= v@.subrange(0, i as int));
    }
    assert(r@ =~= v@);
    r
}

/// `r` instantiates the Palomadex factory as `SuiteBuilder::factory_instantiate` describes.
pub open spec fn spec_factory_instantiate(
    r: Instantiate,
    unbonding_periods: Seq<u64>,
    code_id: u64,
    owner: String,
    pair_code_id: u64,
    cw20_code_id: u64,
    staking_code_id: u64,
) -> bool {
    &&& r.code_id == code_id
    &&& r.sender == owner
    &&& r.label@ == "palomadex-factory"@
    &&& r.admin == Some(owner)
    &&& r.msg matches InstantiateMsg::Factory(f) && {
        &&& f.pair_configs@ == seq![
            PairConfig {
                pair_type: PairType::Xyk,
                code_id: pair_code_id,
                fee_config: FeeConfig { total_fee_bps: 0, protocol_fee_bps: 0 },
                is_disabled: false,
            },
        ]
        &&& f.token_code_id == cw20_code_id
        &&& f.fee_address == Some(owner)
        &&& f.owner == owner
        &&& f.max_referral_commission.atomics == DECIMAL_FRACTIONAL
        &&& f.default_stake_config.staking_code_id == staking_code_id
        &&& f.default_stake_config.tokens_per_power == 1000
        &&& f.default_stake_config.min_bond == 1000
        &&& f.default_stake_config.unbonding_periods@ == unbonding_periods
        &&& f.default_stake_config.max_distributions == 6
    }
}

/// `r` instantiates the JunoSwap pool as `pool_instantiate` describes.
pub open spec fn spec_pool_instantiate(
    r: Instantiate,
    code_id: u64,
    owner: String,
    denom1: Denom,
    denom2: Denom,
    lp_token_code_id: u64,
) -> bool {
    &&& r.code_id == code_id
    &&& r.sender == owner
    &&& r.label@ == "wasmswap-pool"@
    &&& r.admin == Some(owner)
    &&& r.msg == InstantiateMsg::Pool(
        PoolInstantiateMsg {
            token1_denom: denom1,
            token2_denom: denom2,
            lp_token_code_id,
            owner: Some(owner),
            lp_fee_percent: Decimal { atomics: 0 },
            protocol_fee_percent: Decimal { atomics: 0 },
            protocol_fee_recipient: owner,
        },
    )
}

/// `r` instantiates the JunoSwap staking contract as `staking_instantiate` describes.
pub open spec fn spec_staking_instantiate(r: Instantiate, code_id: u64, owner: String, lp_token: String) -> bool {
    &&& r.code_id == code_id
    &&& r.sender == owner
    &&& r.label@ == "staking"@
    &&& r.admin == Some(owner)
    &&& r.msg matches InstantiateMsg::Staking(s) && {
        &&& s.owner == Some(owner)
        &&& s.manager matches Some(m) && m@ == "manager"@
        &&& s.token_address == lp_token
        &&& s.unstaking_duration matches Some(Duration::Time(t)) && t == 14 * ONE_DAY
    }
}

/// `r` creates the GRAIN token as `grain_token_instantiate` describes.
pub open spec fn spec_grain_instantiate(r: Instantiate, cw20_code_id: u64, owner: String) -> bool {
    exists|symbol: String|
        symbol@ == "PALOMA"@ && r == spec_token_instantiate(cw20_code_id, owner, symbol)
}

/// `r` is the suite of the unbonding periods `periods` and of what the
/// chain answered in `deployment`.
pub open spec fn spec_suite_of(r: Suite, periods: Seq<u64>, deployment: Deployment) -> bool {
    &&& r.owner == deployment.owner
    &&& r.migrator_code_id == deployment.migrator_code_id
    &&& r.cw20_code_id == deployment.cw20_code_id
    &&& r.unbonding_periods@ == periods
    &&& r.junoswap_token_contract == deployment.junoswap_token_contract
    &&& r.junoswap_pool_contract == deployment.junoswap_pool_contract
    &&& r.junoswap_staking_contract == deployment.junoswap_staking_contract
    &&& r.grain_cw20_token == deployment.grain_cw20_token
    &&& r.palomadex_token_contract == deployment.palomadex_token_contract
    &&& r.palomadex_staking_contract == deployment.palomadex_staking_contract
    &&& r.palomadex_pair_contract == deployment.palomadex_pair_contract
    &&& r.pool_denom1 == deployment.pool_denom1
    &&& r.pool_denom2 == deployment.pool_denom2
    &&& r.factory_contract == deployment.factory_contract
}

/// The configuration of a suite before it is deployed.
#[derive(Debug)]
pub struct SuiteBuilder {
    funds: Vec<(String, Vec<Coin>)>,
    unbonding_periods: Vec<u64>,
    pool_denom1: PoolDenom,
    pool_denom2: PoolDenom,
}

impl SuiteBuilder {
    /// Every builder has the unbonding periods 100, 200 and 300 and gives
    /// no account initial funds: nothing but `new` sets them.
    #[verifier::type_invariant]
    closed spec fn wf(self) -> bool {
        &&& self.unbonding_periods@ == default_unbonding_periods()
        &&& self.funds@.len() == 0
    }

    /// The unbonding periods of the Palomadex stakes, in seconds.
    pub closed spec fn spec_unbonding_periods(&self) -> Seq<u64> {
        self.unbonding_periods@
    }

    /// The accounts that get initial funds, with their coins.
    pub closed spec fn spec_funds(&self) -> Seq<(String, Vec<Coin>)> {
        self.funds@
    }

    /// The first side of the JunoSwap pool.
    pub closed spec fn spec_denom1(&self) -> PoolDenom {
        self.pool_denom1
    }

    /// The second side of the JunoSwap pool.
    pub closed spec fn spec_denom2(&self) -> PoolDenom {
        self.pool_denom2
    }

    /// A builder for a pool of the native denominations `ujuno` and
    /// `uluna`, with unbonding periods 100, 200 and 300 and no funds.
    pub fn new() -> (r: SuiteBuilder)
        ensures
            r.spec_unbonding_periods() == default_unbonding_periods(),
            r.spec_funds().len() == 0,
            r.spec_denom1() matches PoolDenom::Native(d) && d@ == "ujuno"@,
            r.spec_denom2() matches PoolDenom::Native(d) && d@ == "uluna"@,
    {
        SuiteBuilder {
            unbonding_periods: vec![100u64, 200u64, 300u64],
            pool_denom1: PoolDenom::Native("ujuno".to_owned()),
            pool_denom2: PoolDenom::Native("uluna".to_owned()),
            funds: Vec::new(),
        }
    }

    /// The same builder with the pool sides `denom1` and `denom2`.
    pub fn with_denoms(self, denom1: PoolDenom, denom2: PoolDenom) -> (r: SuiteBuilder)
        ensures
            r.spec_denom1() == denom1,
            r.spec_denom2() == denom2,
            r.spec_unbonding_periods() == self.spec_unbonding_periods(),
            r.spec_funds() == self.spec_funds(),
            r.spec_unbonding_periods() == default_unbonding_periods(),
            r.spec_funds().len() == 0,
    {
        proof {
            use_type_invariant(&self);
        }
        SuiteBuilder {
            funds: self.funds,
            unbonding_periods: self.unbonding_periods,
            pool_denom1: denom1,
            pool_denom2: denom2,
        }
    }

    /// What it takes to make the two pool sides, cw20 tokens being created
    /// by `owner` from `cw20_code_id`.
    pub fn denom_setups(&self, owner: String, cw20_code_id: u64) -> (r: (DenomSetup, DenomSetup))
        ensures
            r.0 == (match self.spec_denom1() {
                PoolDenom::Native(d) => DenomSetup::Ready(Denom::Native(d)),
                PoolDenom::Cw20(s) => DenomSetup::CreateToken(
                    spec_token_instantiate(cw20_code_id, owner, s),
                ),
            }),
            r.1 == (match self.spec_denom2() {
                PoolDenom::Native(d) => DenomSetup::Ready(Denom::Native(d)),
                PoolDenom::Cw20(s) => DenomSetup::CreateToken(
                    spec_token_instantiate(cw20_code_id, owner, s),
                ),
            }),
    {
        let first = self.pool_denom1.clone().into_denom(owner.clone(), cw20_code_id);
        let second = self.pool_denom2.clone().into_denom(owner, cw20_code_id);
        (first, second)
    }

    /// The Palomadex factory's instantiation, by `owner` from `code_id`:
    /// constant-product pairs from `pair_code_id` without fees, liquidity
    /// tokens from `cw20_code_id`, fees paid to `owner`, a referral
    /// commission of at most 1, and stakes from `staking_code_id` with 1000
    /// tokens per power, a minimal bond of 1000, this builder's unbonding
    /// periods and at most 6 distributions. Its label is "palomadex-factory"
    /// and `owner` is its admin.
    pub fn factory_instantiate(
        &self,
        code_id: u64,
        owner: String,
        pair_code_id: u64,
        cw20_code_id: u64,
        staking_code_id: u64,
    ) -> (r: Instantiate)
        ensures
            spec_factory_instantiate(
                r,
                self.spec_unbonding_periods(),
                code_id,
                owner,
                pair_code_id,
                cw20_code_id,
                staking_code_id,
            ),
    {
        let pair_config = PairConfig {
            pair_type: PairType::Xyk,
            code_id: pair_code_id,
            fee_config: FeeConfig { total_fee_bps: 0, protocol_fee_bps: 0 },
            is_disabled: false,
        };
        let pair_configs = vec![pair_config];
        assert(pair_configs@ =~= seq![pair_config]);
        let msg = FactoryInstantiateMsg {
            pair_configs,
            token_code_id: cw20_code_id,
            fee_address: Some(owner.clone()),
            owner: owner.clone(),
            max_referral_commission: Decimal::one(),
            default_stake_config: DefaultStakeConfig {
                staking_code_id,
                tokens_per_power: 1000,
                min_bond: 1000,
                unbonding_periods: copy_u64s(&self.unbonding_periods),
                max_distributions: 6,
            },
        };
        Instantiate {
            code_id,
            sender: owner.clone(),
            msg: InstantiateMsg::Factory(msg),
            label: "palomadex-factory".to_owned(),
            admin: Some(owner),
        }
    }

    /// The initial funds of the suite's accounts.
    pub fn initial_balances(&self) -> (r: Vec<(String, Vec<Coin>)>)
        ensures
            r@ == self.spec_funds(),
    {
        proof {
            use_type_invariant(self);
        }
        let r: Vec<(String, Vec<Coin>)> = Vec::new();
        assert(r@ =~= self.funds@);
        r
    }

    /// The suite made of this configuration and of what the chain answered
    /// while deploying it.
    pub fn build(self, deployment: Deployment) -> (r: Suite)
        ensures
            spec_suite_of(r, self.spec_unbonding_periods(), deployment),
            r.unbonding_periods@ == default_unbonding_periods(),
    {
        proof {
            use_type_invariant(&self);
        }
        Suite {
            owner: deployment.owner,
            migrator_code_id: deployment.migrator_code_id,
            cw20_code_id: deployment.cw20_code_id,
            unbonding_periods: self.unbonding_periods,
            junoswap_token_contract: deployment.junoswap_token_contract,
            junoswap_pool_contract: deployment.junoswap_pool_contract,
            junoswap_staking_contract: deployment.junoswap_staking_contract,
            grain_cw20_token: deployment.grain_cw20_token,
            palomadex_token_contract: deployment.palomadex_token_contract,
            palomadex_staking_contract: deployment.palomadex_staking_contract,
            palomadex_pair_contract: deployment.palomadex_pair_contract,
            pool_denom1: deployment.pool_denom1,
            pool_denom2: deployment.pool_denom2,
            factory_contract: deployment.factory_contract,
        }
    }
}

/// What the chain answered while a suite was deployed: code ids, the pool
/// sides as created, and contract addresses.
#[derive(Debug, Clone, PartialEq, Eq)]
pub struct Deployment {
    pub owner: String,
    pub cw20_code_id: u64,
    pub migrator_code_id: u64,
    pub pool_denom1: Denom,
    pub pool_denom2: Denom,
    pub junoswap_pool_contract: String,
    pub junoswap_token_contract: String,
    pub junoswap_staking_contract: String,
    pub factory_contract: String,
    pub grain_cw20_token: String,
    pub palomadex_pair_contract: String,
    pub palomadex_staking_contract: String,
    pub palomadex_token_contract: String,
}

/// The account that owns and administers every contract of a suite.
pub fn suite_owner() -> (r: String)
    ensures
        r@ == "owner"@,
{
    "owner".to_owned()
}

/// The JunoSwap pool's instantiation, by `owner` from `code_id`: the sides
/// `denom1` and `denom2`, liquidity tokens from `lp_token_code_id`, no fees,
/// `owner` as its owner and fee recipient. Its label is "wasmswap-pool" and
/// `owner` is its admin.
pub fn pool_instantiate(
    code_id: u64,
    owner: String,
    denom1: Denom,
    denom2: Denom,
    lp_token_code_id: u64,
) -> (r: Instantiate)
    ensures
        spec_pool_instantiate(r, code_id, owner, denom1, denom2, lp_token_code_id),
{
    let msg = PoolInstantiateMsg {
        token1_denom: denom1,
        token2_denom: denom2,
        lp_token_code_id,
        owner: Some(owner.clone()),
        lp_fee_percent: Decimal::zero(),
        protocol_fee_percent: Decimal::zero(),
        protocol_fee_recipient: owner.clone(),
    };
    Instantiate {
        code_id,
        sender: owner.clone(),
        msg: InstantiateMsg::Pool(msg),
        label: "wasmswap-pool".to_owned(),
        admin: Some(owner),
    }
}

/// The query of the JunoSwap pool `pool` that names its liquidity token.
pub fn pool_info_query(pool: String) -> (r: QueryRequest)
    ensures
        r == (QueryRequest { contract: pool, msg: QueryMsg::Info }),
{
    QueryRequest { contract: pool, msg: QueryMsg::Info }
}

/// The JunoSwap staking contract's instantiation, by `owner` from
/// `code_id`: it stakes `lp_token`, is owned by `owner`, managed by
/// "manager", and unstakes after fourteen days. Its label is "staking" and
/// `owner` is its admin.
pub fn staking_instantiate(code_id: u64, owner: String, lp_token: String) -> (r: Instantiate)
    ensures
        spec_staking_instantiate(r, code_id, owner, lp_token),
{
    let msg = StakingInstantiateMsg {
        owner: Some(owner.clone()),
        manager: Some("manager".to_owned()),
        token_address: lp_token,
        unstaking_duration: Some(Duration::Time(ONE_DAY * 14)),
    };
    Instantiate {
        code_id,
        sender: owner.clone(),
        msg: InstantiateMsg::Staking(msg),
        label: "staking".to_owned(),
        admin: Some(owner),
    }
}

/// The creation of the GRAIN token, named "PALOMA", minted by `owner`.
pub fn grain_token_instantiate(cw20_code_id: u64, owner: String) -> (r: Instantiate)
    ensures
        spec_grain_instantiate(r, cw20_code_id, owner),
{
    let symbol = "PALOMA".to_owned();
    token_instantiate(cw20_code_id, owner, symbol)
}

/// The assets of the Palomadex pair that replaces the pool: the pool's
/// first side, and the GRAIN token `grain`.
pub fn pair_asset_infos(denom1: Denom, grain: String) -> (r: Vec<AssetInfo>)
    ensures
        r@ == seq![spec_asset_info(denom1), AssetInfo::Token(grain)],
{
    vec![denom1.to_asset_info(), AssetInfo::Token(grain)]
}

/// The creation by `owner` of the constant-product pair of `asset_infos`
/// through the Palomadex `factory`.
pub fn create_pair(owner: String, factory: String, asset_infos: Vec<AssetInfo>) -> (r: Action)
    ensures
        r == (Action::Execute {
            sender: owner,
            contract: factory,
            msg: ExecuteMsg::CreatePair { asset_infos },
        }),
{
    Action::Execute { sender: owner, contract: factory, msg: ExecuteMsg::CreatePair { asset_infos } }
}

/// The query of the Palomadex `factory` for the pair of `asset_infos`.
pub fn factory_pair_query(factory: String, asset_infos: Vec<AssetInfo>) -> (r: QueryRequest)
    ensures
        r == (QueryRequest { contract: factory, msg: QueryMsg::FactoryPair { asset_infos } }),
{
    QueryRequest { contract: factory, msg: QueryMsg::FactoryPair { asset_infos } }
}

} // verus!
