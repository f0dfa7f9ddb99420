use raw_migration::amounts::Decimal;
use raw_migration::builder::{
    copy_u64s, create_pair, factory_pair_query, grain_token_instantiate, pair_asset_infos,
    pool_info_query, pool_instantiate, staking_instantiate, suite_owner, Deployment, SuiteBuilder,
    ONE_DAY,
};
use raw_migration::denom::{token_instantiate, AssetInfo, Denom, DenomSetup, PoolDenom};
use raw_migration::msgs::{
    Action, DefaultStakeConfig, Duration, ExecuteMsg, FactoryInstantiateMsg, FeeConfig,
    Instantiate, InstantiateMsg, PairConfig, PairType, PoolInstantiateMsg, QueryMsg, QueryRequest,
    StakingInstantiateMsg,
};

fn s(x: &str) -> String {
    x.to_string()
}

#[test]
fn new_builder_uses_juno_and_luna() {
    let b = SuiteBuilder::new();
    let (d1, d2) = b.denom_setups(s("owner"), 1);
    assert_eq!(d1, DenomSetup::Ready(Denom::Native(s("ujuno"))));
    assert_eq!(d2, DenomSetup::Ready(Denom::Native(s("uluna"))));
    assert!(b.initial_balances().is_empty());
}

#[test]
fn with_denoms_replaces_the_pool_sides() {
    let b = SuiteBuilder::new()
        .with_denoms(PoolDenom::Native(s("ujuno")), PoolDenom::Cw20(s("RAW")));
    let (d1, d2) = b.denom_setups(s("owner"), 1);
    assert_eq!(d1, DenomSetup::Ready(Denom::Native(s("ujuno"))));
    assert_eq!(d2, DenomSetup::CreateToken(token_instantiate(1, s("owner"), s("RAW"))));
    assert!(b.initial_balances().is_empty());
}

#[test]
fn owner_is_named_owner() {
    assert_eq!(suite_owner(), s("owner"));
}

#[test]
fn factory_instantiate_config() {
    let b = SuiteBuilder::new();
    let inst = b.factory_instantiate(9, s("owner"), 8, 1, 7);
    let expected = Instantiate {
        code_id: 9,
        sender: s("owner"),
        msg: InstantiateMsg::Factory(FactoryInstantiateMsg {
            pair_configs: vec![PairConfig {
                pair_type: PairType::Xyk,
                code_id: 8,
                fee_config: FeeConfig { total_fee_bps: 0, protocol_fee_bps: 0 },
                is_disabled: false,
            }],
            token_code_id: 1,
            fee_address: Some(s("owner")),
            owner: s("owner"),
            max_referral_commission: Decimal::one(),
            default_stake_config: DefaultStakeConfig {
                staking_code_id: 7,
                tokens_per_power: 1000,
                min_bond: 1000,
                unbonding_periods: vec![100, 200, 300],
                max_distributions: 6,
            },
        }),
        label: s("palomadex-factory"),
        admin: Some(s("owner")),
    };
    assert_eq!(inst, expected);
}

#[test]
fn pool_instantiate_has_no_fees() {
    let inst = pool_instantiate(2, s("owner"), Denom::Native(s("ujuno")), Denom::Cw20(s("contract0")), 1);
    assert_eq!(
        inst,
        Instantiate {
            code_id: 2,
            sender: s("owner"),
            msg: InstantiateMsg::Pool(PoolInstantiateMsg {
                token1_denom: Denom::Native(s("ujuno")),
                token2_denom: Denom::Cw20(s("contract0")),
                lp_token_code_id: 1,
                owner: Some(s("owner")),
                lp_fee_percent: Decimal::zero(),
                protocol_fee_percent: Decimal::zero(),
                protocol_fee_recipient: s("owner"),
            }),
            label: s("wasmswap-pool"),
            admin: Some(s("owner")),
        }
    );
}

#[test]
fn staking_unstakes_after_fourteen_days() {
    let inst = staking_instantiate(3, s("owner"), s("contract2"));
    assert_eq!(
        inst,
        Instantiate {
            code_id: 3,
            sender: s("owner"),
            msg: InstantiateMsg::Staking(StakingInstantiateMsg {
                owner: Some(s("owner")),
                manager: Some(s("manager")),
                token_address: s("contract2"),
                unstaking_duration: Some(Duration::Time(1_209_600)),
            }),
            label: s("staking"),
            admin: Some(s("owner")),
        }
    );
    assert_eq!(ONE_DAY * 14, 1_209_600);
}

#[test]
fn grain_token_is_paloma() {
    assert_eq!(grain_token_instantiate(1, s("owner")), token_instantiate(1, s("owner"), s("PALOMA")));
}

#[test]
fn pair_assets_are_first_side_and_grain() {
    assert_eq!(
        pair_asset_infos(Denom::Native(s("ujuno")), s("contract5")),
        vec![AssetInfo::Native(s("ujuno")), AssetInfo::Token(s("contract5"))]
    );
    assert_eq!(
        pair_asset_infos(Denom::Cw20(s("contract0")), s("contract5")),
        vec![AssetInfo::Token(s("contract0")), AssetInfo::Token(s("contract5"))]
    );
}

#[test]
fn pair_creation_and_lookup() {
    let assets = vec![AssetInfo::Native(s("ujuno")), AssetInfo::Token(s("contract5"))];
    assert_eq!(
        create_pair(s("owner"), s("contract4"), assets.clone()),
        Action::Execute {
            sender: s("owner"),
            contract: s("contract4"),
            msg: ExecuteMsg::CreatePair { asset_infos: assets.clone() },
        }
    );
    assert_eq!(
        factory_pair_query(s("contract4"), assets.clone()),
        QueryRequest { contract: s("contract4"), msg: QueryMsg::FactoryPair { asset_infos: assets } }
    );
    assert_eq!(pool_info_query(s("contract1")), QueryRequest { contract: s("contract1"), msg: QueryMsg::Info });
}

#[test]
fn copy_keeps_values() {
    assert_eq!(copy_u64s(&vec![3, 1, 2]), vec![3, 1, 2]);
    assert_eq!(copy_u64s(&vec![]), Vec::<u64>::new());
}

#[test]
fn build_assembles_the_suite() {
    let d = Deployment {
        owner: s("owner"),
        cw20_code_id: 1,
        migrator_code_id: 10,
        pool_denom1: Denom::Native(s("ujuno")),
        pool_denom2: Denom::Cw20(s("contract0")),
        junoswap_pool_contract: s("contract1"),
        junoswap_token_contract: s("contract2"),
        junoswap_staking_contract: s("contract3"),
        factory_contract: s("contract4"),
        grain_cw20_token: s("contract5"),
        palomadex_pair_contract: s("contract6"),
        palomadex_staking_contract: s("contract7"),
        palomadex_token_contract: s("contract8"),
    };
    let suite = SuiteBuilder::new().build(d);
    assert_eq!(suite.owner, s("owner"));
    assert_eq!(suite.unbonding_periods, vec![100, 200, 300]);
    assert_eq!(suite.migration_unbonding_period(), 200);
    assert_eq!(suite.migrator_code_id, 10);
    assert_eq!(suite.cw20_code_id, 1);
    assert_eq!(suite.pool_denom2, Denom::Cw20(s("contract0")));
    assert_eq!(suite.junoswap_staking_contract, s("contract3"));
    assert_eq!(suite.grain_cw20_token, s("contract5"));
    assert_eq!(suite.palomadex_token_contract, s("contract8"));
}
