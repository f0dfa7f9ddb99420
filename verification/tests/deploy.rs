use raw_migration::builder::{
    grain_token_instantiate, pair_asset_infos, pool_instantiate, staking_instantiate, SuiteBuilder,
};
use raw_migration::denom::{token_instantiate, AssetInfo, Denom, PoolDenom};
use raw_migration::deploy::{Code, DeployCommand, DeployReply, DeployStage, DeployStep, Deploying};
use raw_migration::msgs::{Action, ExecuteMsg, QueryMsg, QueryRequest};

fn s(x: &str) -> String {
    x.to_string()
}

fn next(d: Deploying, reply: DeployReply) -> (Deploying, DeployCommand) {
    match d.step(reply) {
        DeployStep::Next(n, c) => (n, c),
        DeployStep::Built(_) => panic!("built too early"),
        DeployStep::Failed => panic!("failed"),
    }
}

#[test]
fn deploys_a_raw_pool_suite() {
    let builder = SuiteBuilder::new().with_denoms(PoolDenom::Native(s("ujuno")), PoolDenom::Cw20(s("RAW")));
    let (d, cmd) = Deploying::start(builder);
    assert_eq!(cmd, DeployCommand::Store(Code::Cw20));
    assert_eq!(d.deployment.owner, s("owner"));

    let (d, cmd) = next(d, DeployReply::CodeId(1));
    assert_eq!(d.stage, DeployStage::CreatingDenom2);
    assert_eq!(cmd, DeployCommand::Instantiate(token_instantiate(1, s("owner"), s("RAW"))));

    let (d, cmd) = next(d, DeployReply::Address(s("contract0")));
    assert_eq!(cmd, DeployCommand::Store(Code::JunoswapPool));

    let (d, cmd) = next(d, DeployReply::CodeId(2));
    assert_eq!(
        cmd,
        DeployCommand::Instantiate(pool_instantiate(
            2,
            s("owner"),
            Denom::Native(s("ujuno")),
            Denom::Cw20(s("contract0")),
            1
        ))
    );

    let (d, cmd) = next(d, DeployReply::Address(s("contract1")));
    assert_eq!(cmd, DeployCommand::NextBlock);
    let (d, cmd) = next(d, DeployReply::Done);
    assert_eq!(cmd, DeployCommand::Query(QueryRequest { contract: s("contract1"), msg: QueryMsg::Info }));
    let (d, cmd) = next(d, DeployReply::Address(s("contract2")));
    assert_eq!(cmd, DeployCommand::Store(Code::JunoswapStaking));
    let (d, cmd) = next(d, DeployReply::CodeId(3));
    assert_eq!(cmd, DeployCommand::Instantiate(staking_instantiate(3, s("owner"), s("contract2"))));
    let (d, cmd) = next(d, DeployReply::Address(s("contract3")));
    assert_eq!(cmd, DeployCommand::NextBlock);
    let (d, cmd) = next(d, DeployReply::Done);
    assert_eq!(cmd, DeployCommand::Store(Code::PalomadexStaking));
    let (d, cmd) = next(d, DeployReply::CodeId(4));
    assert_eq!(cmd, DeployCommand::Store(Code::PalomadexPair));
    let (d, cmd) = next(d, DeployReply::CodeId(5));
    assert_eq!(cmd, DeployCommand::Store(Code::PalomadexFactory));
    let (d, cmd) = next(d, DeployReply::CodeId(6));
    assert_eq!(cmd, DeployCommand::Instantiate(d.builder.factory_instantiate(6, s("owner"), 5, 1, 4)));
    let (d, cmd) = next(d, DeployReply::Address(s("contract4")));
    assert_eq!(cmd, DeployCommand::Instantiate(grain_token_instantiate(1, s("owner"))));
    let (d, cmd) = next(d, DeployReply::Address(s("contract5")));
    let assets = vec![AssetInfo::Native(s("ujuno")), AssetInfo::Token(s("contract5"))];
    assert_eq!(pair_asset_infos(Denom::Native(s("ujuno")), s("contract5")), assets);
    assert_eq!(
        cmd,
        DeployCommand::Execute(Action::Execute {
            sender: s("owner"),
            contract: s("contract4"),
            msg: ExecuteMsg::CreatePair { asset_infos: assets.clone() },
        })
    );
    let (d, cmd) = next(d, DeployReply::Done);
    assert_eq!(
        cmd,
        DeployCommand::Query(QueryRequest { contract: s("contract4"), msg: QueryMsg::FactoryPair { asset_infos: assets } })
    );
    let (d, cmd) = next(
        d,
        DeployReply::Pair { contract: s("contract6"), staking: s("contract7"), liquidity_token: s("contract8") },
    );
    assert_eq!(cmd, DeployCommand::InitBalances(vec![]));
    let (d, cmd) = next(d, DeployReply::Done);
    assert_eq!(cmd, DeployCommand::Store(Code::Migrator));
    assert_eq!(d.stage, DeployStage::StoringMigrator);
    let suite = match d.step(DeployReply::CodeId(7)) {
        DeployStep::Built(suite) => suite,
        _ => panic!("not built"),
    };
    assert_eq!(suite.owner, s("owner"));
    assert_eq!(suite.cw20_code_id, 1);
    assert_eq!(suite.migrator_code_id, 7);
    assert_eq!(suite.unbonding_periods, vec![100, 200, 300]);
    assert_eq!(suite.pool_denom1, Denom::Native(s("ujuno")));
    assert_eq!(suite.pool_denom2, Denom::Cw20(s("contract0")));
    assert_eq!(suite.junoswap_pool_contract, s("contract1"));
    assert_eq!(suite.junoswap_token_contract, s("contract2"));
    assert_eq!(suite.junoswap_staking_contract, s("contract3"));
    assert_eq!(suite.factory_contract, s("contract4"));
    assert_eq!(suite.grain_cw20_token, s("contract5"));
    assert_eq!(suite.palomadex_pair_contract, s("contract6"));
    assert_eq!(suite.palomadex_staking_contract, s("contract7"));
    assert_eq!(suite.palomadex_token_contract, s("contract8"));
}

#[test]
fn native_sides_need_no_token() {
    let (d, _) = Deploying::start(SuiteBuilder::new());
    let (d, cmd) = next(d, DeployReply::CodeId(1));
    assert_eq!(cmd, DeployCommand::Store(Code::JunoswapPool));
    assert_eq!(d.deployment.pool_denom1, Denom::Native(s("ujuno")));
    assert_eq!(d.deployment.pool_denom2, Denom::Native(s("uluna")));
}

#[test]
fn cw20_first_side_is_created_first() {
    let builder = SuiteBuilder::new().with_denoms(PoolDenom::Cw20(s("AAA")), PoolDenom::Cw20(s("BBB")));
    let (d, _) = Deploying::start(builder);
    let (d, cmd) = next(d, DeployReply::CodeId(1));
    assert_eq!(d.stage, DeployStage::CreatingDenom1);
    assert_eq!(cmd, DeployCommand::Instantiate(token_instantiate(1, s("owner"), s("AAA"))));
    let (d, cmd) = next(d, DeployReply::Address(s("a")));
    assert_eq!(cmd, DeployCommand::Instantiate(token_instantiate(1, s("owner"), s("BBB"))));
    let (d, _) = next(d, DeployReply::Address(s("b")));
    assert_eq!(d.deployment.pool_denom1, Denom::Cw20(s("a")));
    assert_eq!(d.deployment.pool_denom2, Denom::Cw20(s("b")));
}

#[test]
fn wrong_answer_fails() {
    let (d, _) = Deploying::start(SuiteBuilder::new());
    assert!(matches!(d.step(DeployReply::Done), DeployStep::Failed));
}
