use raw_migration::amounts::{Coin, Decimal};
use raw_migration::builder::{Deployment, SuiteBuilder};
use raw_migration::denom::Denom;
use raw_migration::hook::stake_hook;
use raw_migration::msgs::{Action, ExecuteMsg, MigrateMsg, MigrationInit, QueryMsg, QueryRequest};
use raw_migration::plan::{PlanCommand, PlanRun, PlanState};
use raw_migration::querier::query_pair_info;
use raw_migration::suite::{Suite, SuiteInfo};

fn s(x: &str) -> String {
    x.to_string()
}

fn suite_with(denom2: Denom) -> Suite {
    SuiteBuilder::new().build(Deployment {
        owner: s("owner"),
        cw20_code_id: 1,
        migrator_code_id: 10,
        pool_denom1: Denom::Native(s("ujuno")),
        pool_denom2: denom2,
        junoswap_pool_contract: s("pool"),
        junoswap_token_contract: s("jlp"),
        junoswap_staking_contract: s("jstake"),
        factory_contract: s("factory"),
        grain_cw20_token: s("grain"),
        palomadex_pair_contract: s("pair"),
        palomadex_staking_contract: s("pstake"),
        palomadex_token_contract: s("plp"),
    })
}

fn suite() -> Suite {
    suite_with(Denom::Cw20(s("raw")))
}

#[test]
fn migration_period_is_the_second() {
    assert_eq!(suite().migration_unbonding_period(), 200);
    let mut other = suite();
    other.unbonding_periods = vec![7, 8];
    assert_eq!(other.migration_unbonding_period(), 8);
}

#[test]
fn info_lists_the_contracts() {
    assert_eq!(
        suite().info(),
        SuiteInfo {
            junoswap_token_contract: s("jlp"),
            junoswap_pool_contract: s("pool"),
            junoswap_staking_contract: s("jstake"),
            factory_contract: s("factory"),
            palomadex_token_contract: s("plp"),
            palomadex_staking_contract: s("pstake"),
            palomadex_pair_contract: s("pair"),
        }
    );
}

#[test]
fn migration_finished_asks_the_staking_contract() {
    assert_eq!(
        suite().migration_finished(),
        QueryRequest { contract: s("jstake"), msg: QueryMsg::MigrationFinished }
    );
}

fn init(migrator: &str, pool: Option<String>) -> MigrationInit {
    MigrationInit {
        migrator: s(migrator),
        unbonding_period: 200,
        junoswap_pool: s("pool"),
        factory: s("factory"),
        palomadex_pool: pool,
        raw_to_grain_exchange_rate: Decimal::raw(500_000_000_000_000_000),
        raw_address: s("raw"),
        grain_address: s("grain"),
    }
}

#[test]
fn migrate_tokens_with_defaults() {
    let plan = suite().migrate_tokens(None, None, None, Decimal::raw(500_000_000_000_000_000), s("raw"));
    assert_eq!(
        plan,
        vec![
            Action::Migrate {
                sender: s("owner"),
                contract: s("jstake"),
                msg: MigrateMsg { init: Some(init("owner", None)) },
                code_id: 10,
            },
            Action::Migrate {
                sender: s("owner"),
                contract: s("jstake"),
                msg: MigrateMsg { init: None },
                code_id: 10,
            },
            Action::Execute {
                sender: s("owner"),
                contract: s("jstake"),
                msg: ExecuteMsg::MigrateTokens { palomadex_pool: s("pair") },
            },
        ]
    );
}

#[test]
fn migrate_tokens_with_choices() {
    let plan = suite().migrate_tokens(
        Some(s("someone")),
        Some(s("pair2")),
        Some(s("pair3")),
        Decimal::raw(500_000_000_000_000_000),
        s("raw"),
    );
    assert_eq!(plan.len(), 3);
    assert_eq!(
        plan[0],
        Action::Migrate {
            sender: s("owner"),
            contract: s("jstake"),
            msg: MigrateMsg { init: Some(init("someone", Some(s("pair2")))) },
            code_id: 10,
        }
    );
    assert_eq!(
        plan[2],
        Action::Execute {
            sender: s("owner"),
            contract: s("jstake"),
            msg: ExecuteMsg::MigrateTokens { palomadex_pool: s("pair3") },
        }
    );
}

#[test]
fn migrate_stakers_sends_the_limit() {
    assert_eq!(
        suite().migrate_stakers(10),
        Action::Execute { sender: s("owner"), contract: s("jstake"), msg: ExecuteMsg::MigrateStakers { limit: 10 } }
    );
}

#[test]
fn mint_cw20_mints_to_recipient() {
    assert_eq!(
        suite().mint_cw20(s("owner"), s("raw"), 5, s("alice")),
        Action::Execute {
            sender: s("owner"),
            contract: s("raw"),
            msg: ExecuteMsg::Mint { recipient: s("alice"), amount: 5 },
        }
    );
}

#[test]
fn junoswap_lp_defaults_to_the_pool_token() {
    assert_eq!(
        suite().junoswap_lp(s("alice"), None),
        QueryRequest { contract: s("jlp"), msg: QueryMsg::Balance { address: s("alice") } }
    );
    assert_eq!(
        suite().junoswap_lp(s("alice"), Some(s("other"))),
        QueryRequest { contract: s("other"), msg: QueryMsg::Balance { address: s("alice") } }
    );
}

#[test]
fn provide_liquidity_native_and_cw20() {
    let natives = vec![Coin { denom: s("ujuno"), amount: 1000 }];
    let plan = suite().provide_liquidity_to_junoswap_pool(s("whale"), 1000, 3000, None, None, natives.clone());
    assert_eq!(
        plan.setup,
        vec![
            Action::BankMint { to_address: s("whale"), coin: Coin { denom: s("ujuno"), amount: 1000 } },
            Action::Execute {
                sender: s("owner"),
                contract: s("raw"),
                msg: ExecuteMsg::Mint { recipient: s("whale"), amount: 3000 },
            },
            Action::Execute {
                sender: s("whale"),
                contract: s("raw"),
                msg: ExecuteMsg::IncreaseAllowance { spender: s("pool"), amount: 3000 },
            },
        ]
    );
    assert_eq!(
        plan.add_liquidity,
        Action::ExecuteWithFunds {
            sender: s("whale"),
            contract: s("pool"),
            msg: ExecuteMsg::AddLiquidity { token1_amount: 1000, min_liquidity: 100, max_token2: 3000 },
            funds: natives,
        }
    );
}

#[test]
fn provide_liquidity_with_given_denoms() {
    let plan = suite_with(Denom::Native(s("uluna"))).provide_liquidity_to_junoswap_pool(
        s("bob"),
        1,
        2,
        Some(Denom::Cw20(s("t1"))),
        Some(Denom::Native(s("uatom"))),
        vec![],
    );
    assert_eq!(plan.setup.len(), 3);
    assert_eq!(
        plan.setup[2],
        Action::BankMint { to_address: s("bob"), coin: Coin { denom: s("uatom"), amount: 2 } }
    );
    let native_only = suite_with(Denom::Native(s("uluna")))
        .provide_liquidity_to_junoswap_pool(s("bob"), 1, 2, None, None, vec![]);
    assert_eq!(native_only.setup.len(), 2);
}

#[test]
fn stake_defaults_and_choices() {
    assert_eq!(
        suite().stake_junoswap_lp(s("alice"), 50, None, None).unwrap(),
        Action::Execute {
            sender: s("alice"),
            contract: s("jlp"),
            msg: ExecuteMsg::Send { contract: s("jstake"), amount: 50, msg: br#"{"stake":{}}"#.to_vec() },
        }
    );
    assert_eq!(
        suite().stake_junoswap_lp(s("alice"), 50, Some(s("lp2")), Some(s("st2"))).unwrap(),
        Action::Execute {
            sender: s("alice"),
            contract: s("lp2"),
            msg: ExecuteMsg::Send { contract: s("st2"), amount: 50, msg: br#"{"stake":{}}"#.to_vec() },
        }
    );
}

#[test]
fn stake_hook_is_stake_json() {
    assert_eq!(stake_hook().unwrap(), br#"{"stake":{}}"#.to_vec());
}

#[test]
fn unstake_defaults_to_the_staking_contract() {
    assert_eq!(
        suite().unstake_junoswap_lp(s("alice"), 7, None),
        Action::Execute { sender: s("alice"), contract: s("jstake"), msg: ExecuteMsg::Unstake { amount: 7 } }
    );
    assert_eq!(
        suite().unstake_junoswap_lp(s("alice"), 7, Some(s("st2"))),
        Action::Execute { sender: s("alice"), contract: s("st2"), msg: ExecuteMsg::Unstake { amount: 7 } }
    );
}

#[test]
fn queries_go_to_the_right_contracts() {
    let su = suite();
    assert_eq!(
        su.query_stake_claims_for_pair(s("alice")),
        QueryRequest { contract: s("jstake"), msg: QueryMsg::Claims { address: s("alice") } }
    );
    assert_eq!(su.query_palomadex_pool(), QueryRequest { contract: s("pair"), msg: QueryMsg::Pool });
    assert_eq!(su.total_palomadex_lp(), QueryRequest { contract: s("plp"), msg: QueryMsg::TokenInfo });
    assert_eq!(
        su.palomadex_lp(s("alice")),
        QueryRequest { contract: s("plp"), msg: QueryMsg::Balance { address: s("alice") } }
    );
    assert_eq!(su.palomadex_lp_holders_query(), QueryRequest { contract: s("plp"), msg: QueryMsg::AllAccounts });
    assert_eq!(
        su.palomadex_staked(s("alice"), 200),
        QueryRequest { contract: s("pstake"), msg: QueryMsg::Staked { address: s("alice"), unbonding_period: 200 } }
    );
}

#[test]
fn total_staked_is_the_staking_contracts_lp() {
    let su = suite();
    assert_eq!(su.total_palomadex_staked(), su.palomadex_lp(s("pstake")));
}

#[test]
fn holders_pair_accounts_with_balances() {
    assert_eq!(
        Suite::palomadex_lp_holders(vec![s("a"), s("b")], vec![3, 4]),
        vec![(s("a"), 3), (s("b"), 4)]
    );
    assert!(Suite::palomadex_lp_holders(vec![], vec![]).is_empty());
}

#[test]
fn pair_info_query() {
    assert_eq!(query_pair_info(s("pair")), QueryRequest { contract: s("pair"), msg: QueryMsg::Pair });
}

#[test]
fn liquidity_run_requires_setup() {
    let plan = suite().provide_liquidity_to_junoswap_pool(s("whale"), 1000, 3000, None, None, vec![]);
    let (r, cmd) = plan.run();
    assert_eq!(r, PlanRun { state: PlanState::Sending(0), len: 4, required: 3 });
    assert_eq!(cmd, PlanCommand::Send(0));
    assert_eq!(plan.request(0), &plan.setup[0]);
    assert_eq!(plan.request(3), &plan.add_liquidity);
    // a failed mint aborts: no deposit is sent
    let (r, c) = r.step(true);
    assert_eq!(c, PlanCommand::Send(1));
    let (r, c) = r.step(false);
    assert_eq!(c, PlanCommand::Abort);
    assert_eq!(r.state, PlanState::Aborted);
}
