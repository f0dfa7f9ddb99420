//! Deploying a suite, step by step: which code to store, which contract to
//! instantiate with which message, what to query and what to execute, each
//! built from what the chain answered before. The chain carries the
//! commands out and answers; the last answer yields the suite.
use vstd::prelude::*;

use crate::amounts::Coin;
use crate::builder::{
    create_pair, default_unbonding_periods, factory_pair_query, grain_token_instantiate, pair_asset_infos, pool_info_query,
    pool_instantiate, spec_factory_instantiate, spec_grain_instantiate, spec_pool_instantiate,
    spec_staking_instantiate, spec_suite_of, staking_instantiate, suite_owner, Deployment,
    SuiteBuilder,
};
use crate::denom::{spec_asset_info, spec_token_instantiate, AssetInfo, Denom, DenomSetup, PoolDenom};
use crate::msgs::{Action, ExecuteMsg, Instantiate, QueryMsg, QueryRequest};
use crate::suite::Suite;

verus! {

/// The contract codes that a suite stores.
#[derive(Debug, Clone, Copy, PartialEq, Eq)]
pub enum Code {
    /// The cw20 token, for the pool sides, the liquidity tokens and GRAIN.
    Cw20,
    /// The JunoSwap (wasmswap) pool.
    JunoswapPool,
    /// The JunoSwap (stake-cw20) staking contract.
    JunoswapStaking,
    /// The Palomadex staking contract.
    PalomadexStaking,
    /// The Palomadex pair.
    PalomadexPair,
    /// The Palomadex factory.
    PalomadexFactory,
    /// The migration contract.
    Migrator,
}

/// What the chain answered to the last command.
#[derive(Debug, Clone, PartialEq, Eq)]
pub enum DeployReply {
    /// The id under which code was stored.
    CodeId(u64),
    /// The address of an instantiated contract, or the liquidity token that
    /// the JunoSwap pool reports.
    Address(String),
    /// The pair that the Palomadex factory reports: its contract, its
    /// staking contract and its liquidity token.
    Pair { contract: String, staking: String, liquidity_token: String },
    /// The command was carried out.
    Done,
}

/// What the chain must do next.
#[derive(Debug, Clone, PartialEq, Eq)]
pub enum DeployCommand {
    /// Store the code; answer with its id.
    Store(Code),
    /// Instantiate; answer with the address.
    Instantiate(Instantiate),
    /// Move to the next block; answer done.
    NextBlock,
    /// Query; answer with the address or pair it names.
    Query(QueryRequest),
    /// Execute; answer done.
    Execute(Action),
    /// Give each account its coins; answer done.
    InitBalances(Vec<(String, Vec<Coin>)>),
}

/// The answer that a deployment waits for.
#[derive(Debug, Clone, Copy, PartialEq, Eq)]
pub enum DeployStage {
    StoringCw20,
    CreatingDenom1,
    CreatingDenom2,
    StoringPool,
    InstantiatingPool,
    PoolBlock,
    QueryingPoolInfo,
    StoringStaking,
    InstantiatingStaking,
    StakingBlock,
    StoringPalomadexStaking,
    StoringPair,
    StoringFactory,
    InstantiatingFactory,
    CreatingGrain,
    CreatingPair,
    QueryingPair,
    FundingAccounts,
    StoringMigrator,
}

/// A deployment under way: the configuration, what the chain has answered
/// so far, and the answer it waits for.
pub struct Deploying {
    pub builder: SuiteBuilder,
    pub stage: DeployStage,
    pub deployment: Deployment,
    pub pool_code_id: u64,
    pub staking_code_id: u64,
    pub palomadex_staking_code_id: u64,
    pub pair_code_id: u64,
    pub factory_code_id: u64,
}

/// The outcome of one step of a deployment.
pub enum DeployStep {
    /// The deployment goes on with this command.
    Next(Deploying, DeployCommand),
    /// The suite is deployed.
    Built(Suite),
    /// The answer did not fit the command.
    Failed,
}

/// The assets of the Palomadex pair of a deployment: its first pool side
/// and the GRAIN token.
pub open spec fn spec_pair_assets(d: Deployment) -> Seq<AssetInfo> {
    seq![spec_asset_info(d.pool_denom1), AssetInfo::Token(d.grain_cw20_token)]
}

/// The state after the first pool side is set up: the second is recorded
/// if it is native, else its token is created next.
pub open spec fn spec_after_denom1(d: Deploying) -> Deploying {
    match d.builder.spec_denom2() {
        PoolDenom::Native(x) => Deploying {
            stage: DeployStage::StoringPool,
            deployment: Deployment { pool_denom2: Denom::Native(x), ..d.deployment },
            ..d
        },
        PoolDenom::Cw20(_) => Deploying { stage: DeployStage::CreatingDenom2, ..d },
    }
}

/// The state after the cw20 code is stored: the first pool side is
/// recorded if it is native, else its token is created next.
pub open spec fn spec_after_cw20(d: Deploying) -> Deploying {
    match d.builder.spec_denom1() {
        PoolDenom::Native(x) => spec_after_denom1(
            Deploying { deployment: Deployment { pool_denom1: Denom::Native(x), ..d.deployment }, ..d },
        ),
        PoolDenom::Cw20(_) => Deploying { stage: DeployStage::CreatingDenom1, ..d },
    }
}

/// The state of a deployment in `d` after the answer `reply`, when the
/// answer fits and the deployment goes on; `None` when it does not fit, or
/// when it was the last.
pub open spec fn spec_next(d: Deploying, reply: DeployReply) -> Option<Deploying> {
    let dep = d.deployment;
    match (d.stage, reply) {
        (DeployStage::StoringCw20, DeployReply::CodeId(c)) => Some(
            spec_after_cw20(Deploying { deployment: Deployment { cw20_code_id: c, ..dep }, ..d }),
        ),
        (DeployStage::CreatingDenom1, DeployReply::Address(a)) => Some(
            spec_after_denom1(Deploying { deployment: Deployment { pool_denom1: Denom::Cw20(a), ..dep }, ..d }),
        ),
        (DeployStage::CreatingDenom2, DeployReply::Address(a)) => Some(
            Deploying {
                stage: DeployStage::StoringPool,
                deployment: Deployment { pool_denom2: Denom::Cw20(a), ..dep },
                ..d
            },
        ),
        (DeployStage::StoringPool, DeployReply::CodeId(c)) => Some(
            Deploying { stage: DeployStage::InstantiatingPool, pool_code_id: c, ..d },
        ),
        (DeployStage::InstantiatingPool, DeployReply::Address(a)) => Some(
            Deploying {
                stage: DeployStage::PoolBlock,
                deployment: Deployment { junoswap_pool_contract: a, ..dep },
                ..d
            },
        ),
        (DeployStage::PoolBlock, DeployReply::Done) => Some(
            Deploying { stage: DeployStage::QueryingPoolInfo, ..d },
        ),
        (DeployStage::QueryingPoolInfo, DeployReply::Address(a)) => Some(
            Deploying {
                stage: DeployStage::StoringStaking,
                deployment: Deployment { junoswap_token_contract: a, ..dep },
                ..d
            },
        ),
        (DeployStage::StoringStaking, DeployReply::CodeId(c)) => Some(
            Deploying { stage: DeployStage::InstantiatingStaking, staking_code_id: c, ..d },
        ),
        (DeployStage::InstantiatingStaking, DeployReply::Address(a)) => Some(
            Deploying {
                stage: DeployStage::StakingBlock,
                deployment: Deployment { junoswap_staking_contract: a, ..dep },
                ..d
            },
        ),
        (DeployStage::StakingBlock, DeployReply::Done) => Some(
            Deploying { stage: DeployStage::StoringPalomadexStaking, ..d },
        ),
        (DeployStage::StoringPalomadexStaking, DeployReply::CodeId(c)) => Some(
            Deploying { stage: DeployStage::StoringPair, palomadex_staking_code_id: c, ..d },
        ),
        (DeployStage::StoringPair, DeployReply::CodeId(c)) => Some(
            Deploying { stage: DeployStage::StoringFactory, pair_code_id: c, ..d },
        ),
        (DeployStage::StoringFactory, DeployReply::CodeId(c)) => Some(
            Deploying { stage: DeployStage::InstantiatingFactory, factory_code_id: c, ..d },
        ),
        (DeployStage::InstantiatingFactory, DeployReply::Address(a)) => Some(
            Deploying {
                stage: DeployStage::CreatingGrain,
                deployment: Deployment { factory_contract: a, ..dep },
                ..d
            },
        ),
        (DeployStage::CreatingGrain, DeployReply::Address(a)) => Some(
            Deploying {
                stage: DeployStage::CreatingPair,
                deployment: Deployment { grain_cw20_token: a, ..dep },
                ..d
            },
        ),
        (DeployStage::CreatingPair, DeployReply::Done) => Some(
            Deploying { stage: DeployStage::QueryingPair, ..d },
        ),
        (DeployStage::QueryingPair, DeployReply::Pair { contract, staking, liquidity_token }) => Some(
            Deploying {
                stage: DeployStage::FundingAccounts,
                deployment: Deployment {
                    palomadex_pair_contract: contract,
                    palomadex_staking_contract: staking,
                    palomadex_token_contract: liquidity_token,
                    ..dep
                },
                ..d
            },
        ),
        (DeployStage::FundingAccounts, DeployReply::Done) => Some(
            Deploying { stage: DeployStage::StoringMigrator, ..d },
        ),
        _ => None,
    }
}

/// `cmd` is the command that a deployment in the state `d` sends.
pub open spec fn spec_command(d: Deploying, cmd: DeployCommand) -> bool {
    let dep = d.deployment;
    match d.stage {
        DeployStage::StoringCw20 => cmd == DeployCommand::Store(Code::Cw20),
        DeployStage::CreatingDenom1 => d.builder.spec_denom1() matches PoolDenom::Cw20(symbol)
            && cmd == DeployCommand::Instantiate(spec_token_instantiate(dep.cw20_code_id, dep.owner, symbol)),
        DeployStage::CreatingDenom2 => d.builder.spec_denom2() matches PoolDenom::Cw20(symbol)
            && cmd == DeployCommand::Instantiate(spec_token_instantiate(dep.cw20_code_id, dep.owner, symbol)),
        DeployStage::StoringPool => cmd == DeployCommand::Store(Code::JunoswapPool),
        DeployStage::InstantiatingPool => cmd matches DeployCommand::Instantiate(i)
            && spec_pool_instantiate(i, d.pool_code_id, dep.owner, dep.pool_denom1, dep.pool_denom2, dep.cw20_code_id),
        DeployStage::PoolBlock => cmd == DeployCommand::NextBlock,
        DeployStage::QueryingPoolInfo => cmd == DeployCommand::Query(
            QueryRequest { contract: dep.junoswap_pool_contract, msg: QueryMsg::Info },
        ),
        DeployStage::StoringStaking => cmd == DeployCommand::Store(Code::JunoswapStaking),
        DeployStage::InstantiatingStaking => cmd matches DeployCommand::Instantiate(i)
            && spec_staking_instantiate(i, d.staking_code_id, dep.owner, dep.junoswap_token_contract),
        DeployStage::StakingBlock => cmd == DeployCommand::NextBlock,
        DeployStage::StoringPalomadexStaking => cmd == DeployCommand::Store(Code::PalomadexStaking),
        DeployStage::StoringPair => cmd == DeployCommand::Store(Code::PalomadexPair),
        DeployStage::StoringFactory => cmd == DeployCommand::Store(Code::PalomadexFactory),
        DeployStage::InstantiatingFactory => cmd matches DeployCommand::Instantiate(i) && spec_factory_instantiate(
            i,
            d.builder.spec_unbonding_periods(),
            d.factory_code_id,
            dep.owner,
            d.pair_code_id,
            dep.cw20_code_id,
            d.palomadex_staking_code_id,
        ),
        DeployStage::CreatingGrain => cmd matches DeployCommand::Instantiate(i)
            && spec_grain_instantiate(i, dep.cw20_code_id, dep.owner),
        DeployStage::CreatingPair => cmd matches DeployCommand::Execute(
            Action::Execute { sender, contract, msg: ExecuteMsg::CreatePair { asset_infos } },
        ) && sender == dep.owner && contract == dep.factory_contract && asset_infos@ == spec_pair_assets(dep),
        DeployStage::QueryingPair => cmd matches DeployCommand::Query(
            QueryRequest { contract, msg: QueryMsg::FactoryPair { asset_infos } },
        ) && contract == dep.factory_contract && asset_infos@ == spec_pair_assets(dep),
        DeployStage::FundingAccounts => cmd matches DeployCommand::InitBalances(balances)
            && balances@ == d.builder.spec_funds(),
        DeployStage::StoringMigrator => cmd == DeployCommand::Store(Code::Migrator),
    }
}

/// The state after the answers `replies`, if each of them fits and none
/// was the last.
pub open spec fn spec_run(d: Deploying, replies: Seq<DeployReply>) -> Option<Deploying>
    decreases replies.len(),
{
    if replies.len() == 0 {
        Some(d)
    } else {
        match spec_next(d, replies[0]) {
            Some(n) => spec_run(n, replies.drop_first()),
            None => None,
        }
    }
}

/// The answers of a chain that deploys a suite whose second pool side is a
/// new cw20 token, up to the storing of the migration code.
pub open spec fn spec_answers(
    cw20_code_id: u64,
    token2: String,
    pool_code_id: u64,
    pool: String,
    lp_token: String,
    staking_code_id: u64,
    staking: String,
    palomadex_staking_code_id: u64,
    pair_code_id: u64,
    factory_code_id: u64,
    factory: String,
    grain: String,
    pair: String,
    pair_staking: String,
    pair_token: String,
) -> Seq<DeployReply> {
    seq![
        DeployReply::CodeId(cw20_code_id),
        DeployReply::Address(token2),
        DeployReply::CodeId(pool_code_id),
        DeployReply::Address(pool),
        DeployReply::Done,
        DeployReply::Address(lp_token),
        DeployReply::CodeId(staking_code_id),
        DeployReply::Address(staking),
        DeployReply::Done,
        DeployReply::CodeId(palomadex_staking_code_id),
        DeployReply::CodeId(pair_code_id),
        DeployReply::CodeId(factory_code_id),
        DeployReply::Address(factory),
        DeployReply::Address(grain),
        DeployReply::Done,
        DeployReply::Pair { contract: pair, staking: pair_staking, liquidity_token: pair_token },
        DeployReply::Done,
    ]
}

/// A suite of a native first side and a cw20 second side (the RAW pool)
/// records every answer of its deployment where the suite will hold it:
/// the second side is the token created for it, the liquidity token is the
/// one the pool reports, and the Palomadex contracts are those of the pair
/// that the factory reports. Only the migration code remains to be stored.
pub proof fn lemma_deployment_records_answers(
    d: Deploying,
    cw20_code_id: u64,
    token2: String,
    pool_code_id: u64,
    pool: String,
    lp_token: String,
    staking_code_id: u64,
    staking: String,
    palomadex_staking_code_id: u64,
    pair_code_id: u64,
    factory_code_id: u64,
    factory: String,
    grain: String,
    pair: String,
    pair_staking: String,
    pair_token: String,
)
    requires
        d.stage == DeployStage::StoringCw20,
        d.builder.spec_denom1() is Native,
        d.builder.spec_denom2() is Cw20,
    ensures
        spec_run(
            d,
            spec_answers(
                cw20_code_id, token2, pool_code_id, pool, lp_token, staking_code_id, staking,
                palomadex_staking_code_id, pair_code_id, factory_code_id, factory, grain, pair,
                pair_staking, pair_token,
            ),
        ) matches Some(n) && {
            &&& n.stage == DeployStage::StoringMigrator
            &&& n.builder == d.builder
            &&& n.deployment == Deployment {
                owner: d.deployment.owner,
                cw20_code_id,
                migrator_code_id: d.deployment.migrator_code_id,
                pool_denom1: Denom::Native(d.builder.spec_denom1()->Native_0),
                pool_denom2: Denom::Cw20(token2),
                junoswap_pool_contract: pool,
                junoswap_token_contract: lp_token,
                junoswap_staking_contract: staking,
                factory_contract: factory,
                grain_cw20_token: grain,
                palomadex_pair_contract: pair,
                palomadex_staking_contract: pair_staking,
                palomadex_token_contract: pair_token,
            }
        },
{
    reveal_with_fuel(spec_run, 18);
}

/// The answers of a chain to a deployment after its pool sides are set
/// up, from storing the pool's code to funding the accounts.
pub open spec fn spec_answers_after_sides(
    pool_code_id: u64,
    pool: String,
    lp_token: String,
    staking_code_id: u64,
    staking: String,
    palomadex_staking_code_id: u64,
    pair_code_id: u64,
    factory_code_id: u64,
    factory: String,
    grain: String,
    pair: String,
    pair_staking: String,
    pair_token: String,
) -> Seq<DeployReply> {
    seq![
        DeployReply::CodeId(pool_code_id),
        DeployReply::Address(pool),
        DeployReply::Done,
        DeployReply::Address(lp_token),
        DeployReply::CodeId(staking_code_id),
        DeployReply::Address(staking),
        DeployReply::Done,
        DeployReply::CodeId(palomadex_staking_code_id),
        DeployReply::CodeId(pair_code_id),
        DeployReply::CodeId(factory_code_id),
        DeployReply::Address(factory),
        DeployReply::Address(grain),
        DeployReply::Done,
        DeployReply::Pair { contract: pair, staking: pair_staking, liquidity_token: pair_token },
        DeployReply::Done,
    ]
}

/// The answer that setting up a pool side takes: none for a native side,
/// the address of the token created for a cw20 side.
pub open spec fn spec_side_answers(side: PoolDenom, token: String) -> Seq<DeployReply> {
    match side {
        PoolDenom::Native(_) => Seq::empty(),
        PoolDenom::Cw20(_) => seq![DeployReply::Address(token)],
    }
}

/// Whatever the kinds of the two pool sides, a deployment that gets fitting
/// answers records each side where the suite will hold it: a native side
/// as the builder names it, a cw20 side as the token created for it. It
/// records every other answer too, and only the migration code remains to
/// be stored.
pub proof fn lemma_deployment_records_sides(
    d: Deploying,
    cw20_code_id: u64,
    token1: String,
    token2: String,
    pool_code_id: u64,
    pool: String,
    lp_token: String,
    staking_code_id: u64,
    staking: String,
    palomadex_staking_code_id: u64,
    pair_code_id: u64,
    factory_code_id: u64,
    factory: String,
    grain: String,
    pair: String,
    pair_staking: String,
    pair_token: String,
)
    requires
        d.stage == DeployStage::StoringCw20,
    ensures
        spec_run(
            d,
            seq![DeployReply::CodeId(cw20_code_id)]
                + spec_side_answers(d.builder.spec_denom1(), token1)
                + spec_side_answers(d.builder.spec_denom2(), token2)
                + spec_answers_after_sides(pool_code_id, pool, lp_token, staking_code_id, staking,
                palomadex_staking_code_id, pair_code_id, factory_code_id, factory, grain, pair,
                pair_staking, pair_token),
        ) matches Some(n) && {
            &&& n.stage == DeployStage::StoringMigrator
            &&& n.builder == d.builder
            &&& n.deployment == Deployment {
                owner: d.deployment.owner,
                cw20_code_id,
                migrator_code_id: d.deployment.migrator_code_id,
                pool_denom1: match d.builder.spec_denom1() {
                    PoolDenom::Native(x) => Denom::Native(x),
                    PoolDenom::Cw20(_) => Denom::Cw20(token1),
                },
                pool_denom2: match d.builder.spec_denom2() {
                    PoolDenom::Native(x) => Denom::Native(x),
                    PoolDenom::Cw20(_) => Denom::Cw20(token2),
                },
                junoswap_pool_contract: pool,
                junoswap_token_contract: lp_token,
                junoswap_staking_contract: staking,
                factory_contract: factory,
                grain_cw20_token: grain,
                palomadex_pair_contract: pair,
                palomadex_staking_contract: pair_staking,
                palomadex_token_contract: pair_token,
            }
        },
{
    let sides = seq![DeployReply::CodeId(cw20_code_id)]
        + spec_side_answers(d.builder.spec_denom1(), token1)
        + spec_side_answers(d.builder.spec_denom2(), token2);
    let rest = spec_answers_after_sides(
        pool_code_id, pool, lp_token, staking_code_id, staking,
        palomadex_staking_code_id, pair_code_id, factory_code_id, factory, grain, pair,
        pair_staking, pair_token,
    );
    lemma_run_append(d, sides, rest);
    reveal_with_fuel(spec_run, 4);
    match (d.builder.spec_denom1(), d.builder.spec_denom2()) {
        (PoolDenom::Native(_), PoolDenom::Native(_)) => {
            assert(sides =~= seq![DeployReply::CodeId(cw20_code_id)]);
        },
        (PoolDenom::Cw20(_), PoolDenom::Native(_)) => {
            assert(sides =~= seq![DeployReply::CodeId(cw20_code_id), DeployReply::Address(token1)]);
        },
        (PoolDenom::Native(_), PoolDenom::Cw20(_)) => {
            assert(sides =~= seq![DeployReply::CodeId(cw20_code_id), DeployReply::Address(token2)]);
        },
        (PoolDenom::Cw20(_), PoolDenom::Cw20(_)) => {
            assert(sides =~= seq![
                DeployReply::CodeId(cw20_code_id),
                DeployReply::Address(token1),
                DeployReply::Address(token2),
            ]);
        },
    }
    let mid = spec_run(d, sides)->Some_0;
    lemma_after_sides(mid, pool_code_id, pool, lp_token, staking_code_id, staking,
        palomadex_staking_code_id, pair_code_id, factory_code_id, factory, grain, pair,
        pair_staking, pair_token);
}

/// Running on two runs of answers in turn is running on both.
proof fn lemma_run_append(d: Deploying, a: Seq<DeployReply>, b: Seq<DeployReply>)
    ensures
        spec_run(d, a + b) == match spec_run(d, a) {
            Some(n) => spec_run(n, b),
            None => None,
        },
    decreases a.len(),
{
    if a.len() == 0 {
        assert(a + b =~= b);
    } else {
        assert((a + b).drop_first() =~= a.drop_first() + b);
        assert((a + b)[0] == a[0]);
        match spec_next(d, a[0]) {
            Some(n) => lemma_run_append(n, a.drop_first(), b),
            None => {},
        }
    }
}

/// Once its pool sides are set up, a deployment that gets fitting answers
/// records them all and waits for the migration code.
proof fn lemma_after_sides(
    d: Deploying,
    pool_code_id: u64,
    pool: String,
    lp_token: String,
    staking_code_id: u64,
    staking: String,
    palomadex_staking_code_id: u64,
    pair_code_id: u64,
    factory_code_id: u64,
    factory: String,
    grain: String,
    pair: String,
    pair_staking: String,
    pair_token: String,
)
    requires
        d.stage == DeployStage::StoringPool,
    ensures
        spec_run(d, spec_answers_after_sides(pool_code_id, pool, lp_token, staking_code_id, staking,
        palomadex_staking_code_id, pair_code_id, factory_code_id, factory, grain, pair,
        pair_staking, pair_token)) matches Some(n) && {
            &&& n.stage == DeployStage::StoringMigrator
            &&& n.builder == d.builder
            &&& n.deployment == Deployment {
                junoswap_pool_contract: pool,
                junoswap_token_contract: lp_token,
                junoswap_staking_contract: staking,
                factory_contract: factory,
                grain_cw20_token: grain,
                palomadex_pair_contract: pair,
                palomadex_staking_contract: pair_staking,
                palomadex_token_contract: pair_token,
                ..d.deployment
            }
        },
{
    reveal_with_fuel(spec_run, 16);
}

impl Deploying {
    /// A deployment by "owner" of the suite that `builder` configures; it
    /// begins by storing the cw20 code.
    pub fn start(builder: SuiteBuilder) -> (r: (Deploying, DeployCommand))
        ensures
            r.0.builder == builder,
            r.0.stage == DeployStage::StoringCw20,
            r.0.deployment.owner@ == "owner"@,
            spec_command(r.0, r.1),
    {
        let deployment = Deployment {
            owner: suite_owner(),
            cw20_code_id: 0,
            migrator_code_id: 0,
            pool_denom1: Denom::Native(String::new()),
            pool_denom2: Denom::Native(String::new()),
            junoswap_pool_contract: String::new(),
            junoswap_token_contract: String::new(),
            junoswap_staking_contract: String::new(),
            factory_contract: String::new(),
            grain_cw20_token: String::new(),
            palomadex_pair_contract: String::new(),
            palomadex_staking_contract: String::new(),
            palomadex_token_contract: String::new(),
        };
        let d = Deploying {
            builder,
            stage: DeployStage::StoringCw20,
            deployment,
            pool_code_id: 0,
            staking_code_id: 0,
            palomadex_staking_code_id: 0,
            pair_code_id: 0,
            factory_code_id: 0,
        };
        (d, DeployCommand::Store(Code::Cw20))
    }

    /// Goes on once the first pool side is set up.
    fn after_denom1(self) -> (r: DeployStep)
        ensures
            r matches DeployStep::Next(n, cmd) && n == spec_after_denom1(self) && spec_command(n, cmd),
    {
        let (_, setup2) = self.builder.denom_setups(
            self.deployment.owner.clone(),
            self.deployment.cw20_code_id,
        );
        match setup2 {
            DenomSetup::Ready(d) => {
                let next = Deploying {
                    stage: DeployStage::StoringPool,
                    deployment: Deployment { pool_denom2: d, ..self.deployment },
                    ..self
                };
                DeployStep::Next(next, DeployCommand::Store(Code::JunoswapPool))
            },
            DenomSetup::CreateToken(i) => {
                let next = Deploying { stage: DeployStage::CreatingDenom2, ..self };
                DeployStep::Next(next, DeployCommand::Instantiate(i))
            },
        }
    }

    /// Goes on once the cw20 code is stored.
    fn after_cw20(self) -> (r: DeployStep)
        ensures
            r matches DeployStep::Next(n, cmd) && n == spec_after_cw20(self) && spec_command(n, cmd),
    {
        let (setup1, _) = self.builder.denom_setups(
            self.deployment.owner.clone(),
            self.deployment.cw20_code_id,
        );
        match setup1 {
            DenomSetup::Ready(d) => {
                let next = Deploying { deployment: Deployment { pool_denom1: d, ..self.deployment }, ..self };
                next.after_denom1()
            },
            DenomSetup::CreateToken(i) => {
                let next = Deploying { stage: DeployStage::CreatingDenom1, ..self };
                DeployStep::Next(next, DeployCommand::Instantiate(i))
            },
        }
    }

    /// One step of the deployment: records the chain's answer to the last
    /// command and sends the next one; after the migration code is stored,
    /// the suite is built. An answer that does not fit the command fails.
    pub fn step(self, reply: DeployReply) -> (r: DeployStep)
        ensures
            match spec_next(self, reply) {
                Some(n) => r matches DeployStep::Next(m, cmd) && m == n && spec_command(m, cmd),
                None => if self.stage == DeployStage::StoringMigrator && reply is CodeId {
                    r matches DeployStep::Built(suite) && spec_suite_of(
                        suite,
                        self.builder.spec_unbonding_periods(),
                        Deployment { migrator_code_id: reply->CodeId_0, ..self.deployment },
                    ) && suite.unbonding_periods@ == default_unbonding_periods()
                } else {
                    r is Failed
                },
            },
    {
        match (self.stage, reply) {
            (DeployStage::StoringCw20, DeployReply::CodeId(c)) => {
                let d = Deploying { deployment: Deployment { cw20_code_id: c, ..self.deployment }, ..self };
                d.after_cw20()
            },
            (DeployStage::CreatingDenom1, DeployReply::Address(a)) => {
                let d = Deploying {
                    deployment: Deployment { pool_denom1: Denom::Cw20(a), ..self.deployment },
                    ..self
                };
                d.after_denom1()
            },
            (DeployStage::CreatingDenom2, DeployReply::Address(a)) => {
                let d = Deploying {
                    stage: DeployStage::StoringPool,
                    deployment: Deployment { pool_denom2: Denom::Cw20(a), ..self.deployment },
                    ..self
                };
                DeployStep::Next(d, DeployCommand::Store(Code::JunoswapPool))
            },
            (DeployStage::StoringPool, DeployReply::CodeId(c)) => {
                let d = Deploying { stage: DeployStage::InstantiatingPool, pool_code_id: c, ..self };
                let cmd = pool_instantiate(
                    c,
                    d.deployment.owner.clone(),
                    d.deployment.pool_denom1.clone(),
                    d.deployment.pool_denom2.clone(),
                    d.deployment.cw20_code_id,
                );
                DeployStep::Next(d, DeployCommand::Instantiate(cmd))
            },
            (DeployStage::InstantiatingPool, DeployReply::Address(a)) => {
                let d = Deploying {
                    stage: DeployStage::PoolBlock,
                    deployment: Deployment { junoswap_pool_contract: a, ..self.deployment },
                    ..self
                };
                DeployStep::Next(d, DeployCommand::NextBlock)
            },
            (DeployStage::PoolBlock, DeployReply::Done) => {
                let d = Deploying { stage: DeployStage::QueryingPoolInfo, ..self };
                let q = pool_info_query(d.deployment.junoswap_pool_contract.clone());
                DeployStep::Next(d, DeployCommand::Query(q))
            },
            (DeployStage::QueryingPoolInfo, DeployReply::Address(a)) => {
                let d = Deploying {
                    stage: DeployStage::StoringStaking,
                    deployment: Deployment { junoswap_token_contract: a, ..self.deployment },
                    ..self
                };
                DeployStep::Next(d, DeployCommand::Store(Code::JunoswapStaking))
            },
            (DeployStage::StoringStaking, DeployReply::CodeId(c)) => {
                let d = Deploying { stage: DeployStage::InstantiatingStaking, staking_code_id: c, ..self };
                let cmd = staking_instantiate(
                    c,
                    d.deployment.owner.clone(),
                    d.deployment.junoswap_token_contract.clone(),
                );
                DeployStep::Next(d, DeployCommand::Instantiate(cmd))
            },
            (DeployStage::InstantiatingStaking, DeployReply::Address(a)) => {
                let d = Deploying {
                    stage: DeployStage::StakingBlock,
                    deployment: Deployment { junoswap_staking_contract: a, ..self.deployment },
                    ..self
                };
                DeployStep::Next(d, DeployCommand::NextBlock)
            },
            (DeployStage::StakingBlock, DeployReply::Done) => {
                let d = Deploying { stage: DeployStage::StoringPalomadexStaking, ..self };
                DeployStep::Next(d, DeployCommand::Store(Code::PalomadexStaking))
            },
            (DeployStage::StoringPalomadexStaking, DeployReply::CodeId(c)) => {
                let d = Deploying { stage: DeployStage::StoringPair, palomadex_staking_code_id: c, ..self };
                DeployStep::Next(d, DeployCommand::Store(Code::PalomadexPair))
            },
            (DeployStage::StoringPair, DeployReply::CodeId(c)) => {
                let d = Deploying { stage: DeployStage::StoringFactory, pair_code_id: c, ..self };
                DeployStep::Next(d, DeployCommand::Store(Code::PalomadexFactory))
            },
            (DeployStage::StoringFactory, DeployReply::CodeId(c)) => {
                let d = Deploying { stage: DeployStage::InstantiatingFactory, factory_code_id: c, ..self };
                let cmd = d.builder.factory_instantiate(
                    c,
                    d.deployment.owner.clone(),
                    d.pair_code_id,
                    d.deployment.cw20_code_id,
                    d.palomadex_staking_code_id,
                );
                DeployStep::Next(d, DeployCommand::Instantiate(cmd))
            },
            (DeployStage::InstantiatingFactory, DeployReply::Address(a)) => {
                let d = Deploying {
                    stage: DeployStage::CreatingGrain,
                    deployment: Deployment { factory_contract: a, ..self.deployment },
                    ..self
                };
                let cmd = grain_token_instantiate(d.deployment.cw20_code_id, d.deployment.owner.clone());
                DeployStep::Next(d, DeployCommand::Instantiate(cmd))
            },
            (DeployStage::CreatingGrain, DeployReply::Address(a)) => {
                let d = Deploying {
                    stage: DeployStage::CreatingPair,
                    deployment: Deployment { grain_cw20_token: a, ..self.deployment },
                    ..self
                };
                let assets = pair_asset_infos(
                    d.deployment.pool_denom1.clone(),
                    d.deployment.grain_cw20_token.clone(),
                );
                let cmd = create_pair(d.deployment.owner.clone(), d.deployment.factory_contract.clone(), assets);
                DeployStep::Next(d, DeployCommand::Execute(cmd))
            },
            (DeployStage::CreatingPair, DeployReply::Done) => {
                let d = Deploying { stage: DeployStage::QueryingPair, ..self };
                let assets = pair_asset_infos(
                    d.deployment.pool_denom1.clone(),
                    d.deployment.grain_cw20_token.clone(),
                );
                let q = factory_pair_query(d.deployment.factory_contract.clone(), assets);
                DeployStep::Next(d, DeployCommand::Query(q))
            },
            (DeployStage::QueryingPair, DeployReply::Pair { contract, staking, liquidity_token }) => {
                let d = Deploying {
                    stage: DeployStage::FundingAccounts,
                    deployment: Deployment {
                        palomadex_pair_contract: contract,
                        palomadex_staking_contract: staking,
                        palomadex_token_contract: liquidity_token,
                        ..self.deployment
                    },
                    ..self
                };
                let balances = d.builder.initial_balances();
                DeployStep::Next(d, DeployCommand::InitBalances(balances))
            },
            (DeployStage::FundingAccounts, DeployReply::Done) => {
                let d = Deploying { stage: DeployStage::StoringMigrator, ..self };
                DeployStep::Next(d, DeployCommand::Store(Code::Migrator))
            },
            (DeployStage::StoringMigrator, DeployReply::CodeId(c)) => {
                let deployment = Deployment { migrator_code_id: c, ..self.deployment };
                DeployStep::Built(self.builder.build(deployment))
            },
            _ => DeployStep::Failed,
        }
    }
}

} // verus!
