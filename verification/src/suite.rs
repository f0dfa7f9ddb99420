//! A deployed suite: its contracts, and the requests with which a test
//! migrates the JunoSwap staking contract, provides and stakes liquidity,
//! and reads balances back.
use vstd::prelude::*;

use crate::amounts::{Coin, Decimal};
use crate::denom::Denom;
use crate::plan::{
    lemma_plan_after_successes, lemma_plan_failure, lemma_plan_first_failure, lemma_plan_in_order,
    lemma_plan_never_aborts_unrequired, lemma_plan_run_keeps, lemma_plan_success, spec_plan_run,
    spec_plan_start, spec_plan_step, PlanCommand, PlanRun, PlanState,
};
use crate::hook::{stake_hook, stake_hook_json, SuiteError};
use crate::msgs::{
    or_default, unwrap_or_string, Action, ExecuteMsg, MigrateMsg, MigrationInit, QueryMsg,
    QueryRequest,
};

verus! {

/// The size of each batch of stakers that a full migration moves.
pub const STAKERS_BATCH: u32 = 10;

/// The least liquidity that a deposit into the JunoSwap pool must mint.
pub const MIN_LIQUIDITY: u128 = 100;

/// The contracts of a deployed suite and the codes it stored.
pub struct Suite {
    pub owner: String,
    pub migrator_code_id: u64,
    pub cw20_code_id: u64,
    pub unbonding_periods: Vec<u64>,
    pub junoswap_token_contract: String,
    pub junoswap_pool_contract: String,
    pub junoswap_staking_contract: String,
    pub grain_cw20_token: String,
    pub palomadex_token_contract: String,
    pub palomadex_staking_contract: String,
    pub palomadex_pair_contract: String,
    pub pool_denom1: Denom,
    pub pool_denom2: Denom,
    pub factory_contract: String,
}

/// The addresses of a suite's contracts, for debugging tests.
#[derive(Debug, Clone, PartialEq, Eq)]
pub struct SuiteInfo {
    pub junoswap_token_contract: String,
    pub junoswap_pool_contract: String,
    pub junoswap_staking_contract: String,
    pub factory_contract: String,
    pub palomadex_token_contract: String,
    pub palomadex_staking_contract: String,
    pub palomadex_pair_contract: String,
}

/// A deposit into the JunoSwap pool: the actions that fund the depositor
/// and allow the pool to take its tokens, each of which must succeed, then
/// the deposit itself, whose outcome is the caller's.
#[derive(Debug, Clone, PartialEq, Eq)]
pub struct LiquidityPlan {
    pub setup: Vec<Action>,
    pub add_liquidity: Action,
}

impl LiquidityPlan {
    /// The run of this plan: the setup actions in order, each required,
    /// then the deposit, whose outcome ends the run.
    pub fn run(&self) -> (r: (PlanRun, PlanCommand))
        requires
            self.setup@.len() < usize::MAX,
        ensures
            r.0 == spec_plan_start((self.setup@.len() + 1) as usize, self.setup@.len() as usize),
            r.1 == PlanCommand::Send(0),
    {
        PlanRun::start(self.setup.len() + 1, self.setup.len())
    }

    /// The request of index `i` of the run: a setup action, or the deposit
    /// after them.
    pub fn request(&self, i: usize) -> (r: &Action)
        requires
            i <= self.setup@.len(),
        ensures
            *r == if i < self.setup@.len() { self.setup@[i as int] } else { self.add_liquidity },
    {
        if i < self.setup.len() {
            &self.setup[i]
        } else {
            &self.add_liquidity
        }
    }
}

/// The run of the requests of `Suite::migrate_tokens`, none of them
/// required: the first failure ends the run with that failure, and the
/// requests after it are not sent; when all succeed, the run ends with the
/// outcome of the last, the token transfer.
pub fn migrate_tokens_run() -> (r: (PlanRun, PlanCommand))
    ensures
        r.0 == spec_plan_start(3, 0),
        r.1 == PlanCommand::Send(0),
{
    PlanRun::start(3, 0)
}

/// The token migration never aborts: a failure of any of its requests ends
/// the run with that failure returned, and a success of a request before
/// the last sends the next one.
pub proof fn lemma_token_migration_returns_failures(oks: Seq<bool>, ok: bool)
    ensures
        spec_plan_step(spec_plan_run(spec_plan_start(3, 0), oks), ok).1 != PlanCommand::Abort,
        spec_plan_run(spec_plan_start(3, 0), oks).state matches PlanState::Sending(i) ==> {
            &&& spec_plan_step(spec_plan_run(spec_plan_start(3, 0), oks), false) == (
                PlanRun { state: PlanState::Returned, len: 3, required: 0 },
                PlanCommand::ReturnLast,
            )
            &&& i + 1 < 3 ==> spec_plan_step(spec_plan_run(spec_plan_start(3, 0), oks), true).1
                == PlanCommand::Send((i + 1) as usize)
        },
{
    let start = spec_plan_start(3, 0);
    lemma_plan_never_aborts_unrequired(start, oks, ok);
    lemma_plan_run_keeps(start, oks);
    let run = spec_plan_run(start, oks);
    if let PlanState::Sending(i) = run.state {
        lemma_plan_failure(run, i);
        lemma_plan_success(run, i);
    }
}

/// The token migration sends its requests in order, each only after those
/// before it succeeded; at the first failure it ends with that failure.
pub proof fn lemma_token_migration_stops_at_failure(oks: Seq<bool>, k: int)
    ensures
        spec_plan_run(spec_plan_start(3, 0), oks).state is Sending ==> {
            &&& spec_plan_run(spec_plan_start(3, 0), oks).state == PlanState::Sending(oks.len() as usize)
            &&& forall|j: int| 0 <= j < oks.len() ==> oks[j]
        },
        0 <= k < oks.len() && k < 3 && !oks[k] && (forall|j: int| 0 <= j < k ==> oks[j])
            ==> spec_plan_run(spec_plan_start(3, 0), oks).state == PlanState::Returned,
{
    if spec_plan_run(spec_plan_start(3, 0), oks).state is Sending {
        lemma_plan_in_order(3, 0, oks);
    }
    if 0 <= k < oks.len() && k < 3 && !oks[k] && (forall|j: int| 0 <= j < k ==> oks[j]) {
        lemma_plan_first_failure(3, 0, oks, k);
    }
}

/// When every setup action of a liquidity plan succeeds, the deposit (the
/// request after them) is sent, and its outcome, success or failure, is
/// what the run ends with.
pub proof fn lemma_deposit_sent_after_funding(n: usize, oks: Seq<bool>, deposit_ok: bool)
    requires
        n < usize::MAX,
        oks.len() == n,
        forall|j: int| 0 <= j < oks.len() ==> oks[j],
    ensures
        n > 0 ==> spec_plan_step(spec_plan_run(spec_plan_start((n + 1) as usize, n), oks.drop_last()), true)
            == (PlanRun { state: PlanState::Sending(n), len: (n + 1) as usize, required: n }, PlanCommand::Send(n)),
        spec_plan_run(spec_plan_start((n + 1) as usize, n), oks) == (PlanRun {
            state: PlanState::Sending(n),
            len: (n + 1) as usize,
            required: n,
        }),
        spec_plan_step(spec_plan_run(spec_plan_start((n + 1) as usize, n), oks), deposit_ok) == (
            PlanRun { state: PlanState::Returned, len: (n + 1) as usize, required: n },
            PlanCommand::ReturnLast,
        ),
{
    let start = spec_plan_start((n + 1) as usize, n);
    lemma_plan_after_successes((n + 1) as usize, n, oks);
    if n > 0 {
        let prefix = oks.drop_last();
        assert forall|j: int| 0 <= j < prefix.len() implies prefix[j] by {
            assert(prefix[j] == oks[j]);
        }
        lemma_plan_after_successes((n + 1) as usize, n, prefix);
        lemma_plan_success(spec_plan_run(start, prefix), (n - 1) as usize);
    }
    lemma_plan_success(spec_plan_run(start, oks), n);
    lemma_plan_failure(spec_plan_run(start, oks), n);
}

/// A deposit is sent only after every setup action succeeded; a failed
/// setup action aborts the run, and no deposit follows.
pub proof fn lemma_no_deposit_after_failed_funding(n: usize, oks: Seq<bool>, k: int)
    requires
        n < usize::MAX,
    ensures
        spec_plan_run(spec_plan_start((n + 1) as usize, n), oks).state == PlanState::Sending(n)
            ==> oks.len() == n && forall|j: int| 0 <= j < oks.len() ==> oks[j],
        0 <= k < oks.len() && k < n && !oks[k] && (forall|j: int| 0 <= j < k ==> oks[j])
            ==> spec_plan_run(spec_plan_start((n + 1) as usize, n), oks).state == PlanState::Aborted,
{
    let start = spec_plan_start((n + 1) as usize, n);
    if spec_plan_run(start, oks).state == PlanState::Sending(n) {
        lemma_plan_in_order((n + 1) as usize, n, oks);
    }
    if 0 <= k < oks.len() && k < n && !oks[k] && (forall|j: int| 0 <= j < k ==> oks[j]) {
        lemma_plan_first_failure((n + 1) as usize, n, oks, k);
    }
}

impl Suite {
    /// What funds `user` with `amount` of `denom` for a deposit: a cw20 token
    /// is minted to `user` by the suite's owner and then allowed to the pool;
    /// a native denomination is minted by the bank.
    pub open spec fn spec_funding(&self, user: String, denom: Denom, amount: u128) -> Seq<Action> {
        match denom {
            Denom::Cw20(token) => seq![
                Action::Execute {
                    sender: self.owner,
                    contract: token,
                    msg: ExecuteMsg::Mint { recipient: user, amount },
                },
                Action::Execute {
                    sender: user,
                    contract: token,
                    msg: ExecuteMsg::IncreaseAllowance {
                        spender: self.junoswap_pool_contract,
                        amount,
                    },
                },
            ],
            Denom::Native(d) => seq![
                Action::BankMint { to_address: user, coin: Coin { denom: d, amount } },
            ],
        }
    }

    /// The addresses of the suite's contracts.
    pub fn info(&self) -> (r: SuiteInfo)
        ensures
            r == (SuiteInfo {
                junoswap_token_contract: self.junoswap_token_contract,
                junoswap_pool_contract: self.junoswap_pool_contract,
                junoswap_staking_contract: self.junoswap_staking_contract,
                factory_contract: self.factory_contract,
                palomadex_token_contract: self.palomadex_token_contract,
                palomadex_staking_contract: self.palomadex_staking_contract,
                palomadex_pair_contract: self.palomadex_pair_contract,
            }),
    {
        SuiteInfo {
            junoswap_token_contract: self.junoswap_token_contract.clone(),
            junoswap_pool_contract: self.junoswap_pool_contract.clone(),
            junoswap_staking_contract: self.junoswap_staking_contract.clone(),
            factory_contract: self.factory_contract.clone(),
            palomadex_token_contract: self.palomadex_token_contract.clone(),
            palomadex_staking_contract: self.palomadex_staking_contract.clone(),
            palomadex_pair_contract: self.palomadex_pair_contract.clone(),
        }
    }

    /// The unbonding period into which migrated stakes go: the second one
    /// configured, 200 for every suite that a builder built.
    pub fn migration_unbonding_period(&self) -> (r: u64)
        requires
            self.unbonding_periods@.len() >= 2,
        ensures
            r == self.unbonding_periods@[1],
    {
        self.unbonding_periods[1]
    }

    /// The query that tells whether every staker has been migrated; it only
    /// makes sense once the staking contract has been migrated.
    pub fn migration_finished(&self) -> (r: QueryRequest)
        ensures
            r == (QueryRequest {
                contract: self.junoswap_staking_contract,
                msg: QueryMsg::MigrationFinished,
            }),
    {
        QueryRequest {
            contract: self.junoswap_staking_contract.clone(),
            msg: QueryMsg::MigrationFinished,
        }
    }

    /// The migration of the JunoSwap staking contract, in order: its
    /// migration to the migration code with its settings (the migrator
    /// defaulting to the owner, stakes going to the second unbonding
    /// period), a second migration to itself that keeps them, and the
    /// transfer of the tokens to `palomadex_pair`, defaulting to the suite's
    /// pair. Each is sent by the owner; `migrate_tokens_run` runs them, and
    /// a failure stops the rest.
    pub fn migrate_tokens(
        &self,
        migrator: Option<String>,
        palomadex_pair_migrate: Option<String>,
        palomadex_pair: Option<String>,
        raw_to_wynd_exchange_rate: Decimal,
        raw_address: String,
    ) -> (r: Vec<Action>)
        requires
            self.unbonding_periods@.len() >= 2,
        ensures
            r@ == seq![
                Action::Migrate {
                    sender: self.owner,
                    contract: self.junoswap_staking_contract,
                    msg: MigrateMsg {
                        init: Some(
                            MigrationInit {
                                migrator: or_default(migrator, self.owner),
                                unbonding_period: self.unbonding_periods@[1],
                                junoswap_pool: self.junoswap_pool_contract,
                                factory: self.factory_contract,
                                palomadex_pool: palomadex_pair_migrate,
                                raw_to_grain_exchange_rate: raw_to_wynd_exchange_rate,
                                raw_address,
                                grain_address: self.grain_cw20_token,
                            },
                        ),
                    },
                    code_id: self.migrator_code_id,
                },
                Action::Migrate {
                    sender: self.owner,
                    contract: self.junoswap_staking_contract,
                    msg: MigrateMsg { init: None },
                    code_id: self.migrator_code_id,
                },
                Action::Execute {
                    sender: self.owner,
                    contract: self.junoswap_staking_contract,
                    msg: ExecuteMsg::MigrateTokens {
                        palomadex_pool: or_default(palomadex_pair, self.palomadex_pair_contract),
                    },
                },
            ],
    {
        let init = MigrationInit {
            migrator: unwrap_or_string(migrator, self.owner.clone()),
            unbonding_period: self.migration_unbonding_period(),
            junoswap_pool: self.junoswap_pool_contract.clone(),
            factory: self.factory_contract.clone(),
            palomadex_pool: palomadex_pair_migrate,
            raw_to_grain_exchange_rate: raw_to_wynd_exchange_rate,
            raw_address,
            grain_address: self.grain_cw20_token.clone(),
        };
        let first = Action::Migrate {
            sender: self.owner.clone(),
            contract: self.junoswap_staking_contract.clone(),
            msg: MigrateMsg { init: Some(init) },
            code_id: self.migrator_code_id,
        };
        let again = Action::Migrate {
            sender: self.owner.clone(),
            contract: self.junoswap_staking_contract.clone(),
            msg: MigrateMsg { init: None },
            code_id: self.migrator_code_id,
        };
        let trigger = Action::Execute {
            sender: self.owner.clone(),
            contract: self.junoswap_staking_contract.clone(),
            msg: ExecuteMsg::MigrateTokens {
                palomadex_pool: unwrap_or_string(palomadex_pair, self.palomadex_pair_contract.clone()),
            },
        };
        let r = vec![first, again, trigger];
        r
    }

    /// The migration of the next `limit` stakers, sent by the owner; it only
    /// makes sense once the staking contract has been migrated.
    pub fn migrate_stakers(&self, limit: u32) -> (r: Action)
        ensures
            r == (Action::Execute {
                sender: self.owner,
                contract: self.junoswap_staking_contract,
                msg: ExecuteMsg::MigrateStakers { limit },
            }),
    {
        Action::Execute {
            sender: self.owner.clone(),
            contract: self.junoswap_staking_contract.clone(),
            msg: ExecuteMsg::MigrateStakers { limit },
        }
    }

    /// `owner` raises the allowance of `spender` on the cw20 `contract`.
    fn increase_allowance(owner: String, contract: String, spender: String, amount: u128) -> (r: Action)
        ensures
            r == (Action::Execute {
                sender: owner,
                contract,
                msg: ExecuteMsg::IncreaseAllowance { spender, amount },
            }),
    {
        Action::Execute { sender: owner, contract, msg: ExecuteMsg::IncreaseAllowance { spender, amount } }
    }

    /// `owner` mints `amount` of the cw20 `token` to `recipient`.
    pub fn mint_cw20(&self, owner: String, token: String, amount: u128, recipient: String) -> (r: Action)
        ensures
            r == (Action::Execute {
                sender: owner,
                contract: token,
                msg: ExecuteMsg::Mint { recipient, amount },
            }),
    {
        Action::Execute { sender: owner, contract: token, msg: ExecuteMsg::Mint { recipient, amount } }
    }

    /// The query of the liquidity tokens of `user`, on `lp_contract` or by
    /// default on the JunoSwap liquidity token.
    pub fn junoswap_lp(&self, user: String, lp_contract: Option<String>) -> (r: QueryRequest)
        ensures
            r == (QueryRequest {
                contract: or_default(lp_contract, self.junoswap_token_contract),
                msg: QueryMsg::Balance { address: user },
            }),
    {
        QueryRequest {
            contract: unwrap_or_string(lp_contract, self.junoswap_token_contract.clone()),
            msg: QueryMsg::Balance { address: user },
        }
    }

    /// Appends to `setup` what funds `user` with `amount` of `denom`.
    fn fund_user(&self, user: &String, denom: Denom, amount: u128, setup: &mut Vec<Action>)
        ensures
            final(setup)@ == old(setup)@ + self.spec_funding(*user, denom, amount),
    {
        match denom {
            Denom::Cw20(token) => {
                let mint = self.mint_cw20(self.owner.clone(), token.clone(), amount, user.clone());
                let allow = Self::increase_allowance(
                    user.clone(),
                    token,
                    self.junoswap_pool_contract.clone(),
                    amount,
                );
                setup.push(mint);
                setup.push(allow);
            },
            Denom::Native(d) => {
                setup.push(Action::BankMint { to_address: user.clone(), coin: Coin { denom: d, amount } });
            },
        }
        assert(setup@ =~= old(setup)@ + self.spec_funding(*user, denom, amount));
    }

    /// A deposit by `user` of `first_asset` and at most `second_asset` into
    /// the JunoSwap pool, the sides defaulting to the pool's: first `user`
    /// is funded with the first then the second asset, then the deposit is
    /// made, asking for at least 100 liquidity tokens and sending
    /// `native_tokens` along.
    pub fn provide_liquidity_to_junoswap_pool(
        &self,
        user: String,
        first_asset: u128,
        second_asset: u128,
        first_denom: Option<Denom>,
        second_denom: Option<Denom>,
        native_tokens: Vec<Coin>,
    ) -> (r: LiquidityPlan)
        ensures
            r.setup@ == self.spec_funding(user, or_default(first_denom, self.pool_denom1), first_asset)
                + self.spec_funding(user, or_default(second_denom, self.pool_denom2), second_asset),
            r.setup@.len() <= 4,
            r.add_liquidity == (Action::ExecuteWithFunds {
                sender: user,
                contract: self.junoswap_pool_contract,
                msg: ExecuteMsg::AddLiquidity {
                    token1_amount: first_asset,
                    min_liquidity: MIN_LIQUIDITY,
                    max_token2: second_asset,
                },
                funds: native_tokens,
            }),
    {
        let denom1 = match first_denom {
            Some(d) => d,
            None => self.pool_denom1.clone(),
        };
        let denom2 = match second_denom {
            Some(d) => d,
            None => self.pool_denom2.clone(),
        };
        let mut setup: Vec<Action> = Vec::new();
        self.fund_user(&user, denom1, first_asset, &mut setup);
        self.fund_user(&user, denom2, second_asset, &mut setup);
        let add_liquidity = Action::ExecuteWithFunds {
            sender: user,
            contract: self.junoswap_pool_contract.clone(),
            msg: ExecuteMsg::AddLiquidity {
                token1_amount: first_asset,
                min_liquidity: MIN_LIQUIDITY,
                max_token2: second_asset,
            },
            funds: native_tokens,
        };
        LiquidityPlan { setup, add_liquidity }
    }

    /// `user` stakes `amount` liquidity tokens: it sends them from
    /// `lp_contract` (by default the JunoSwap liquidity token) to
    /// `staking_contract` (by default the JunoSwap staking contract) with
    /// the hook `{"stake":{}}`; it always succeeds.
    pub fn stake_junoswap_lp(
        &self,
        user: String,
        amount: u128,
        lp_contract: Option<String>,
        staking_contract: Option<String>,
    ) -> (r: Result<Action, SuiteError>)
        ensures
            r matches Ok(action) && action matches Action::Execute {
                sender,
                contract,
                msg: ExecuteMsg::Send { contract: to, amount: sent, msg: hook },
            } && {
                &&& sender == user
                &&& contract == or_default(lp_contract, self.junoswap_token_contract)
                &&& to == or_default(staking_contract, self.junoswap_staking_contract)
                &&& sent == amount
                &&& hook@ == stake_hook_json()
            },
    {
        let hook = stake_hook()?;
        Ok(Action::Execute {
            sender: user,
            contract: unwrap_or_string(lp_contract, self.junoswap_token_contract.clone()),
            msg: ExecuteMsg::Send {
                contract: unwrap_or_string(staking_contract, self.junoswap_staking_contract.clone()),
                amount,
                msg: hook,
            },
        })
    }

    /// `user` unstakes `amount` from `staking_contract`, by default the
    /// JunoSwap staking contract.
    pub fn unstake_junoswap_lp(
        &self,
        user: String,
        amount: u128,
        staking_contract: Option<String>,
    ) -> (r: Action)
        ensures
            r == (Action::Execute {
                sender: user,
                contract: or_default(staking_contract, self.junoswap_staking_contract),
                msg: ExecuteMsg::Unstake { amount },
            }),
    {
        Action::Execute {
            sender: user,
            contract: unwrap_or_string(staking_contract, self.junoswap_staking_contract.clone()),
            msg: ExecuteMsg::Unstake { amount },
        }
    }

    /// The query of the claims of `address` on the JunoSwap staking contract.
    pub fn query_stake_claims_for_pair(&self, address: String) -> (r: QueryRequest)
        ensures
            r == (QueryRequest {
                contract: self.junoswap_staking_contract,
                msg: QueryMsg::Claims { address },
            }),
    {
        QueryRequest {
            contract: self.junoswap_staking_contract.clone(),
            msg: QueryMsg::Claims { address },
        }
    }

    /// The query of the reserves of the Palomadex pair.
    pub fn query_palomadex_pool(&self) -> (r: QueryRequest)
        ensures
            r == (QueryRequest { contract: self.palomadex_pair_contract, msg: QueryMsg::Pool }),
    {
        QueryRequest { contract: self.palomadex_pair_contract.clone(), msg: QueryMsg::Pool }
    }

    /// The query whose total supply is the number of Palomadex liquidity tokens.
    pub fn total_palomadex_lp(&self) -> (r: QueryRequest)
        ensures
            r == (QueryRequest { contract: self.palomadex_token_contract, msg: QueryMsg::TokenInfo }),
    {
        QueryRequest { contract: self.palomadex_token_contract.clone(), msg: QueryMsg::TokenInfo }
    }

    /// The query of the Palomadex liquidity tokens of `user`.
    pub fn palomadex_lp(&self, user: String) -> (r: QueryRequest)
        ensures
            r == (QueryRequest {
                contract: self.palomadex_token_contract,
                msg: QueryMsg::Balance { address: user },
            }),
    {
        QueryRequest {
            contract: self.palomadex_token_contract.clone(),
            msg: QueryMsg::Balance { address: user },
        }
    }

    /// The query of every holder of Palomadex liquidity tokens.
    pub fn palomadex_lp_holders_query(&self) -> (r: QueryRequest)
        ensures
            r == (QueryRequest { contract: self.palomadex_token_contract, msg: QueryMsg::AllAccounts }),
    {
        QueryRequest { contract: self.palomadex_token_contract.clone(), msg: QueryMsg::AllAccounts }
    }

    /// The holders of Palomadex liquidity tokens with their balances, in the
    /// order in which they were listed: `balances[i]` is what the query
    /// `palomadex_lp(accounts[i])` answered.
    pub fn palomadex_lp_holders(accounts: Vec<String>, balances: Vec<u128>) -> (r: Vec<(String, u128)>)
        requires
            accounts@.len() == balances@.len(),
        ensures
            r@.len() == accounts@.len(),
            forall|i: int| 0 <= i < r@.len() ==> #[trigger] r@[i] == (accounts@[i], balances@[i]),
    {
        let mut r: Vec<(String, u128)> = Vec::new();
        let mut i: usize = 0;
        while i < accounts.len()
            invariant
                accounts@.len() == balances@.len(),
                i <= accounts@.len(),
                r@.len() == i,
                forall|j: int| 0 <= j < i ==> #[trigger] r@[j] == (accounts@[j], balances@[j]),
            decreases accounts@.len() - i,
        {
            r.push((accounts[i].clone(), balances[i]));
            i = i + 1;
        }
        r
    }

    /// The query of what the Palomadex staking contract holds of the pair's
    /// liquidity tokens.
    pub fn total_palomadex_staked(&self) -> (r: QueryRequest)
        ensures
            r == (QueryRequest {
                contract: self.palomadex_token_contract,
                msg: QueryMsg::Balance { address: self.palomadex_staking_contract },
            }),
    {
        let addr = self.palomadex_staking_contract.clone();
        self.palomadex_lp(addr)
    }

    /// The query of what `user` has staked on Palomadex for `unbonding_period`.
    pub fn palomadex_staked(&self, user: String, unbonding_period: u64) -> (r: QueryRequest)
        ensures
            r == (QueryRequest {
                contract: self.palomadex_staking_contract,
                msg: QueryMsg::Staked { address: user, unbonding_period },
            }),
    {
        QueryRequest {
            contract: self.palomadex_staking_contract.clone(),
            msg: QueryMsg::Staked { address: user, unbonding_period },
        }
    }
}

/// A suite that a builder built migrates stakes into the unbonding period
/// of 200 seconds.
pub proof fn lemma_built_suite_period(suite: &Suite)
    requires
        suite.unbonding_periods@ == crate::builder::default_unbonding_periods(),
    ensures
        suite.unbonding_periods@.len() >= 2,
        suite.unbonding_periods@[1] == 200,
{
}

} // verus!
