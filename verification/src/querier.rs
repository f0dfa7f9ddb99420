//! Queries that Palomadex contracts make of each other.
use vstd::prelude::*;

use crate::msgs::{QueryMsg, QueryRequest};

verus! {

/// The query that returns the description of the pair `pair_contract`
/// (its assets, its contract, liquidity token and staking addresses).
pub fn query_pair_info(pair_contract: String) -> (r: QueryRequest)
    ensures
        r == (QueryRequest { contract: pair_contract, msg: QueryMsg::Pair }),
{
    QueryRequest { contract: pair_contract, msg: QueryMsg::Pair }
}

} // verus!
