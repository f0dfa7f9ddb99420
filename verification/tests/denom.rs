use raw_migration::amounts::{coin, Coin, Decimal, DECIMAL_FRACTIONAL};
use raw_migration::denom::{token_instantiate, AssetInfo, Denom, DenomSetup, PoolDenom};
use raw_migration::msgs::{Instantiate, InstantiateMsg, MinterResponse, TokenInstantiateMsg};

#[test]
fn decimals_zero_and_one() {
    assert_eq!(Decimal::zero().atomics, 0);
    assert_eq!(Decimal::one().atomics, 1_000_000_000_000_000_000);
    assert_eq!(Decimal::one().atomics, DECIMAL_FRACTIONAL);
    assert_eq!(Decimal::raw(5).atomics, 5);
}

#[test]
fn coin_holds_amount_and_denom() {
    assert_eq!(coin(42, "ujuno".to_string()), Coin { denom: "ujuno".to_string(), amount: 42 });
}

#[test]
fn native_pool_denom_is_ready() {
    let setup = PoolDenom::Native("uluna".to_string()).into_denom("owner".to_string(), 7);
    assert_eq!(setup, DenomSetup::Ready(Denom::Native("uluna".to_string())));
}

#[test]
fn cw20_pool_denom_creates_its_token() {
    let setup = PoolDenom::Cw20("RAW".to_string()).into_denom("owner".to_string(), 7);
    let expected = Instantiate {
        code_id: 7,
        sender: "owner".to_string(),
        msg: InstantiateMsg::Token(TokenInstantiateMsg {
            name: "RAW".to_string(),
            symbol: "RAW".to_string(),
            decimals: 6,
            mint: Some(MinterResponse { minter: "owner".to_string(), cap: None }),
        }),
        label: "RAW".to_string(),
        admin: None,
    };
    assert_eq!(setup, DenomSetup::CreateToken(expected.clone()));
    assert_eq!(token_instantiate(7, "owner".to_string(), "RAW".to_string()), expected);
}

#[test]
fn denom_to_asset_info() {
    assert_eq!(
        Denom::Native("ujuno".to_string()).to_asset_info(),
        AssetInfo::Native("ujuno".to_string())
    );
    assert_eq!(
        Denom::Cw20("contract3".to_string()).to_asset_info(),
        AssetInfo::Token("contract3".to_string())
    );
}

#[test]
fn asset_info_tells_denoms_apart() {
    // A native denomination and a token of the same text stay apart.
    assert_ne!(
        Denom::Native("x".to_string()).to_asset_info(),
        Denom::Cw20("x".to_string()).to_asset_info()
    );
}

#[test]
fn clones_are_equal() {
    let d = Denom::Cw20("contract1".to_string());
    assert_eq!(d.clone(), d);
    let p = PoolDenom::Cw20("RAW".to_string());
    assert_eq!(p.clone(), p);
}
