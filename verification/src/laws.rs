//! Properties that hold across the guards and the balance read.
use vstd::prelude::*;
use crate::asset::{Asset, AssetInfo, same_asset};
use crate::asserts::{asset_verdict, burn_period_verdict, collateral_verdict, minting_ended, mint_period_verdict};
use crate::error::ContractError;
use crate::querier::balance_key;
use crate::state::{AssetConfig, Env};

verus! {

/// Naming the same asset is an equivalence: every asset info names the same
/// asset as itself, in both directions, and transitively.
pub proof fn lemma_same_asset_is_equivalence(a: AssetInfo, b: AssetInfo, c: AssetInfo)
    ensures
        same_asset(a, a),
        same_asset(a, b) == same_asset(b, a),
        same_asset(a, b) && same_asset(b, c) ==> same_asset(a, c),
{
}

/// Burning is refused exactly when minting is refused: both guards refuse on the
/// same environments and assets, and name the same end of the minting period.
pub proof fn lemma_burn_refused_exactly_when_mint_refused(env: Env, asset_config: AssetConfig)
    ensures
        mint_period_verdict(env, asset_config) is Err <==> burn_period_verdict(env, asset_config) is Err,
        mint_period_verdict(env, asset_config) is Err ==> asset_config.ipo_params is Some,
{
}

/// Once an asset's minting period has ended, it stays ended: a block at the same
/// time or later refuses minting (and burning) too.
pub proof fn lemma_mint_period_end_is_final(earlier: Env, later: Env, asset_config: AssetConfig)
    requires
        earlier.block.time_nanos <= later.block.time_nanos,
        mint_period_verdict(earlier, asset_config) is Err,
    ensures
        mint_period_verdict(later, asset_config) is Err,
        burn_period_verdict(later, asset_config) is Err,
{
    assert(earlier.block.time_nanos / 1_000_000_000 <= later.block.time_nanos / 1_000_000_000) by (nonlinear_arith)
        requires
            earlier.block.time_nanos <= later.block.time_nanos,
    ;
}

/// An asset without a limited minting period can always be minted and burnt.
pub proof fn lemma_unlimited_asset_never_refused(env: Env, asset_config: AssetConfig)
    requires
        asset_config.ipo_params is None,
    ensures
        mint_period_verdict(env, asset_config) == Ok::<(), ContractError>(()),
        burn_period_verdict(env, asset_config) == Ok::<(), ContractError>(()),
        !minting_ended(env, asset_config),
{
}

/// Distinct accounts have distinct balance keys, and each key starts with the
/// length-prefixed `balances` namespace and ends with the account's address.
pub proof fn lemma_balance_key_injective(a: Seq<u8>, b: Seq<u8>)
    ensures
        balance_key(a).len() == 10 + a.len(),
        balance_key(a).subrange(10, balance_key(a).len() as int) == a,
        balance_key(a) == balance_key(b) ==> a == b,
{
    assert(balance_key(a).subrange(10, balance_key(a).len() as int) =~= a);
    assert(balance_key(b).subrange(10, balance_key(b).len() as int) =~= b);
}

/// An offer of collateral is accepted for at most one collateral asset: if the
/// same offer is accepted against two expected assets, they name the same asset.
/// So the token that a position mints is never accepted as its collateral unless
/// it is that collateral.
pub proof fn lemma_collateral_offer_fits_one_asset(first: AssetInfo, second: AssetInfo, offer: Asset)
    ensures
        collateral_verdict(first, offer) is Ok && collateral_verdict(second, offer) is Ok ==> same_asset(first, second),
{
}

/// An offered asset is accepted for at most one minted asset: if the same offer
/// is accepted against two expected assets, they name the same asset.
pub proof fn lemma_asset_offer_fits_one_asset(first: AssetInfo, second: AssetInfo, offer: Asset)
    ensures
        asset_verdict(first, offer) is Ok && asset_verdict(second, offer) is Ok ==> same_asset(first, second),
{
}

/// Every nonzero offer of the expected collateral is accepted, however large, and
/// every other offer is refused as the wrong collateral: the amount matters only
/// in being zero or not.
pub proof fn lemma_collateral_accepted_whatever_nonzero_amount(expected: AssetInfo, offer: Asset, other: Asset)
    ensures
        same_asset(offer.info, expected) && offer.amount > 0 ==> collateral_verdict(expected, offer) is Ok,
        !same_asset(offer.info, expected) || offer.amount == 0
            ==> collateral_verdict(expected, offer) == Err::<(), ContractError>(ContractError::WrongCollateral),
        offer.info == other.info && offer.amount > 0 && other.amount > 0
            ==> collateral_verdict(expected, offer) == collateral_verdict(expected, other),
{
}

/// Every nonzero offer of the expected minted asset is accepted, however large,
/// and every other offer is refused as the wrong asset.
pub proof fn lemma_asset_accepted_whatever_nonzero_amount(expected: AssetInfo, offer: Asset, other: Asset)
    ensures
        same_asset(offer.info, expected) && offer.amount > 0 ==> asset_verdict(expected, offer) is Ok,
        !same_asset(offer.info, expected) || offer.amount == 0
            ==> asset_verdict(expected, offer) == Err::<(), ContractError>(ContractError::WrongAsset),
        offer.info == other.info && offer.amount > 0 && other.amount > 0
            ==> asset_verdict(expected, offer) == asset_verdict(expected, other),
{
}

} // verus!
