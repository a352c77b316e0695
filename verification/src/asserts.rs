//! Guards of the mint contract: each accepts (`Ok`) or refuses with the reason.
use vstd::prelude::*;
use cosmwasm_std::Deps;
use crate::asset::{Asset, AssetInfo, AssetInfoRaw, asset_info_to_normal, same_asset};
use crate::decimal::{Decimal, DECIMAL_FRACTIONAL};
use crate::error::ContractError;
use crate::state::{AssetConfig, Env, Position};

verus! {

/// The verdict on collateral offered to a position whose collateral, in
/// human-readable form, is `expected`.
pub open spec fn collateral_verdict(expected: AssetInfo, collateral: Asset) -> Result<(), ContractError> {
    if !same_asset(collateral.info, expected) || collateral.amount == 0 {
        Err(ContractError::WrongCollateral)
    } else {
        Ok(())
    }
}

/// The verdict on an asset offered to a position whose minted asset, in
/// human-readable form, is `expected`.
pub open spec fn asset_verdict(expected: AssetInfo, asset: Asset) -> Result<(), ContractError> {
    if !same_asset(asset.info, expected) || asset.amount == 0 {
        Err(ContractError::WrongAsset)
    } else {
        Ok(())
    }
}

/// Accepts `collateral` for a position whose collateral is `expected`: the same
/// asset, and a nonzero amount.
pub fn check_collateral(expected: &AssetInfo, collateral: &Asset) -> (res: Result<(), ContractError>)
    ensures
        res == collateral_verdict(*expected, *collateral),
{
    if !collateral.info.equal(expected) || collateral.amount == 0 {
        return Err(ContractError::WrongCollateral);
    }
    Ok(())
}

/// Accepts `asset` for a position whose minted asset is `expected`: the same
/// asset, and a nonzero amount.
pub fn check_asset(expected: &AssetInfo, asset: &Asset) -> (res: Result<(), ContractError>)
    ensures
        res == asset_verdict(*expected, *asset),
{
    if !asset.info.equal(expected) || asset.amount == 0 {
        return Err(ContractError::WrongAsset);
    }
    Ok(())
}

/// Checks that `collateral` is the position's collateral asset and is not empty.
/// The position's stored collateral is first turned human-readable through the
/// host's address api; a failure there is returned as it came.
pub fn assert_collateral(deps: Deps, position: &Position, collateral: &Asset) -> (res: Result<(), ContractError>)
    ensures
        res matches Err(ContractError::Std(_)) ==> position.collateral.info is Token,
        position.collateral.info matches AssetInfoRaw::NativeToken { denom }
            ==> res == collateral_verdict(AssetInfo::NativeToken { denom }, *collateral),
        position.collateral.info is Token ==> (res matches Err(ContractError::Std(_))
            || exists|addr: String| res == #[trigger] collateral_verdict(AssetInfo::Token { contract_addr: addr }, *collateral)),
{
    match asset_info_to_normal(deps, &position.collateral.info) {
        Err(e) => Err(ContractError::Std(e)),
        Ok(expected) => {
            let res = check_collateral(&expected, collateral);
            proof {
                if let AssetInfo::Token { contract_addr } = expected {
                    assert(res == collateral_verdict(AssetInfo::Token { contract_addr }, *collateral));
                }
            }
            res
        },
    }
}

/// Checks that `asset` is the position's minted asset and is not empty.
/// The position's stored asset is first turned human-readable through the
/// host's address api; a failure there is returned as it came.
pub fn assert_asset(deps: Deps, position: &Position, asset: &Asset) -> (res: Result<(), ContractError>)
    ensures
        res matches Err(ContractError::Std(_)) ==> position.asset.info is Token,
        position.asset.info matches AssetInfoRaw::NativeToken { denom }
            ==> res == asset_verdict(AssetInfo::NativeToken { denom }, *asset),
        position.asset.info is Token ==> (res matches Err(ContractError::Std(_))
            || exists|addr: String| res == #[trigger] asset_verdict(AssetInfo::Token { contract_addr: addr }, *asset)),
{
    match asset_info_to_normal(deps, &position.asset.info) {
        Err(e) => Err(ContractError::Std(e)),
        Ok(expected) => {
            let res = check_asset(&expected, asset);
            proof {
                if let AssetInfo::Token { contract_addr } = expected {
                    assert(res == asset_verdict(AssetInfo::Token { contract_addr }, *asset));
                }
            }
            res
        },
    }
}

/// Refuses any operation on a deprecated asset (one with an end price).
pub fn assert_migrated_asset(asset_config: &AssetConfig) -> (res: Result<(), ContractError>)
    ensures
        res == (if asset_config.end_price is Some { Err(ContractError::DeprecatedAsset) } else { Ok(()) }),
{
    if asset_config.end_price.is_some() {
        return Err(ContractError::DeprecatedAsset);
    }
    Ok(())
}

/// Takes apart what loading a collateral gives (price, multiplier, revoked):
/// refuses a revoked collateral, else hands back the price and the multiplier.
pub fn assert_revoked_collateral(load_collateral_res: (Decimal, Decimal, bool)) -> (res: Result<(Decimal, Decimal), ContractError>)
    ensures
        res == (if load_collateral_res.2 {
            Err(ContractError::RevokedCollateral)
        } else {
            Ok((load_collateral_res.0, load_collateral_res.1))
        }),
{
    if load_collateral_res.2 {
        return Err(ContractError::RevokedCollateral);
    }
    Ok((load_collateral_res.0, load_collateral_res.1))
}

/// Accepts an auction discount of at most one.
pub fn assert_auction_discount(auction_discount: Decimal) -> (res: Result<(), ContractError>)
    ensures
        res == (if auction_discount.atomics > DECIMAL_FRACTIONAL {
            Err(ContractError::AuctionDiscountTooLarge)
        } else {
            Ok(())
        }),
{
    if auction_discount.atomics > Decimal::one().atomics {
        Err(ContractError::AuctionDiscountTooLarge)
    } else {
        Ok(())
    }
}

/// Accepts a minimum collateral ratio of at least one.
pub fn assert_min_collateral_ratio(min_collateral_ratio: Decimal) -> (res: Result<(), ContractError>)
    ensures
        res == (if min_collateral_ratio.atomics < DECIMAL_FRACTIONAL {
            Err(ContractError::MinCollateralRatioTooSmall)
        } else {
            Ok(())
        }),
{
    if min_collateral_ratio.atomics < Decimal::one().atomics {
        Err(ContractError::MinCollateralRatioTooSmall)
    } else {
        Ok(())
    }
}

/// The block time in whole seconds since the epoch.
pub open spec fn block_seconds(env: Env) -> u64 {
    (env.block.time_nanos / 1_000_000_000) as u64
}

/// The asset has a limited minting period, and it ended before the block's second.
pub open spec fn minting_ended(env: Env, asset_config: AssetConfig) -> bool {
    asset_config.ipo_params matches Some(p) && p.mint_end < block_seconds(env)
}

/// The verdict of the minting-period guard.
pub open spec fn mint_period_verdict(env: Env, asset_config: AssetConfig) -> Result<(), ContractError> {
    if minting_ended(env, asset_config) {
        Err(ContractError::MintPeriodEnded { mint_end: asset_config.ipo_params->0.mint_end })
    } else {
        Ok(())
    }
}

/// The verdict of the burning-period guard.
pub open spec fn burn_period_verdict(env: Env, asset_config: AssetConfig) -> Result<(), ContractError> {
    if minting_ended(env, asset_config) {
        Err(ContractError::BurnPeriodEnded { mint_end: asset_config.ipo_params->0.mint_end })
    } else {
        Ok(())
    }
}

/// Refuses minting of an asset whose limited minting period has ended.
pub fn assert_mint_period(env: &Env, asset_config: &AssetConfig) -> (res: Result<(), ContractError>)
    ensures
        res == mint_period_verdict(*env, *asset_config),
{
    if let Some(ipo_params) = asset_config.ipo_params {
        if ipo_params.mint_end < env.block.time_nanos / 1_000_000_000 {
            return Err(ContractError::MintPeriodEnded { mint_end: ipo_params.mint_end });
        }
    }
    Ok(())
}

/// Refuses burning of an asset whose limited minting period has ended.
pub fn assert_burn_period(env: &Env, asset_config: &AssetConfig) -> (res: Result<(), ContractError>)
    ensures
        res == burn_period_verdict(*env, *asset_config),
{
    if let Some(ipo_params) = asset_config.ipo_params {
        if ipo_params.mint_end < env.block.time_nanos / 1_000_000_000 {
            return Err(ContractError::BurnPeriodEnded { mint_end: ipo_params.mint_end });
        }
    }
    Ok(())
}

} // verus!
