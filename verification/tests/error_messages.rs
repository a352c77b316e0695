use cosmwasm_std::StdError;
use mirror_contracts::error::ContractError;

#[test]
fn messages_of_fixed_refusals() {
    assert_eq!(ContractError::WrongCollateral.message(), "Wrong collateral");
    assert_eq!(ContractError::WrongAsset.message(), "Wrong asset");
    assert_eq!(
        ContractError::DeprecatedAsset.message(),
        "Operation is not allowed for the deprecated asset"
    );
    assert_eq!(
        ContractError::RevokedCollateral.message(),
        "The collateral asset provided is no longer valid"
    );
    assert_eq!(
        ContractError::AuctionDiscountTooLarge.message(),
        "auction_discount must be smaller than 1"
    );
    assert_eq!(
        ContractError::MinCollateralRatioTooSmall.message(),
        "min_collateral_ratio must be bigger than 1"
    );
}

#[test]
fn messages_name_the_end_of_the_minting_period() {
    assert_eq!(
        ContractError::MintPeriodEnded { mint_end: 1_629_000_000 }.message(),
        "The minting period for this asset ended at time 1629000000"
    );
    assert_eq!(
        ContractError::BurnPeriodEnded { mint_end: 0 }.message(),
        "Burning is disabled for assets with limitied minting time. Mint period ended at time 0"
    );
}

#[test]
fn message_of_host_failure_is_the_host_text() {
    let err = ContractError::Std(StdError::generic_err("boom"));
    assert_eq!(err.message(), StdError::generic_err("boom").to_string());
}
