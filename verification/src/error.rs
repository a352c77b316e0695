//! Why a guard refuses.
use vstd::prelude::*;
use cosmwasm_std::StdError;
use vstd::string::StringExecFns;

verus! {

/// The reasons for which the contracts' guards refuse an operation.
#[derive(Debug, PartialEq)]
pub enum ContractError {
    /// The collateral offered is not the position's collateral, or is empty.
    WrongCollateral,
    /// The asset offered is not the position's asset, or is empty.
    WrongAsset,
    /// The asset is deprecated: the operation is no longer allowed.
    DeprecatedAsset,
    /// The collateral asset has been revoked.
    RevokedCollateral,
    /// An auction discount above one.
    AuctionDiscountTooLarge,
    /// A minimum collateral ratio below one.
    MinCollateralRatioTooSmall,
    /// The asset's minting period ended at `mint_end` (seconds since the epoch).
    MintPeriodEnded { mint_end: u64 },
    /// Burning is disabled: the asset's minting period ended at `mint_end`.
    BurnPeriodEnded { mint_end: u64 },
    /// A host call failed.
    Std(StdError),
}

/// The decimal digit `d` as a character.
pub open spec fn digit_char(d: nat) -> char {
    (48 + d) as char
}

/// The decimal representation of `n`, most significant digit first, with no
/// leading zeros (`0` is the single digit `0`).
pub open spec fn decimal_digits(n: nat) -> Seq<char>
    decreases n,
{
    if n < 10 {
        seq![digit_char(n)]
    } else {
        decimal_digits(n / 10) + seq![digit_char(n % 10)]
    }
}

/// std's `ToString` for `u64`: its decimal representation.
#[verifier::external_body]
fn u64_to_decimal(n: u64) -> (s: String)
    ensures
        s@ == decimal_digits(n as nat),
{
    n.to_string()
}

/// The text of a host error (cosmwasm_std's `Display` of `StdError`). The text
/// depends on the error alone, but Verus sees nothing inside a host error, so no
/// clause says what it is.
#[verifier::external_body]
fn host_error_text(e: &StdError) -> (s: String)
{
    e.to_string()
}

/// The text that a refusal carries.
pub open spec fn refusal_text(err: ContractError) -> Seq<char> {
    match err {
        ContractError::WrongCollateral => "Wrong collateral"@,
        ContractError::WrongAsset => "Wrong asset"@,
        ContractError::DeprecatedAsset => "Operation is not allowed for the deprecated asset"@,
        ContractError::RevokedCollateral => "The collateral asset provided is no longer valid"@,
        ContractError::AuctionDiscountTooLarge => "auction_discount must be smaller than 1"@,
        ContractError::MinCollateralRatioTooSmall => "min_collateral_ratio must be bigger than 1"@,
        ContractError::MintPeriodEnded { mint_end } =>
            "The minting period for this asset ended at time "@ + decimal_digits(mint_end as nat),
        ContractError::BurnPeriodEnded { mint_end } =>
            "Burning is disabled for assets with limitied minting time. Mint period ended at time "@
                + decimal_digits(mint_end as nat),
        ContractError::Std(_) => Seq::empty(),
    }
}

impl ContractError {
    /// The message of the refusal; for a failed host call, the host error's text.
    pub fn message(&self) -> (msg: String)
        ensures
            !(self is Std) ==> msg@ == refusal_text(*self),
    {
        broadcast use vstd::string::to_string_from_display_ensures_for_str;
        match self {
            ContractError::WrongCollateral => "Wrong collateral".to_string(),
            ContractError::WrongAsset => "Wrong asset".to_string(),
            ContractError::DeprecatedAsset => "Operation is not allowed for the deprecated asset".to_string(),
            ContractError::RevokedCollateral => "The collateral asset provided is no longer valid".to_string(),
            ContractError::AuctionDiscountTooLarge => "auction_discount must be smaller than 1".to_string(),
            ContractError::MinCollateralRatioTooSmall => "min_collateral_ratio must be bigger than 1".to_string(),
            ContractError::MintPeriodEnded { mint_end } => {
                let mut msg = "The minting period for this asset ended at time ".to_string();
                let digits = u64_to_decimal(*mint_end);
                msg.append(digits.as_str());
                msg
            },
            ContractError::BurnPeriodEnded { mint_end } => {
                let mut msg = "Burning is disabled for assets with limitied minting time. Mint period ended at time ".to_string();
                let digits = u64_to_decimal(*mint_end);
                msg.append(digits.as_str());
                msg
            },
            ContractError::Std(e) => host_error_text(e),
        }
    }
}

} // verus!
