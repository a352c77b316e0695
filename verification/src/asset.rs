//! Assets as the contracts name them: by a token contract's address or by a
//! native coin's denomination, in human-readable or in canonical (raw) form.
use vstd::prelude::*;
use cosmwasm_std::{CanonicalAddr, Deps, StdError};

verus! {

/// What an asset is: a token contract (by its human-readable address) or a
/// native coin (by its denomination).
#[derive(Clone, Debug, PartialEq)]
pub enum AssetInfo {
    Token { contract_addr: String },
    NativeToken { denom: String },
}

/// An amount of an asset.
#[derive(Clone, Debug, PartialEq)]
pub struct Asset {
    pub info: AssetInfo,
    pub amount: u128,
}

/// What an asset is, as stored: a token contract by its canonical address bytes,
/// or a native coin by its denomination.
#[derive(Clone, Debug, PartialEq)]
pub enum AssetInfoRaw {
    Token { contract_addr: Vec<u8> },
    NativeToken { denom: String },
}

/// An amount of an asset, as stored.
#[derive(Clone, Debug, PartialEq)]
pub struct AssetRaw {
    pub info: AssetInfoRaw,
    pub amount: u128,
}

/// Two asset infos name the same asset: the same kind, and the same address or
/// denomination, character for character.
pub open spec fn same_asset(a: AssetInfo, b: AssetInfo) -> bool {
    match (a, b) {
        (AssetInfo::Token { contract_addr: x }, AssetInfo::Token { contract_addr: y }) => x@ == y@,
        (AssetInfo::NativeToken { denom: x }, AssetInfo::NativeToken { denom: y }) => x@ == y@,
        _ => false,
    }
}

/// `info` is a human-readable form of the stored `raw`: a native coin with the
/// same denomination, or, for a token contract, a token contract.
pub open spec fn normal_form_of(raw: AssetInfoRaw, info: AssetInfo) -> bool {
    match (raw, info) {
        (AssetInfoRaw::NativeToken { denom: x }, AssetInfo::NativeToken { denom: y }) => x@ == y@,
        (AssetInfoRaw::Token { .. }, AssetInfo::Token { .. }) => true,
        _ => false,
    }
}

impl AssetInfo {
    /// Whether `self` and `other` name the same asset.
    pub fn equal(&self, other: &AssetInfo) -> (res: bool)
        ensures
            res == same_asset(*self, *other),
    {
        match self {
            AssetInfo::Token { contract_addr } => {
                let self_contract_addr = contract_addr;
                match other {
                    AssetInfo::Token { contract_addr } => self_contract_addr.eq(contract_addr),
                    AssetInfo::NativeToken { .. } => false,
                }
            },
            AssetInfo::NativeToken { denom } => {
                let self_denom = denom;
                match other {
                    AssetInfo::Token { .. } => false,
                    AssetInfo::NativeToken { denom } => self_denom.eq(denom),
                }
            },
        }
    }
}

/// Turns a stored asset info into its human-readable form through
/// terraswap's `AssetInfoRaw::to_normal` with the host's address api.
/// Claimed of it, as its source shows: a native coin keeps its denomination and
/// the call succeeds; a token contract stays a token contract when the call
/// succeeds. Which address the api gives back, and whether it fails, the host decides:
/// that is left unsaid.
#[verifier::external_body]
pub(crate) fn asset_info_to_normal(deps: Deps, raw: &AssetInfoRaw) -> (res: Result<AssetInfo, StdError>)
    ensures
        res is Err ==> raw is Token,
        res matches Ok(info) ==> normal_form_of(*raw, info),
{
    let outside = match raw {
        AssetInfoRaw::Token { contract_addr } => terraswap::asset::AssetInfoRaw::Token { contract_addr: CanonicalAddr::from(contract_addr.clone()) },
        AssetInfoRaw::NativeToken { denom } => terraswap::asset::AssetInfoRaw::NativeToken { denom: denom.clone() },
    };
    match outside.to_normal(deps.api) {
        Ok(terraswap::asset::AssetInfo::Token { contract_addr }) => Ok(AssetInfo::Token { contract_addr: String::from(contract_addr) }),
        Ok(terraswap::asset::AssetInfo::NativeToken { denom }) => Ok(AssetInfo::NativeToken { denom }),
        Err(e) => Err(e),
    }
}

} // verus!
