//! Types of the contract host (cosmwasm) that pass through the library unread.
use vstd::prelude::*;
use cosmwasm_std::{Deps, StdError};

verus! {

/// The host's error value, carried through unchanged where a host call fails.
#[verifier::external_type_specification]
#[verifier::external_body]
pub struct ExStdError(StdError);

/// The host's handles (storage, address api, querier) of a read-only call.
#[verifier::external_type_specification]
#[verifier::external_body]
pub struct ExDeps<'a>(Deps<'a>);

} // verus!
