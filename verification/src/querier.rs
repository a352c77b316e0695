//! The governance contract's read of a voter's token balance straight from the
//! token contract's storage.
use vstd::prelude::*;
use cosmwasm_std::{Binary, Deps, QueryRequest, StdError, Uint128, WasmQuery};
use crate::error::ContractError;

verus! {

/// The two big-endian bytes that prefix a namespace of `len` bytes in a storage key.
pub open spec fn length_prefix(len: nat) -> Seq<u8> {
    seq![(len / 256) as u8, (len % 256) as u8]
}

/// The namespace under which a cw20 token contract keeps balances: the bytes of
/// `balances`.
pub open spec fn balances_namespace() -> Seq<u8> {
    seq![98u8, 97u8, 108u8, 97u8, 110u8, 99u8, 101u8, 115u8]
}

/// The raw storage key of the balance of `account_addr` (canonical address
/// bytes) in a cw20 token contract.
pub open spec fn balance_key(account_addr: Seq<u8>) -> Seq<u8> {
    length_prefix(balances_namespace().len()) + balances_namespace() + account_addr
}

/// cosmwasm_storage's `to_length_prefixed`: the namespace's length as two
/// big-endian bytes, then the namespace itself. It panics on a namespace longer
/// than 0xFFFF bytes, which `requires` leaves out.
#[verifier::external_body]
fn to_length_prefixed(namespace: &[u8]) -> (res: Vec<u8>)
    requires
        namespace@.len() <= 0xFFFF,
    ensures
        res@ == length_prefix(namespace@.len()) + namespace@,
{
    cosmwasm_storage::to_length_prefixed(namespace)
}

/// The bytes of `namespace` followed by the bytes of `key`.
pub fn concat(namespace: &[u8], key: &[u8]) -> (k: Vec<u8>)
    ensures
        k@ == namespace@ + key@,
{
    let mut k: Vec<u8> = Vec::new();
    for i in 0..namespace.len()
        invariant
            k@ == namespace@.subrange(0, i as int),
    {
        k.push(namespace[i]);
    }
    let ghost head = k@;
    for i in 0..key.len()
        invariant
            head == namespace@,
            k@ == head + key@.subrange(0, i as int),
    {
        k.push(key[i]);
    }
    assert(namespace@.subrange(0, namespace@.len() as int) == namespace@);
    assert(key@.subrange(0, key@.len() as int) == key@);
    k
}

/// The raw storage key under which a cw20 token contract keeps the balance of
/// `account_addr`.
pub fn token_balance_key(account_addr: &[u8]) -> (key: Vec<u8>)
    ensures
        key@ == balance_key(account_addr@),
{
    let namespace: Vec<u8> = vec![98u8, 97u8, 108u8, 97u8, 110u8, 99u8, 101u8, 115u8];
    assert(namespace@ == balances_namespace());
    let prefixed = to_length_prefixed(namespace.as_slice());
    concat(prefixed.as_slice(), account_addr)
}

/// Reads the raw storage of the contract `contract_addr` at `key` through the
/// host's querier (cosmwasm_std's `QuerierWrapper::query` of a
/// `WasmQuery::Raw`) and parses what is stored there as an amount. What comes
/// back depends on the chain's state and on the contract queried: nothing is
/// claimed of it.
#[verifier::external_body]
fn query_raw_amount(deps: Deps, contract_addr: &String, key: Vec<u8>) -> (res: Result<u128, StdError>)
{
    let request = QueryRequest::Wasm(WasmQuery::Raw { contract_addr: contract_addr.clone(), key: Binary::from(key) });
    match deps.querier.query::<Uint128>(&request) {
        Ok(amount) => Ok(amount.u128()),
        Err(e) => Err(e),
    }
}

/// The balance that a raw balance query amounts to: what it read, or zero
/// where the read failed (nothing stored, or not an amount).
pub fn balance_or_zero(queried: Result<u128, StdError>) -> (balance: u128)
    ensures
        balance == (match queried {
            Ok(amount) => amount,
            Err(_) => 0u128,
        }),
{
    match queried {
        Ok(amount) => amount,
        Err(_) => 0,
    }
}

/// The balance of `account_addr` (canonical address bytes) in the cw20 token
/// contract `contract_addr`, read from that contract's storage; zero where
/// nothing can be read. It never fails.
pub fn load_token_balance(deps: Deps, contract_addr: &String, account_addr: &[u8]) -> (res: Result<u128, ContractError>)
    ensures
        res is Ok,
{
    let key = token_balance_key(account_addr);
    let queried = query_raw_amount(deps, contract_addr, key);
    Ok(balance_or_zero(queried))
}

} // verus!
