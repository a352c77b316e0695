use cosmwasm_std::testing::{mock_dependencies, MockApi, MockStorage};
use cosmwasm_std::{
    from_slice, to_binary, Binary, ContractResult, Deps, Empty, Querier, QuerierResult,
    QuerierWrapper, QueryRequest, StdError, SystemError, SystemResult, Uint128, WasmQuery,
};
use mirror_contracts::querier::{balance_or_zero, load_token_balance, token_balance_key};

#[test]
fn concat_joins_bytes() {
    assert_eq!(mirror_contracts::querier::concat(b"abc", b"de"), b"abcde".to_vec());
    assert_eq!(mirror_contracts::querier::concat(b"", b"de"), b"de".to_vec());
    assert_eq!(mirror_contracts::querier::concat(b"abc", b""), b"abc".to_vec());
    assert_eq!(mirror_contracts::querier::concat(b"", b""), Vec::<u8>::new());
}

#[test]
fn balance_key_is_length_prefixed_namespace_then_address() {
    assert_eq!(token_balance_key(b"addr"), b"\x00\x08balancesaddr".to_vec());
    assert_eq!(token_balance_key(b""), b"\x00\x08balances".to_vec());
    assert_ne!(token_balance_key(b"addr1"), token_balance_key(b"addr2"));
}

#[test]
fn balance_or_zero_takes_the_read_or_zero() {
    assert_eq!(balance_or_zero(Ok(42)), 42);
    assert_eq!(balance_or_zero(Err(StdError::generic_err("not found"))), 0);
}

#[test]
fn load_token_balance_is_zero_without_contract() {
    let deps = mock_dependencies(&[]);
    assert_eq!(load_token_balance(deps.as_ref(), &"token0000".to_string(), b"voter"), Ok(0));
}

struct TokenStore {
    contract: String,
    key: Vec<u8>,
    balance: u128,
}

impl Querier for TokenStore {
    fn raw_query(&self, bin_request: &[u8]) -> QuerierResult {
        let request: QueryRequest<Empty> = from_slice(bin_request).unwrap();
        match request {
            QueryRequest::Wasm(WasmQuery::Raw { contract_addr, key }) => {
                if contract_addr == self.contract && key == Binary::from(self.key.clone()) {
                    SystemResult::Ok(ContractResult::Ok(to_binary(&Uint128::new(self.balance)).unwrap()))
                } else {
                    SystemResult::Ok(ContractResult::Ok(Binary::default()))
                }
            }
            _ => SystemResult::Err(SystemError::UnsupportedRequest { kind: "other".to_string() }),
        }
    }
}

#[test]
fn load_token_balance_reads_the_balance_key() {
    let storage = MockStorage::default();
    let api = MockApi::default();
    let store = TokenStore {
        contract: "token0000".to_string(),
        key: b"\x00\x08balancesvoter".to_vec(),
        balance: 11,
    };
    let deps = Deps { storage: &storage, api: &api, querier: QuerierWrapper::new(&store) };
    assert_eq!(load_token_balance(deps, &"token0000".to_string(), b"voter"), Ok(11));
    // another account: nothing stored there, so zero
    assert_eq!(load_token_balance(deps, &"token0000".to_string(), b"other"), Ok(0));
    // another contract: nothing stored there either
    assert_eq!(load_token_balance(deps, &"token0001".to_string(), b"voter"), Ok(0));
}
