use oracle_contract::contract::{execute, instantiate, query, try_set_price};
use oracle_contract::error::ContractError;
use oracle_contract::msg::{
    Coin, ExecuteMsg, GetPriceResponse, InstantiateMsg, MessageInfo, QueryMsg,
};
use oracle_contract::state::Store;

fn mock_info(sender: &str, funds: &[(u128, &str)]) -> MessageInfo {
    MessageInfo {
        sender: sender.to_string(),
        funds: funds
            .iter()
            .map(|(amount, denom)| Coin { denom: denom.to_string(), amount: *amount })
            .collect(),
    }
}

#[test]
fn proper_initialization() {
    let mut store = Store::new();

    let msg = InstantiateMsg {};
    let info = mock_info("creator", &[(1000, "earth")]);

    // we can just call .unwrap() to assert this was a success
    let res = instantiate(&mut store, info, msg).unwrap();
    assert_eq!(0, res.messages.len());
}

#[test]
fn set_price() {
    let mut store = Store::new();

    let msg = InstantiateMsg {};
    let info = mock_info("creator", &[(2, "token")]);
    let _res = instantiate(&mut store, info, msg).unwrap();

    // beneficiary can release it
    let unauth_info = mock_info("anyone", &[(2, "token")]);
    let msg = ExecuteMsg::SetPrice { symbol: "LUNA".to_string(), price: 1000000 };
    let res = execute(&mut store, unauth_info, msg);
    match res {
        Err(ContractError::Unauthorized) => {}
        _ => panic!("Must return unauthorized error"),
    }

    // only the original creator can update the price
    let auth_info = mock_info("creator", &[(2, "token")]);
    let msg = ExecuteMsg::SetPrice { symbol: "LUNA".to_string(), price: 1000000 };
    let _res = execute(&mut store, auth_info, msg).unwrap();

    // should now be "1000000"
    let res = query(&store, QueryMsg::GetPrice { symbol: "LUNA".to_string() }).unwrap();
    assert_eq!(1000000, res.price);

    // price cannot be 0
    let unauth_info = mock_info("creator", &[(2, "token")]);
    let msg = ExecuteMsg::SetPrice { symbol: "LUNA".to_string(), price: 0 };
    let res = execute(&mut store, unauth_info, msg);
    match res {
        Err(ContractError::InvalidZeroAmount) => {}
        _ => panic!("Must return invalid zero amount error"),
    }
}

#[test]
fn instantiate_records_owner_and_audit_trail() {
    let mut store = Store::new();
    let res = instantiate(&mut store, mock_info("creator", &[]), InstantiateMsg {}).unwrap();

    assert!(store.owner.is_some());
    assert_eq!("creator", store.owner.as_ref().unwrap().owner);
    assert_eq!(0, res.messages.len());
    assert_eq!(2, res.attributes.len());
    assert_eq!("method", res.attributes[0].key);
    assert_eq!("instantiate", res.attributes[0].value);
    assert_eq!("owner", res.attributes[1].key);
    assert_eq!("creator", res.attributes[1].value);
}

#[test]
fn full_scenario_failures_leave_table_unchanged() {
    let mut store = Store::new();
    instantiate(&mut store, mock_info("A", &[]), InstantiateMsg {}).unwrap();

    // the owner writes LUNA
    let res =
        try_set_price(&mut store, mock_info("A", &[]), "LUNA".to_string(), 1000000).unwrap();
    assert_eq!(1, res.attributes.len());
    assert_eq!("method", res.attributes[0].key);
    assert_eq!("set_price", res.attributes[0].value);

    // another caller cannot, and the stored price stays
    let res = try_set_price(&mut store, mock_info("B", &[]), "LUNA".to_string(), 2000000);
    assert!(matches!(res, Err(ContractError::Unauthorized)));
    let q = query(&store, QueryMsg::GetPrice { symbol: "LUNA".to_string() }).unwrap();
    assert_eq!(GetPriceResponse { price: 1000000 }, q);

    // the owner cannot write zero, and the stored price stays
    let res = try_set_price(&mut store, mock_info("A", &[]), "LUNA".to_string(), 0);
    assert!(matches!(res, Err(ContractError::InvalidZeroAmount)));
    let q = query(&store, QueryMsg::GetPrice { symbol: "LUNA".to_string() }).unwrap();
    assert_eq!(1000000, q.price);

    // a symbol never written is not found
    let res = query(&store, QueryMsg::GetPrice { symbol: "BTC".to_string() });
    assert!(matches!(res, Err(ContractError::NotFound)));
}

#[test]
fn overwrite_returns_second_price() {
    let mut store = Store::new();
    instantiate(&mut store, mock_info("owner", &[]), InstantiateMsg {}).unwrap();

    try_set_price(&mut store, mock_info("owner", &[]), "LUNA".to_string(), 1000000).unwrap();
    try_set_price(&mut store, mock_info("owner", &[]), "LUNA".to_string(), 2000000).unwrap();

    let q = query(&store, QueryMsg::GetPrice { symbol: "LUNA".to_string() }).unwrap();
    assert_eq!(2000000, q.price);
    // the entry was replaced, not duplicated
    assert_eq!(1, store.prices.len());
}

#[test]
fn distinct_symbols_are_independent() {
    let mut store = Store::new();
    instantiate(&mut store, mock_info("owner", &[]), InstantiateMsg {}).unwrap();

    try_set_price(&mut store, mock_info("owner", &[]), "LUNA".to_string(), 3).unwrap();
    try_set_price(&mut store, mock_info("owner", &[]), "BTC".to_string(), 5).unwrap();

    let luna = query(&store, QueryMsg::GetPrice { symbol: "LUNA".to_string() }).unwrap();
    let btc = query(&store, QueryMsg::GetPrice { symbol: "BTC".to_string() }).unwrap();
    assert_eq!(3, luna.price);
    assert_eq!(5, btc.price);
}

#[test]
fn unauthorized_zero_write_surfaces_unauthorized() {
    let mut store = Store::new();
    instantiate(&mut store, mock_info("owner", &[]), InstantiateMsg {}).unwrap();

    // authorization is checked before the zero-price rule
    let res = try_set_price(&mut store, mock_info("stranger", &[]), "LUNA".to_string(), 0);
    assert!(matches!(res, Err(ContractError::Unauthorized)));
}

#[test]
fn query_on_fresh_store_is_not_found() {
    let store = Store::new();
    let res = query(&store, QueryMsg::GetPrice { symbol: "LUNA".to_string() });
    assert!(matches!(res, Err(ContractError::NotFound)));
}

#[test]
fn store_set_rejects_zero_and_get_reads_back() {
    let mut store = Store::new();

    assert!(matches!(
        store.set("LUNA".to_string(), 0),
        Err(ContractError::InvalidZeroAmount)
    ));
    assert!(matches!(store.get(&"LUNA".to_string()), Err(ContractError::NotFound)));

    store.set("LUNA".to_string(), u128::MAX).unwrap();
    assert_eq!(u128::MAX, store.get(&"LUNA".to_string()).unwrap());
}

#[test]
fn is_owner_compares_identities() {
    let mut store = Store::new();
    instantiate(&mut store, mock_info("owner", &[]), InstantiateMsg {}).unwrap();

    assert!(store.is_owner(&"owner".to_string()));
    assert!(!store.is_owner(&"stranger".to_string()));
}
