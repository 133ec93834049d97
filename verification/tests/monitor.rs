use cosmos_balance_watcher::config::{Address, Coin, CoinType};
use cosmos_balance_watcher::error::Error;
use cosmos_balance_watcher::handle::{group_coins, CoinEntity, Monitor};
use cosmos_balance_watcher::query::{
    assemble_cw20_balances, assemble_evm_balances, cosmos_balance_from_response,
    cw20_balance_from_response, cw20_state_request, find_amount, parse_balances, Balance,
    QueryOutcome, QueryPlan, RawBalance, SingleQueryPlan,
};
use cosmos_balance_watcher::telemetry::{
    register_custom_metrics, BalanceLabels, QueryStatusLabels, StatusLabels,
};

fn coin(coin_type: CoinType, denom: &str, min_balance: &str, decimal_place: u32) -> Coin {
    Coin {
        min_balance: min_balance.to_string(),
        denom: denom.to_string(),
        display_denom: None,
        contract_address: None,
        decimal_place,
        coin_type,
    }
}

fn address_with(coins: Vec<Coin>) -> Address {
    Address {
        address: "addr1".to_string(),
        hex_address: None,
        role: "relayer".to_string(),
        disable_balance: None,
        balance_url: None,
        refresh: 120,
        coins,
    }
}

fn monitor_with(coins: Vec<Coin>) -> Monitor {
    Monitor::new(
        Some("https://grpc.example".to_string()),
        None,
        "chain-1".to_string(),
        &address_with(coins),
    )
}

fn balance(denom: &str, amount: u128) -> Balance {
    Balance {
        denom: denom.to_string(),
        amount,
    }
}

fn balance_label(denom: &str) -> BalanceLabels {
    BalanceLabels {
        chain_id: "chain-1".to_string(),
        address: "addr1".to_string(),
        denom: denom.to_string(),
        role: "relayer".to_string(),
        balance_url: "".to_string(),
    }
}

fn status_label(denom: &str, min_balance: &str) -> StatusLabels {
    StatusLabels {
        chain_id: "chain-1".to_string(),
        address: "addr1".to_string(),
        denom: denom.to_string(),
        min_balance: min_balance.to_string(),
        role: "relayer".to_string(),
        balance_url: "".to_string(),
    }
}

fn query_label(endpoint: &str) -> QueryStatusLabels {
    QueryStatusLabels {
        chain_id: "chain-1".to_string(),
        address: "addr1".to_string(),
        role: "relayer".to_string(),
        balance_url: "".to_string(),
        query_endpoint_url: endpoint.to_string(),
    }
}

#[test]
fn coins_are_grouped_by_variant_in_order() {
    let mut cw20_coin = coin(CoinType::CW20, "cw20tok", "500", 0);
    cw20_coin.contract_address = Some("contract1".to_string());
    let coins = vec![
        coin(CoinType::COSMOS, "uatom", "1000", 6),
        cw20_coin,
        coin(CoinType::COSMOS, "uosmo", "2000", 6),
        coin(CoinType::EVM, "wei", "1", 18),
    ];
    let groups = group_coins(&coins);
    let denoms = |v: &Vec<CoinEntity>| -> Vec<String> {
        v.iter().map(|e| e.denom.clone()).collect()
    };
    assert_eq!(denoms(&groups.cosmos), vec!["uatom", "uosmo"]);
    assert_eq!(denoms(&groups.cw20), vec!["cw20tok"]);
    assert_eq!(denoms(&groups.evm), vec!["wei"]);
    // display thresholds are precomputed in display units
    assert_eq!(groups.cosmos[0].display_min_balance, "0");
    assert_eq!(groups.cw20[0].display_min_balance, "500");
    assert_eq!(groups.cw20[0].contract_address.as_deref(), Some("contract1"));
}

#[test]
fn monitor_prefers_the_hex_address_for_display() {
    let mut address = address_with(vec![]);
    address.hex_address = Some("0xabc".to_string());
    address.balance_url = Some("https://dash.example".to_string());
    address.disable_balance = Some(true);
    let monitor = Monitor::new(None, None, "chain-1".to_string(), &address);
    assert_eq!(monitor.address, "0xabc");
    assert_eq!(monitor.balance_url, "https://dash.example");
    assert!(monitor.disable_balance);
    assert_eq!(monitor.refresh, 120);
}

#[test]
fn threshold_comparison_is_on_atomic_units() {
    let monitor = monitor_with(vec![coin(CoinType::COSMOS, "uatom", "1000", 0)]);
    let mut metrics = register_custom_metrics();

    // a balance exactly equal to the threshold is at-or-below: status 1
    let outcome = QueryOutcome::Success {
        balances: vec![balance("uatom", 1000)],
        endpoint: "https://grpc.example".to_string(),
    };
    monitor.apply_group_outcome(&mut metrics, &monitor.groups.cosmos, &outcome);
    assert_eq!(metrics.status_value(&status_label("uatom", "1000")), Some(1));

    // one atomic unit above the threshold: status 0
    let outcome = QueryOutcome::Success {
        balances: vec![balance("uatom", 1001)],
        endpoint: "https://grpc.example".to_string(),
    };
    monitor.apply_group_outcome(&mut metrics, &monitor.groups.cosmos, &outcome);
    assert_eq!(metrics.status_value(&status_label("uatom", "1000")), Some(0));
}

#[test]
fn an_absent_denomination_counts_as_zero() {
    let monitor = monitor_with(vec![coin(CoinType::COSMOS, "uatom", "1000", 6)]);
    let mut metrics = register_custom_metrics();
    let outcome = QueryOutcome::Success {
        balances: vec![balance("uosmo", 7_000_000)],
        endpoint: "https://grpc.example".to_string(),
    };
    monitor.apply_group_outcome(&mut metrics, &monitor.groups.cosmos, &outcome);
    assert_eq!(metrics.balance_value(&balance_label("uatom")), Some(0));
    assert_eq!(metrics.status_value(&status_label("uatom", "0")), Some(1));
}

#[test]
fn a_query_failure_keeps_the_last_balance_and_flags_the_query() {
    let monitor = monitor_with(vec![coin(CoinType::COSMOS, "uatom", "1000", 6)]);
    let mut metrics = register_custom_metrics();

    let outcome = QueryOutcome::Success {
        balances: vec![balance("uatom", 5_000_000)],
        endpoint: "https://grpc.example".to_string(),
    };
    monitor.apply_group_outcome(&mut metrics, &monitor.groups.cosmos, &outcome);
    assert_eq!(metrics.balance_value(&balance_label("uatom")), Some(5));
    assert_eq!(
        metrics.query_status_value(&query_label("https://grpc.example")),
        Some(0)
    );

    // the next tick's query fails: balance and status stay, query status trips
    let outcome = QueryOutcome::Failure {
        error: Error::QueryError {
            source: "connection refused".to_string(),
            endpoint: "https://grpc.example".to_string(),
        },
    };
    monitor.apply_group_outcome(&mut metrics, &monitor.groups.cosmos, &outcome);
    assert_eq!(metrics.balance_value(&balance_label("uatom")), Some(5));
    assert_eq!(metrics.status_value(&status_label("uatom", "0")), Some(0));
    assert_eq!(
        metrics.query_status_value(&query_label("https://grpc.example")),
        Some(1)
    );
}

#[test]
fn a_disabled_balance_gauge_is_never_written() {
    let mut address = address_with(vec![coin(CoinType::COSMOS, "uatom", "1000", 6)]);
    address.disable_balance = Some(true);
    let monitor = Monitor::new(
        Some("https://grpc.example".to_string()),
        None,
        "chain-1".to_string(),
        &address,
    );
    let mut metrics = register_custom_metrics();
    let outcome = QueryOutcome::Success {
        balances: vec![balance("uatom", 5_000_000)],
        endpoint: "https://grpc.example".to_string(),
    };
    monitor.apply_group_outcome(&mut metrics, &monitor.groups.cosmos, &outcome);
    assert_eq!(metrics.balances.len(), 0);
    assert_eq!(metrics.status_value(&status_label("uatom", "0")), Some(0));
}

#[test]
fn one_address_with_a_native_and_a_contract_coin_end_to_end() {
    let mut cw20_coin = coin(CoinType::CW20, "cw20tok", "500", 0);
    cw20_coin.contract_address = Some("contract1".to_string());
    let monitor = monitor_with(vec![coin(CoinType::COSMOS, "uatom", "1000", 6), cw20_coin]);
    let mut metrics = register_custom_metrics();

    // the mocked ledger reports 5_000_000 uatom plus a denom nobody asked for
    let outcome = QueryOutcome::Success {
        balances: vec![balance("uatom", 5_000_000), balance("uignored", 1)],
        endpoint: "https://grpc.example".to_string(),
    };
    monitor.apply_group_outcome(&mut metrics, &monitor.groups.cosmos, &outcome);

    // the mocked contract reports 200
    let outcome = QueryOutcome::Success {
        balances: assemble_cw20_balances(&monitor.groups.cw20, &vec![200]),
        endpoint: "https://grpc.example".to_string(),
    };
    monitor.apply_group_outcome(&mut metrics, &monitor.groups.cw20, &outcome);

    assert_eq!(metrics.balance_value(&balance_label("uatom")), Some(5));
    assert_eq!(metrics.status_value(&status_label("uatom", "0")), Some(0));
    assert_eq!(metrics.balance_value(&balance_label("cw20tok")), Some(200));
    assert_eq!(metrics.status_value(&status_label("cw20tok", "500")), Some(1));
    assert_eq!(
        metrics.query_status_value(&query_label("https://grpc.example")),
        Some(0)
    );
}

#[test]
fn plans_pick_the_endpoint_for_the_variant() {
    let grpc = Some("https://grpc.example".to_string());
    let evm = Some("https://rpc.example".to_string());
    let addr = "addr1".to_string();

    match CoinType::COSMOS
        .get_balances_plan(&addr, &vec![], &grpc, &None)
        .unwrap()
    {
        QueryPlan::CosmosBulk { endpoint } => assert_eq!(endpoint, "https://grpc.example"),
        other => panic!("wrong plan: {:?}", plan_name(&other)),
    }
    match CoinType::EVM
        .get_balances_plan(&addr, &vec![], &None, &evm)
        .unwrap()
    {
        QueryPlan::Evm { endpoint } => assert_eq!(endpoint, "https://rpc.example"),
        other => panic!("wrong plan: {:?}", plan_name(&other)),
    }
}

fn plan_name(plan: &QueryPlan) -> &'static str {
    match plan {
        QueryPlan::CosmosBulk { .. } => "CosmosBulk",
        QueryPlan::Cw20 { .. } => "Cw20",
        QueryPlan::Evm { .. } => "Evm",
    }
}

#[test]
fn single_queries_follow_the_variant_too() {
    let grpc = Some("https://grpc.example".to_string());
    let addr = "addr1".to_string();
    let denom = "uatom".to_string();
    match CoinType::COSMOS
        .get_balance_plan(&addr, &denom, &None, &grpc, &None)
        .unwrap()
    {
        SingleQueryPlan::Cosmos { endpoint, denom } => {
            assert_eq!(endpoint, "https://grpc.example");
            assert_eq!(denom, "uatom");
        }
        other => panic!("wrong plan: {:?}", other),
    }
    match CoinType::CW20
        .get_balance_plan(&addr, &denom, &Some("contract1".to_string()), &grpc, &None)
        .unwrap()
    {
        SingleQueryPlan::Cw20 { endpoint, request } => {
            assert_eq!(endpoint, "https://grpc.example");
            assert_eq!(request.contract_address, "contract1");
        }
        other => panic!("wrong plan: {:?}", other),
    }
    // a CW20 coin without its contract address cannot be queried
    let err = CoinType::CW20
        .get_balance_plan(&addr, &denom, &None, &grpc, &None)
        .unwrap_err();
    assert!(matches!(err, Error::QueryError { .. }));
}

#[test]
fn a_missing_endpoint_is_a_query_failure_not_a_crash() {
    let addr = "addr1".to_string();
    let err = CoinType::COSMOS
        .get_balances_plan(&addr, &vec![], &None, &None)
        .unwrap_err();
    assert!(matches!(err, Error::QueryError { .. }));
    assert_eq!(err.query_endpoint(), "");
    let err = CoinType::EVM
        .get_balances_plan(&addr, &vec![], &None, &None)
        .unwrap_err();
    assert!(matches!(err, Error::QueryError { .. }));
}

#[test]
fn the_cw20_plan_encodes_one_balance_query_per_coin() {
    let mut cw20_coin = coin(CoinType::CW20, "cw20tok", "500", 0);
    cw20_coin.contract_address = Some("contract1".to_string());
    let groups = group_coins(&vec![cw20_coin]);
    let grpc = Some("https://grpc.example".to_string());
    let addr = "addr1".to_string();
    match CoinType::CW20
        .get_balances_plan(&addr, &groups.cw20, &grpc, &None)
        .unwrap()
    {
        QueryPlan::Cw20 { endpoint, requests } => {
            assert_eq!(endpoint, "https://grpc.example");
            assert_eq!(requests.len(), 1);
            assert_eq!(requests[0].contract_address, "contract1");
            let sent: serde_json::Value = serde_json::from_slice(&requests[0].query_data).unwrap();
            let expected: serde_json::Value =
                serde_json::from_str(r#"{"balance":{"address":"addr1"}}"#).unwrap();
            assert_eq!(sent, expected);
        }
        other => panic!("wrong plan: {:?}", plan_name(&other)),
    }
}

#[test]
fn a_cw20_coin_without_its_contract_fails_the_bulk_plan() {
    let groups = group_coins(&vec![coin(CoinType::CW20, "cw20tok", "500", 0)]);
    let grpc = Some("https://grpc.example".to_string());
    let err = CoinType::CW20
        .get_balances_plan(&"addr1".to_string(), &groups.cw20, &grpc, &None)
        .unwrap_err();
    assert!(matches!(err, Error::QueryError { .. }));
}

#[test]
fn cw20_state_requests_round_trip_through_the_decoder() {
    let request = cw20_state_request(&"contract1".to_string(), &"addr1".to_string());
    assert_eq!(request.contract_address, "contract1");
    // a contract answering that query would reply with a balance response
    let reply = r#"{"balance":"200"}"#.as_bytes().to_vec();
    assert_eq!(
        cw20_balance_from_response(&reply, "https://grpc.example").unwrap(),
        200
    );
}

#[test]
fn undecodable_cw20_bytes_are_a_protocol_failure() {
    let err = cw20_balance_from_response(&b"not json".to_vec(), "https://grpc.example")
        .unwrap_err();
    match err {
        Error::QueryError { endpoint, .. } => assert_eq!(endpoint, "https://grpc.example"),
        other => panic!("wrong error: {:?}", other),
    }
}

#[test]
fn raw_amounts_are_parsed_or_fail_the_whole_query() {
    let raw = vec![
        RawBalance {
            denom: "uatom".to_string(),
            amount: "5000000".to_string(),
        },
        RawBalance {
            denom: "uosmo".to_string(),
            amount: "340282366920938463463374607431768211455".to_string(),
        },
    ];
    let parsed = parse_balances(&raw, "ep").unwrap();
    assert_eq!(parsed.len(), 2);
    assert_eq!(parsed[0].denom, "uatom");
    assert_eq!(parsed[0].amount, 5_000_000);
    assert_eq!(parsed[1].amount, u128::MAX);

    let raw = vec![RawBalance {
        denom: "uatom".to_string(),
        amount: "not-a-number".to_string(),
    }];
    let err = parse_balances(&raw, "ep").unwrap_err();
    match err {
        Error::QueryError { endpoint, .. } => assert_eq!(endpoint, "ep"),
        other => panic!("wrong error: {:?}", other),
    }
}

#[test]
fn find_amount_takes_the_first_match_and_defaults_to_zero() {
    let balances = vec![balance("uatom", 5), balance("uatom", 9), balance("uosmo", 7)];
    assert_eq!(find_amount(&balances, &"uatom".to_string()), 5);
    assert_eq!(find_amount(&balances, &"uosmo".to_string()), 7);
    assert_eq!(find_amount(&balances, &"unknown".to_string()), 0);
}

#[test]
fn single_balance_responses_resolve_or_name_the_denomination() {
    let got = cosmos_balance_from_response(
        Some(RawBalance {
            denom: "uom".to_string(),
            amount: "12".to_string(),
        }),
        &"uom".to_string(),
    );
    assert_eq!(got.unwrap(), "12");
    let err = cosmos_balance_from_response(None, &"uom".to_string()).unwrap_err();
    assert_eq!(
        err,
        Error::GetCosmosBalance {
            denom: "uom".to_string()
        }
    );
}

#[test]
fn evm_balances_take_the_first_coin_denomination() {
    let groups = group_coins(&vec![coin(CoinType::EVM, "wei", "1", 18)]);
    let balances = assemble_evm_balances(&groups.evm, 42);
    assert_eq!(balances.len(), 1);
    assert_eq!(balances[0].denom, "wei");
    assert_eq!(balances[0].amount, 42);
}
