use sample_contract::contract::{
    empty_store, execute, instantiate, oracle_answer_of, plan_update, query, query_oracle, query_risk,
    risk_response, route_execute, route_query, try_update_risk, QueryAnswer, QueryRoute,
    NO_RECORD_REASON,
};
use sample_contract::error::{ContractError, ErrorKind};
use sample_contract::msg::{ExecuteMsg, InstantiateMsg, QueryMsg, RiskResponse};
use sample_contract::state::{parse_key_type, parse_lowered_key_type, RiskRecord};

fn s(x: &str) -> String {
    x.to_string()
}

fn init_msg() -> InstantiateMsg {
    InstantiateMsg { oracle_pubkey: vec![1, 2, 3], oracle_key_type: s("secp256k1") }
}

fn update(wallet: &str, risk: u8, compliant: bool, timestamp: Option<&str>) -> ExecuteMsg {
    ExecuteMsg::UpdateRisk {
        wallet: s(wallet),
        risk,
        compliant,
        timestamp: timestamp.map(s),
    }
}

fn get_risk(store: &cosmwasm_std::MemoryStorage, wallet: &str) -> RiskResponse {
    match query(store, QueryMsg::GetRisk { wallet: s(wallet) }, Some(s(wallet))) {
        Ok(QueryAnswer::Risk(r)) => r,
        _ => panic!("risk query failed"),
    }
}

fn default_reason() -> Option<Vec<String>> {
    Some(vec![s("no record found")])
}

#[test]
fn oracle_scenario_end_to_end() {
    let mut store = empty_store();
    instantiate(&mut store, &s("oracle1"), init_msg()).unwrap();
    let w = execute(&mut store, &s("oracle1"), update("w1", 7, false, Some("t1")), Some(s("w1"))).unwrap();
    assert_eq!(w.wallet, "w1");
    assert_eq!(w.key, "w1");
    let r = get_risk(&store, "w1");
    assert_eq!(r.wallet, "w1");
    assert_eq!(r.risk, Some(7));
    assert_eq!(r.compliant, Some(false));
    assert_eq!(r.timestamp, Some(s("t1")));
    assert_eq!(r.source, Some(s("oracle1")));
    assert_eq!(r.reason, None);

    let e = execute(&mut store, &s("attacker"), update("w1", 2, true, None), Some(s("w1")));
    assert!(matches!(e, Err(ContractError::Unauthorized)));
    assert_eq!(e.err().unwrap().kind(), ErrorKind::Authorization);
    let r = get_risk(&store, "w1");
    assert_eq!(r.risk, Some(7));
    assert_eq!(r.compliant, Some(false));
    assert_eq!(r.timestamp, Some(s("t1")));
    assert_eq!(r.source, Some(s("oracle1")));
}

#[test]
fn risk_out_of_range_is_refused() {
    let mut store = empty_store();
    instantiate(&mut store, &s("oracle1"), init_msg()).unwrap();
    for risk in [0u8, 11, 255] {
        let e = try_update_risk(&mut store, &s("oracle1"), s("w1"), Some(s("w1")), risk, true, None);
        assert!(matches!(e, Err(ContractError::RiskOutOfRange)));
        assert_eq!(e.err().unwrap().kind(), ErrorKind::Validation);
        assert_eq!(get_risk(&store, "w1").reason, default_reason());
    }
}

#[test]
fn risk_bounds_are_accepted() {
    let mut store = empty_store();
    instantiate(&mut store, &s("oracle1"), init_msg()).unwrap();
    for risk in [1u8, 10] {
        try_update_risk(&mut store, &s("oracle1"), s("w1"), Some(s("w1")), risk, true, None).unwrap();
        assert_eq!(get_risk(&store, "w1").risk, Some(risk));
    }
}

#[test]
fn range_is_checked_before_authorization() {
    let mut store = empty_store();
    instantiate(&mut store, &s("oracle1"), init_msg()).unwrap();
    let e = try_update_risk(&mut store, &s("attacker"), s("w1"), Some(s("w1")), 0, true, None);
    assert!(matches!(e, Err(ContractError::RiskOutOfRange)));
}

#[test]
fn non_oracle_is_unauthorized() {
    let mut store = empty_store();
    instantiate(&mut store, &s("oracle1"), init_msg()).unwrap();
    let e = try_update_risk(&mut store, &s("oracle2"), s("w1"), Some(s("w1")), 5, true, None);
    assert!(matches!(e, Err(ContractError::Unauthorized)));
    assert_eq!(get_risk(&store, "w1").reason, default_reason());
}

#[test]
fn update_without_oracle_is_unauthorized() {
    let mut store = empty_store();
    let e = try_update_risk(&mut store, &s("oracle1"), s("w1"), Some(s("w1")), 5, true, None);
    assert!(matches!(e, Err(ContractError::Unauthorized)));
}

#[test]
fn invalid_wallet_is_refused() {
    let mut store = empty_store();
    instantiate(&mut store, &s("oracle1"), init_msg()).unwrap();
    let e = try_update_risk(&mut store, &s("oracle1"), s("bad"), None, 5, true, None);
    assert!(matches!(e, Err(ContractError::InvalidWallet)));
    assert_eq!(e.err().unwrap().kind(), ErrorKind::Validation);
    let q = query_risk(&store, s("bad"), None);
    assert!(matches!(q, Err(ContractError::InvalidWallet)));
}

#[test]
fn authorization_is_checked_before_wallet() {
    let mut store = empty_store();
    instantiate(&mut store, &s("oracle1"), init_msg()).unwrap();
    let e = try_update_risk(&mut store, &s("attacker"), s("bad"), None, 5, true, None);
    assert!(matches!(e, Err(ContractError::Unauthorized)));
}

#[test]
fn missing_record_gives_default() {
    let mut store = empty_store();
    instantiate(&mut store, &s("oracle1"), init_msg()).unwrap();
    let r = get_risk(&store, "nobody");
    assert_eq!(r.wallet, "nobody");
    assert_eq!(r.risk, Some(1));
    assert_eq!(r.compliant, Some(true));
    assert_eq!(r.timestamp, None);
    assert_eq!(r.source, None);
    assert_eq!(r.reason, default_reason());
    assert_eq!(NO_RECORD_REASON, "no record found");
}

#[test]
fn second_update_replaces_first() {
    let mut store = empty_store();
    instantiate(&mut store, &s("oracle1"), init_msg()).unwrap();
    try_update_risk(&mut store, &s("oracle1"), s("w1"), Some(s("w1")), 9, false, Some(s("t1"))).unwrap();
    try_update_risk(&mut store, &s("oracle1"), s("w1"), Some(s("w1")), 3, true, None).unwrap();
    let r = get_risk(&store, "w1");
    assert_eq!(r.risk, Some(3));
    assert_eq!(r.compliant, Some(true));
    assert_eq!(r.timestamp, None);
    assert_eq!(r.source, Some(s("oracle1")));
    assert_eq!(r.reason, None);
}

#[test]
fn records_are_kept_per_wallet() {
    let mut store = empty_store();
    instantiate(&mut store, &s("oracle1"), init_msg()).unwrap();
    try_update_risk(&mut store, &s("oracle1"), s("w1"), Some(s("w1")), 4, true, None).unwrap();
    try_update_risk(&mut store, &s("oracle1"), s("w2"), Some(s("w2")), 8, false, None).unwrap();
    assert_eq!(get_risk(&store, "w1").risk, Some(4));
    assert_eq!(get_risk(&store, "w2").risk, Some(8));
    assert_eq!(get_risk(&store, "w3").reason, default_reason());
}

#[test]
fn record_is_stored_under_canonical_key() {
    let mut store = empty_store();
    instantiate(&mut store, &s("oracle1"), init_msg()).unwrap();
    let w = try_update_risk(&mut store, &s("oracle1"), s("W1"), Some(s("w1")), 6, true, None).unwrap();
    assert_eq!(w.wallet, "W1");
    assert_eq!(w.key, "w1");
    let r = query_risk(&store, s("W1"), Some(s("w1"))).unwrap();
    assert_eq!(r.wallet, "W1");
    assert_eq!(r.risk, Some(6));
}

#[test]
fn oracle_query_before_and_after_instantiate() {
    let mut store = empty_store();
    assert_eq!(query_oracle(&store), "");
    match query(&store, QueryMsg::GetOracle {}, None) {
        Ok(QueryAnswer::Oracle(a)) => assert_eq!(a, ""),
        _ => panic!("oracle query failed"),
    }
    instantiate(&mut store, &s("creator"), init_msg()).unwrap();
    assert_eq!(query_oracle(&store), "creator");
    match query(&store, QueryMsg::GetOracle {}, None) {
        Ok(QueryAnswer::Oracle(a)) => assert_eq!(a, "creator"),
        _ => panic!("oracle query failed"),
    }
}

#[test]
fn unsupported_executes_are_refused() {
    let mut store = empty_store();
    instantiate(&mut store, &s("oracle1"), init_msg()).unwrap();
    let msgs = vec![
        ExecuteMsg::Send { recipient: s("w1") },
        ExecuteMsg::OracleDataUpdate { data: s("d"), signature: vec![0] },
        ExecuteMsg::UpdateOracle { new_pubkey: vec![1], new_key_type: Some(s("ed25519")) },
    ];
    for m in msgs {
        let e = execute(&mut store, &s("oracle1"), m, Some(s("w1")));
        assert!(matches!(e, Err(ContractError::UnsupportedExecute)));
        assert_eq!(e.err().unwrap().kind(), ErrorKind::UnsupportedOperation);
    }
    assert_eq!(query_oracle(&store), "oracle1");
    assert_eq!(get_risk(&store, "w1").reason, default_reason());
}

#[test]
fn unsupported_queries_are_refused() {
    let store = empty_store();
    for m in [QueryMsg::GetOracleData {}, QueryMsg::GetOraclePubkey {}, QueryMsg::GetAdmin {}] {
        let e = query(&store, m, None);
        assert!(matches!(e, Err(ContractError::UnsupportedQuery)));
    }
}

#[test]
fn error_messages_are_distinct() {
    assert_eq!(ContractError::RiskOutOfRange.message(), "risk out of range");
    assert_eq!(ContractError::Unauthorized.message(), "unauthorized");
    assert_eq!(ContractError::UnsupportedExecute.message(), "unsupported execute message");
    assert_eq!(ContractError::UnsupportedQuery.message(), "unsupported query message");
    assert_eq!(ContractError::InvalidWallet.message(), "invalid wallet address");
}

#[test]
fn plan_update_decides_without_store() {
    let w = plan_update(Some(s("o")), &s("o"), s("w"), Some(s("k")), 2, true, Some(s("t"))).unwrap();
    assert_eq!(w.key, "k");
    assert_eq!(w.record.risk, 2);
    assert_eq!(w.record.source, Some(s("o")));
    assert!(matches!(
        plan_update(None, &s("o"), s("w"), Some(s("k")), 2, true, None),
        Err(ContractError::Unauthorized)
    ));
}

#[test]
fn risk_response_reports_record() {
    let rec = RiskRecord { risk: 5, compliant: false, timestamp: Some(s("t")), source: Some(s("o")) };
    let r = risk_response(s("w"), Some(rec));
    assert_eq!(r.risk, Some(5));
    assert_eq!(r.reason, None);
    let d = risk_response(s("w"), None);
    assert_eq!(d.risk, Some(1));
    assert_eq!(d.reason, default_reason());
}

#[test]
fn key_type_spellings() {
    assert_eq!(parse_key_type("secp256k1"), Some("secp256k1"));
    assert_eq!(parse_key_type("K256"), Some("secp256k1"));
    assert_eq!(parse_key_type("ECDSA"), Some("secp256k1"));
    assert_eq!(parse_key_type("Ed25519"), Some("ed25519"));
    assert_eq!(parse_key_type("ED"), Some("ed25519"));
    assert_eq!(parse_key_type("rsa"), None);
    assert_eq!(parse_key_type(""), None);
    assert_eq!(parse_lowered_key_type(&s("ED")), None);
    assert_eq!(parse_lowered_key_type(&s("ed")), Some("ed25519"));
}

#[test]
fn routing_picks_handled_messages() {
    let u = route_execute(update("w9", 4, false, Some("t"))).unwrap();
    assert_eq!(u.wallet, "w9");
    assert_eq!(u.risk, 4);
    assert!(!u.compliant);
    assert_eq!(u.timestamp, Some(s("t")));
    assert!(matches!(
        route_execute(ExecuteMsg::Send { recipient: s("x") }),
        Err(ContractError::UnsupportedExecute)
    ));
    match route_query(QueryMsg::GetRisk { wallet: s("w9") }) {
        Ok(QueryRoute::Risk { wallet }) => assert_eq!(wallet, "w9"),
        _ => panic!("risk query not routed"),
    }
    assert!(matches!(route_query(QueryMsg::GetOracle {}), Ok(QueryRoute::Oracle)));
    assert!(matches!(route_query(QueryMsg::GetAdmin {}), Err(ContractError::UnsupportedQuery)));
}

#[test]
fn oracle_answer_defaults_to_empty() {
    assert_eq!(oracle_answer_of(None), "");
    assert_eq!(oracle_answer_of(Some(s("oracle1"))), "oracle1");
}

#[test]
fn repeated_reads_agree() {
    let mut store = empty_store();
    instantiate(&mut store, &s("oracle1"), init_msg()).unwrap();
    try_update_risk(&mut store, &s("oracle1"), s("w1"), Some(s("w1")), 5, true, None).unwrap();
    let a = query_risk(&store, s("W1"), Some(s("w1"))).unwrap();
    let b = query_risk(&store, s("w1"), Some(s("w1"))).unwrap();
    assert_eq!(a.risk, b.risk);
    assert_eq!(a.source, b.source);
    assert_eq!(a.wallet, "W1");
    assert_eq!(b.wallet, "w1");
    let c = query_risk(&store, s("w2"), Some(s("w2"))).unwrap();
    let d = query_risk(&store, s("w2"), Some(s("w2"))).unwrap();
    assert_eq!(c.reason, d.reason);
    assert_eq!(c.reason, default_reason());
}
