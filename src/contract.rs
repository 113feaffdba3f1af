use vstd::prelude::*;
use cosmwasm_std::MemoryStorage;
use crate::error::ContractError;
use crate::msg::{ExecuteMsg, InstantiateMsg, QueryMsg, RiskResponse};
use crate::state::{
    empty_entries, empty_keys, load_oracle, load_record, new_store, opt_view, oracle_slot,
    risk_entries, risk_in_range, risk_keys, save_oracle, save_record, RecordModel, RiskRecord,
    MAX_RISK, MIN_RISK,
};

verus! {

/// The reason given with the default answer for a wallet without a record.
pub const NO_RECORD_REASON: &'static str = "no record found";

/// A write that the registry has decided on: `record` goes under `key`, the
/// host's canonical form of `wallet`.
pub struct RiskWrite {
    pub wallet: String,
    pub key: String,
    pub record: RiskRecord,
}

/// The fields of an update command.
pub struct RiskUpdate {
    pub wallet: String,
    pub risk: u8,
    pub compliant: bool,
    pub timestamp: Option<String>,
}

/// A query that the registry implements.
pub enum QueryRoute {
    Risk { wallet: String },
    Oracle,
}

/// The answer to a query that the registry implements.
pub enum QueryAnswer {
    Risk(RiskResponse),
    Oracle(String),
}

/// What an update decides, as plain values: the checks in their order, then
/// the key and the record to store. The writer becomes the record's source.
pub open spec fn update_outcome(
    oracle: Option<Seq<char>>,
    sender: Seq<char>,
    key: Option<Seq<char>>,
    risk: u8,
    compliant: bool,
    timestamp: Option<Seq<char>>,
) -> Result<(Seq<char>, RecordModel), ContractError> {
    if !risk_in_range(risk) {
        Err(ContractError::RiskOutOfRange)
    } else if oracle != Some(sender) {
        Err(ContractError::Unauthorized)
    } else {
        match key {
            Some(k) => Ok((k, (risk, compliant, timestamp, Some(sender)))),
            None => Err(ContractError::InvalidWallet),
        }
    }
}

/// `r` is the decision `o`, made for `wallet`.
pub open spec fn write_agrees(
    r: Result<RiskWrite, ContractError>,
    wallet: Seq<char>,
    o: Result<(Seq<char>, RecordModel), ContractError>,
) -> bool {
    match r {
        Ok(w) => w.wallet@ == wallet && (o matches Ok(p) && p == (w.key@, w.record@)),
        Err(e) => o matches Err(oe) && oe == e,
    }
}

/// Every key under which the risk collection holds bytes holds a record that
/// decodes. The registry's own writes keep it so.
pub open spec fn store_wf(s: MemoryStorage) -> bool {
    risk_keys(s) == risk_entries(s).dom()
}

/// How an update call leaves the store and what it returns. A rejected
/// update changes nothing; an accepted one succeeds and replaces exactly the
/// record under the key.
pub open spec fn update_effect(
    before: MemoryStorage,
    after: MemoryStorage,
    sender: Seq<char>,
    wallet: Seq<char>,
    key: Option<Seq<char>>,
    risk: u8,
    compliant: bool,
    timestamp: Option<Seq<char>>,
    r: Result<RiskWrite, ContractError>,
) -> bool {
    match update_outcome(oracle_slot(before), sender, key, risk, compliant, timestamp) {
        Ok(p) => match r {
            Ok(w) => {
                &&& w.wallet@ == wallet
                &&& w.key@ == p.0
                &&& w.record@ == p.1
                &&& risk_entries(after) == risk_entries(before).insert(p.0, p.1)
                &&& risk_keys(after) == risk_keys(before).insert(p.0)
                &&& oracle_slot(after) == oracle_slot(before)
            },
            Err(_) => false,
        },
        Err(oe) => (r matches Err(e) && e == oe) && after == before,
    }
}

/// The answer for `wallet` given what the store holds for it: the record's
/// fields, or the default of lowest risk and compliant, marked by a reason.
pub open spec fn response_agrees(r: RiskResponse, wallet: Seq<char>, stored: Option<RecordModel>) -> bool {
    &&& r.wallet@ == wallet
    &&& match stored {
        Some(rec) => {
            &&& r.risk == Some(rec.0)
            &&& r.compliant == Some(rec.1)
            &&& opt_view(r.timestamp) == rec.2
            &&& opt_view(r.source) == rec.3
            &&& r.reason is None
        },
        None => {
            &&& r.risk == Some(1u8)
            &&& r.compliant == Some(true)
            &&& r.timestamp is None
            &&& r.source is None
            &&& r.reason matches Some(v) && v@.len() == 1 && v@[0]@ == NO_RECORD_REASON@
        },
    }
}

pub open spec fn record_opt_view(o: Option<RiskRecord>) -> Option<RecordModel> {
    match o {
        Some(rec) => Some(rec@),
        None => None,
    }
}

/// How a risk query answers: an invalid wallet is refused; a stored record
/// is reported; a wallet without one gets the default. Only bytes under the
/// wallet's key that do not decode, which a well-formed store never holds,
/// give a storage error.
pub open spec fn query_effect(
    s: MemoryStorage,
    wallet: Seq<char>,
    key: Option<Seq<char>>,
    r: Result<RiskResponse, ContractError>,
) -> bool {
    match key {
        None => r matches Err(e) && e == ContractError::InvalidWallet,
        Some(k) => if risk_entries(s).contains_key(k) {
            r matches Ok(resp) && response_agrees(resp, wallet, Some(risk_entries(s)[k]))
        } else if !risk_keys(s).contains(k) {
            r matches Ok(resp) && response_agrees(resp, wallet, None)
        } else {
            r matches Err(e) && e == ContractError::Storage
        },
    }
}

/// The oracle address as a query reports it: empty when none is stored.
pub open spec fn oracle_answer(s: MemoryStorage) -> Seq<char> {
    match oracle_slot(s) {
        Some(a) => a,
        None => Seq::empty(),
    }
}

/// A store that holds no oracle and no record: the state before creation.
pub fn empty_store() -> (r: MemoryStorage)
    ensures
        oracle_slot(r) is None,
        risk_entries(r) == empty_entries(),
        risk_keys(r) == empty_keys(),
        store_wf(r),
{
    let r = new_store();
    assert(risk_keys(r) =~= risk_entries(r).dom());
    r
}

/// How creation leaves the store: it succeeds, the creator is the oracle and
/// the records are kept.
pub open spec fn instantiate_effect(
    before: MemoryStorage,
    after: MemoryStorage,
    sender: Seq<char>,
    r: Result<(), ContractError>,
) -> bool {
    &&& r is Ok
    &&& oracle_slot(after) == Some(sender)
    &&& risk_entries(after) == risk_entries(before)
    &&& risk_keys(after) == risk_keys(before)
}

/// Makes the creator the oracle. The pubkey fields of `msg` are accepted but
/// not stored.
pub fn instantiate(storage: &mut MemoryStorage, sender: &String, _msg: InstantiateMsg) -> (r: Result<(), ContractError>)
    ensures
        instantiate_effect(*old(storage), *final(storage), sender@, r),
{
    match save_oracle(storage, sender) {
        Ok(()) => Ok(()),
        Err(_) => Err(ContractError::Storage),
    }
}

/// Decides an update from the current oracle, the sender and the host's
/// canonical form of the wallet (`None` when the host refused it), without
/// touching any store.
pub fn plan_update(
    oracle: Option<String>,
    sender: &String,
    wallet: String,
    key: Option<String>,
    risk: u8,
    compliant: bool,
    timestamp: Option<String>,
) -> (r: Result<RiskWrite, ContractError>)
    ensures
        write_agrees(r, wallet@, update_outcome(opt_view(oracle), sender@, opt_view(key), risk, compliant, opt_view(timestamp))),
{
    if risk < MIN_RISK || risk > MAX_RISK {
        return Err(ContractError::RiskOutOfRange);
    }
    let authorized = match &oracle {
        Some(a) => *a == *sender,
        None => false,
    };
    if !authorized {
        return Err(ContractError::Unauthorized);
    }
    match key {
        None => Err(ContractError::InvalidWallet),
        Some(k) => {
            let record = RiskRecord { risk, compliant, timestamp, source: Some(sender.clone()) };
            Ok(RiskWrite { wallet, key: k, record })
        },
    }
}

/// Stores the sender's risk score for a wallet, replacing any earlier record.
/// Only the oracle may write, and only scores in `1..=10`. An oracle slot
/// that cannot be read authorizes nobody.
pub fn try_update_risk(
    storage: &mut MemoryStorage,
    sender: &String,
    wallet: String,
    key: Option<String>,
    risk: u8,
    compliant: bool,
    timestamp: Option<String>,
) -> (r: Result<RiskWrite, ContractError>)
    ensures
        update_effect(*old(storage), *final(storage), sender@, wallet@, opt_view(key), risk, compliant, opt_view(timestamp), r),
{
    let oracle = match load_oracle(storage) {
        Ok(o) => o,
        Err(_) => None,
    };
    let w = match plan_update(oracle, sender, wallet, key, risk, compliant, timestamp) {
        Ok(w) => w,
        Err(e) => return Err(e),
    };
    match save_record(storage, &w.key, &w.record) {
        Ok(()) => Ok(w),
        Err(_) => Err(ContractError::Storage),
    }
}

/// Builds the answer for `wallet` from what the store holds for it.
pub fn risk_response(wallet: String, stored: Option<RiskRecord>) -> (r: RiskResponse)
    ensures
        response_agrees(r, wallet@, record_opt_view(stored)),
{
    match stored {
        Some(rec) => RiskResponse {
            wallet,
            risk: Some(rec.risk),
            compliant: Some(rec.compliant),
            timestamp: rec.timestamp,
            source: rec.source,
            reason: None,
        },
        None => {
            let mut reason: Vec<String> = Vec::new();
            reason.push(NO_RECORD_REASON.to_owned());
            RiskResponse {
                wallet,
                risk: Some(MIN_RISK),
                compliant: Some(true),
                timestamp: None,
                source: None,
                reason: Some(reason),
            }
        },
    }
}

/// Reads the risk record of a wallet, given the host's canonical form of it
/// (`None` when the host refused it). Anyone may read.
pub fn query_risk(storage: &MemoryStorage, wallet: String, key: Option<String>) -> (r: Result<RiskResponse, ContractError>)
    ensures
        query_effect(*storage, wallet@, opt_view(key), r),
{
    match key {
        None => Err(ContractError::InvalidWallet),
        Some(k) => match load_record(storage, &k) {
            Ok(stored) => Ok(risk_response(wallet, stored)),
            Err(_) => Err(ContractError::Storage),
        },
    }
}

/// The answer to the oracle query given the oracle address read from the
/// store (`None` when none could be read): that address, or the empty string.
pub fn oracle_answer_of(oracle: Option<String>) -> (r: String)
    ensures
        r@ == match opt_view(oracle) {
            Some(a) => a,
            None => Seq::<char>::empty(),
        },
{
    match oracle {
        Some(a) => a,
        None => String::new(),
    }
}

/// The current oracle address, or the empty string when none is stored.
pub fn query_oracle(storage: &MemoryStorage) -> (r: String)
    ensures
        r@ == oracle_answer(*storage),
{
    let oracle = match load_oracle(storage) {
        Ok(o) => o,
        Err(_) => None,
    };
    oracle_answer_of(oracle)
}

/// Picks out the fields of an update command; every other command is
/// rejected as unsupported.
pub fn route_execute(msg: ExecuteMsg) -> (r: Result<RiskUpdate, ContractError>)
    ensures
        match msg {
            ExecuteMsg::UpdateRisk { wallet, risk, compliant, timestamp } => r matches Ok(u)
                && u.wallet == wallet && u.risk == risk && u.compliant == compliant
                && u.timestamp == timestamp,
            _ => r matches Err(e) && e == ContractError::UnsupportedExecute,
        },
{
    match msg {
        ExecuteMsg::UpdateRisk { wallet, risk, compliant, timestamp } => Ok(
            RiskUpdate { wallet, risk, compliant, timestamp },
        ),
        _ => Err(ContractError::UnsupportedExecute),
    }
}

/// Picks out a query that the registry implements; every other query is
/// rejected as unsupported.
pub fn route_query(msg: QueryMsg) -> (r: Result<QueryRoute, ContractError>)
    ensures
        match msg {
            QueryMsg::GetRisk { wallet } => r matches Ok(QueryRoute::Risk { wallet: w }) && w == wallet,
            QueryMsg::GetOracle {} => r matches Ok(QueryRoute::Oracle),
            _ => r matches Err(e) && e == ContractError::UnsupportedQuery,
        },
{
    match msg {
        QueryMsg::GetRisk { wallet } => Ok(QueryRoute::Risk { wallet }),
        QueryMsg::GetOracle {} => Ok(QueryRoute::Oracle),
        _ => Err(ContractError::UnsupportedQuery),
    }
}

/// Carries out a command from `sender`. `key` is the host's canonical form of
/// the wallet that an update names. Every command but `UpdateRisk` is
/// rejected and changes nothing.
pub fn execute(storage: &mut MemoryStorage, sender: &String, msg: ExecuteMsg, key: Option<String>) -> (r: Result<RiskWrite, ContractError>)
    ensures
        match msg {
            ExecuteMsg::UpdateRisk { wallet, risk, compliant, timestamp } => update_effect(
                *old(storage),
                *final(storage),
                sender@,
                wallet@,
                opt_view(key),
                risk,
                compliant,
                opt_view(timestamp),
                r,
            ),
            _ => r matches Err(e) && e == ContractError::UnsupportedExecute && *final(storage) == *old(storage),
        },
{
    match route_execute(msg) {
        Ok(u) => try_update_risk(storage, sender, u.wallet, key, u.risk, u.compliant, u.timestamp),
        Err(e) => Err(e),
    }
}

/// Answers a query. `key` is the host's canonical form of the wallet that a
/// risk query names. Every query but `GetRisk` and `GetOracle` is rejected.
pub fn query(storage: &MemoryStorage, msg: QueryMsg, key: Option<String>) -> (r: Result<QueryAnswer, ContractError>)
    ensures
        match msg {
            QueryMsg::GetRisk { wallet } => match r {
                Ok(QueryAnswer::Risk(resp)) => query_effect(*storage, wallet@, opt_view(key), Ok(resp)),
                Ok(QueryAnswer::Oracle(_)) => false,
                Err(e) => query_effect(*storage, wallet@, opt_view(key), Err(e)),
            },
            QueryMsg::GetOracle {} => r matches Ok(QueryAnswer::Oracle(a)) && a@ == oracle_answer(*storage),
            _ => r matches Err(e) && e == ContractError::UnsupportedQuery,
        },
{
    match route_query(msg) {
        Ok(QueryRoute::Risk { wallet }) => match query_risk(storage, wallet, key) {
            Ok(resp) => Ok(QueryAnswer::Risk(resp)),
            Err(e) => Err(e),
        },
        Ok(QueryRoute::Oracle) => Ok(QueryAnswer::Oracle(query_oracle(storage))),
        Err(e) => Err(e),
    }
}

} // verus!
