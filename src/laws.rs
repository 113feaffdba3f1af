use vstd::prelude::*;
use cosmwasm_std::MemoryStorage;
use crate::contract::{
    instantiate_effect, oracle_answer, query_effect, store_wf, update_effect, RiskWrite,
    NO_RECORD_REASON,
};
use crate::error::{kind_of, ContractError, ErrorKind};
use crate::msg::RiskResponse;
use crate::state::{opt_view, oracle_slot, risk_entries, risk_in_range, risk_keys};

verus! {

/// A score outside `1..=10` is refused as a validation error, whoever sends
/// it, and the store is left as it was.
pub proof fn out_of_range_risk_is_refused(
    before: MemoryStorage,
    after: MemoryStorage,
    sender: Seq<char>,
    wallet: Seq<char>,
    key: Option<Seq<char>>,
    risk: u8,
    compliant: bool,
    timestamp: Option<Seq<char>>,
    r: Result<RiskWrite, ContractError>,
)
    requires
        !risk_in_range(risk),
        update_effect(before, after, sender, wallet, key, risk, compliant, timestamp, r),
    ensures
        r matches Err(e) && kind_of(e) == ErrorKind::Validation,
        after == before,
{
}

/// A valid score sent by anyone but the oracle is refused as unauthorized,
/// and the store is left as it was.
pub proof fn non_oracle_update_is_refused(
    before: MemoryStorage,
    after: MemoryStorage,
    sender: Seq<char>,
    wallet: Seq<char>,
    key: Option<Seq<char>>,
    risk: u8,
    compliant: bool,
    timestamp: Option<Seq<char>>,
    r: Result<RiskWrite, ContractError>,
)
    requires
        risk_in_range(risk),
        oracle_slot(before) != Some(sender),
        update_effect(before, after, sender, wallet, key, risk, compliant, timestamp, r),
    ensures
        r matches Err(e) && e == ContractError::Unauthorized && kind_of(e) == ErrorKind::Authorization,
        after == before,
{
}

/// An update by the oracle with a score in `1..=10` for a valid wallet is
/// accepted, and a query for the same wallet then reports exactly the
/// written risk, flag and timestamp, with the oracle as source.
pub proof fn update_then_query_reads_back(
    before: MemoryStorage,
    after: MemoryStorage,
    sender: Seq<char>,
    wallet: Seq<char>,
    key: Seq<char>,
    risk: u8,
    compliant: bool,
    timestamp: Option<Seq<char>>,
    r: Result<RiskWrite, ContractError>,
    asked: Seq<char>,
    g: Result<RiskResponse, ContractError>,
)
    requires
        risk_in_range(risk),
        oracle_slot(before) == Some(sender),
        update_effect(before, after, sender, wallet, Some(key), risk, compliant, timestamp, r),
        query_effect(after, asked, Some(key), g),
    ensures
        r is Ok,
        (g matches Ok(resp) && resp.risk == Some(risk) && resp.compliant == Some(compliant)
            && opt_view(resp.timestamp) == timestamp && opt_view(resp.source) == Some(sender)
            && resp.reason is None),
{
}

/// In a well-formed store, a query for a wallet that holds no record answers
/// risk 1, compliant, no timestamp, no source, and the reason that no record
/// was found.
pub proof fn missing_record_reads_as_default(
    s: MemoryStorage,
    wallet: Seq<char>,
    key: Seq<char>,
    g: Result<RiskResponse, ContractError>,
)
    requires
        store_wf(s),
        !risk_entries(s).contains_key(key),
        query_effect(s, wallet, Some(key), g),
    ensures
        g matches Ok(resp) && resp.risk == Some(1u8) && resp.compliant == Some(true)
            && resp.timestamp is None && resp.source is None
            && (resp.reason matches Some(v) && v@.len() == 1 && v@[0]@ == NO_RECORD_REASON@),
{
}

/// In a well-formed store, a risk query fails exactly when the host refused
/// the wallet, and then as a validation error.
pub proof fn risk_query_fails_only_on_invalid_wallet(
    s: MemoryStorage,
    wallet: Seq<char>,
    key: Option<Seq<char>>,
    g: Result<RiskResponse, ContractError>,
)
    requires
        store_wf(s),
        query_effect(s, wallet, key, g),
    ensures
        g is Err <==> key is None,
        g matches Err(e) ==> kind_of(e) == ErrorKind::Validation,
{
}

/// An update succeeds exactly when the score is in `1..=10`, the sender is
/// the oracle and the host accepted the wallet.
pub proof fn update_succeeds_exactly_when_checks_pass(
    before: MemoryStorage,
    after: MemoryStorage,
    sender: Seq<char>,
    wallet: Seq<char>,
    key: Option<Seq<char>>,
    risk: u8,
    compliant: bool,
    timestamp: Option<Seq<char>>,
    r: Result<RiskWrite, ContractError>,
)
    requires
        update_effect(before, after, sender, wallet, key, risk, compliant, timestamp, r),
    ensures
        r is Ok <==> (risk_in_range(risk) && oracle_slot(before) == Some(sender) && key is Some),
        r is Err ==> after == before,
{
}

/// Creation and updates keep a store well-formed.
pub proof fn writes_keep_store_well_formed(
    before: MemoryStorage,
    after: MemoryStorage,
    sender: Seq<char>,
    wallet: Seq<char>,
    key: Option<Seq<char>>,
    risk: u8,
    compliant: bool,
    timestamp: Option<Seq<char>>,
    r: Result<RiskWrite, ContractError>,
    created: MemoryStorage,
    creator: Seq<char>,
    c: Result<(), ContractError>,
)
    requires
        store_wf(before),
        update_effect(before, after, sender, wallet, key, risk, compliant, timestamp, r),
        instantiate_effect(before, created, creator, c),
    ensures
        store_wf(after),
        store_wf(created),
{
    if r is Ok {
        assert(risk_keys(after) =~= risk_entries(after).dom());
    }
}

/// A second accepted update of the same wallet replaces the first record
/// whole: the store and a later query hold only what the second wrote.
pub proof fn second_update_replaces_first(
    s0: MemoryStorage,
    s1: MemoryStorage,
    s2: MemoryStorage,
    sender1: Seq<char>,
    wallet1: Seq<char>,
    risk1: u8,
    compliant1: bool,
    timestamp1: Option<Seq<char>>,
    r1: Result<RiskWrite, ContractError>,
    sender2: Seq<char>,
    wallet2: Seq<char>,
    risk2: u8,
    compliant2: bool,
    timestamp2: Option<Seq<char>>,
    r2: Result<RiskWrite, ContractError>,
    key: Seq<char>,
    asked: Seq<char>,
    g: Result<RiskResponse, ContractError>,
)
    requires
        update_effect(s0, s1, sender1, wallet1, Some(key), risk1, compliant1, timestamp1, r1),
        r1 is Ok,
        update_effect(s1, s2, sender2, wallet2, Some(key), risk2, compliant2, timestamp2, r2),
        r2 is Ok,
        query_effect(s2, asked, Some(key), g),
    ensures
        risk_entries(s2)[key] == (risk2, compliant2, timestamp2, Some(sender2)),
        risk_entries(s2).remove(key) == risk_entries(s0).remove(key),
        g matches Ok(resp) && resp.risk == Some(risk2) && resp.compliant == Some(compliant2)
            && opt_view(resp.timestamp) == timestamp2 && opt_view(resp.source) == Some(sender2),
{
    assert(risk_entries(s2).remove(key) =~= risk_entries(s0).remove(key));
}

/// After creation by `creator`, the oracle query answers `creator`.
pub proof fn oracle_is_creator(
    before: MemoryStorage,
    after: MemoryStorage,
    creator: Seq<char>,
    r: Result<(), ContractError>,
)
    requires
        instantiate_effect(before, after, creator, r),
        r is Ok,
    ensures
        oracle_answer(after) == creator,
{
}

/// Before any creation, when no oracle is stored, the oracle query answers
/// the empty string.
pub proof fn unset_oracle_reads_empty(s: MemoryStorage)
    requires
        oracle_slot(s) is None,
    ensures
        oracle_answer(s) == Seq::<char>::empty(),
{
}

} // verus!
