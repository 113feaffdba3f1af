use vstd::prelude::*;
use cosmwasm_std::{Addr, MemoryStorage, StdError};
use cw_storage_plus::Item;

verus! {

#[verifier::external_type_specification]
#[verifier::external_body]
pub struct ExMemoryStorage(MemoryStorage);

#[verifier::external_type_specification]
#[verifier::external_body]
pub struct ExStdError(StdError);

/// A stored record as plain values: risk, compliance flag, timestamp and
/// the address of the writer.
pub type RecordModel = (u8, bool, Option<Seq<char>>, Option<Seq<char>>);

pub open spec fn opt_view(o: Option<String>) -> Option<Seq<char>> {
    match o {
        Some(s) => Some(s@),
        None => None,
    }
}

/// The record kept for one wallet.
pub struct RiskRecord {
    pub risk: u8,
    pub compliant: bool,
    pub timestamp: Option<String>,
    pub source: Option<String>,
}

impl View for RiskRecord {
    type V = RecordModel;

    open spec fn view(&self) -> RecordModel {
        (self.risk, self.compliant, opt_view(self.timestamp), opt_view(self.source))
    }
}

/// The lowest and the highest risk score that may be stored.
pub const MIN_RISK: u8 = 1;
pub const MAX_RISK: u8 = 10;

pub open spec fn risk_in_range(risk: u8) -> bool {
    MIN_RISK <= risk <= MAX_RISK
}

/// The oracle address held in the store's oracle slot, if one is held there
/// that decodes.
pub uninterp spec fn oracle_slot(s: MemoryStorage) -> Option<Seq<char>>;

/// The records held in the store's risk collection that decode, by wallet key.
pub uninterp spec fn risk_entries(s: MemoryStorage) -> Map<Seq<char>, RecordModel>;

/// The wallet keys under which the store's risk collection holds bytes,
/// whether or not they decode.
pub uninterp spec fn risk_keys(s: MemoryStorage) -> Set<Seq<char>>;

/// Key of the oracle address slot.
pub const ORACLE_KEY: &'static str = "oracle_addr";

/// Namespace of the collection of risk records by wallet address.
pub const RISK_NAMESPACE: &'static str = "risk_store";

pub open spec fn empty_entries() -> Map<Seq<char>, RecordModel> {
    Map::empty()
}

pub open spec fn empty_keys() -> Set<Seq<char>> {
    Set::empty()
}

/// How cw_storage_plus lays out the collection of risk records.
type RiskMap<'a> = cw_storage_plus::Map<'a, &'a Addr, (u8, bool, Option<String>, Option<String>)>;

/// Relies on cosmwasm_std::MemoryStorage::new: a store that holds no key.
#[verifier::external_body]
pub(crate) fn new_store() -> (r: MemoryStorage)
    ensures
        oracle_slot(r) == Option::<Seq<char>>::None,
        risk_entries(r) == empty_entries(),
        risk_keys(r) == empty_keys(),
{
    MemoryStorage::new()
}

/// Relies on cw_storage_plus::Item::save: the address is encoded as a JSON
/// string, which cannot fail, and set under the oracle slot's own key, which
/// no record key equals.
#[verifier::external_body]
pub(crate) fn save_oracle(s: &mut MemoryStorage, addr: &String) -> (r: Result<(), StdError>)
    ensures
        r is Ok,
        oracle_slot(*final(s)) == Some(addr@),
        risk_entries(*final(s)) == risk_entries(*old(s)),
        risk_keys(*final(s)) == risk_keys(*old(s)),
{
    Item::<Addr>::new(ORACLE_KEY).save(s, &Addr::unchecked(addr.clone()))
}

/// Relies on cw_storage_plus::Item::may_load: the slot's value when one
/// decodes, `Ok(None)` when the key is absent, an error when it does not decode.
#[verifier::external_body]
pub(crate) fn load_oracle(s: &MemoryStorage) -> (r: Result<Option<String>, StdError>)
    ensures
        match oracle_slot(*s) {
            Some(a) => r matches Ok(Some(v)) && v@ == a,
            None => !(r matches Ok(Some(_))),
        },
{
    Item::<Addr>::new(ORACLE_KEY).may_load(s).map(|o| o.map(|a| a.into_string()))
}

/// Relies on cw_storage_plus::Map::save: the record is encoded as a JSON
/// tuple of an integer, a flag and two optional strings, which cannot fail,
/// and set under the wallet's key in the collection's namespace; it decodes
/// back to the same record.
#[verifier::external_body]
pub(crate) fn save_record(s: &mut MemoryStorage, key: &String, rec: &RiskRecord) -> (r: Result<(), StdError>)
    ensures
        r is Ok,
        risk_entries(*final(s)) == risk_entries(*old(s)).insert(key@, rec@),
        risk_keys(*final(s)) == risk_keys(*old(s)).insert(key@),
        oracle_slot(*final(s)) == oracle_slot(*old(s)),
{
    let value = (rec.risk, rec.compliant, rec.timestamp.clone(), rec.source.clone());
    RiskMap::new(RISK_NAMESPACE).save(s, &Addr::unchecked(key.clone()), &value)
}

/// Relies on cw_storage_plus::Map::may_load: the record under the wallet's
/// key when one decodes, `Ok(None)` when the key is absent, an error when it
/// does not decode.
#[verifier::external_body]
pub(crate) fn load_record(s: &MemoryStorage, key: &String) -> (r: Result<Option<RiskRecord>, StdError>)
    ensures
        match r {
            Ok(Some(v)) => risk_keys(*s).contains(key@) && risk_entries(*s).contains_key(key@)
                && v@ == risk_entries(*s)[key@],
            Ok(None) => !risk_keys(*s).contains(key@) && !risk_entries(*s).contains_key(key@),
            Err(_) => risk_keys(*s).contains(key@) && !risk_entries(*s).contains_key(key@),
        },
{
    RiskMap::new(RISK_NAMESPACE).may_load(s, &Addr::unchecked(key.clone())).map(
        |o| o.map(|v| RiskRecord { risk: v.0, compliant: v.1, timestamp: v.2, source: v.3 }),
    )
}

/// What `str::to_lowercase` makes of a string.
pub uninterp spec fn lower_of(s: Seq<char>) -> Seq<char>;

/// Relies on str::to_lowercase: the result depends on the characters alone.
#[verifier::external_body]
fn lowercase(s: &str) -> (r: String)
    ensures
        r@ == lower_of(s@),
{
    s.to_lowercase()
}

/// The canonical name of a signature scheme, given a lower-case spelling of it.
pub open spec fn key_type_of(lowered: Seq<char>) -> Option<Seq<char>> {
    if lowered == "secp256k1"@ || lowered == "k256"@ || lowered == "ecdsa"@ {
        Some("secp256k1"@)
    } else if lowered == "ed25519"@ || lowered == "ed"@ {
        Some("ed25519"@)
    } else {
        None
    }
}

pub open spec fn str_opt_view(o: Option<&str>) -> Option<Seq<char>> {
    match o {
        Some(s) => Some(s@),
        None => None,
    }
}

fn same_text(a: &String, b: &str) -> (r: bool)
    ensures
        r == (a@ == b@),
{
    let owned = b.to_owned();
    *a == owned
}

/// Maps an already lower-cased spelling of a signature scheme to its
/// canonical name.
pub fn parse_lowered_key_type(lowered: &String) -> (r: Option<&'static str>)
    ensures
        str_opt_view(r) == key_type_of(lowered@),
{
    if same_text(lowered, "secp256k1") || same_text(lowered, "k256") || same_text(lowered, "ecdsa") {
        Some("secp256k1")
    } else if same_text(lowered, "ed25519") || same_text(lowered, "ed") {
        Some("ed25519")
    } else {
        None
    }
}

/// Maps a spelling of a signature scheme, in any case, to its canonical name.
pub fn parse_key_type(s: &str) -> (r: Option<&'static str>)
    ensures
        str_opt_view(r) == key_type_of(lower_of(s@)),
{
    let lowered = lowercase(s);
    parse_lowered_key_type(&lowered)
}

} // verus!
