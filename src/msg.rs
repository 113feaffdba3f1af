use vstd::prelude::*;

verus! {

/// Answer to a query for the relayed oracle data.
pub struct OracleDataResponse {
    pub data: Option<String>,
}

/// Answer to a query for the oracle's public key.
pub struct OraclePubkeyResponse {
    pub pubkey: Vec<u8>,
    pub key_type: String,
}

/// Answer to a query for the administrator.
pub struct AdminResponse {
    pub admin: String,
}

/// The accepted shape of the creation message. Its fields are kept but not
/// read: the creator becomes the oracle.
pub struct InstantiateMsg {
    pub oracle_pubkey: Vec<u8>,
    pub oracle_key_type: String,
}

/// The commands that the registry accepts. Only `UpdateRisk` is implemented;
/// the others are reserved and always rejected.
pub enum ExecuteMsg {
    Send { recipient: String },
    OracleDataUpdate { data: String, signature: Vec<u8> },
    UpdateOracle { new_pubkey: Vec<u8>, new_key_type: Option<String> },
    UpdateRisk { wallet: String, risk: u8, compliant: bool, timestamp: Option<String> },
}

/// The queries that the registry accepts. Only `GetRisk` and `GetOracle` are
/// implemented; the others are reserved and always rejected.
pub enum QueryMsg {
    GetOracleData {},
    GetOraclePubkey {},
    GetAdmin {},
    GetRisk { wallet: String },
    GetOracle {},
}

/// The risk record of a wallet as a query reports it. `reason` is present
/// only on the default answer for a wallet without a record.
pub struct RiskResponse {
    pub wallet: String,
    pub risk: Option<u8>,
    pub compliant: Option<bool>,
    pub timestamp: Option<String>,
    pub source: Option<String>,
    pub reason: Option<Vec<String>>,
}

} // verus!
