//! Requests and responses of the escrow, as plain values.
use vstd::prelude::*;
use vstd::string::StringSliceAdditionalSpecFns;

verus! {

/// Instantiation takes no parameters.
#[derive(Debug, Clone)]
pub struct InstantiateMsg {}

/// The chain position a request is processed at.
#[derive(Debug, Clone, Copy, PartialEq, Eq, Structural)]
pub struct Env {
    pub height: u64,
    /// Seconds since the Unix epoch.
    pub time: u64,
}

/// Who sent a request and the native amount attached to it.
#[derive(Debug, Clone)]
pub struct MessageInfo {
    pub sender: String,
    pub funds: u128,
}

#[derive(Debug, Clone)]
pub enum ExecuteMsg {
    Create(CreateMsg),
    /// Adds the attached native amount to the agreement.
    TopUp { id: String },
    /// Sets the recipient of the agreement; arbiter only.
    SetRecipient { id: String, recipient: String },
    /// Sends everything to the recipient; arbiter only.
    Approve { id: String },
    /// Returns everything to the source; the arbiter at any time, anyone after expiry.
    Refund { id: String },
    /// A token transfer notification carrying one of the token requests.
    Receive(TokenReceipt),
    /// Opens a claim on the agreement; arbiter only.
    Claim { id: String },
    ProvideCoverage {},
}

/// A decoded token transfer notification: who sent how much, and what for.
#[derive(Debug, Clone)]
pub struct TokenReceipt {
    pub sender: String,
    pub amount: u128,
    pub msg: ReceiveMsg,
}

#[derive(Debug, Clone)]
pub enum ReceiveMsg {
    Create(CreateMsg),
    TopUp { id: String },
    ProvideCoverage {},
}

#[derive(Debug, Clone)]
pub struct CreateMsg {
    /// Human-readable name of the agreement, used to refer to it later.
    pub id: String,
    /// If approved, funds go to the recipient.
    pub recipient: Option<String>,
    pub title: String,
    /// What conditions should be met.
    pub description: String,
    /// The agreement expires once the block height reaches this value.
    pub end_height: Option<u64>,
    /// The agreement expires once the block time (seconds) reaches this value.
    pub end_time: Option<u64>,
    /// Token contracts accepted in later top-ups.
    pub cw20_whitelist: Option<Vec<String>>,
}

pub open spec fn whitelist_of(w: Option<Vec<String>>) -> Seq<String> {
    match w {
        Some(v) => v@,
        None => Seq::empty(),
    }
}

impl CreateMsg {
    /// The supplied whitelist, or none.
    pub fn addr_whitelist(&self) -> (r: Vec<String>)
        ensures
            r@ == whitelist_of(self.cw20_whitelist),
    {
        let mut r: Vec<String> = Vec::new();
        match &self.cw20_whitelist {
            Some(v) => {
                let mut i: usize = 0;
                while i < v.len()
                    invariant
                        i <= v@.len(),
                        r@ == v@.take(i as int),
                    decreases v@.len() - i,
                {
                    r.push(v[i].clone());
                    i = i + 1;
                    assert(r@ =~= v@.take(i as int));
                }
                assert(r@ =~= v@);
            },
            None => {},
        }
        r
    }
}

/// A name is valid when it is 3 to 20 bytes long.
pub fn is_valid_name(name: &str) -> (r: bool)
    ensures
        r == (3 <= name.spec_bytes().len() <= 20),
{
    let bytes = name.as_bytes();
    let len = bytes.len();
    if len < 3 || len > 20 {
        return false;
    }
    true
}

#[derive(Debug, Clone)]
pub enum QueryMsg {
    /// All open agreements.
    List {},
    /// The details of one agreement.
    Details { id: String },
    /// All agreements with an open claim.
    ListClaims {},
    /// The native amount of the coverage pool.
    ListCoveragePool {},
}

#[derive(Debug, Clone)]
pub struct ListResponse {
    pub insurances: Vec<String>,
}

#[derive(Debug, Clone)]
pub struct ClaimRequestsResponse {
    pub insurances: Vec<String>,
}

#[derive(Debug, Clone)]
pub struct CoveragePoolViewResponse {
    pub pool: u128,
}

#[derive(Debug, Clone)]
pub struct DetailsResponse {
    pub id: String,
    pub arbiter: String,
    pub recipient: Option<String>,
    /// If refunded, funds go to the source.
    pub source: String,
    pub title: String,
    pub description: String,
    pub end_height: Option<u64>,
    pub end_time: Option<u64>,
    pub native_balance: u128,
    /// Token contract address and amount.
    pub cw20_balance: Vec<(String, u128)>,
    pub cw20_whitelist: Vec<String>,
}

/// The answer to a query.
#[derive(Debug, Clone)]
pub enum QueryResponse {
    List(ListResponse),
    Details(DetailsResponse),
    ListClaims(ClaimRequestsResponse),
    ListCoveragePool(CoveragePoolViewResponse),
}

} // verus!
