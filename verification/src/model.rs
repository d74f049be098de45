//! The closed display model that every fetch result normalizes into, the
//! gateway error taxonomy, and the RPC method identifiers.

use vstd::prelude::*;
use vstd::string::*;

verus! {

/// One entry of an account's recent transaction history.
#[derive(Debug, Clone, PartialEq)]
pub struct SignatureEntry {
    pub signature: String,
    pub slot: u64,
    pub block_time: Option<i64>,
    pub confirmation_status: String,
}

/// The network-summary fields.  Each comes from an independent RPC call
/// and is absent exactly when its own call failed or carried no usable
/// value.
#[derive(Debug, Clone, Copy, PartialEq, Eq, Structural)]
pub struct DashboardModel {
    pub slot: Option<u64>,
    pub total_supply: Option<u64>,
    pub circulating_supply: Option<u64>,
    pub transaction_count: Option<u64>,
}

impl Default for DashboardModel {
    /// The startup dashboard: nothing fetched yet, every field absent.
    fn default() -> (d: DashboardModel)
        ensures
            d == (DashboardModel {
                slot: None,
                total_supply: None,
                circulating_supply: None,
                transaction_count: None,
            }),
    {
        DashboardModel { slot: None, total_supply: None, circulating_supply: None, transaction_count: None }
    }
}

/// The renderer-ready representation of the latest fetch result.
/// Exactly one variant is active at a time; a response is never both an
/// account and a transaction, since normalization dispatches on the
/// method that produced it.
#[derive(Debug, Clone, PartialEq)]
pub enum DisplayModel {
    /// Network summary; shown while the query box is empty.
    Dashboard(DashboardModel),
    /// A fetched account.
    AccountInfo {
        balance_units: u64,
        owner: String,
        executable: bool,
        data_size: u64,
        recent_signatures: Vec<SignatureEntry>,
    },
    /// A fetched transaction.
    TransactionInfo {
        slot: u64,
        block_time: Option<i64>,
        fee_units: u64,
        succeeded: bool,
        error: Option<String>,
        compute_units: Option<u64>,
        balance_deltas: Vec<(u64, u64)>,
    },
    /// The response parsed as JSON but matched none of the known shapes,
    /// or the query itself was malformed (no call is made for those).
    Unsupported,
    /// The query was well formed but the RPC reported no such entity.
    NotFound,
    /// The gateway call itself failed (transport, HTTP status or decode);
    /// shown distinctly from `NotFound`.
    FetchFailed,
    /// A request is in flight for the current query.
    Pending,
    /// No query has been submitted yet.
    NoQuery,
}

/// Why a gateway call failed: connection or timeout trouble, a non-2xx
/// HTTP status, or a body that was not valid JSON.
#[derive(Debug, Clone, Copy, PartialEq, Eq, Structural)]
pub enum GatewayError {
    Transport,
    HttpStatus(u16),
    Decode,
}

/// Which RPC method produced a payload.  Normalization dispatches on
/// this, never on the JSON structure alone.
#[derive(Debug, Clone, Copy, PartialEq, Eq, Structural)]
pub enum MethodKind {
    GetSlot,
    GetSupply,
    GetTransactionCount,
    GetAccountInfo,
    GetTransaction,
    GetSignaturesForAddress,
}

/// The wire name of each RPC method.
pub open spec fn method_name_chars(m: MethodKind) -> Seq<char> {
    match m {
        MethodKind::GetSlot => "getSlot"@,
        MethodKind::GetSupply => "getSupply"@,
        MethodKind::GetTransactionCount => "getTransactionCount"@,
        MethodKind::GetAccountInfo => "getAccountInfo"@,
        MethodKind::GetTransaction => "getTransaction"@,
        MethodKind::GetSignaturesForAddress => "getSignaturesForAddress"@,
    }
}

impl MethodKind {
    /// The name this method has on the wire.
    pub fn method_name(&self) -> (r: &'static str)
        ensures
            r@ == method_name_chars(*self),
    {
        match self {
            MethodKind::GetSlot => "getSlot",
            MethodKind::GetSupply => "getSupply",
            MethodKind::GetTransactionCount => "getTransactionCount",
            MethodKind::GetAccountInfo => "getAccountInfo",
            MethodKind::GetTransaction => "getTransaction",
            MethodKind::GetSignaturesForAddress => "getSignaturesForAddress",
        }
    }
}

} // verus!
