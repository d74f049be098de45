//! Sequencing decisions for fetches: what a submitted query requires of
//! the gateway, how partial failures degrade each result, and how the
//! dashboard is assembled from three independent calls.
//!
//! The gateway itself (HTTP) lives outside this crate; callers perform
//! the calls this module plans and hand the outcomes back as plain
//! `Result` values.

use vstd::prelude::*;
use crate::classify::{classify, classify_chars, QueryKind};
use crate::json::JsonValue;
use crate::model::{DashboardModel, DisplayModel, GatewayError};
use crate::normalize::{
    account_model_matches, entry_matches, history_arr, history_usable, normalize_account,
    normalize_signatures, normalize_transaction, spec_number_field, spec_supply_circulating,
    spec_supply_total, transaction_model_matches, number_from_response, supply_from_response,
};

verus! {

/// What a submitted query requires of the gateway.
#[derive(Debug, Clone, Copy, PartialEq, Eq, Structural)]
pub enum QueryPlan {
    /// Empty query: keep showing the last dashboard, no call.
    ShowDashboard,
    /// Malformed query: display `Unsupported`, no call is made.
    NoCall,
    /// Fetch the account, then — only if that succeeds — its history.
    FetchAccount,
    /// Fetch the transaction with a single call.
    FetchTransaction,
}

/// The plan each query kind maps to.
pub open spec fn plan_of(k: QueryKind) -> QueryPlan {
    match k {
        QueryKind::Empty => QueryPlan::ShowDashboard,
        QueryKind::Invalid => QueryPlan::NoCall,
        QueryKind::AccountAddress => QueryPlan::FetchAccount,
        QueryKind::TransactionSignature => QueryPlan::FetchTransaction,
    }
}

/// Decide what to fetch for a query string.
pub fn plan_fetch(input: &str) -> (p: QueryPlan)
    ensures
        p == plan_of(classify_chars(input@)),
{
    match classify(input) {
        QueryKind::Empty => QueryPlan::ShowDashboard,
        QueryKind::Invalid => QueryPlan::NoCall,
        QueryKind::AccountAddress => QueryPlan::FetchAccount,
        QueryKind::TransactionSignature => QueryPlan::FetchTransaction,
    }
}

/// The result a plan settles to without any network call: an empty query
/// re-shows the last dashboard, a malformed one displays `Unsupported`;
/// the fetch plans have no immediate result.
pub open spec fn spec_immediate_result(p: QueryPlan, dashboard: DashboardModel) -> Option<
    DisplayModel,
> {
    match p {
        QueryPlan::ShowDashboard => Some(DisplayModel::Dashboard(dashboard)),
        QueryPlan::NoCall => Some(DisplayModel::Unsupported),
        QueryPlan::FetchAccount => None,
        QueryPlan::FetchTransaction => None,
    }
}

/// Settle the plans that need no gateway call.
pub fn immediate_result(p: QueryPlan, dashboard: &DashboardModel) -> (r: Option<DisplayModel>)
    ensures
        r == spec_immediate_result(p, *dashboard),
{
    match p {
        QueryPlan::ShowDashboard => Some(DisplayModel::Dashboard(*dashboard)),
        QueryPlan::NoCall => Some(DisplayModel::Unsupported),
        QueryPlan::FetchAccount => None,
        QueryPlan::FetchTransaction => None,
    }
}

/// The outcome of the first account call: either the query is settled,
/// or an account was found and its history is still wanted.
#[derive(Debug, Clone, PartialEq)]
pub enum AccountStage {
    Done(DisplayModel),
    NeedSignatures(DisplayModel),
}

/// How the first account call resolves: a gateway failure settles the
/// query as `FetchFailed`; a found account asks for history; any other
/// normalization settles the query.
pub open spec fn account_stage_matches(
    resp: Result<JsonValue, GatewayError>,
    st: AccountStage,
) -> bool {
    match resp {
        Result::Err(_) => st == AccountStage::Done(DisplayModel::FetchFailed),
        Result::Ok(j) => match st {
            AccountStage::NeedSignatures(m) => m is AccountInfo && account_model_matches(j, m),
            AccountStage::Done(m) => !(m is AccountInfo) && account_model_matches(j, m),
        },
    }
}

/// Resolve the first account call.
pub fn account_stage1(resp: &Result<JsonValue, GatewayError>) -> (st: AccountStage)
    ensures
        account_stage_matches(*resp, st),
{
    match resp {
        Result::Err(_) => AccountStage::Done(DisplayModel::FetchFailed),
        Result::Ok(j) => {
            let m = normalize_account(j);
            if matches!(m, DisplayModel::AccountInfo { .. }) {
                AccountStage::NeedSignatures(m)
            } else {
                AccountStage::Done(m)
            }
        },
    }
}

/// How the history call folds into a found account: the scalar fields
/// survive unchanged, and the history is filled exactly when the
/// response is usable — a failed history degrades the result by leaving
/// the history out, it never fails the query.
pub open spec fn account_stage2_matches(
    partial: DisplayModel,
    resp: Result<JsonValue, GatewayError>,
    r: DisplayModel,
) -> bool {
    match (partial, r) {
        (
            DisplayModel::AccountInfo {
                balance_units: b0,
                owner: o0,
                executable: e0,
                data_size: z0,
                recent_signatures: s0,
            },
            DisplayModel::AccountInfo {
                balance_units: b1,
                owner: o1,
                executable: e1,
                data_size: z1,
                recent_signatures: s1,
            },
        ) => {
            &&& b1 == b0
            &&& o1 == o0
            &&& e1 == e0
            &&& z1 == z0
            &&& match resp {
                Result::Ok(j) => if history_usable(j) {
                    s1@.len() == history_arr(j).len() && (forall|i: int|
                        0 <= i < history_arr(j).len() ==> entry_matches(
                            #[trigger] s1@[i],
                            history_arr(j)[i],
                        ))
                } else {
                    s1@ == s0@
                },
                Result::Err(_) => s1@ == s0@,
            }
        },
        _ => false,
    }
}

/// Fold the history response into a found account.
pub fn account_stage2(partial: DisplayModel, resp: &Result<JsonValue, GatewayError>) -> (r:
    DisplayModel)
    requires
        partial is AccountInfo,
    ensures
        account_stage2_matches(partial, *resp, r),
{
    match partial {
        DisplayModel::AccountInfo {
            balance_units,
            owner,
            executable,
            data_size,
            recent_signatures,
        } => {
            match resp {
                Result::Ok(j) => match normalize_signatures(j) {
                    Some(entries) => DisplayModel::AccountInfo {
                        balance_units,
                        owner,
                        executable,
                        data_size,
                        recent_signatures: entries,
                    },
                    None => DisplayModel::AccountInfo {
                        balance_units,
                        owner,
                        executable,
                        data_size,
                        recent_signatures,
                    },
                },
                Result::Err(_) => DisplayModel::AccountInfo {
                    balance_units,
                    owner,
                    executable,
                    data_size,
                    recent_signatures,
                },
            }
        },
        other => other,
    }
}

/// How the single transaction call resolves.
pub open spec fn transaction_result_matches(
    resp: Result<JsonValue, GatewayError>,
    r: DisplayModel,
) -> bool {
    match resp {
        Result::Err(_) => r == DisplayModel::FetchFailed,
        Result::Ok(j) => transaction_model_matches(j, r),
    }
}

/// Resolve the transaction call.
pub fn transaction_query_result(resp: &Result<JsonValue, GatewayError>) -> (r: DisplayModel)
    ensures
        transaction_result_matches(*resp, r),
{
    match resp {
        Result::Err(_) => DisplayModel::FetchFailed,
        Result::Ok(j) => normalize_transaction(j),
    }
}

/// The dashboard that three independent call outcomes assemble into.
/// Each field is a function of its own call alone.
pub open spec fn spec_dashboard(
    slot_resp: Result<JsonValue, GatewayError>,
    supply_resp: Result<JsonValue, GatewayError>,
    count_resp: Result<JsonValue, GatewayError>,
) -> DashboardModel {
    DashboardModel {
        slot: match slot_resp {
            Result::Ok(j) => spec_number_field(j),
            Result::Err(_) => None,
        },
        total_supply: match supply_resp {
            Result::Ok(j) => spec_supply_total(j),
            Result::Err(_) => None,
        },
        circulating_supply: match supply_resp {
            Result::Ok(j) => spec_supply_circulating(j),
            Result::Err(_) => None,
        },
        transaction_count: match count_resp {
            Result::Ok(j) => spec_number_field(j),
            Result::Err(_) => None,
        },
    }
}

/// Assemble the dashboard from the three call outcomes.  One failing
/// call surfaces only as its own absent field; it never nulls out or
/// aborts the other two.
pub fn dashboard_from_results(
    slot_resp: &Result<JsonValue, GatewayError>,
    supply_resp: &Result<JsonValue, GatewayError>,
    count_resp: &Result<JsonValue, GatewayError>,
) -> (d: DashboardModel)
    ensures
        d == spec_dashboard(*slot_resp, *supply_resp, *count_resp),
{
    let slot: Option<u64> = match slot_resp {
        Result::Ok(j) => number_from_response(j),
        Result::Err(_) => None,
    };
    let (total_supply, circulating_supply): (Option<u64>, Option<u64>) = match supply_resp {
        Result::Ok(j) => supply_from_response(j),
        Result::Err(_) => (None, None),
    };
    let transaction_count: Option<u64> = match count_resp {
        Result::Ok(j) => number_from_response(j),
        Result::Err(_) => None,
    };
    DashboardModel { slot, total_supply, circulating_supply, transaction_count }
}

/// Partial-failure independence: a failed call leaves exactly its own
/// field absent, and every field is a function of its own call alone, so
/// the other two are exactly what they would be with any other outcome
/// in the failed position.
pub proof fn lemma_partial_failure_independence(
    e: GatewayError,
    slot_resp: Result<JsonValue, GatewayError>,
    supply_resp: Result<JsonValue, GatewayError>,
    count_resp: Result<JsonValue, GatewayError>,
)
    ensures
        spec_dashboard(Result::Err(e), supply_resp, count_resp).slot is None,
        spec_dashboard(Result::Err(e), supply_resp, count_resp).total_supply == spec_dashboard(
            slot_resp,
            supply_resp,
            count_resp,
        ).total_supply,
        spec_dashboard(Result::Err(e), supply_resp, count_resp).circulating_supply
            == spec_dashboard(slot_resp, supply_resp, count_resp).circulating_supply,
        spec_dashboard(Result::Err(e), supply_resp, count_resp).transaction_count
            == spec_dashboard(slot_resp, supply_resp, count_resp).transaction_count,
        spec_dashboard(slot_resp, Result::Err(e), count_resp).total_supply is None,
        spec_dashboard(slot_resp, Result::Err(e), count_resp).circulating_supply is None,
        spec_dashboard(slot_resp, Result::Err(e), count_resp).slot == spec_dashboard(
            slot_resp,
            supply_resp,
            count_resp,
        ).slot,
        spec_dashboard(slot_resp, Result::Err(e), count_resp).transaction_count == spec_dashboard(
            slot_resp,
            supply_resp,
            count_resp,
        ).transaction_count,
        spec_dashboard(slot_resp, supply_resp, Result::Err(e)).transaction_count is None,
        spec_dashboard(slot_resp, supply_resp, Result::Err(e)).slot == spec_dashboard(
            slot_resp,
            supply_resp,
            count_resp,
        ).slot,
        spec_dashboard(slot_resp, supply_resp, Result::Err(e)).total_supply == spec_dashboard(
            slot_resp,
            supply_resp,
            count_resp,
        ).total_supply,
        spec_dashboard(slot_resp, supply_resp, Result::Err(e)).circulating_supply
            == spec_dashboard(slot_resp, supply_resp, count_resp).circulating_supply,
{
}

} // verus!
