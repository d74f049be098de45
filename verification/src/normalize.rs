//! Normalizing raw JSON-RPC payloads into the closed display model.
//!
//! Dispatch is by the method that produced the payload, never by
//! structural sniffing.  Field reads are defensive: a missing or
//! wrong-typed field degrades to the type's zero or absent value, and
//! only an unrecognizable overall shape yields `Unsupported`.  A JSON-RPC
//! `error` envelope or a null `result` maps to `NotFound`, not to a
//! decode failure.

use vstd::prelude::*;
use vstd::string::*;
use crate::json::{
    spec_arr_of, spec_as_u64, spec_get, spec_get_bool, spec_get_i64, spec_get_str, spec_get_u64,
    spec_has_key, spec_str_of, JsonValue,
};
use crate::model::{DashboardModel, DisplayModel, MethodKind, SignatureEntry};

verus! {

/// Absent or wrong-typed numbers degrade to zero.
pub open spec fn u64_or_zero(o: Option<u64>) -> u64 {
    match o {
        Some(v) => v,
        None => 0,
    }
}

/// Absent or wrong-typed booleans degrade to false.
pub open spec fn bool_or_false(o: Option<bool>) -> bool {
    match o {
        Some(b) => b,
        None => false,
    }
}

/// Absent or wrong-typed strings degrade to a default.
pub open spec fn str_or(o: Option<Seq<char>>, dflt: Seq<char>) -> Seq<char> {
    match o {
        Some(s) => s,
        None => dflt,
    }
}

/// An optional owned string holds exactly the given optional characters.
pub open spec fn opt_string_is(o: Option<String>, c: Option<Seq<char>>) -> bool {
    match o {
        Some(s) => c == Some(s@),
        None => c is None,
    }
}

/// The usable `result` payload of a JSON-RPC envelope: absent when the
/// envelope carries an `error` member, or when `result` is missing or
/// null (the RPC's way of reporting that no such entity exists).
pub open spec fn spec_extract_result(j: JsonValue) -> Option<JsonValue> {
    if spec_has_key(j, "error"@) {
        None
    } else {
        match spec_get(j, "result"@) {
            Some(r) => if r is Null {
                None
            } else {
                Some(r)
            },
            None => None,
        }
    }
}

/// How an account response must normalize.
pub open spec fn account_model_matches(j: JsonValue, r: DisplayModel) -> bool {
    match spec_extract_result(j) {
        None => r == DisplayModel::NotFound,
        Some(res) => match spec_get(res, "value"@) {
            None => r == DisplayModel::Unsupported,
            Some(v) => if v is Null {
                r == DisplayModel::NotFound
            } else if v is Obj {
                match r {
                    DisplayModel::AccountInfo {
                        balance_units,
                        owner,
                        executable,
                        data_size,
                        recent_signatures,
                    } => {
                        &&& balance_units == u64_or_zero(spec_get_u64(v, "lamports"@))
                        &&& owner@ == str_or(spec_get_str(v, "owner"@), ""@)
                        &&& executable == bool_or_false(spec_get_bool(v, "executable"@))
                        &&& data_size == u64_or_zero(spec_get_u64(v, "space"@))
                        &&& recent_signatures@.len() == 0
                    },
                    _ => false,
                }
            } else {
                r == DisplayModel::Unsupported
            },
        },
    }
}

/// How one history element must normalize.
pub open spec fn entry_matches(en: SignatureEntry, e: JsonValue) -> bool {
    &&& en.signature@ == str_or(spec_get_str(e, "signature"@), "N/A"@)
    &&& en.slot == u64_or_zero(spec_get_u64(e, "slot"@))
    &&& en.block_time == spec_get_i64(e, "blockTime"@)
    &&& en.confirmation_status@ == str_or(spec_get_str(e, "confirmationStatus"@), "Unknown"@)
}

/// A history response is usable when its envelope carries an array.
pub open spec fn history_usable(j: JsonValue) -> bool {
    match spec_extract_result(j) {
        Some(res) => spec_arr_of(res) is Some,
        None => false,
    }
}

/// The history array of a usable history response.
pub open spec fn history_arr(j: JsonValue) -> Seq<JsonValue> {
    match spec_extract_result(j) {
        Some(res) => match spec_arr_of(res) {
            Some(arr) => arr,
            None => Seq::<JsonValue>::empty(),
        },
        None => Seq::<JsonValue>::empty(),
    }
}

/// How a signatures-for-address response must normalize: an entry per
/// array element, or nothing when the response failed or is not an array.
pub open spec fn signatures_match(j: JsonValue, r: Option<Vec<SignatureEntry>>) -> bool {
    if history_usable(j) {
        match r {
            Some(v) => v@.len() == history_arr(j).len() && (forall|i: int|
                0 <= i < history_arr(j).len() ==> entry_matches(#[trigger] v@[i], history_arr(j)[i])),
            None => false,
        }
    } else {
        r is None
    }
}

/// The fee a transaction's `meta` reports, zero when absent.
pub open spec fn spec_fee(res: JsonValue) -> u64 {
    match spec_get(res, "meta"@) {
        Some(m) => u64_or_zero(spec_get_u64(m, "fee"@)),
        None => 0,
    }
}

/// A transaction succeeded exactly when its `meta.err` is absent or null.
pub open spec fn spec_succeeded(res: JsonValue) -> bool {
    match spec_get(res, "meta"@) {
        Some(m) => match spec_get(m, "err"@) {
            Some(e) => e is Null,
            None => true,
        },
        None => true,
    }
}

/// The error text, when `meta.err` is a string.
pub open spec fn spec_error_chars(res: JsonValue) -> Option<Seq<char>> {
    match spec_get(res, "meta"@) {
        Some(m) => match spec_get(m, "err"@) {
            Some(e) => spec_str_of(e),
            None => None,
        },
        None => None,
    }
}

/// The compute units consumed, when `meta` reports them.
pub open spec fn spec_compute_units(res: JsonValue) -> Option<u64> {
    match spec_get(res, "meta"@) {
        Some(m) => spec_get_u64(m, "computeUnitsConsumed"@),
        None => None,
    }
}

/// How the (pre, post) balance pairs must normalize: element-wise over
/// the two arrays up to the shorter length, empty when either is absent.
pub open spec fn deltas_match(res: JsonValue, d: Seq<(u64, u64)>) -> bool {
    match spec_get(res, "meta"@) {
        Some(m) => match (spec_get(m, "preBalances"@), spec_get(m, "postBalances"@)) {
            (Some(p), Some(q)) => match (spec_arr_of(p), spec_arr_of(q)) {
                (Some(pa), Some(qa)) => {
                    let n = if pa.len() < qa.len() {
                        pa.len()
                    } else {
                        qa.len()
                    };
                    d.len() == n && (forall|i: int|
                        0 <= i < n ==> #[trigger] d[i] == (
                            u64_or_zero(spec_as_u64(pa[i])),
                            u64_or_zero(spec_as_u64(qa[i])),
                        ))
                },
                _ => d.len() == 0,
            },
            _ => d.len() == 0,
        },
        None => d.len() == 0,
    }
}

/// How a transaction response must normalize.
pub open spec fn transaction_model_matches(j: JsonValue, r: DisplayModel) -> bool {
    match spec_extract_result(j) {
        None => r == DisplayModel::NotFound,
        Some(res) => if !(res is Obj) {
            r == DisplayModel::Unsupported
        } else {
            match r {
                DisplayModel::TransactionInfo {
                    slot,
                    block_time,
                    fee_units,
                    succeeded,
                    error,
                    compute_units,
                    balance_deltas,
                } => {
                    &&& slot == u64_or_zero(spec_get_u64(res, "slot"@))
                    &&& block_time == spec_get_i64(res, "blockTime"@)
                    &&& fee_units == spec_fee(res)
                    &&& succeeded == spec_succeeded(res)
                    &&& opt_string_is(error, spec_error_chars(res))
                    &&& compute_units == spec_compute_units(res)
                    &&& deltas_match(res, balance_deltas@)
                },
                _ => false,
            }
        },
    }
}

/// The slot (or transaction count) a bare-number response reports.
pub open spec fn spec_number_field(j: JsonValue) -> Option<u64> {
    match spec_extract_result(j) {
        Some(r) => spec_as_u64(r),
        None => None,
    }
}

/// The total supply a supply response reports.
pub open spec fn spec_supply_total(j: JsonValue) -> Option<u64> {
    match spec_extract_result(j) {
        Some(r) => match spec_get(r, "value"@) {
            Some(v) => spec_get_u64(v, "total"@),
            None => None,
        },
        None => None,
    }
}

/// The circulating supply a supply response reports.
pub open spec fn spec_supply_circulating(j: JsonValue) -> Option<u64> {
    match spec_extract_result(j) {
        Some(r) => match spec_get(r, "value"@) {
            Some(v) => spec_get_u64(v, "circulating"@),
            None => None,
        },
        None => None,
    }
}

/// What `normalize` must return for every method and payload.
pub open spec fn normalize_matches(method: MethodKind, j: JsonValue, r: DisplayModel) -> bool {
    match method {
        MethodKind::GetAccountInfo => account_model_matches(j, r),
        MethodKind::GetTransaction => transaction_model_matches(j, r),
        MethodKind::GetSlot => r == DisplayModel::Dashboard(
            DashboardModel {
                slot: spec_number_field(j),
                total_supply: None,
                circulating_supply: None,
                transaction_count: None,
            },
        ),
        MethodKind::GetSupply => r == DisplayModel::Dashboard(
            DashboardModel {
                slot: None,
                total_supply: spec_supply_total(j),
                circulating_supply: spec_supply_circulating(j),
                transaction_count: None,
            },
        ),
        MethodKind::GetTransactionCount => r == DisplayModel::Dashboard(
            DashboardModel {
                slot: None,
                total_supply: None,
                circulating_supply: None,
                transaction_count: spec_number_field(j),
            },
        ),
        // A history payload is folded into an account model by the
        // orchestrator; on its own it is not a display model.
        MethodKind::GetSignaturesForAddress => r == DisplayModel::Unsupported,
    }
}

fn or_zero_u64(o: Option<u64>) -> (r: u64)
    ensures
        r == u64_or_zero(o),
{
    match o {
        Some(v) => v,
        None => 0,
    }
}

/// The usable `result` payload of a JSON-RPC envelope.
pub fn extract_result<'a>(j: &'a JsonValue) -> (r: Option<&'a JsonValue>)
    ensures
        match r {
            Some(v) => spec_extract_result(*j) == Some(*v),
            None => spec_extract_result(*j) is None,
        },
{
    if j.has_key("error") {
        return None;
    }
    match j.get("result") {
        None => None,
        Some(res) => if res.is_null() {
            None
        } else {
            Some(res)
        },
    }
}

/// Normalize an account-info response.  History arrives separately and
/// starts out empty here.
pub fn normalize_account(j: &JsonValue) -> (r: DisplayModel)
    ensures
        account_model_matches(*j, r),
{
    match extract_result(j) {
        None => DisplayModel::NotFound,
        Some(res) => match res.get("value") {
            None => DisplayModel::Unsupported,
            Some(v) => {
                if v.is_null() {
                    DisplayModel::NotFound
                } else {
                    match v {
                        JsonValue::Obj(_) => {
                            let owner: String = match v.get_str("owner") {
                                Some(s) => s.clone(),
                                None => String::new(),
                            };
                            proof {
                                reveal_strlit("");
                                assert(""@ =~= Seq::<char>::empty());
                            }
                            DisplayModel::AccountInfo {
                                balance_units: or_zero_u64(v.get_u64("lamports")),
                                owner,
                                executable: match v.get_bool("executable") {
                                    Some(b) => b,
                                    None => false,
                                },
                                data_size: or_zero_u64(v.get_u64("space")),
                                recent_signatures: Vec::new(),
                            }
                        },
                        _ => DisplayModel::Unsupported,
                    }
                }
            },
        },
    }
}

/// Normalize a signatures-for-address response into history entries.
pub fn normalize_signatures(j: &JsonValue) -> (r: Option<Vec<SignatureEntry>>)
    ensures
        signatures_match(*j, r),
{
    match extract_result(j) {
        None => None,
        Some(res) => match res.as_array() {
            None => None,
            Some(arr) => {
                let n = arr.len();
                let mut out: Vec<SignatureEntry> = Vec::new();
                let mut i: usize = 0;
                while i < n
                    invariant
                        i <= n,
                        n == arr.len(),
                        out@.len() == i,
                        forall|t: int| 0 <= t < i ==> entry_matches(#[trigger] out@[t], arr@[t]),
                    decreases n - i,
                {
                    let e = &arr[i];
                    let signature: String = match e.get_str("signature") {
                        Some(s) => s.clone(),
                        None => "N/A".to_owned(),
                    };
                    let confirmation_status: String = match e.get_str("confirmationStatus") {
                        Some(s) => s.clone(),
                        None => "Unknown".to_owned(),
                    };
                    out.push(SignatureEntry {
                        signature,
                        slot: or_zero_u64(e.get_u64("slot")),
                        block_time: e.get_i64("blockTime"),
                        confirmation_status,
                    });
                    i = i + 1;
                }
                Some(out)
            },
        },
    }
}

/// Normalize a transaction response.
pub fn normalize_transaction(j: &JsonValue) -> (r: DisplayModel)
    ensures
        transaction_model_matches(*j, r),
{
    match extract_result(j) {
        None => DisplayModel::NotFound,
        Some(res) => match res {
            JsonValue::Obj(_) => {
                let meta = res.get("meta");
                let fee_units: u64 = match meta {
                    Some(m) => or_zero_u64(m.get_u64("fee")),
                    None => 0,
                };
                let succeeded: bool = match meta {
                    Some(m) => match m.get("err") {
                        Some(e) => e.is_null(),
                        None => true,
                    },
                    None => true,
                };
                let error: Option<String> = match meta {
                    Some(m) => match m.get("err") {
                        Some(e) => match e.as_str() {
                            Some(s) => Some(s.clone()),
                            None => None,
                        },
                        None => None,
                    },
                    None => None,
                };
                let compute_units: Option<u64> = match meta {
                    Some(m) => m.get_u64("computeUnitsConsumed"),
                    None => None,
                };
                let mut balance_deltas: Vec<(u64, u64)> = Vec::new();
                match meta {
                    Some(m) => {
                        match (m.get("preBalances"), m.get("postBalances")) {
                            (Some(p), Some(q)) => {
                                match (p.as_array(), q.as_array()) {
                                    (Some(pa), Some(qa)) => {
                                        let n = if pa.len() < qa.len() {
                                            pa.len()
                                        } else {
                                            qa.len()
                                        };
                                        let mut i: usize = 0;
                                        while i < n
                                            invariant
                                                i <= n,
                                                n == (if pa@.len() < qa@.len() {
                                                    pa@.len()
                                                } else {
                                                    qa@.len()
                                                }),
                                                balance_deltas@.len() == i,
                                                forall|t: int|
                                                    0 <= t < i ==> #[trigger] balance_deltas@[t]
                                                        == (
                                                        u64_or_zero(spec_as_u64(pa@[t])),
                                                        u64_or_zero(spec_as_u64(qa@[t])),
                                                    ),
                                            decreases n - i,
                                        {
                                            balance_deltas.push(
                                                (
                                                    or_zero_u64(pa[i].as_u64()),
                                                    or_zero_u64(qa[i].as_u64()),
                                                ),
                                            );
                                            i = i + 1;
                                        }
                                    },
                                    _ => {},
                                }
                            },
                            _ => {},
                        }
                    },
                    None => {},
                }
                DisplayModel::TransactionInfo {
                    slot: or_zero_u64(res.get_u64("slot")),
                    block_time: res.get_i64("blockTime"),
                    fee_units,
                    succeeded,
                    error,
                    compute_units,
                    balance_deltas,
                }
            },
            _ => DisplayModel::Unsupported,
        },
    }
}

/// The slot or transaction count carried by a bare-number response.
pub fn number_from_response(j: &JsonValue) -> (r: Option<u64>)
    ensures
        r == spec_number_field(*j),
{
    match extract_result(j) {
        Some(res) => res.as_u64(),
        None => None,
    }
}

/// The (total, circulating) pair carried by a supply response.
pub fn supply_from_response(j: &JsonValue) -> (r: (Option<u64>, Option<u64>))
    ensures
        r.0 == spec_supply_total(*j),
        r.1 == spec_supply_circulating(*j),
{
    match extract_result(j) {
        Some(res) => match res.get("value") {
            Some(v) => (v.get_u64("total"), v.get_u64("circulating")),
            None => (None, None),
        },
        None => (None, None),
    }
}

/// Normalize a raw payload according to the method that produced it.
pub fn normalize(method: MethodKind, raw: &JsonValue) -> (r: DisplayModel)
    ensures
        normalize_matches(method, *raw, r),
{
    match method {
        MethodKind::GetAccountInfo => normalize_account(raw),
        MethodKind::GetTransaction => normalize_transaction(raw),
        MethodKind::GetSlot => DisplayModel::Dashboard(
            DashboardModel {
                slot: number_from_response(raw),
                total_supply: None,
                circulating_supply: None,
                transaction_count: None,
            },
        ),
        MethodKind::GetSupply => {
            let (total, circulating) = supply_from_response(raw);
            DisplayModel::Dashboard(
                DashboardModel {
                    slot: None,
                    total_supply: total,
                    circulating_supply: circulating,
                    transaction_count: None,
                },
            )
        },
        MethodKind::GetTransactionCount => DisplayModel::Dashboard(
            DashboardModel {
                slot: None,
                total_supply: None,
                circulating_supply: None,
                transaction_count: number_from_response(raw),
            },
        ),
        MethodKind::GetSignaturesForAddress => DisplayModel::Unsupported,
    }
}

} // verus!
